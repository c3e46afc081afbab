//! Disassembly of a byte sequence into instructions.

use vstd::prelude::*;
use crate::cpu_spec::word;
use crate::instructions::{decode_main, ext_op, from_ext_opcode, from_opcode, imm_shape, Immediate, Instr, Op};

verus! {

/// The instruction that starts at offset `i` of `b`, and its length in
/// bytes (bytes past the end read as 0).
pub open spec fn decode_at(b: Seq<u8>, i: int) -> (Instr, int) {
    let at = |k: int| if 0 <= k < b.len() { b[k] } else { 0u8 };
    let op = decode_main(at(i));
    if op is ext {
        (Instr { op: ext_op(at(i + 1)), imm: Immediate::Empty }, 2)
    } else {
        match imm_shape(op) {
            Immediate::Empty => (Instr { op, imm: Immediate::Empty }, 1),
            Immediate::Imm8(_) => (Instr { op, imm: Immediate::Imm8(at(i + 1)) }, 2),
            Immediate::Imm16(_) => (Instr { op, imm: Immediate::Imm16(word(at(i + 1), at(i + 2))) }, 3),
        }
    }
}

/// Decodes `binary` from its first byte on, one instruction after the
/// other, into (offset, instruction) pairs; stops before an instruction
/// that does not fit in what is left.
pub fn disassemble(binary: &Vec<u8>) -> (r: Vec<(usize, Instr)>)
    ensures
        r@.len() > 0 ==> r@[0].0 == 0,
        forall|k: int| 0 <= k < r@.len() ==> #[trigger] r@[k].1 == decode_at(binary@, r@[k].0 as int).0,
        forall|k: int| 0 <= k < r@.len() ==> r@[k].0 + decode_at(binary@, #[trigger] r@[k].0 as int).1 <= binary@.len(),
        forall|k: int| 0 <= k < r@.len() - 1 ==> #[trigger] r@[k + 1].0 == r@[k].0 + decode_at(binary@, r@[k].0 as int).1,
        ({
            let end: int = if r@.len() == 0 { 0 } else { r@.last().0 + decode_at(binary@, r@.last().0 as int).1 };
            end >= binary@.len() || end + decode_at(binary@, end).1 > binary@.len()
        }),
{
    let n = binary.len();
    let mut res: Vec<(usize, Instr)> = Vec::new();
    let mut i: usize = 0;
    let mut done = false;
    while i < n && !done
        invariant
            done ==> i + decode_at(binary@, i as int).1 > n,
            n == binary@.len(),
            i <= n,
            res@.len() == 0 ==> i == 0,
            res@.len() > 0 ==> res@[0].0 == 0,
            res@.len() > 0 ==> i == res@.last().0 + decode_at(binary@, res@.last().0 as int).1,
            forall|k: int| 0 <= k < res@.len() ==> #[trigger] res@[k].1 == decode_at(binary@, res@[k].0 as int).0,
            forall|k: int| 0 <= k < res@.len() ==> res@[k].0 + decode_at(binary@, #[trigger] res@[k].0 as int).1 <= n,
            forall|k: int| 0 <= k < res@.len() - 1 ==> #[trigger] res@[k + 1].0 == res@[k].0 + decode_at(binary@, res@[k].0 as int).1,
        decreases n - i, if done { 0int } else { 1int },
    {
        let b1: u8 = if n - i > 1 { binary[i + 1] } else { 0 };
        let b2: u8 = if n - i > 2 { binary[i + 2] } else { 0 };
        let (op, imm) = from_opcode(binary[i]);
        let (instr, len): (Instr, usize) = match op {
            Op::ext => (from_ext_opcode(b1), 2),
            _ => match imm {
                Immediate::Empty => (Instr { op, imm: Immediate::Empty }, 1),
                Immediate::Imm8(_) => (Instr { op, imm: Immediate::Imm8(b1) }, 2),
                Immediate::Imm16(_) => (Instr { op, imm: Immediate::Imm16((b2 as u16) * 256 + b1 as u16) }, 3),
            },
        };
        assert(instr == decode_at(binary@, i as int).0 && len == decode_at(binary@, i as int).1);
        if len > n - i {
            done = true;
        } else {
            res.push((i, instr));
            i = i + len;
        }
    }
    res
}

} // verus!
