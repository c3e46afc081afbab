//! Commands of the debugger shell, parsed from the words of an input line
//! (ASCII bytes, written as numbers).

use vstd::prelude::*;

verus! {

/// A debugger command.
#[derive(Copy, Clone, Debug, PartialEq, Eq, Structural)]
pub enum Command {
    Help,
    Step,
    Continue,
    Break(u16),
    Remove(u16),
    PrintInstr,
    PrintCpu,
    Read(u16),
    AutoInstr,
    AutoCpu,
    Screen,
    /// a command whose address argument is missing or not hexadecimal
    BadAddress,
    /// `print` or `auto` of an item that does not exist
    BadItem,
    Unknown,
}

pub open spec fn is_help(s: Seq<u8>) -> bool {
    s == seq![104u8, 101u8, 108u8, 112u8]
}

pub open spec fn is_s(s: Seq<u8>) -> bool {
    s == seq![115u8]
}

pub open spec fn is_step(s: Seq<u8>) -> bool {
    s == seq![115u8, 116u8, 101u8, 112u8]
}

pub open spec fn is_c(s: Seq<u8>) -> bool {
    s == seq![99u8]
}

pub open spec fn is_continue(s: Seq<u8>) -> bool {
    s == seq![99u8, 111u8, 110u8, 116u8, 105u8, 110u8, 117u8, 101u8]
}

pub open spec fn is_break(s: Seq<u8>) -> bool {
    s == seq![98u8, 114u8, 101u8, 97u8, 107u8]
}

pub open spec fn is_rm(s: Seq<u8>) -> bool {
    s == seq![114u8, 109u8]
}

pub open spec fn is_remove(s: Seq<u8>) -> bool {
    s == seq![114u8, 101u8, 109u8, 111u8, 118u8, 101u8]
}

pub open spec fn is_instr(s: Seq<u8>) -> bool {
    s == seq![105u8, 110u8, 115u8, 116u8, 114u8]
}

pub open spec fn is_cpu(s: Seq<u8>) -> bool {
    s == seq![99u8, 112u8, 117u8]
}

pub open spec fn is_print(s: Seq<u8>) -> bool {
    s == seq![112u8, 114u8, 105u8, 110u8, 116u8]
}

pub open spec fn is_read(s: Seq<u8>) -> bool {
    s == seq![114u8, 101u8, 97u8, 100u8]
}

pub open spec fn is_auto(s: Seq<u8>) -> bool {
    s == seq![97u8, 117u8, 116u8, 111u8]
}

pub open spec fn is_screen(s: Seq<u8>) -> bool {
    s == seq![115u8, 99u8, 114u8, 101u8, 101u8, 110u8]
}

/// The value of a hexadecimal digit.
pub open spec fn hex_digit(c: u8) -> Option<int> {
    if 48u8 <= c <= 57u8 {
        Some(c - 48u8)
    } else if 97u8 <= c <= 102u8 {
        Some(c - 97u8 + 10)
    } else if 65u8 <= c <= 70u8 {
        Some(c - 65u8 + 10)
    } else {
        None
    }
}

/// The value of a sequence of hexadecimal digits, most significant first;
/// `None` when one is not a digit.
pub open spec fn hex_value(s: Seq<u8>) -> Option<int>
    decreases s.len(),
{
    if s.len() == 0 {
        Some(0)
    } else {
        match (hex_value(s.drop_last()), hex_digit(s.last())) {
            (Some(v), Some(d)) => Some(v * 16 + d),
            _ => None,
        }
    }
}

/// `s` without one leading "0x".
pub open spec fn strip_0x(s: Seq<u8>) -> Seq<u8> {
    if s.len() >= 2 && s[0] == 48u8 && s[1] == 120u8 {
        s.subrange(2, s.len() as int)
    } else {
        s
    }
}

/// The 16-bit address a word names: hexadecimal, with an optional "0x".
pub open spec fn spec_address(s: Seq<u8>) -> Option<u16> {
    let d = strip_0x(s);
    match hex_value(d) {
        Some(v) => if d.len() > 0 && v < 65536 {
            Some(v as u16)
        } else {
            None
        },
        None => None,
    }
}

/// The command that a first word and an optional second word make.
pub open spec fn spec_command(w: Seq<u8>, arg: Option<Seq<u8>>) -> Command {
    let addr = match arg {
        Some(a) => spec_address(a),
        None => None,
    };
    let with_addr = |f: spec_fn(u16) -> Command| match addr {
        Some(v) => f(v),
        None => Command::BadAddress,
    };
    if is_help(w) {
        Command::Help
    } else if is_s(w) || is_step(w) {
        Command::Step
    } else if is_c(w) || is_continue(w) {
        Command::Continue
    } else if is_break(w) {
        with_addr(|v: u16| Command::Break(v))
    } else if is_rm(w) || is_remove(w) {
        with_addr(|v: u16| Command::Remove(v))
    } else if is_read(w) {
        with_addr(|v: u16| Command::Read(v))
    } else if is_instr(w) {
        Command::PrintInstr
    } else if is_cpu(w) {
        Command::PrintCpu
    } else if is_print(w) {
        match arg {
            Some(a) => if is_instr(a) { Command::PrintInstr } else if is_cpu(a) { Command::PrintCpu } else { Command::BadItem },
            None => Command::BadItem,
        }
    } else if is_auto(w) {
        match arg {
            Some(a) => if is_instr(a) { Command::AutoInstr } else if is_cpu(a) { Command::AutoCpu } else { Command::BadItem },
            None => Command::BadItem,
        }
    } else if is_screen(w) {
        Command::Screen
    } else {
        Command::Unknown
    }
}

fn word_is_help(s: &[u8]) -> (r: bool)
    ensures
        r == is_help(s@),
{
    let r = s.len() == 4 && s[0] == 104u8 && s[1] == 101u8 && s[2] == 108u8 && s[3] == 112u8;
    proof {
        if r {
            assert(s@ =~= seq![104u8, 101u8, 108u8, 112u8]);
        }
    }
    r
}

fn word_is_s(s: &[u8]) -> (r: bool)
    ensures
        r == is_s(s@),
{
    let r = s.len() == 1 && s[0] == 115u8;
    proof {
        if r {
            assert(s@ =~= seq![115u8]);
        }
    }
    r
}

fn word_is_step(s: &[u8]) -> (r: bool)
    ensures
        r == is_step(s@),
{
    let r = s.len() == 4 && s[0] == 115u8 && s[1] == 116u8 && s[2] == 101u8 && s[3] == 112u8;
    proof {
        if r {
            assert(s@ =~= seq![115u8, 116u8, 101u8, 112u8]);
        }
    }
    r
}

fn word_is_c(s: &[u8]) -> (r: bool)
    ensures
        r == is_c(s@),
{
    let r = s.len() == 1 && s[0] == 99u8;
    proof {
        if r {
            assert(s@ =~= seq![99u8]);
        }
    }
    r
}

fn word_is_continue(s: &[u8]) -> (r: bool)
    ensures
        r == is_continue(s@),
{
    let r = s.len() == 8 && s[0] == 99u8 && s[1] == 111u8 && s[2] == 110u8 && s[3] == 116u8 && s[4] == 105u8 && s[5] == 110u8 && s[6] == 117u8 && s[7] == 101u8;
    proof {
        if r {
            assert(s@ =~= seq![99u8, 111u8, 110u8, 116u8, 105u8, 110u8, 117u8, 101u8]);
        }
    }
    r
}

fn word_is_break(s: &[u8]) -> (r: bool)
    ensures
        r == is_break(s@),
{
    let r = s.len() == 5 && s[0] == 98u8 && s[1] == 114u8 && s[2] == 101u8 && s[3] == 97u8 && s[4] == 107u8;
    proof {
        if r {
            assert(s@ =~= seq![98u8, 114u8, 101u8, 97u8, 107u8]);
        }
    }
    r
}

fn word_is_rm(s: &[u8]) -> (r: bool)
    ensures
        r == is_rm(s@),
{
    let r = s.len() == 2 && s[0] == 114u8 && s[1] == 109u8;
    proof {
        if r {
            assert(s@ =~= seq![114u8, 109u8]);
        }
    }
    r
}

fn word_is_remove(s: &[u8]) -> (r: bool)
    ensures
        r == is_remove(s@),
{
    let r = s.len() == 6 && s[0] == 114u8 && s[1] == 101u8 && s[2] == 109u8 && s[3] == 111u8 && s[4] == 118u8 && s[5] == 101u8;
    proof {
        if r {
            assert(s@ =~= seq![114u8, 101u8, 109u8, 111u8, 118u8, 101u8]);
        }
    }
    r
}

fn word_is_instr(s: &[u8]) -> (r: bool)
    ensures
        r == is_instr(s@),
{
    let r = s.len() == 5 && s[0] == 105u8 && s[1] == 110u8 && s[2] == 115u8 && s[3] == 116u8 && s[4] == 114u8;
    proof {
        if r {
            assert(s@ =~= seq![105u8, 110u8, 115u8, 116u8, 114u8]);
        }
    }
    r
}

fn word_is_cpu(s: &[u8]) -> (r: bool)
    ensures
        r == is_cpu(s@),
{
    let r = s.len() == 3 && s[0] == 99u8 && s[1] == 112u8 && s[2] == 117u8;
    proof {
        if r {
            assert(s@ =~= seq![99u8, 112u8, 117u8]);
        }
    }
    r
}

fn word_is_print(s: &[u8]) -> (r: bool)
    ensures
        r == is_print(s@),
{
    let r = s.len() == 5 && s[0] == 112u8 && s[1] == 114u8 && s[2] == 105u8 && s[3] == 110u8 && s[4] == 116u8;
    proof {
        if r {
            assert(s@ =~= seq![112u8, 114u8, 105u8, 110u8, 116u8]);
        }
    }
    r
}

fn word_is_read(s: &[u8]) -> (r: bool)
    ensures
        r == is_read(s@),
{
    let r = s.len() == 4 && s[0] == 114u8 && s[1] == 101u8 && s[2] == 97u8 && s[3] == 100u8;
    proof {
        if r {
            assert(s@ =~= seq![114u8, 101u8, 97u8, 100u8]);
        }
    }
    r
}

fn word_is_auto(s: &[u8]) -> (r: bool)
    ensures
        r == is_auto(s@),
{
    let r = s.len() == 4 && s[0] == 97u8 && s[1] == 117u8 && s[2] == 116u8 && s[3] == 111u8;
    proof {
        if r {
            assert(s@ =~= seq![97u8, 117u8, 116u8, 111u8]);
        }
    }
    r
}

fn word_is_screen(s: &[u8]) -> (r: bool)
    ensures
        r == is_screen(s@),
{
    let r = s.len() == 6 && s[0] == 115u8 && s[1] == 99u8 && s[2] == 114u8 && s[3] == 101u8 && s[4] == 101u8 && s[5] == 110u8;
    proof {
        if r {
            assert(s@ =~= seq![115u8, 99u8, 114u8, 101u8, 101u8, 110u8]);
        }
    }
    r
}

/// Parses a hexadecimal address with an optional "0x" prefix.
pub fn parse_address(s: &[u8]) -> (r: Option<u16>)
    ensures
        r == spec_address(s@),
{
    let start: usize = if s.len() >= 2 && s[0] == 48u8 && s[1] == 120u8 { 2 } else { 0 };
    let ghost d = strip_0x(s@);
    assert(d =~= s@.subrange(start as int, s@.len() as int));
    assert(d == s@.subrange(start as int, s@.len() as int));
    if start >= s.len() {
        return None;
    }
    let mut v: u32 = 0;
    let mut i: usize = start;
    assert(s@.subrange(start as int, start as int) =~= Seq::<u8>::empty());
    while i < s.len()
        invariant
            start <= i <= s@.len(),
            d == s@.subrange(start as int, s@.len() as int),
            d == strip_0x(s@),
            hex_value(s@.subrange(start as int, i as int)) == Some(v as int),
            v < 65536,
        decreases s.len() - i,
    {
        let c = s[i];
        let ghost p = s@.subrange(start as int, i as int + 1);
        assert(p.drop_last() =~= s@.subrange(start as int, i as int));
        assert(p.last() == c);
        assert(d[i - start] == c);
        assert(d.subrange(0, (i - start) as int + 1) =~= p);
        let digit: u32 = if 48u8 <= c && c <= 57u8 {
            (c - 48u8) as u32
        } else if 97u8 <= c && c <= 102u8 {
            (c - 97u8 + 10) as u32
        } else if 65u8 <= c && c <= 70u8 {
            (c - 65u8 + 10) as u32
        } else {
            proof {
                lemma_hex_prefix_none(d, (i - start) as int);
            }
            return None;
        };
        assert(hex_digit(c) == Some(digit as int));
        assert(hex_value(p) == Some(v * 16 + digit));
        if v * 16 + digit >= 65536 {
            proof {
                lemma_hex_prefix_big(d, (i - start) as int + 1);
            }
            return None;
        }
        v = v * 16 + digit;
        i = i + 1;
    }
    assert(s@.subrange(start as int, i as int) =~= d);
    Some(v as u16)
}

/// A sequence with a non-digit in its first `k + 1` bytes has no value.
proof fn lemma_hex_prefix_none(s: Seq<u8>, k: int)
    requires
        0 <= k < s.len(),
        hex_digit(s[k]) is None,
    ensures
        hex_value(s.subrange(0, k + 1)) is None,
        hex_value(s) is None,
    decreases s.len(),
{
    assert(s.subrange(0, k + 1).last() == s[k]);
    if k + 1 < s.len() {
        lemma_hex_prefix_none(s.drop_last(), k);
        assert(s.drop_last().subrange(0, k + 1) =~= s.subrange(0, k + 1));
    } else {
        assert(s.subrange(0, k + 1) =~= s);
    }
}

/// Digits never lower the value: a prefix at or above 65536 keeps the
/// whole sequence there (or without a value).
proof fn lemma_hex_prefix_big(s: Seq<u8>, k: int)
    requires
        0 < k <= s.len(),
        hex_value(s.subrange(0, k)) matches Some(v) && v >= 65536,
    ensures
        !(hex_value(s) matches Some(w) && w < 65536),
    decreases s.len(),
{
    if k < s.len() {
        assert(s.drop_last().subrange(0, k) =~= s.subrange(0, k));
        lemma_hex_prefix_big(s.drop_last(), k);
        lemma_hex_nonneg(s.drop_last());
    } else {
        assert(s.subrange(0, k) =~= s);
    }
}

proof fn lemma_hex_nonneg(s: Seq<u8>)
    ensures
        hex_value(s) matches Some(v) ==> v >= 0,
    decreases s.len(),
{
    if s.len() > 0 {
        lemma_hex_nonneg(s.drop_last());
    }
}

/// The command of a line's first word `w` and second word `arg`.
pub fn parse_command(w: &[u8], arg: Option<&[u8]>) -> (r: Command)
    ensures
        r == spec_command(w@, match arg {
            Some(a) => Some(a@),
            None => None,
        }),
{
    let addr = match arg {
        Some(a) => parse_address(a),
        None => None,
    };
    if word_is_help(w) {
        Command::Help
    } else if word_is_s(w) || word_is_step(w) {
        Command::Step
    } else if word_is_c(w) || word_is_continue(w) {
        Command::Continue
    } else if word_is_break(w) {
        match addr {
            Some(v) => Command::Break(v),
            None => Command::BadAddress,
        }
    } else if word_is_rm(w) || word_is_remove(w) {
        match addr {
            Some(v) => Command::Remove(v),
            None => Command::BadAddress,
        }
    } else if word_is_read(w) {
        match addr {
            Some(v) => Command::Read(v),
            None => Command::BadAddress,
        }
    } else if word_is_instr(w) {
        Command::PrintInstr
    } else if word_is_cpu(w) {
        Command::PrintCpu
    } else if word_is_print(w) {
        match arg {
            Some(a) => if word_is_instr(a) { Command::PrintInstr } else if word_is_cpu(a) { Command::PrintCpu } else { Command::BadItem },
            None => Command::BadItem,
        }
    } else if word_is_auto(w) {
        match arg {
            Some(a) => if word_is_instr(a) { Command::AutoInstr } else if word_is_cpu(a) { Command::AutoCpu } else { Command::BadItem },
            None => Command::BadItem,
        }
    } else if word_is_screen(w) {
        Command::Screen
    } else {
        Command::Unknown
    }
}

} // verus!
