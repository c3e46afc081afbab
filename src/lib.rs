//! Emulation core of an 8-bit handheld console: CPU, picture processing
//! unit, timer, joypad, interrupt controller, memory bus and cartridge.

pub mod registers;
pub mod instructions;
pub mod int_controller;
pub mod alu;
pub mod events;
pub mod bus;
pub mod cpu_spec;
pub mod cpu;
pub mod execute;
pub mod mem_map;
pub mod memory;
pub mod timer;
pub mod joypad;
pub mod cartridge;
pub mod dma;
pub mod gpu;
pub mod gpu_render;
pub mod hardware;
pub mod debug;
pub mod gameboy;
pub mod disas;
pub mod shell_cmd;
