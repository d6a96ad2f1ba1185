//! A Game Boy (and Game Boy Color) emulator core: the SM83 CPU, the memory
//! bus with its devices (cartridge and memory bank controllers, display,
//! timer, serial port, joypad, DMA, sound), the instruction decoder and
//! disassembler text, and the symbol files of the WLA-DX assembler.
pub mod alu;
mod bits;
pub mod cart;
pub mod controller;
pub mod cpu;
pub mod cycles;
pub mod dis;
pub mod display;
pub mod dma;
pub mod dump;
pub mod emptymem;
pub mod fakemem;
pub mod format;
pub mod gb;
pub mod hdma;
pub mod instr;
pub mod laws;
pub mod mem;
pub mod memreg;
pub mod mmu;
pub mod names;
pub mod opcodes;
pub mod palette;
pub mod peripherals;
pub mod regions;
pub mod registers;
pub mod rewind;
pub mod serial;
pub mod sound;
pub mod timer;
pub mod waittimer;
pub mod wla;

pub use alu::{ALUOps, ALU};
pub use controller::{Controller, GBControl};
pub use dma::DMA;
pub use emptymem::EmptyMem;
pub use fakemem::FakeMem;
pub use hdma::{Copier, HDMA};
pub use instr::{Addr, Disasm, Instr, RelAddr};
pub use mem::Mem;
pub use memreg::MemReg;
pub use registers::{Cond, Flag, InterruptFlag, Reg16, Reg8, RegType, Registers};
pub use serial::Serial;
pub use timer::{Timer, TimerSpeed};
pub use waittimer::WaitTimer;
