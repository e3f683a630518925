//! A verified Game Boy emulator core: the LR35902 interpreter, the
//! memory bus with its MMIO decode, the scanline pixel pipeline, the
//! DIV/TIMA timer, the joypad latch, the APU register shadow, and the
//! bank-switched cartridge mappers with battery persistence and the
//! MBC3 real-time clock.  The host window, input and audio plumbing
//! live outside this crate and talk to it through plain values.

pub mod alu;
pub mod bus;
pub mod cartridge;
pub mod cpu;
pub mod emu;
pub mod isa;
pub mod joypad;
pub mod ppu;
pub mod ram;
pub mod render;
pub mod rtc;
pub mod sound;
pub mod timer;
