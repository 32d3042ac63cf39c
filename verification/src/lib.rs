//! The core of a cycle-counting emulator for an 8-bit console built around
//! a 6502 processor and a tile-based picture unit.
//!
//! Every component comes with a mathematical model of its state and a
//! function on models that says what each operation does; the executable
//! code is proved to compute exactly that. On top of the models stand the
//! laws of the machine: memory mirroring, the cycle counts of the
//! instruction set, the reload of the scroll position, and others.
use vstd::prelude::*;

pub mod alu;
pub mod bus;
pub mod cartridge;
pub mod cpu;
pub mod display;
pub mod emulator;
pub mod input;
pub mod instructions;
pub mod isa;
pub mod mapper;
pub mod palette;
pub mod ppu;
pub mod render;
pub mod scroll;
pub mod timing;
pub mod trace;
