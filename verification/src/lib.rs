//! A CHIP-8 virtual machine: instruction decoding and execution over a
//! 4 KiB memory, sixteen registers, a call stack, two timers, a 64x32
//! framebuffer and a sixteen-key keypad.
//!
//! [`state::MachineState`] is the mathematical model of the machine and
//! defines what every instruction does; [`machine::Machine`] is the
//! executable machine, whose operations are proved to follow the model.
//! [`theorems`] states what follows from the model for programs.
//!
//! A driver loads a program with [`machine::Machine::load_rom`], then
//! alternates [`machine::Machine::decode_op`] and
//! [`machine::Machine::execute_op`]; at its own pace it calls
//! [`machine::Machine::tick`], reports keys with
//! [`machine::Machine::keydown`] and [`machine::Machine::keyup`], and shows
//! what [`machine::Machine::read_display`] returns.
//!
//! # Conventions
//!
//! - Memory addresses wrap around at 4096: the byte after the last one is
//!   the first one. This holds for instruction fetch and for every
//!   instruction that reads or writes memory at `I`.
//! - The program counter and `I` are sixteen-bit registers; sums and
//!   differences on them wrap around at 65536.
//! - `8xy5` and `8xy7` leave 1 in `VF` when nothing is borrowed, which
//!   includes the case of equal operands. The shifts `8xy6` and `8xyE` shift
//!   `Vx` and ignore `Vy`.
//! - `Ex9E` and `ExA1` skip only on a key that exists: with `Vx` above 15
//!   neither skips.
//! - `Fx1E` leaves `VF` alone. `Fx55` and `Fx65` leave `I` alone.
//! - A program that does not fit in memory is rejected as a whole.
//! - No instruction and no state makes execution panic: an instruction
//!   outside the instruction set and a return without a call are reported as
//!   errors and change nothing. (With [`machine::Machine::execute_op`],
//!   `Cxnn` takes its byte from the `rand` crate, which needs a seed from
//!   the operating system.)

pub mod error;
pub mod op_code;
pub mod state;
pub mod sprite;
pub mod machine;
pub mod random;
pub mod execute;
pub mod keypad;
pub mod render;
pub mod theorems;
