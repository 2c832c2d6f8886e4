//! A small 8-bit virtual processor: an assembler front end that turns
//! assembly text into instructions, a validation of addressing modes,
//! and an execution engine over registers, flags and 64 KiB of memory.

pub mod system;
pub mod analyze_code;
pub mod legality;
pub mod instruction_functions;
pub mod emulator;
pub mod source;
