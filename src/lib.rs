//! Disassembler for EFI Byte Code (EBC): decodes a stream of bytecode into
//! one line of assembly text per instruction.

pub mod bits;
pub mod natural_index;
pub mod opcode;
pub mod options;
pub mod theme;
pub mod text;
pub mod operand;
pub mod argument;
pub mod stream;
pub mod instruction;
pub mod render;
pub mod pe;
