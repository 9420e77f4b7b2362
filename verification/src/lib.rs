//! A verified assembler for EVM mnemonic listings.
//!
//! The library turns a textual contract of EVM opcode mnemonics and `PUSH`
//! operands into the uppercase hexadecimal bytecode string the EVM executes,
//! tracking the operand-stack depth of the program as it goes.

pub mod chars;
pub mod compile;
pub mod evmm;
pub mod evmm_error;
pub mod hexnum;
pub mod opcode;
pub mod parse;
pub mod parser_error;
pub mod token;
