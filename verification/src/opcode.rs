//! The opcode table: the closed set of EVM instructions the assembler
//! recognizes, each with its byte encoding and its stack effect.

use crate::chars::{is_upper_hex, upper_char, upper_char_of, upper_seq};
use vstd::prelude::*;

verus! {

/// One EVM instruction kind. Every kind has a fixed one-byte encoding and a
/// fixed stack effect; `PUSH1` through `PUSH32` additionally take an
/// immediate operand of one to thirty-two bytes.
#[derive(Clone, Copy, Debug, PartialEq, Eq)]
pub enum Opcode {
    Stop,
    Add,
    Mul,
    Sub,
    Div,
    SDiv,
    Mod,
    SMod,
    AddMod,
    MulMod,
    Exp,
    SignExtend,
    Lt,
    Gt,
    SLt,
    SGt,
    Eq,
    IsZero,
    And,
    Or,
    Xor,
    Not,
    Byte,
    Shl,
    Shr,
    Sar,
    Keccak256,
    Address,
    Balance,
    Origin,
    Caller,
    CallValue,
    CallDataLoad,
    CallDataSize,
    CallDataCopy,
    CodeSize,
    CodeCopy,
    GasPrice,
    ExtCodeSize,
    ExtCodeCopy,
    ReturnDataSize,
    ReturnDataCopy,
    ExtCodeHash,
    BlockHash,
    Coinbase,
    Timestamp,
    BlockNumber,
    Difficulty,
    GasLimit,
    ChainId,
    SelfBalance,
    BaseFee,
    Pop,
    MLoad,
    MStore,
    MStore8,
    SLoad,
    SStore,
    Jump,
    JumpI,
    Pc,
    MSize,
    Gas,
    JumpDest,
    Push1,
    Push2,
    Push3,
    Push4,
    Push5,
    Push6,
    Push7,
    Push8,
    Push9,
    Push10,
    Push11,
    Push12,
    Push13,
    Push14,
    Push15,
    Push16,
    Push17,
    Push18,
    Push19,
    Push20,
    Push21,
    Push22,
    Push23,
    Push24,
    Push25,
    Push26,
    Push27,
    Push28,
    Push29,
    Push30,
    Push31,
    Push32,
    Dup1,
    Dup2,
    Dup3,
    Dup4,
    Dup5,
    Dup6,
    Dup7,
    Dup8,
    Dup9,
    Dup10,
    Dup11,
    Dup12,
    Dup13,
    Dup14,
    Dup15,
    Dup16,
    Swap1,
    Swap2,
    Swap3,
    Swap4,
    Swap5,
    Swap6,
    Swap7,
    Swap8,
    Swap9,
    Swap10,
    Swap11,
    Swap12,
    Swap13,
    Swap14,
    Swap15,
    Swap16,
    Log0,
    Log1,
    Log2,
    Log3,
    Log4,
    Create,
    Call,
    CallCode,
    Return,
    DelegateCall,
    Create2,
    StaticCall,
    Revert,
    SelfDestruct,
}

/// The two uppercase hex characters that encode an opcode's byte.
pub open spec fn op_hex(op: Opcode) -> Seq<char> {
    match op {
        Opcode::Stop => "00"@,
        Opcode::Add => "01"@,
        Opcode::Mul => "02"@,
        Opcode::Sub => "03"@,
        Opcode::Div => "04"@,
        Opcode::SDiv => "05"@,
        Opcode::Mod => "06"@,
        Opcode::SMod => "07"@,
        Opcode::AddMod => "08"@,
        Opcode::MulMod => "09"@,
        Opcode::Exp => "0A"@,
        Opcode::SignExtend => "0B"@,
        Opcode::Lt => "10"@,
        Opcode::Gt => "11"@,
        Opcode::SLt => "12"@,
        Opcode::SGt => "13"@,
        Opcode::Eq => "14"@,
        Opcode::IsZero => "15"@,
        Opcode::And => "16"@,
        Opcode::Or => "17"@,
        Opcode::Xor => "18"@,
        Opcode::Not => "19"@,
        Opcode::Byte => "1A"@,
        Opcode::Shl => "1B"@,
        Opcode::Shr => "1C"@,
        Opcode::Sar => "1D"@,
        Opcode::Keccak256 => "20"@,
        Opcode::Address => "30"@,
        Opcode::Balance => "31"@,
        Opcode::Origin => "32"@,
        Opcode::Caller => "33"@,
        Opcode::CallValue => "34"@,
        Opcode::CallDataLoad => "35"@,
        Opcode::CallDataSize => "36"@,
        Opcode::CallDataCopy => "37"@,
        Opcode::CodeSize => "38"@,
        Opcode::CodeCopy => "39"@,
        Opcode::GasPrice => "3A"@,
        Opcode::ExtCodeSize => "3B"@,
        Opcode::ExtCodeCopy => "3C"@,
        Opcode::ReturnDataSize => "3D"@,
        Opcode::ReturnDataCopy => "3E"@,
        Opcode::ExtCodeHash => "3F"@,
        Opcode::BlockHash => "40"@,
        Opcode::Coinbase => "41"@,
        Opcode::Timestamp => "42"@,
        Opcode::BlockNumber => "43"@,
        Opcode::Difficulty => "44"@,
        Opcode::GasLimit => "45"@,
        Opcode::ChainId => "46"@,
        Opcode::SelfBalance => "47"@,
        Opcode::BaseFee => "48"@,
        Opcode::Pop => "50"@,
        Opcode::MLoad => "51"@,
        Opcode::MStore => "52"@,
        Opcode::MStore8 => "53"@,
        Opcode::SLoad => "54"@,
        Opcode::SStore => "55"@,
        Opcode::Jump => "56"@,
        Opcode::JumpI => "57"@,
        Opcode::Pc => "58"@,
        Opcode::MSize => "59"@,
        Opcode::Gas => "5A"@,
        Opcode::JumpDest => "5B"@,
        Opcode::Push1 => "60"@,
        Opcode::Push2 => "61"@,
        Opcode::Push3 => "62"@,
        Opcode::Push4 => "63"@,
        Opcode::Push5 => "64"@,
        Opcode::Push6 => "65"@,
        Opcode::Push7 => "66"@,
        Opcode::Push8 => "67"@,
        Opcode::Push9 => "68"@,
        Opcode::Push10 => "69"@,
        Opcode::Push11 => "6A"@,
        Opcode::Push12 => "6B"@,
        Opcode::Push13 => "6C"@,
        Opcode::Push14 => "6D"@,
        Opcode::Push15 => "6E"@,
        Opcode::Push16 => "6F"@,
        Opcode::Push17 => "70"@,
        Opcode::Push18 => "71"@,
        Opcode::Push19 => "72"@,
        Opcode::Push20 => "73"@,
        Opcode::Push21 => "74"@,
        Opcode::Push22 => "75"@,
        Opcode::Push23 => "76"@,
        Opcode::Push24 => "77"@,
        Opcode::Push25 => "78"@,
        Opcode::Push26 => "79"@,
        Opcode::Push27 => "7A"@,
        Opcode::Push28 => "7B"@,
        Opcode::Push29 => "7C"@,
        Opcode::Push30 => "7D"@,
        Opcode::Push31 => "7E"@,
        Opcode::Push32 => "7F"@,
        Opcode::Dup1 => "80"@,
        Opcode::Dup2 => "81"@,
        Opcode::Dup3 => "82"@,
        Opcode::Dup4 => "83"@,
        Opcode::Dup5 => "84"@,
        Opcode::Dup6 => "85"@,
        Opcode::Dup7 => "86"@,
        Opcode::Dup8 => "87"@,
        Opcode::Dup9 => "88"@,
        Opcode::Dup10 => "89"@,
        Opcode::Dup11 => "8A"@,
        Opcode::Dup12 => "8B"@,
        Opcode::Dup13 => "8C"@,
        Opcode::Dup14 => "8D"@,
        Opcode::Dup15 => "8E"@,
        Opcode::Dup16 => "8F"@,
        Opcode::Swap1 => "90"@,
        Opcode::Swap2 => "91"@,
        Opcode::Swap3 => "92"@,
        Opcode::Swap4 => "93"@,
        Opcode::Swap5 => "94"@,
        Opcode::Swap6 => "95"@,
        Opcode::Swap7 => "96"@,
        Opcode::Swap8 => "97"@,
        Opcode::Swap9 => "98"@,
        Opcode::Swap10 => "99"@,
        Opcode::Swap11 => "9A"@,
        Opcode::Swap12 => "9B"@,
        Opcode::Swap13 => "9C"@,
        Opcode::Swap14 => "9D"@,
        Opcode::Swap15 => "9E"@,
        Opcode::Swap16 => "9F"@,
        Opcode::Log0 => "A0"@,
        Opcode::Log1 => "A1"@,
        Opcode::Log2 => "A2"@,
        Opcode::Log3 => "A3"@,
        Opcode::Log4 => "A4"@,
        Opcode::Create => "F0"@,
        Opcode::Call => "F1"@,
        Opcode::CallCode => "F2"@,
        Opcode::Return => "F3"@,
        Opcode::DelegateCall => "F4"@,
        Opcode::Create2 => "F5"@,
        Opcode::StaticCall => "FA"@,
        Opcode::Revert => "FD"@,
        Opcode::SelfDestruct => "FF"@,
    }
}

/// Renders the single byte of an instruction as two uppercase hex characters.
pub fn compile_instruction(instruction: Opcode) -> (r: String)
    ensures
        r@ == op_hex(instruction),
{
    match instruction {
        Opcode::Stop => String::from_str("00"),
        Opcode::Add => String::from_str("01"),
        Opcode::Mul => String::from_str("02"),
        Opcode::Sub => String::from_str("03"),
        Opcode::Div => String::from_str("04"),
        Opcode::SDiv => String::from_str("05"),
        Opcode::Mod => String::from_str("06"),
        Opcode::SMod => String::from_str("07"),
        Opcode::AddMod => String::from_str("08"),
        Opcode::MulMod => String::from_str("09"),
        Opcode::Exp => String::from_str("0A"),
        Opcode::SignExtend => String::from_str("0B"),
        Opcode::Lt => String::from_str("10"),
        Opcode::Gt => String::from_str("11"),
        Opcode::SLt => String::from_str("12"),
        Opcode::SGt => String::from_str("13"),
        Opcode::Eq => String::from_str("14"),
        Opcode::IsZero => String::from_str("15"),
        Opcode::And => String::from_str("16"),
        Opcode::Or => String::from_str("17"),
        Opcode::Xor => String::from_str("18"),
        Opcode::Not => String::from_str("19"),
        Opcode::Byte => String::from_str("1A"),
        Opcode::Shl => String::from_str("1B"),
        Opcode::Shr => String::from_str("1C"),
        Opcode::Sar => String::from_str("1D"),
        Opcode::Keccak256 => String::from_str("20"),
        Opcode::Address => String::from_str("30"),
        Opcode::Balance => String::from_str("31"),
        Opcode::Origin => String::from_str("32"),
        Opcode::Caller => String::from_str("33"),
        Opcode::CallValue => String::from_str("34"),
        Opcode::CallDataLoad => String::from_str("35"),
        Opcode::CallDataSize => String::from_str("36"),
        Opcode::CallDataCopy => String::from_str("37"),
        Opcode::CodeSize => String::from_str("38"),
        Opcode::CodeCopy => String::from_str("39"),
        Opcode::GasPrice => String::from_str("3A"),
        Opcode::ExtCodeSize => String::from_str("3B"),
        Opcode::ExtCodeCopy => String::from_str("3C"),
        Opcode::ReturnDataSize => String::from_str("3D"),
        Opcode::ReturnDataCopy => String::from_str("3E"),
        Opcode::ExtCodeHash => String::from_str("3F"),
        Opcode::BlockHash => String::from_str("40"),
        Opcode::Coinbase => String::from_str("41"),
        Opcode::Timestamp => String::from_str("42"),
        Opcode::BlockNumber => String::from_str("43"),
        Opcode::Difficulty => String::from_str("44"),
        Opcode::GasLimit => String::from_str("45"),
        Opcode::ChainId => String::from_str("46"),
        Opcode::SelfBalance => String::from_str("47"),
        Opcode::BaseFee => String::from_str("48"),
        Opcode::Pop => String::from_str("50"),
        Opcode::MLoad => String::from_str("51"),
        Opcode::MStore => String::from_str("52"),
        Opcode::MStore8 => String::from_str("53"),
        Opcode::SLoad => String::from_str("54"),
        Opcode::SStore => String::from_str("55"),
        Opcode::Jump => String::from_str("56"),
        Opcode::JumpI => String::from_str("57"),
        Opcode::Pc => String::from_str("58"),
        Opcode::MSize => String::from_str("59"),
        Opcode::Gas => String::from_str("5A"),
        Opcode::JumpDest => String::from_str("5B"),
        Opcode::Push1 => String::from_str("60"),
        Opcode::Push2 => String::from_str("61"),
        Opcode::Push3 => String::from_str("62"),
        Opcode::Push4 => String::from_str("63"),
        Opcode::Push5 => String::from_str("64"),
        Opcode::Push6 => String::from_str("65"),
        Opcode::Push7 => String::from_str("66"),
        Opcode::Push8 => String::from_str("67"),
        Opcode::Push9 => String::from_str("68"),
        Opcode::Push10 => String::from_str("69"),
        Opcode::Push11 => String::from_str("6A"),
        Opcode::Push12 => String::from_str("6B"),
        Opcode::Push13 => String::from_str("6C"),
        Opcode::Push14 => String::from_str("6D"),
        Opcode::Push15 => String::from_str("6E"),
        Opcode::Push16 => String::from_str("6F"),
        Opcode::Push17 => String::from_str("70"),
        Opcode::Push18 => String::from_str("71"),
        Opcode::Push19 => String::from_str("72"),
        Opcode::Push20 => String::from_str("73"),
        Opcode::Push21 => String::from_str("74"),
        Opcode::Push22 => String::from_str("75"),
        Opcode::Push23 => String::from_str("76"),
        Opcode::Push24 => String::from_str("77"),
        Opcode::Push25 => String::from_str("78"),
        Opcode::Push26 => String::from_str("79"),
        Opcode::Push27 => String::from_str("7A"),
        Opcode::Push28 => String::from_str("7B"),
        Opcode::Push29 => String::from_str("7C"),
        Opcode::Push30 => String::from_str("7D"),
        Opcode::Push31 => String::from_str("7E"),
        Opcode::Push32 => String::from_str("7F"),
        Opcode::Dup1 => String::from_str("80"),
        Opcode::Dup2 => String::from_str("81"),
        Opcode::Dup3 => String::from_str("82"),
        Opcode::Dup4 => String::from_str("83"),
        Opcode::Dup5 => String::from_str("84"),
        Opcode::Dup6 => String::from_str("85"),
        Opcode::Dup7 => String::from_str("86"),
        Opcode::Dup8 => String::from_str("87"),
        Opcode::Dup9 => String::from_str("88"),
        Opcode::Dup10 => String::from_str("89"),
        Opcode::Dup11 => String::from_str("8A"),
        Opcode::Dup12 => String::from_str("8B"),
        Opcode::Dup13 => String::from_str("8C"),
        Opcode::Dup14 => String::from_str("8D"),
        Opcode::Dup15 => String::from_str("8E"),
        Opcode::Dup16 => String::from_str("8F"),
        Opcode::Swap1 => String::from_str("90"),
        Opcode::Swap2 => String::from_str("91"),
        Opcode::Swap3 => String::from_str("92"),
        Opcode::Swap4 => String::from_str("93"),
        Opcode::Swap5 => String::from_str("94"),
        Opcode::Swap6 => String::from_str("95"),
        Opcode::Swap7 => String::from_str("96"),
        Opcode::Swap8 => String::from_str("97"),
        Opcode::Swap9 => String::from_str("98"),
        Opcode::Swap10 => String::from_str("99"),
        Opcode::Swap11 => String::from_str("9A"),
        Opcode::Swap12 => String::from_str("9B"),
        Opcode::Swap13 => String::from_str("9C"),
        Opcode::Swap14 => String::from_str("9D"),
        Opcode::Swap15 => String::from_str("9E"),
        Opcode::Swap16 => String::from_str("9F"),
        Opcode::Log0 => String::from_str("A0"),
        Opcode::Log1 => String::from_str("A1"),
        Opcode::Log2 => String::from_str("A2"),
        Opcode::Log3 => String::from_str("A3"),
        Opcode::Log4 => String::from_str("A4"),
        Opcode::Create => String::from_str("F0"),
        Opcode::Call => String::from_str("F1"),
        Opcode::CallCode => String::from_str("F2"),
        Opcode::Return => String::from_str("F3"),
        Opcode::DelegateCall => String::from_str("F4"),
        Opcode::Create2 => String::from_str("F5"),
        Opcode::StaticCall => String::from_str("FA"),
        Opcode::Revert => String::from_str("FD"),
        Opcode::SelfDestruct => String::from_str("FF"),
    }
}

/// How many stack values an instruction consumes.
pub open spec fn op_pops(op: Opcode) -> nat {
    match op {
        Opcode::Stop
        | Opcode::Address
        | Opcode::Balance
        | Opcode::Origin
        | Opcode::Caller
        | Opcode::CallValue
        | Opcode::CallDataSize
        | Opcode::CodeSize
        | Opcode::CodeCopy
        | Opcode::GasPrice
        | Opcode::ExtCodeSize
        | Opcode::ReturnDataSize
        | Opcode::ExtCodeHash
        | Opcode::BlockHash
        | Opcode::Coinbase
        | Opcode::Timestamp
        | Opcode::BlockNumber
        | Opcode::Difficulty
        | Opcode::GasLimit
        | Opcode::ChainId
        | Opcode::SelfBalance
        | Opcode::BaseFee
        | Opcode::Pc
        | Opcode::MSize
        | Opcode::Gas
        | Opcode::JumpDest
        | Opcode::Push1
        | Opcode::Push2
        | Opcode::Push3
        | Opcode::Push4
        | Opcode::Push5
        | Opcode::Push6
        | Opcode::Push7
        | Opcode::Push8
        | Opcode::Push9
        | Opcode::Push10
        | Opcode::Push11
        | Opcode::Push12
        | Opcode::Push13
        | Opcode::Push14
        | Opcode::Push15
        | Opcode::Push16
        | Opcode::Push17
        | Opcode::Push18
        | Opcode::Push19
        | Opcode::Push20
        | Opcode::Push21
        | Opcode::Push22
        | Opcode::Push23
        | Opcode::Push24
        | Opcode::Push25
        | Opcode::Push26
        | Opcode::Push27
        | Opcode::Push28
        | Opcode::Push29
        | Opcode::Push30
        | Opcode::Push31
        | Opcode::Push32
        | Opcode::Dup1
        | Opcode::Dup2
        | Opcode::Dup3
        | Opcode::Dup4
        | Opcode::Dup5
        | Opcode::Dup6
        | Opcode::Dup7
        | Opcode::Dup8
        | Opcode::Dup9
        | Opcode::Dup10
        | Opcode::Dup11
        | Opcode::Dup12
        | Opcode::Dup13
        | Opcode::Dup14
        | Opcode::Dup15
        | Opcode::Dup16
        | Opcode::Swap1
        | Opcode::Swap2
        | Opcode::Swap3
        | Opcode::Swap4
        | Opcode::Swap5
        | Opcode::Swap6
        | Opcode::Swap7
        | Opcode::Swap8
        | Opcode::Swap9
        | Opcode::Swap10
        | Opcode::Swap11
        | Opcode::Swap12
        | Opcode::Swap13
        | Opcode::Swap14
        | Opcode::Swap15
        | Opcode::Swap16 => 0,
        Opcode::Add
        | Opcode::Mul
        | Opcode::Sub
        | Opcode::Div
        | Opcode::SDiv
        | Opcode::Mod
        | Opcode::SMod
        | Opcode::Exp
        | Opcode::SignExtend
        | Opcode::Lt
        | Opcode::Gt
        | Opcode::SLt
        | Opcode::SGt
        | Opcode::Eq
        | Opcode::And
        | Opcode::Or
        | Opcode::Xor
        | Opcode::Not
        | Opcode::Byte
        | Opcode::Shl
        | Opcode::Shr
        | Opcode::Sar
        | Opcode::Keccak256
        | Opcode::MStore
        | Opcode::MStore8
        | Opcode::SStore
        | Opcode::JumpI
        | Opcode::Log0
        | Opcode::Return
        | Opcode::Revert => 2,
        Opcode::AddMod
        | Opcode::MulMod
        | Opcode::CallDataCopy
        | Opcode::ReturnDataCopy
        | Opcode::Log1
        | Opcode::Create => 3,
        Opcode::IsZero
        | Opcode::CallDataLoad
        | Opcode::Pop
        | Opcode::MLoad
        | Opcode::SLoad
        | Opcode::Jump
        | Opcode::SelfDestruct => 1,
        Opcode::ExtCodeCopy
        | Opcode::Log2
        | Opcode::Create2 => 4,
        Opcode::Log3 => 5,
        Opcode::Log4
        | Opcode::DelegateCall
        | Opcode::StaticCall => 6,
        Opcode::Call
        | Opcode::CallCode => 7,
    }
}

/// How many stack values an instruction pushes.
pub open spec fn op_pushes(op: Opcode) -> nat {
    match op {
        Opcode::Stop
        | Opcode::ReturnDataCopy
        | Opcode::Pop
        | Opcode::MStore
        | Opcode::MStore8
        | Opcode::SStore
        | Opcode::Jump
        | Opcode::JumpI
        | Opcode::Swap1
        | Opcode::Swap2
        | Opcode::Swap3
        | Opcode::Swap4
        | Opcode::Swap5
        | Opcode::Swap6
        | Opcode::Swap7
        | Opcode::Swap8
        | Opcode::Swap9
        | Opcode::Swap10
        | Opcode::Swap11
        | Opcode::Swap12
        | Opcode::Swap13
        | Opcode::Swap14
        | Opcode::Swap15
        | Opcode::Swap16
        | Opcode::Log0
        | Opcode::Log1
        | Opcode::Log2
        | Opcode::Log3
        | Opcode::Log4
        | Opcode::Return
        | Opcode::Revert
        | Opcode::SelfDestruct => 0,
        Opcode::Add
        | Opcode::Mul
        | Opcode::Sub
        | Opcode::Div
        | Opcode::SDiv
        | Opcode::Mod
        | Opcode::SMod
        | Opcode::AddMod
        | Opcode::MulMod
        | Opcode::Exp
        | Opcode::SignExtend
        | Opcode::Lt
        | Opcode::Gt
        | Opcode::SLt
        | Opcode::SGt
        | Opcode::Eq
        | Opcode::IsZero
        | Opcode::And
        | Opcode::Or
        | Opcode::Xor
        | Opcode::Not
        | Opcode::Byte
        | Opcode::Shl
        | Opcode::Shr
        | Opcode::Sar
        | Opcode::Keccak256
        | Opcode::Address
        | Opcode::Balance
        | Opcode::Origin
        | Opcode::Caller
        | Opcode::CallValue
        | Opcode::CallDataLoad
        | Opcode::CallDataSize
        | Opcode::CallDataCopy
        | Opcode::CodeSize
        | Opcode::CodeCopy
        | Opcode::GasPrice
        | Opcode::ExtCodeSize
        | Opcode::ExtCodeCopy
        | Opcode::ReturnDataSize
        | Opcode::ExtCodeHash
        | Opcode::BlockHash
        | Opcode::Coinbase
        | Opcode::Timestamp
        | Opcode::BlockNumber
        | Opcode::Difficulty
        | Opcode::GasLimit
        | Opcode::ChainId
        | Opcode::SelfBalance
        | Opcode::BaseFee
        | Opcode::MLoad
        | Opcode::SLoad
        | Opcode::Pc
        | Opcode::MSize
        | Opcode::Gas
        | Opcode::JumpDest
        | Opcode::Push1
        | Opcode::Push2
        | Opcode::Push3
        | Opcode::Push4
        | Opcode::Push5
        | Opcode::Push6
        | Opcode::Push7
        | Opcode::Push8
        | Opcode::Push9
        | Opcode::Push10
        | Opcode::Push11
        | Opcode::Push12
        | Opcode::Push13
        | Opcode::Push14
        | Opcode::Push15
        | Opcode::Push16
        | Opcode::Push17
        | Opcode::Push18
        | Opcode::Push19
        | Opcode::Push20
        | Opcode::Push21
        | Opcode::Push22
        | Opcode::Push23
        | Opcode::Push24
        | Opcode::Push25
        | Opcode::Push26
        | Opcode::Push27
        | Opcode::Push28
        | Opcode::Push29
        | Opcode::Push30
        | Opcode::Push31
        | Opcode::Push32
        | Opcode::Dup1
        | Opcode::Dup2
        | Opcode::Dup3
        | Opcode::Dup4
        | Opcode::Dup5
        | Opcode::Dup6
        | Opcode::Dup7
        | Opcode::Dup8
        | Opcode::Dup9
        | Opcode::Dup10
        | Opcode::Dup11
        | Opcode::Dup12
        | Opcode::Dup13
        | Opcode::Dup14
        | Opcode::Dup15
        | Opcode::Dup16
        | Opcode::Create
        | Opcode::Call
        | Opcode::CallCode
        | Opcode::DelegateCall
        | Opcode::Create2
        | Opcode::StaticCall => 1,
    }
}

/// The stack depth an instruction demands before it may be emitted.
pub open spec fn op_min_depth(op: Opcode) -> nat {
    match op {
        Opcode::Stop
        | Opcode::Address
        | Opcode::Balance
        | Opcode::Origin
        | Opcode::Caller
        | Opcode::CallValue
        | Opcode::CallDataSize
        | Opcode::CodeSize
        | Opcode::CodeCopy
        | Opcode::GasPrice
        | Opcode::ExtCodeSize
        | Opcode::ReturnDataSize
        | Opcode::ExtCodeHash
        | Opcode::BlockHash
        | Opcode::Coinbase
        | Opcode::Timestamp
        | Opcode::BlockNumber
        | Opcode::Difficulty
        | Opcode::GasLimit
        | Opcode::ChainId
        | Opcode::SelfBalance
        | Opcode::BaseFee
        | Opcode::Pc
        | Opcode::MSize
        | Opcode::Gas
        | Opcode::JumpDest
        | Opcode::Push1
        | Opcode::Push2
        | Opcode::Push3
        | Opcode::Push4
        | Opcode::Push5
        | Opcode::Push6
        | Opcode::Push7
        | Opcode::Push8
        | Opcode::Push9
        | Opcode::Push10
        | Opcode::Push11
        | Opcode::Push12
        | Opcode::Push13
        | Opcode::Push14
        | Opcode::Push15
        | Opcode::Push16
        | Opcode::Push17
        | Opcode::Push18
        | Opcode::Push19
        | Opcode::Push20
        | Opcode::Push21
        | Opcode::Push22
        | Opcode::Push23
        | Opcode::Push24
        | Opcode::Push25
        | Opcode::Push26
        | Opcode::Push27
        | Opcode::Push28
        | Opcode::Push29
        | Opcode::Push30
        | Opcode::Push31
        | Opcode::Push32 => 0,
        Opcode::Add
        | Opcode::Mul
        | Opcode::Sub
        | Opcode::Div
        | Opcode::SDiv
        | Opcode::Mod
        | Opcode::SMod
        | Opcode::Exp
        | Opcode::SignExtend
        | Opcode::Lt
        | Opcode::Gt
        | Opcode::SLt
        | Opcode::SGt
        | Opcode::Eq
        | Opcode::And
        | Opcode::Or
        | Opcode::Xor
        | Opcode::Not
        | Opcode::Byte
        | Opcode::Shl
        | Opcode::Shr
        | Opcode::Sar
        | Opcode::Keccak256
        | Opcode::MStore
        | Opcode::MStore8
        | Opcode::SStore
        | Opcode::JumpI
        | Opcode::Dup2
        | Opcode::Swap2
        | Opcode::Log0
        | Opcode::Return
        | Opcode::Revert => 2,
        Opcode::AddMod
        | Opcode::MulMod
        | Opcode::CallDataCopy
        | Opcode::ReturnDataCopy
        | Opcode::Dup3
        | Opcode::Swap3
        | Opcode::Log1
        | Opcode::Create => 3,
        Opcode::IsZero
        | Opcode::CallDataLoad
        | Opcode::Pop
        | Opcode::MLoad
        | Opcode::SLoad
        | Opcode::Jump
        | Opcode::Dup1
        | Opcode::Swap1
        | Opcode::SelfDestruct => 1,
        Opcode::ExtCodeCopy
        | Opcode::Dup4
        | Opcode::Swap4
        | Opcode::Log2
        | Opcode::Create2 => 4,
        Opcode::Dup5
        | Opcode::Swap5
        | Opcode::Log3 => 5,
        Opcode::Dup6
        | Opcode::Swap6
        | Opcode::Log4
        | Opcode::DelegateCall
        | Opcode::StaticCall => 6,
        Opcode::Dup7
        | Opcode::Swap7
        | Opcode::Call
        | Opcode::CallCode => 7,
        Opcode::Dup8
        | Opcode::Swap8 => 8,
        Opcode::Dup9
        | Opcode::Swap9 => 9,
        Opcode::Dup10
        | Opcode::Swap10 => 10,
        Opcode::Dup11
        | Opcode::Swap11 => 11,
        Opcode::Dup12
        | Opcode::Swap12 => 12,
        Opcode::Dup13
        | Opcode::Swap13 => 13,
        Opcode::Dup14
        | Opcode::Swap14 => 14,
        Opcode::Dup15
        | Opcode::Swap15 => 15,
        Opcode::Dup16
        | Opcode::Swap16 => 16,
    }
}

/// Whether an instruction is one of `PUSH1` through `PUSH32`.
pub open spec fn is_push(op: Opcode) -> bool {
    match op {
        Opcode::Push1
        | Opcode::Push2
        | Opcode::Push3
        | Opcode::Push4
        | Opcode::Push5
        | Opcode::Push6
        | Opcode::Push7
        | Opcode::Push8
        | Opcode::Push9
        | Opcode::Push10
        | Opcode::Push11
        | Opcode::Push12
        | Opcode::Push13
        | Opcode::Push14
        | Opcode::Push15
        | Opcode::Push16
        | Opcode::Push17
        | Opcode::Push18
        | Opcode::Push19
        | Opcode::Push20
        | Opcode::Push21
        | Opcode::Push22
        | Opcode::Push23
        | Opcode::Push24
        | Opcode::Push25
        | Opcode::Push26
        | Opcode::Push27
        | Opcode::Push28
        | Opcode::Push29
        | Opcode::Push30
        | Opcode::Push31
        | Opcode::Push32 => true,
        _ => false,
    }
}

/// The operand width in bytes of a `PUSH` instruction, and 0 otherwise.
pub open spec fn push_width(op: Opcode) -> nat {
    match op {
        Opcode::Push1 => 1,
        Opcode::Push2 => 2,
        Opcode::Push3 => 3,
        Opcode::Push4 => 4,
        Opcode::Push5 => 5,
        Opcode::Push6 => 6,
        Opcode::Push7 => 7,
        Opcode::Push8 => 8,
        Opcode::Push9 => 9,
        Opcode::Push10 => 10,
        Opcode::Push11 => 11,
        Opcode::Push12 => 12,
        Opcode::Push13 => 13,
        Opcode::Push14 => 14,
        Opcode::Push15 => 15,
        Opcode::Push16 => 16,
        Opcode::Push17 => 17,
        Opcode::Push18 => 18,
        Opcode::Push19 => 19,
        Opcode::Push20 => 20,
        Opcode::Push21 => 21,
        Opcode::Push22 => 22,
        Opcode::Push23 => 23,
        Opcode::Push24 => 24,
        Opcode::Push25 => 25,
        Opcode::Push26 => 26,
        Opcode::Push27 => 27,
        Opcode::Push28 => 28,
        Opcode::Push29 => 29,
        Opcode::Push30 => 30,
        Opcode::Push31 => 31,
        Opcode::Push32 => 32,
        _ => 0,
    }
}

pub fn opcode_is_push(op: Opcode) -> (b: bool)
    ensures
        b == is_push(op),
{
    match op {
        Opcode::Push1
        | Opcode::Push2
        | Opcode::Push3
        | Opcode::Push4
        | Opcode::Push5
        | Opcode::Push6
        | Opcode::Push7
        | Opcode::Push8
        | Opcode::Push9
        | Opcode::Push10
        | Opcode::Push11
        | Opcode::Push12
        | Opcode::Push13
        | Opcode::Push14
        | Opcode::Push15
        | Opcode::Push16
        | Opcode::Push17
        | Opcode::Push18
        | Opcode::Push19
        | Opcode::Push20
        | Opcode::Push21
        | Opcode::Push22
        | Opcode::Push23
        | Opcode::Push24
        | Opcode::Push25
        | Opcode::Push26
        | Opcode::Push27
        | Opcode::Push28
        | Opcode::Push29
        | Opcode::Push30
        | Opcode::Push31
        | Opcode::Push32 => true,
        _ => false,
    }
}

pub fn opcode_push_width(op: Opcode) -> (n: usize)
    ensures
        n == push_width(op),
{
    match op {
        Opcode::Push1 => 1,
        Opcode::Push2 => 2,
        Opcode::Push3 => 3,
        Opcode::Push4 => 4,
        Opcode::Push5 => 5,
        Opcode::Push6 => 6,
        Opcode::Push7 => 7,
        Opcode::Push8 => 8,
        Opcode::Push9 => 9,
        Opcode::Push10 => 10,
        Opcode::Push11 => 11,
        Opcode::Push12 => 12,
        Opcode::Push13 => 13,
        Opcode::Push14 => 14,
        Opcode::Push15 => 15,
        Opcode::Push16 => 16,
        Opcode::Push17 => 17,
        Opcode::Push18 => 18,
        Opcode::Push19 => 19,
        Opcode::Push20 => 20,
        Opcode::Push21 => 21,
        Opcode::Push22 => 22,
        Opcode::Push23 => 23,
        Opcode::Push24 => 24,
        Opcode::Push25 => 25,
        Opcode::Push26 => 26,
        Opcode::Push27 => 27,
        Opcode::Push28 => 28,
        Opcode::Push29 => 29,
        Opcode::Push30 => 30,
        Opcode::Push31 => 31,
        Opcode::Push32 => 32,
        _ => 0,
    }
}

/// The stack effect of an instruction: how many values it pops, how many it
/// pushes, and the depth it requires before emission.
pub fn opcode_stack_effect(op: Opcode) -> (r: (usize, usize, usize))
    ensures
        r.0 == op_pops(op),
        r.1 == op_pushes(op),
        r.2 == op_min_depth(op),
{
    match op {
        Opcode::Stop => (0, 0, 0),
        Opcode::Add
        | Opcode::Mul
        | Opcode::Sub
        | Opcode::Div
        | Opcode::SDiv
        | Opcode::Mod
        | Opcode::SMod
        | Opcode::Exp
        | Opcode::SignExtend
        | Opcode::Lt
        | Opcode::Gt
        | Opcode::SLt
        | Opcode::SGt
        | Opcode::Eq
        | Opcode::And
        | Opcode::Or
        | Opcode::Xor
        | Opcode::Not
        | Opcode::Byte
        | Opcode::Shl
        | Opcode::Shr
        | Opcode::Sar
        | Opcode::Keccak256 => (2, 1, 2),
        Opcode::AddMod
        | Opcode::MulMod
        | Opcode::CallDataCopy
        | Opcode::Create => (3, 1, 3),
        Opcode::IsZero
        | Opcode::CallDataLoad
        | Opcode::MLoad
        | Opcode::SLoad => (1, 1, 1),
        Opcode::Address
        | Opcode::Balance
        | Opcode::Origin
        | Opcode::Caller
        | Opcode::CallValue
        | Opcode::CallDataSize
        | Opcode::CodeSize
        | Opcode::CodeCopy
        | Opcode::GasPrice
        | Opcode::ExtCodeSize
        | Opcode::ReturnDataSize
        | Opcode::ExtCodeHash
        | Opcode::BlockHash
        | Opcode::Coinbase
        | Opcode::Timestamp
        | Opcode::BlockNumber
        | Opcode::Difficulty
        | Opcode::GasLimit
        | Opcode::ChainId
        | Opcode::SelfBalance
        | Opcode::BaseFee
        | Opcode::Pc
        | Opcode::MSize
        | Opcode::Gas
        | Opcode::JumpDest
        | Opcode::Push1
        | Opcode::Push2
        | Opcode::Push3
        | Opcode::Push4
        | Opcode::Push5
        | Opcode::Push6
        | Opcode::Push7
        | Opcode::Push8
        | Opcode::Push9
        | Opcode::Push10
        | Opcode::Push11
        | Opcode::Push12
        | Opcode::Push13
        | Opcode::Push14
        | Opcode::Push15
        | Opcode::Push16
        | Opcode::Push17
        | Opcode::Push18
        | Opcode::Push19
        | Opcode::Push20
        | Opcode::Push21
        | Opcode::Push22
        | Opcode::Push23
        | Opcode::Push24
        | Opcode::Push25
        | Opcode::Push26
        | Opcode::Push27
        | Opcode::Push28
        | Opcode::Push29
        | Opcode::Push30
        | Opcode::Push31
        | Opcode::Push32 => (0, 1, 0),
        Opcode::ExtCodeCopy
        | Opcode::Create2 => (4, 1, 4),
        Opcode::ReturnDataCopy
        | Opcode::Log1 => (3, 0, 3),
        Opcode::Pop
        | Opcode::Jump
        | Opcode::SelfDestruct => (1, 0, 1),
        Opcode::MStore
        | Opcode::MStore8
        | Opcode::SStore
        | Opcode::JumpI
        | Opcode::Log0
        | Opcode::Return
        | Opcode::Revert => (2, 0, 2),
        Opcode::Dup1 => (0, 1, 1),
        Opcode::Dup2 => (0, 1, 2),
        Opcode::Dup3 => (0, 1, 3),
        Opcode::Dup4 => (0, 1, 4),
        Opcode::Dup5 => (0, 1, 5),
        Opcode::Dup6 => (0, 1, 6),
        Opcode::Dup7 => (0, 1, 7),
        Opcode::Dup8 => (0, 1, 8),
        Opcode::Dup9 => (0, 1, 9),
        Opcode::Dup10 => (0, 1, 10),
        Opcode::Dup11 => (0, 1, 11),
        Opcode::Dup12 => (0, 1, 12),
        Opcode::Dup13 => (0, 1, 13),
        Opcode::Dup14 => (0, 1, 14),
        Opcode::Dup15 => (0, 1, 15),
        Opcode::Dup16 => (0, 1, 16),
        Opcode::Swap1 => (0, 0, 1),
        Opcode::Swap2 => (0, 0, 2),
        Opcode::Swap3 => (0, 0, 3),
        Opcode::Swap4 => (0, 0, 4),
        Opcode::Swap5 => (0, 0, 5),
        Opcode::Swap6 => (0, 0, 6),
        Opcode::Swap7 => (0, 0, 7),
        Opcode::Swap8 => (0, 0, 8),
        Opcode::Swap9 => (0, 0, 9),
        Opcode::Swap10 => (0, 0, 10),
        Opcode::Swap11 => (0, 0, 11),
        Opcode::Swap12 => (0, 0, 12),
        Opcode::Swap13 => (0, 0, 13),
        Opcode::Swap14 => (0, 0, 14),
        Opcode::Swap15 => (0, 0, 15),
        Opcode::Swap16 => (0, 0, 16),
        Opcode::Log2 => (4, 0, 4),
        Opcode::Log3 => (5, 0, 5),
        Opcode::Log4 => (6, 0, 6),
        Opcode::Call
        | Opcode::CallCode => (7, 1, 7),
        Opcode::DelegateCall
        | Opcode::StaticCall => (6, 1, 6),
    }
}

/// An instruction never demands less depth than it pops, and pushes at most
/// one value more than it pops.
pub proof fn lemma_op_stack_effect(op: Opcode)
    ensures
        op_min_depth(op) >= op_pops(op),
        op_pushes(op) <= op_pops(op) + 1,
        is_push(op) ==> op_pops(op) == 0 && op_pushes(op) == 1 && 1 <= push_width(op) <= 32,
{
}

/// Both characters of an opcode's hex encoding are uppercase hex digits.
pub proof fn lemma_op_hex_wf(op: Opcode)
    ensures
        op_hex(op).len() == 2,
        is_upper_hex(op_hex(op)[0]),
        is_upper_hex(op_hex(op)[1]),
{
    match op {
        Opcode::Stop => {
            reveal_strlit("00");
            assert(op_hex(op) =~= seq!['0', '0']);
        },
        Opcode::Add => {
            reveal_strlit("01");
            assert(op_hex(op) =~= seq!['0', '1']);
        },
        Opcode::Mul => {
            reveal_strlit("02");
            assert(op_hex(op) =~= seq!['0', '2']);
        },
        Opcode::Sub => {
            reveal_strlit("03");
            assert(op_hex(op) =~= seq!['0', '3']);
        },
        Opcode::Div => {
            reveal_strlit("04");
            assert(op_hex(op) =~= seq!['0', '4']);
        },
        Opcode::SDiv => {
            reveal_strlit("05");
            assert(op_hex(op) =~= seq!['0', '5']);
        },
        Opcode::Mod => {
            reveal_strlit("06");
            assert(op_hex(op) =~= seq!['0', '6']);
        },
        Opcode::SMod => {
            reveal_strlit("07");
            assert(op_hex(op) =~= seq!['0', '7']);
        },
        Opcode::AddMod => {
            reveal_strlit("08");
            assert(op_hex(op) =~= seq!['0', '8']);
        },
        Opcode::MulMod => {
            reveal_strlit("09");
            assert(op_hex(op) =~= seq!['0', '9']);
        },
        Opcode::Exp => {
            reveal_strlit("0A");
            assert(op_hex(op) =~= seq!['0', 'A']);
        },
        Opcode::SignExtend => {
            reveal_strlit("0B");
            assert(op_hex(op) =~= seq!['0', 'B']);
        },
        Opcode::Lt => {
            reveal_strlit("10");
            assert(op_hex(op) =~= seq!['1', '0']);
        },
        Opcode::Gt => {
            reveal_strlit("11");
            assert(op_hex(op) =~= seq!['1', '1']);
        },
        Opcode::SLt => {
            reveal_strlit("12");
            assert(op_hex(op) =~= seq!['1', '2']);
        },
        Opcode::SGt => {
            reveal_strlit("13");
            assert(op_hex(op) =~= seq!['1', '3']);
        },
        Opcode::Eq => {
            reveal_strlit("14");
            assert(op_hex(op) =~= seq!['1', '4']);
        },
        Opcode::IsZero => {
            reveal_strlit("15");
            assert(op_hex(op) =~= seq!['1', '5']);
        },
        Opcode::And => {
            reveal_strlit("16");
            assert(op_hex(op) =~= seq!['1', '6']);
        },
        Opcode::Or => {
            reveal_strlit("17");
            assert(op_hex(op) =~= seq!['1', '7']);
        },
        Opcode::Xor => {
            reveal_strlit("18");
            assert(op_hex(op) =~= seq!['1', '8']);
        },
        Opcode::Not => {
            reveal_strlit("19");
            assert(op_hex(op) =~= seq!['1', '9']);
        },
        Opcode::Byte => {
            reveal_strlit("1A");
            assert(op_hex(op) =~= seq!['1', 'A']);
        },
        Opcode::Shl => {
            reveal_strlit("1B");
            assert(op_hex(op) =~= seq!['1', 'B']);
        },
        Opcode::Shr => {
            reveal_strlit("1C");
            assert(op_hex(op) =~= seq!['1', 'C']);
        },
        Opcode::Sar => {
            reveal_strlit("1D");
            assert(op_hex(op) =~= seq!['1', 'D']);
        },
        Opcode::Keccak256 => {
            reveal_strlit("20");
            assert(op_hex(op) =~= seq!['2', '0']);
        },
        Opcode::Address => {
            reveal_strlit("30");
            assert(op_hex(op) =~= seq!['3', '0']);
        },
        Opcode::Balance => {
            reveal_strlit("31");
            assert(op_hex(op) =~= seq!['3', '1']);
        },
        Opcode::Origin => {
            reveal_strlit("32");
            assert(op_hex(op) =~= seq!['3', '2']);
        },
        Opcode::Caller => {
            reveal_strlit("33");
            assert(op_hex(op) =~= seq!['3', '3']);
        },
        Opcode::CallValue => {
            reveal_strlit("34");
            assert(op_hex(op) =~= seq!['3', '4']);
        },
        Opcode::CallDataLoad => {
            reveal_strlit("35");
            assert(op_hex(op) =~= seq!['3', '5']);
        },
        Opcode::CallDataSize => {
            reveal_strlit("36");
            assert(op_hex(op) =~= seq!['3', '6']);
        },
        Opcode::CallDataCopy => {
            reveal_strlit("37");
            assert(op_hex(op) =~= seq!['3', '7']);
        },
        Opcode::CodeSize => {
            reveal_strlit("38");
            assert(op_hex(op) =~= seq!['3', '8']);
        },
        Opcode::CodeCopy => {
            reveal_strlit("39");
            assert(op_hex(op) =~= seq!['3', '9']);
        },
        Opcode::GasPrice => {
            reveal_strlit("3A");
            assert(op_hex(op) =~= seq!['3', 'A']);
        },
        Opcode::ExtCodeSize => {
            reveal_strlit("3B");
            assert(op_hex(op) =~= seq!['3', 'B']);
        },
        Opcode::ExtCodeCopy => {
            reveal_strlit("3C");
            assert(op_hex(op) =~= seq!['3', 'C']);
        },
        Opcode::ReturnDataSize => {
            reveal_strlit("3D");
            assert(op_hex(op) =~= seq!['3', 'D']);
        },
        Opcode::ReturnDataCopy => {
            reveal_strlit("3E");
            assert(op_hex(op) =~= seq!['3', 'E']);
        },
        Opcode::ExtCodeHash => {
            reveal_strlit("3F");
            assert(op_hex(op) =~= seq!['3', 'F']);
        },
        Opcode::BlockHash => {
            reveal_strlit("40");
            assert(op_hex(op) =~= seq!['4', '0']);
        },
        Opcode::Coinbase => {
            reveal_strlit("41");
            assert(op_hex(op) =~= seq!['4', '1']);
        },
        Opcode::Timestamp => {
            reveal_strlit("42");
            assert(op_hex(op) =~= seq!['4', '2']);
        },
        Opcode::BlockNumber => {
            reveal_strlit("43");
            assert(op_hex(op) =~= seq!['4', '3']);
        },
        Opcode::Difficulty => {
            reveal_strlit("44");
            assert(op_hex(op) =~= seq!['4', '4']);
        },
        Opcode::GasLimit => {
            reveal_strlit("45");
            assert(op_hex(op) =~= seq!['4', '5']);
        },
        Opcode::ChainId => {
            reveal_strlit("46");
            assert(op_hex(op) =~= seq!['4', '6']);
        },
        Opcode::SelfBalance => {
            reveal_strlit("47");
            assert(op_hex(op) =~= seq!['4', '7']);
        },
        Opcode::BaseFee => {
            reveal_strlit("48");
            assert(op_hex(op) =~= seq!['4', '8']);
        },
        Opcode::Pop => {
            reveal_strlit("50");
            assert(op_hex(op) =~= seq!['5', '0']);
        },
        Opcode::MLoad => {
            reveal_strlit("51");
            assert(op_hex(op) =~= seq!['5', '1']);
        },
        Opcode::MStore => {
            reveal_strlit("52");
            assert(op_hex(op) =~= seq!['5', '2']);
        },
        Opcode::MStore8 => {
            reveal_strlit("53");
            assert(op_hex(op) =~= seq!['5', '3']);
        },
        Opcode::SLoad => {
            reveal_strlit("54");
            assert(op_hex(op) =~= seq!['5', '4']);
        },
        Opcode::SStore => {
            reveal_strlit("55");
            assert(op_hex(op) =~= seq!['5', '5']);
        },
        Opcode::Jump => {
            reveal_strlit("56");
            assert(op_hex(op) =~= seq!['5', '6']);
        },
        Opcode::JumpI => {
            reveal_strlit("57");
            assert(op_hex(op) =~= seq!['5', '7']);
        },
        Opcode::Pc => {
            reveal_strlit("58");
            assert(op_hex(op) =~= seq!['5', '8']);
        },
        Opcode::MSize => {
            reveal_strlit("59");
            assert(op_hex(op) =~= seq!['5', '9']);
        },
        Opcode::Gas => {
            reveal_strlit("5A");
            assert(op_hex(op) =~= seq!['5', 'A']);
        },
        Opcode::JumpDest => {
            reveal_strlit("5B");
            assert(op_hex(op) =~= seq!['5', 'B']);
        },
        Opcode::Push1 => {
            reveal_strlit("60");
            assert(op_hex(op) =~= seq!['6', '0']);
        },
        Opcode::Push2 => {
            reveal_strlit("61");
            assert(op_hex(op) =~= seq!['6', '1']);
        },
        Opcode::Push3 => {
            reveal_strlit("62");
            assert(op_hex(op) =~= seq!['6', '2']);
        },
        Opcode::Push4 => {
            reveal_strlit("63");
            assert(op_hex(op) =~= seq!['6', '3']);
        },
        Opcode::Push5 => {
            reveal_strlit("64");
            assert(op_hex(op) =~= seq!['6', '4']);
        },
        Opcode::Push6 => {
            reveal_strlit("65");
            assert(op_hex(op) =~= seq!['6', '5']);
        },
        Opcode::Push7 => {
            reveal_strlit("66");
            assert(op_hex(op) =~= seq!['6', '6']);
        },
        Opcode::Push8 => {
            reveal_strlit("67");
            assert(op_hex(op) =~= seq!['6', '7']);
        },
        Opcode::Push9 => {
            reveal_strlit("68");
            assert(op_hex(op) =~= seq!['6', '8']);
        },
        Opcode::Push10 => {
            reveal_strlit("69");
            assert(op_hex(op) =~= seq!['6', '9']);
        },
        Opcode::Push11 => {
            reveal_strlit("6A");
            assert(op_hex(op) =~= seq!['6', 'A']);
        },
        Opcode::Push12 => {
            reveal_strlit("6B");
            assert(op_hex(op) =~= seq!['6', 'B']);
        },
        Opcode::Push13 => {
            reveal_strlit("6C");
            assert(op_hex(op) =~= seq!['6', 'C']);
        },
        Opcode::Push14 => {
            reveal_strlit("6D");
            assert(op_hex(op) =~= seq!['6', 'D']);
        },
        Opcode::Push15 => {
            reveal_strlit("6E");
            assert(op_hex(op) =~= seq!['6', 'E']);
        },
        Opcode::Push16 => {
            reveal_strlit("6F");
            assert(op_hex(op) =~= seq!['6', 'F']);
        },
        Opcode::Push17 => {
            reveal_strlit("70");
            assert(op_hex(op) =~= seq!['7', '0']);
        },
        Opcode::Push18 => {
            reveal_strlit("71");
            assert(op_hex(op) =~= seq!['7', '1']);
        },
        Opcode::Push19 => {
            reveal_strlit("72");
            assert(op_hex(op) =~= seq!['7', '2']);
        },
        Opcode::Push20 => {
            reveal_strlit("73");
            assert(op_hex(op) =~= seq!['7', '3']);
        },
        Opcode::Push21 => {
            reveal_strlit("74");
            assert(op_hex(op) =~= seq!['7', '4']);
        },
        Opcode::Push22 => {
            reveal_strlit("75");
            assert(op_hex(op) =~= seq!['7', '5']);
        },
        Opcode::Push23 => {
            reveal_strlit("76");
            assert(op_hex(op) =~= seq!['7', '6']);
        },
        Opcode::Push24 => {
            reveal_strlit("77");
            assert(op_hex(op) =~= seq!['7', '7']);
        },
        Opcode::Push25 => {
            reveal_strlit("78");
            assert(op_hex(op) =~= seq!['7', '8']);
        },
        Opcode::Push26 => {
            reveal_strlit("79");
            assert(op_hex(op) =~= seq!['7', '9']);
        },
        Opcode::Push27 => {
            reveal_strlit("7A");
            assert(op_hex(op) =~= seq!['7', 'A']);
        },
        Opcode::Push28 => {
            reveal_strlit("7B");
            assert(op_hex(op) =~= seq!['7', 'B']);
        },
        Opcode::Push29 => {
            reveal_strlit("7C");
            assert(op_hex(op) =~= seq!['7', 'C']);
        },
        Opcode::Push30 => {
            reveal_strlit("7D");
            assert(op_hex(op) =~= seq!['7', 'D']);
        },
        Opcode::Push31 => {
            reveal_strlit("7E");
            assert(op_hex(op) =~= seq!['7', 'E']);
        },
        Opcode::Push32 => {
            reveal_strlit("7F");
            assert(op_hex(op) =~= seq!['7', 'F']);
        },
        Opcode::Dup1 => {
            reveal_strlit("80");
            assert(op_hex(op) =~= seq!['8', '0']);
        },
        Opcode::Dup2 => {
            reveal_strlit("81");
            assert(op_hex(op) =~= seq!['8', '1']);
        },
        Opcode::Dup3 => {
            reveal_strlit("82");
            assert(op_hex(op) =~= seq!['8', '2']);
        },
        Opcode::Dup4 => {
            reveal_strlit("83");
            assert(op_hex(op) =~= seq!['8', '3']);
        },
        Opcode::Dup5 => {
            reveal_strlit("84");
            assert(op_hex(op) =~= seq!['8', '4']);
        },
        Opcode::Dup6 => {
            reveal_strlit("85");
            assert(op_hex(op) =~= seq!['8', '5']);
        },
        Opcode::Dup7 => {
            reveal_strlit("86");
            assert(op_hex(op) =~= seq!['8', '6']);
        },
        Opcode::Dup8 => {
            reveal_strlit("87");
            assert(op_hex(op) =~= seq!['8', '7']);
        },
        Opcode::Dup9 => {
            reveal_strlit("88");
            assert(op_hex(op) =~= seq!['8', '8']);
        },
        Opcode::Dup10 => {
            reveal_strlit("89");
            assert(op_hex(op) =~= seq!['8', '9']);
        },
        Opcode::Dup11 => {
            reveal_strlit("8A");
            assert(op_hex(op) =~= seq!['8', 'A']);
        },
        Opcode::Dup12 => {
            reveal_strlit("8B");
            assert(op_hex(op) =~= seq!['8', 'B']);
        },
        Opcode::Dup13 => {
            reveal_strlit("8C");
            assert(op_hex(op) =~= seq!['8', 'C']);
        },
        Opcode::Dup14 => {
            reveal_strlit("8D");
            assert(op_hex(op) =~= seq!['8', 'D']);
        },
        Opcode::Dup15 => {
            reveal_strlit("8E");
            assert(op_hex(op) =~= seq!['8', 'E']);
        },
        Opcode::Dup16 => {
            reveal_strlit("8F");
            assert(op_hex(op) =~= seq!['8', 'F']);
        },
        Opcode::Swap1 => {
            reveal_strlit("90");
            assert(op_hex(op) =~= seq!['9', '0']);
        },
        Opcode::Swap2 => {
            reveal_strlit("91");
            assert(op_hex(op) =~= seq!['9', '1']);
        },
        Opcode::Swap3 => {
            reveal_strlit("92");
            assert(op_hex(op) =~= seq!['9', '2']);
        },
        Opcode::Swap4 => {
            reveal_strlit("93");
            assert(op_hex(op) =~= seq!['9', '3']);
        },
        Opcode::Swap5 => {
            reveal_strlit("94");
            assert(op_hex(op) =~= seq!['9', '4']);
        },
        Opcode::Swap6 => {
            reveal_strlit("95");
            assert(op_hex(op) =~= seq!['9', '5']);
        },
        Opcode::Swap7 => {
            reveal_strlit("96");
            assert(op_hex(op) =~= seq!['9', '6']);
        },
        Opcode::Swap8 => {
            reveal_strlit("97");
            assert(op_hex(op) =~= seq!['9', '7']);
        },
        Opcode::Swap9 => {
            reveal_strlit("98");
            assert(op_hex(op) =~= seq!['9', '8']);
        },
        Opcode::Swap10 => {
            reveal_strlit("99");
            assert(op_hex(op) =~= seq!['9', '9']);
        },
        Opcode::Swap11 => {
            reveal_strlit("9A");
            assert(op_hex(op) =~= seq!['9', 'A']);
        },
        Opcode::Swap12 => {
            reveal_strlit("9B");
            assert(op_hex(op) =~= seq!['9', 'B']);
        },
        Opcode::Swap13 => {
            reveal_strlit("9C");
            assert(op_hex(op) =~= seq!['9', 'C']);
        },
        Opcode::Swap14 => {
            reveal_strlit("9D");
            assert(op_hex(op) =~= seq!['9', 'D']);
        },
        Opcode::Swap15 => {
            reveal_strlit("9E");
            assert(op_hex(op) =~= seq!['9', 'E']);
        },
        Opcode::Swap16 => {
            reveal_strlit("9F");
            assert(op_hex(op) =~= seq!['9', 'F']);
        },
        Opcode::Log0 => {
            reveal_strlit("A0");
            assert(op_hex(op) =~= seq!['A', '0']);
        },
        Opcode::Log1 => {
            reveal_strlit("A1");
            assert(op_hex(op) =~= seq!['A', '1']);
        },
        Opcode::Log2 => {
            reveal_strlit("A2");
            assert(op_hex(op) =~= seq!['A', '2']);
        },
        Opcode::Log3 => {
            reveal_strlit("A3");
            assert(op_hex(op) =~= seq!['A', '3']);
        },
        Opcode::Log4 => {
            reveal_strlit("A4");
            assert(op_hex(op) =~= seq!['A', '4']);
        },
        Opcode::Create => {
            reveal_strlit("F0");
            assert(op_hex(op) =~= seq!['F', '0']);
        },
        Opcode::Call => {
            reveal_strlit("F1");
            assert(op_hex(op) =~= seq!['F', '1']);
        },
        Opcode::CallCode => {
            reveal_strlit("F2");
            assert(op_hex(op) =~= seq!['F', '2']);
        },
        Opcode::Return => {
            reveal_strlit("F3");
            assert(op_hex(op) =~= seq!['F', '3']);
        },
        Opcode::DelegateCall => {
            reveal_strlit("F4");
            assert(op_hex(op) =~= seq!['F', '4']);
        },
        Opcode::Create2 => {
            reveal_strlit("F5");
            assert(op_hex(op) =~= seq!['F', '5']);
        },
        Opcode::StaticCall => {
            reveal_strlit("FA");
            assert(op_hex(op) =~= seq!['F', 'A']);
        },
        Opcode::Revert => {
            reveal_strlit("FD");
            assert(op_hex(op) =~= seq!['F', 'D']);
        },
        Opcode::SelfDestruct => {
            reveal_strlit("FF");
            assert(op_hex(op) =~= seq!['F', 'F']);
        },
    }
}

/// Maps a lexeme, case-insensitively, to the instruction it names, treating
/// `SHA3` as an alias of `KECCAK256`.
pub open spec fn mnemonic_of(lex: Seq<char>) -> Option<Opcode> {
    if upper_seq(lex) == "STOP"@ {
        Some(Opcode::Stop)
    } else if upper_seq(lex) == "ADD"@ {
        Some(Opcode::Add)
    } else if upper_seq(lex) == "MUL"@ {
        Some(Opcode::Mul)
    } else if upper_seq(lex) == "SUB"@ {
        Some(Opcode::Sub)
    } else if upper_seq(lex) == "DIV"@ {
        Some(Opcode::Div)
    } else if upper_seq(lex) == "SDIV"@ {
        Some(Opcode::SDiv)
    } else if upper_seq(lex) == "MOD"@ {
        Some(Opcode::Mod)
    } else if upper_seq(lex) == "SMOD"@ {
        Some(Opcode::SMod)
    } else if upper_seq(lex) == "ADDMOD"@ {
        Some(Opcode::AddMod)
    } else if upper_seq(lex) == "MULMOD"@ {
        Some(Opcode::MulMod)
    } else if upper_seq(lex) == "EXP"@ {
        Some(Opcode::Exp)
    } else if upper_seq(lex) == "SIGNEXTEND"@ {
        Some(Opcode::SignExtend)
    } else if upper_seq(lex) == "LT"@ {
        Some(Opcode::Lt)
    } else if upper_seq(lex) == "GT"@ {
        Some(Opcode::Gt)
    } else if upper_seq(lex) == "SLT"@ {
        Some(Opcode::SLt)
    } else if upper_seq(lex) == "SGT"@ {
        Some(Opcode::SGt)
    } else if upper_seq(lex) == "EQ"@ {
        Some(Opcode::Eq)
    } else if upper_seq(lex) == "ISZERO"@ {
        Some(Opcode::IsZero)
    } else if upper_seq(lex) == "AND"@ {
        Some(Opcode::And)
    } else if upper_seq(lex) == "OR"@ {
        Some(Opcode::Or)
    } else if upper_seq(lex) == "XOR"@ {
        Some(Opcode::Xor)
    } else if upper_seq(lex) == "NOT"@ {
        Some(Opcode::Not)
    } else if upper_seq(lex) == "BYTE"@ {
        Some(Opcode::Byte)
    } else if upper_seq(lex) == "SHL"@ {
        Some(Opcode::Shl)
    } else if upper_seq(lex) == "SHR"@ {
        Some(Opcode::Shr)
    } else if upper_seq(lex) == "SAR"@ {
        Some(Opcode::Sar)
    } else if upper_seq(lex) == "KECCAK256"@ {
        Some(Opcode::Keccak256)
    } else if upper_seq(lex) == "ADDRESS"@ {
        Some(Opcode::Address)
    } else if upper_seq(lex) == "BALANCE"@ {
        Some(Opcode::Balance)
    } else if upper_seq(lex) == "ORIGIN"@ {
        Some(Opcode::Origin)
    } else if upper_seq(lex) == "CALLER"@ {
        Some(Opcode::Caller)
    } else if upper_seq(lex) == "CALLVALUE"@ {
        Some(Opcode::CallValue)
    } else if upper_seq(lex) == "CALLDATALOAD"@ {
        Some(Opcode::CallDataLoad)
    } else if upper_seq(lex) == "CALLDATASIZE"@ {
        Some(Opcode::CallDataSize)
    } else if upper_seq(lex) == "CALLDATACOPY"@ {
        Some(Opcode::CallDataCopy)
    } else if upper_seq(lex) == "CODESIZE"@ {
        Some(Opcode::CodeSize)
    } else if upper_seq(lex) == "CODECOPY"@ {
        Some(Opcode::CodeCopy)
    } else if upper_seq(lex) == "GASPRICE"@ {
        Some(Opcode::GasPrice)
    } else if upper_seq(lex) == "EXTCODESIZE"@ {
        Some(Opcode::ExtCodeSize)
    } else if upper_seq(lex) == "EXTCODECOPY"@ {
        Some(Opcode::ExtCodeCopy)
    } else if upper_seq(lex) == "RETURNDATASIZE"@ {
        Some(Opcode::ReturnDataSize)
    } else if upper_seq(lex) == "RETURNDATACOPY"@ {
        Some(Opcode::ReturnDataCopy)
    } else if upper_seq(lex) == "EXTCODEHASH"@ {
        Some(Opcode::ExtCodeHash)
    } else if upper_seq(lex) == "BLOCKHASH"@ {
        Some(Opcode::BlockHash)
    } else if upper_seq(lex) == "COINBASE"@ {
        Some(Opcode::Coinbase)
    } else if upper_seq(lex) == "TIMESTAMP"@ {
        Some(Opcode::Timestamp)
    } else if upper_seq(lex) == "NUMBER"@ {
        Some(Opcode::BlockNumber)
    } else if upper_seq(lex) == "DIFFICULTY"@ {
        Some(Opcode::Difficulty)
    } else if upper_seq(lex) == "GASLIMIT"@ {
        Some(Opcode::GasLimit)
    } else if upper_seq(lex) == "CHAINID"@ {
        Some(Opcode::ChainId)
    } else if upper_seq(lex) == "SELFBALANCE"@ {
        Some(Opcode::SelfBalance)
    } else if upper_seq(lex) == "BASEFEE"@ {
        Some(Opcode::BaseFee)
    } else if upper_seq(lex) == "POP"@ {
        Some(Opcode::Pop)
    } else if upper_seq(lex) == "MLOAD"@ {
        Some(Opcode::MLoad)
    } else if upper_seq(lex) == "MSTORE"@ {
        Some(Opcode::MStore)
    } else if upper_seq(lex) == "MSTORE8"@ {
        Some(Opcode::MStore8)
    } else if upper_seq(lex) == "SLOAD"@ {
        Some(Opcode::SLoad)
    } else if upper_seq(lex) == "SSTORE"@ {
        Some(Opcode::SStore)
    } else if upper_seq(lex) == "JUMP"@ {
        Some(Opcode::Jump)
    } else if upper_seq(lex) == "JUMPI"@ {
        Some(Opcode::JumpI)
    } else if upper_seq(lex) == "PC"@ {
        Some(Opcode::Pc)
    } else if upper_seq(lex) == "MSIZE"@ {
        Some(Opcode::MSize)
    } else if upper_seq(lex) == "GAS"@ {
        Some(Opcode::Gas)
    } else if upper_seq(lex) == "JUMPDEST"@ {
        Some(Opcode::JumpDest)
    } else if upper_seq(lex) == "PUSH1"@ {
        Some(Opcode::Push1)
    } else if upper_seq(lex) == "PUSH2"@ {
        Some(Opcode::Push2)
    } else if upper_seq(lex) == "PUSH3"@ {
        Some(Opcode::Push3)
    } else if upper_seq(lex) == "PUSH4"@ {
        Some(Opcode::Push4)
    } else if upper_seq(lex) == "PUSH5"@ {
        Some(Opcode::Push5)
    } else if upper_seq(lex) == "PUSH6"@ {
        Some(Opcode::Push6)
    } else if upper_seq(lex) == "PUSH7"@ {
        Some(Opcode::Push7)
    } else if upper_seq(lex) == "PUSH8"@ {
        Some(Opcode::Push8)
    } else if upper_seq(lex) == "PUSH9"@ {
        Some(Opcode::Push9)
    } else if upper_seq(lex) == "PUSH10"@ {
        Some(Opcode::Push10)
    } else if upper_seq(lex) == "PUSH11"@ {
        Some(Opcode::Push11)
    } else if upper_seq(lex) == "PUSH12"@ {
        Some(Opcode::Push12)
    } else if upper_seq(lex) == "PUSH13"@ {
        Some(Opcode::Push13)
    } else if upper_seq(lex) == "PUSH14"@ {
        Some(Opcode::Push14)
    } else if upper_seq(lex) == "PUSH15"@ {
        Some(Opcode::Push15)
    } else if upper_seq(lex) == "PUSH16"@ {
        Some(Opcode::Push16)
    } else if upper_seq(lex) == "PUSH17"@ {
        Some(Opcode::Push17)
    } else if upper_seq(lex) == "PUSH18"@ {
        Some(Opcode::Push18)
    } else if upper_seq(lex) == "PUSH19"@ {
        Some(Opcode::Push19)
    } else if upper_seq(lex) == "PUSH20"@ {
        Some(Opcode::Push20)
    } else if upper_seq(lex) == "PUSH21"@ {
        Some(Opcode::Push21)
    } else if upper_seq(lex) == "PUSH22"@ {
        Some(Opcode::Push22)
    } else if upper_seq(lex) == "PUSH23"@ {
        Some(Opcode::Push23)
    } else if upper_seq(lex) == "PUSH24"@ {
        Some(Opcode::Push24)
    } else if upper_seq(lex) == "PUSH25"@ {
        Some(Opcode::Push25)
    } else if upper_seq(lex) == "PUSH26"@ {
        Some(Opcode::Push26)
    } else if upper_seq(lex) == "PUSH27"@ {
        Some(Opcode::Push27)
    } else if upper_seq(lex) == "PUSH28"@ {
        Some(Opcode::Push28)
    } else if upper_seq(lex) == "PUSH29"@ {
        Some(Opcode::Push29)
    } else if upper_seq(lex) == "PUSH30"@ {
        Some(Opcode::Push30)
    } else if upper_seq(lex) == "PUSH31"@ {
        Some(Opcode::Push31)
    } else if upper_seq(lex) == "PUSH32"@ {
        Some(Opcode::Push32)
    } else if upper_seq(lex) == "DUP1"@ {
        Some(Opcode::Dup1)
    } else if upper_seq(lex) == "DUP2"@ {
        Some(Opcode::Dup2)
    } else if upper_seq(lex) == "DUP3"@ {
        Some(Opcode::Dup3)
    } else if upper_seq(lex) == "DUP4"@ {
        Some(Opcode::Dup4)
    } else if upper_seq(lex) == "DUP5"@ {
        Some(Opcode::Dup5)
    } else if upper_seq(lex) == "DUP6"@ {
        Some(Opcode::Dup6)
    } else if upper_seq(lex) == "DUP7"@ {
        Some(Opcode::Dup7)
    } else if upper_seq(lex) == "DUP8"@ {
        Some(Opcode::Dup8)
    } else if upper_seq(lex) == "DUP9"@ {
        Some(Opcode::Dup9)
    } else if upper_seq(lex) == "DUP10"@ {
        Some(Opcode::Dup10)
    } else if upper_seq(lex) == "DUP11"@ {
        Some(Opcode::Dup11)
    } else if upper_seq(lex) == "DUP12"@ {
        Some(Opcode::Dup12)
    } else if upper_seq(lex) == "DUP13"@ {
        Some(Opcode::Dup13)
    } else if upper_seq(lex) == "DUP14"@ {
        Some(Opcode::Dup14)
    } else if upper_seq(lex) == "DUP15"@ {
        Some(Opcode::Dup15)
    } else if upper_seq(lex) == "DUP16"@ {
        Some(Opcode::Dup16)
    } else if upper_seq(lex) == "SWAP1"@ {
        Some(Opcode::Swap1)
    } else if upper_seq(lex) == "SWAP2"@ {
        Some(Opcode::Swap2)
    } else if upper_seq(lex) == "SWAP3"@ {
        Some(Opcode::Swap3)
    } else if upper_seq(lex) == "SWAP4"@ {
        Some(Opcode::Swap4)
    } else if upper_seq(lex) == "SWAP5"@ {
        Some(Opcode::Swap5)
    } else if upper_seq(lex) == "SWAP6"@ {
        Some(Opcode::Swap6)
    } else if upper_seq(lex) == "SWAP7"@ {
        Some(Opcode::Swap7)
    } else if upper_seq(lex) == "SWAP8"@ {
        Some(Opcode::Swap8)
    } else if upper_seq(lex) == "SWAP9"@ {
        Some(Opcode::Swap9)
    } else if upper_seq(lex) == "SWAP10"@ {
        Some(Opcode::Swap10)
    } else if upper_seq(lex) == "SWAP11"@ {
        Some(Opcode::Swap11)
    } else if upper_seq(lex) == "SWAP12"@ {
        Some(Opcode::Swap12)
    } else if upper_seq(lex) == "SWAP13"@ {
        Some(Opcode::Swap13)
    } else if upper_seq(lex) == "SWAP14"@ {
        Some(Opcode::Swap14)
    } else if upper_seq(lex) == "SWAP15"@ {
        Some(Opcode::Swap15)
    } else if upper_seq(lex) == "SWAP16"@ {
        Some(Opcode::Swap16)
    } else if upper_seq(lex) == "LOG0"@ {
        Some(Opcode::Log0)
    } else if upper_seq(lex) == "LOG1"@ {
        Some(Opcode::Log1)
    } else if upper_seq(lex) == "LOG2"@ {
        Some(Opcode::Log2)
    } else if upper_seq(lex) == "LOG3"@ {
        Some(Opcode::Log3)
    } else if upper_seq(lex) == "LOG4"@ {
        Some(Opcode::Log4)
    } else if upper_seq(lex) == "CREATE"@ {
        Some(Opcode::Create)
    } else if upper_seq(lex) == "CALL"@ {
        Some(Opcode::Call)
    } else if upper_seq(lex) == "CALLCODE"@ {
        Some(Opcode::CallCode)
    } else if upper_seq(lex) == "RETURN"@ {
        Some(Opcode::Return)
    } else if upper_seq(lex) == "DELEGATECALL"@ {
        Some(Opcode::DelegateCall)
    } else if upper_seq(lex) == "CREATE2"@ {
        Some(Opcode::Create2)
    } else if upper_seq(lex) == "STATICCALL"@ {
        Some(Opcode::StaticCall)
    } else if upper_seq(lex) == "REVERT"@ {
        Some(Opcode::Revert)
    } else if upper_seq(lex) == "SELFDESTRUCT"@ {
        Some(Opcode::SelfDestruct)
    } else if upper_seq(lex) == "SHA3"@ {
        Some(Opcode::Keccak256)
    } else {
        None
    }
}

/// Looks a lexeme up in the mnemonic table, ignoring ASCII case.
pub fn lookup_mnemonic(lex: &str) -> (r: Option<Opcode>)
    ensures
        r == mnemonic_of(lex@),
{
    if lex_matches(lex, "STOP") {
        Some(Opcode::Stop)
    } else if lex_matches(lex, "ADD") {
        Some(Opcode::Add)
    } else if lex_matches(lex, "MUL") {
        Some(Opcode::Mul)
    } else if lex_matches(lex, "SUB") {
        Some(Opcode::Sub)
    } else if lex_matches(lex, "DIV") {
        Some(Opcode::Div)
    } else if lex_matches(lex, "SDIV") {
        Some(Opcode::SDiv)
    } else if lex_matches(lex, "MOD") {
        Some(Opcode::Mod)
    } else if lex_matches(lex, "SMOD") {
        Some(Opcode::SMod)
    } else if lex_matches(lex, "ADDMOD") {
        Some(Opcode::AddMod)
    } else if lex_matches(lex, "MULMOD") {
        Some(Opcode::MulMod)
    } else if lex_matches(lex, "EXP") {
        Some(Opcode::Exp)
    } else if lex_matches(lex, "SIGNEXTEND") {
        Some(Opcode::SignExtend)
    } else if lex_matches(lex, "LT") {
        Some(Opcode::Lt)
    } else if lex_matches(lex, "GT") {
        Some(Opcode::Gt)
    } else if lex_matches(lex, "SLT") {
        Some(Opcode::SLt)
    } else if lex_matches(lex, "SGT") {
        Some(Opcode::SGt)
    } else if lex_matches(lex, "EQ") {
        Some(Opcode::Eq)
    } else if lex_matches(lex, "ISZERO") {
        Some(Opcode::IsZero)
    } else if lex_matches(lex, "AND") {
        Some(Opcode::And)
    } else if lex_matches(lex, "OR") {
        Some(Opcode::Or)
    } else if lex_matches(lex, "XOR") {
        Some(Opcode::Xor)
    } else if lex_matches(lex, "NOT") {
        Some(Opcode::Not)
    } else if lex_matches(lex, "BYTE") {
        Some(Opcode::Byte)
    } else if lex_matches(lex, "SHL") {
        Some(Opcode::Shl)
    } else if lex_matches(lex, "SHR") {
        Some(Opcode::Shr)
    } else if lex_matches(lex, "SAR") {
        Some(Opcode::Sar)
    } else if lex_matches(lex, "KECCAK256") {
        Some(Opcode::Keccak256)
    } else if lex_matches(lex, "ADDRESS") {
        Some(Opcode::Address)
    } else if lex_matches(lex, "BALANCE") {
        Some(Opcode::Balance)
    } else if lex_matches(lex, "ORIGIN") {
        Some(Opcode::Origin)
    } else if lex_matches(lex, "CALLER") {
        Some(Opcode::Caller)
    } else if lex_matches(lex, "CALLVALUE") {
        Some(Opcode::CallValue)
    } else if lex_matches(lex, "CALLDATALOAD") {
        Some(Opcode::CallDataLoad)
    } else if lex_matches(lex, "CALLDATASIZE") {
        Some(Opcode::CallDataSize)
    } else if lex_matches(lex, "CALLDATACOPY") {
        Some(Opcode::CallDataCopy)
    } else if lex_matches(lex, "CODESIZE") {
        Some(Opcode::CodeSize)
    } else if lex_matches(lex, "CODECOPY") {
        Some(Opcode::CodeCopy)
    } else if lex_matches(lex, "GASPRICE") {
        Some(Opcode::GasPrice)
    } else if lex_matches(lex, "EXTCODESIZE") {
        Some(Opcode::ExtCodeSize)
    } else if lex_matches(lex, "EXTCODECOPY") {
        Some(Opcode::ExtCodeCopy)
    } else if lex_matches(lex, "RETURNDATASIZE") {
        Some(Opcode::ReturnDataSize)
    } else if lex_matches(lex, "RETURNDATACOPY") {
        Some(Opcode::ReturnDataCopy)
    } else if lex_matches(lex, "EXTCODEHASH") {
        Some(Opcode::ExtCodeHash)
    } else if lex_matches(lex, "BLOCKHASH") {
        Some(Opcode::BlockHash)
    } else if lex_matches(lex, "COINBASE") {
        Some(Opcode::Coinbase)
    } else if lex_matches(lex, "TIMESTAMP") {
        Some(Opcode::Timestamp)
    } else if lex_matches(lex, "NUMBER") {
        Some(Opcode::BlockNumber)
    } else if lex_matches(lex, "DIFFICULTY") {
        Some(Opcode::Difficulty)
    } else if lex_matches(lex, "GASLIMIT") {
        Some(Opcode::GasLimit)
    } else if lex_matches(lex, "CHAINID") {
        Some(Opcode::ChainId)
    } else if lex_matches(lex, "SELFBALANCE") {
        Some(Opcode::SelfBalance)
    } else if lex_matches(lex, "BASEFEE") {
        Some(Opcode::BaseFee)
    } else if lex_matches(lex, "POP") {
        Some(Opcode::Pop)
    } else if lex_matches(lex, "MLOAD") {
        Some(Opcode::MLoad)
    } else if lex_matches(lex, "MSTORE") {
        Some(Opcode::MStore)
    } else if lex_matches(lex, "MSTORE8") {
        Some(Opcode::MStore8)
    } else if lex_matches(lex, "SLOAD") {
        Some(Opcode::SLoad)
    } else if lex_matches(lex, "SSTORE") {
        Some(Opcode::SStore)
    } else if lex_matches(lex, "JUMP") {
        Some(Opcode::Jump)
    } else if lex_matches(lex, "JUMPI") {
        Some(Opcode::JumpI)
    } else if lex_matches(lex, "PC") {
        Some(Opcode::Pc)
    } else if lex_matches(lex, "MSIZE") {
        Some(Opcode::MSize)
    } else if lex_matches(lex, "GAS") {
        Some(Opcode::Gas)
    } else if lex_matches(lex, "JUMPDEST") {
        Some(Opcode::JumpDest)
    } else if lex_matches(lex, "PUSH1") {
        Some(Opcode::Push1)
    } else if lex_matches(lex, "PUSH2") {
        Some(Opcode::Push2)
    } else if lex_matches(lex, "PUSH3") {
        Some(Opcode::Push3)
    } else if lex_matches(lex, "PUSH4") {
        Some(Opcode::Push4)
    } else if lex_matches(lex, "PUSH5") {
        Some(Opcode::Push5)
    } else if lex_matches(lex, "PUSH6") {
        Some(Opcode::Push6)
    } else if lex_matches(lex, "PUSH7") {
        Some(Opcode::Push7)
    } else if lex_matches(lex, "PUSH8") {
        Some(Opcode::Push8)
    } else if lex_matches(lex, "PUSH9") {
        Some(Opcode::Push9)
    } else if lex_matches(lex, "PUSH10") {
        Some(Opcode::Push10)
    } else if lex_matches(lex, "PUSH11") {
        Some(Opcode::Push11)
    } else if lex_matches(lex, "PUSH12") {
        Some(Opcode::Push12)
    } else if lex_matches(lex, "PUSH13") {
        Some(Opcode::Push13)
    } else if lex_matches(lex, "PUSH14") {
        Some(Opcode::Push14)
    } else if lex_matches(lex, "PUSH15") {
        Some(Opcode::Push15)
    } else if lex_matches(lex, "PUSH16") {
        Some(Opcode::Push16)
    } else if lex_matches(lex, "PUSH17") {
        Some(Opcode::Push17)
    } else if lex_matches(lex, "PUSH18") {
        Some(Opcode::Push18)
    } else if lex_matches(lex, "PUSH19") {
        Some(Opcode::Push19)
    } else if lex_matches(lex, "PUSH20") {
        Some(Opcode::Push20)
    } else if lex_matches(lex, "PUSH21") {
        Some(Opcode::Push21)
    } else if lex_matches(lex, "PUSH22") {
        Some(Opcode::Push22)
    } else if lex_matches(lex, "PUSH23") {
        Some(Opcode::Push23)
    } else if lex_matches(lex, "PUSH24") {
        Some(Opcode::Push24)
    } else if lex_matches(lex, "PUSH25") {
        Some(Opcode::Push25)
    } else if lex_matches(lex, "PUSH26") {
        Some(Opcode::Push26)
    } else if lex_matches(lex, "PUSH27") {
        Some(Opcode::Push27)
    } else if lex_matches(lex, "PUSH28") {
        Some(Opcode::Push28)
    } else if lex_matches(lex, "PUSH29") {
        Some(Opcode::Push29)
    } else if lex_matches(lex, "PUSH30") {
        Some(Opcode::Push30)
    } else if lex_matches(lex, "PUSH31") {
        Some(Opcode::Push31)
    } else if lex_matches(lex, "PUSH32") {
        Some(Opcode::Push32)
    } else if lex_matches(lex, "DUP1") {
        Some(Opcode::Dup1)
    } else if lex_matches(lex, "DUP2") {
        Some(Opcode::Dup2)
    } else if lex_matches(lex, "DUP3") {
        Some(Opcode::Dup3)
    } else if lex_matches(lex, "DUP4") {
        Some(Opcode::Dup4)
    } else if lex_matches(lex, "DUP5") {
        Some(Opcode::Dup5)
    } else if lex_matches(lex, "DUP6") {
        Some(Opcode::Dup6)
    } else if lex_matches(lex, "DUP7") {
        Some(Opcode::Dup7)
    } else if lex_matches(lex, "DUP8") {
        Some(Opcode::Dup8)
    } else if lex_matches(lex, "DUP9") {
        Some(Opcode::Dup9)
    } else if lex_matches(lex, "DUP10") {
        Some(Opcode::Dup10)
    } else if lex_matches(lex, "DUP11") {
        Some(Opcode::Dup11)
    } else if lex_matches(lex, "DUP12") {
        Some(Opcode::Dup12)
    } else if lex_matches(lex, "DUP13") {
        Some(Opcode::Dup13)
    } else if lex_matches(lex, "DUP14") {
        Some(Opcode::Dup14)
    } else if lex_matches(lex, "DUP15") {
        Some(Opcode::Dup15)
    } else if lex_matches(lex, "DUP16") {
        Some(Opcode::Dup16)
    } else if lex_matches(lex, "SWAP1") {
        Some(Opcode::Swap1)
    } else if lex_matches(lex, "SWAP2") {
        Some(Opcode::Swap2)
    } else if lex_matches(lex, "SWAP3") {
        Some(Opcode::Swap3)
    } else if lex_matches(lex, "SWAP4") {
        Some(Opcode::Swap4)
    } else if lex_matches(lex, "SWAP5") {
        Some(Opcode::Swap5)
    } else if lex_matches(lex, "SWAP6") {
        Some(Opcode::Swap6)
    } else if lex_matches(lex, "SWAP7") {
        Some(Opcode::Swap7)
    } else if lex_matches(lex, "SWAP8") {
        Some(Opcode::Swap8)
    } else if lex_matches(lex, "SWAP9") {
        Some(Opcode::Swap9)
    } else if lex_matches(lex, "SWAP10") {
        Some(Opcode::Swap10)
    } else if lex_matches(lex, "SWAP11") {
        Some(Opcode::Swap11)
    } else if lex_matches(lex, "SWAP12") {
        Some(Opcode::Swap12)
    } else if lex_matches(lex, "SWAP13") {
        Some(Opcode::Swap13)
    } else if lex_matches(lex, "SWAP14") {
        Some(Opcode::Swap14)
    } else if lex_matches(lex, "SWAP15") {
        Some(Opcode::Swap15)
    } else if lex_matches(lex, "SWAP16") {
        Some(Opcode::Swap16)
    } else if lex_matches(lex, "LOG0") {
        Some(Opcode::Log0)
    } else if lex_matches(lex, "LOG1") {
        Some(Opcode::Log1)
    } else if lex_matches(lex, "LOG2") {
        Some(Opcode::Log2)
    } else if lex_matches(lex, "LOG3") {
        Some(Opcode::Log3)
    } else if lex_matches(lex, "LOG4") {
        Some(Opcode::Log4)
    } else if lex_matches(lex, "CREATE") {
        Some(Opcode::Create)
    } else if lex_matches(lex, "CALL") {
        Some(Opcode::Call)
    } else if lex_matches(lex, "CALLCODE") {
        Some(Opcode::CallCode)
    } else if lex_matches(lex, "RETURN") {
        Some(Opcode::Return)
    } else if lex_matches(lex, "DELEGATECALL") {
        Some(Opcode::DelegateCall)
    } else if lex_matches(lex, "CREATE2") {
        Some(Opcode::Create2)
    } else if lex_matches(lex, "STATICCALL") {
        Some(Opcode::StaticCall)
    } else if lex_matches(lex, "REVERT") {
        Some(Opcode::Revert)
    } else if lex_matches(lex, "SELFDESTRUCT") {
        Some(Opcode::SelfDestruct)
    } else if lex_matches(lex, "SHA3") {
        Some(Opcode::Keccak256)
    } else {
        None
    }
}

/// Compares a lexeme, uppercased, against one canonical mnemonic.
fn lex_matches(lex: &str, m: &str) -> (b: bool)
    ensures
        b == (upper_seq(lex@) == m@),
{
    let n = lex.unicode_len();
    if n != m.unicode_len() {
        assert(upper_seq(lex@).len() == lex@.len());
        assert(upper_seq(lex@) != m@);
        return false;
    }
    let mut k: usize = 0;
    while k < n
        invariant
            0 <= k <= n,
            n == lex@.len(),
            n == m@.len(),
            forall|i: int| 0 <= i < k ==> upper_char(lex@[i]) == m@[i],
        decreases n - k,
    {
        let c = upper_char_of(lex.get_char(k));
        if c != m.get_char(k) {
            assert(upper_seq(lex@)[k as int] != m@[k as int]);
            return false;
        }
        k = k + 1;
    }
    assert(upper_seq(lex@) =~= m@);
    true
}

} // verus!
