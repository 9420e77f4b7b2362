//! End-to-end assemblies, the boundary behaviors of `PUSH` operands and the
//! stack-depth check, and the error taxonomy with its messages.

use evmm::compile::{
    compile_instructions, convert_to_hex_number_and_strip_prefix, get_byte_size,
    validate_proceeding_push_instruction,
};
use evmm::evmm::{compile_contract, parse_and_compile_bytecode, EVMMFile};
use evmm::evmm_error::EVMMError;
use evmm::hexnum::{decode_hex, usize_to_string};
use evmm::opcode::Opcode;
use evmm::parse::parse_file;
use evmm::parser_error::EVMMParserError;
use evmm::token::Token;

#[test]
fn test_push1_hex() {
    assert_eq!(compile_contract("PUSH1 0x01").unwrap(), "6001");
}

#[test]
fn test_push1_max_byte() {
    assert_eq!(compile_contract("PUSH1 0xFF").unwrap(), "60FF");
}

#[test]
fn test_push1_value_too_big() {
    assert_eq!(
        compile_contract("PUSH1 0x100").unwrap_err(),
        EVMMError::ValueTooBigForPushInstruction("PUSH1".to_string(), "0x100".to_string(), 2)
    );
}

#[test]
fn test_push2_left_pads() {
    assert_eq!(compile_contract("PUSH2 0x01").unwrap(), "610001");
}

#[test]
fn test_push32_full_width() {
    let out = compile_contract(
        "PUSH32 0x0102030405060708090A0B0C0D0E0F101112131415161718191A1B1C1D1E1F20",
    )
    .unwrap();
    assert!(out.starts_with("7F"));
    assert_eq!(out.len(), 2 + 64);
    assert_eq!(
        out,
        "7F0102030405060708090A0B0C0D0E0F101112131415161718191A1B1C1D1E1F20"
    );
}

#[test]
fn test_pop_on_empty_stack() {
    assert_eq!(
        compile_contract("POP").unwrap_err(),
        EVMMError::NotEnoughValuesOnStack("POP".to_string(), 1, 0)
    );
}

#[test]
fn test_dup3_at_depth_two() {
    assert_eq!(
        compile_contract("PUSH1 0x01\nPUSH1 0x02\nDUP3").unwrap_err(),
        EVMMError::NotEnoughValuesOnStack("DUP3".to_string(), 3, 2)
    );
}

#[test]
fn test_push_add_program() {
    assert_eq!(
        compile_contract("PUSH1 0x01\nPUSH1 0x02\nADD").unwrap(),
        "6001600201"
    );
}

#[test]
fn test_push5_then_caller() {
    assert_eq!(
        compile_contract("PUSH5 0x0102030405\nCALLER").unwrap(),
        "64010203040533"
    );
}

#[test]
fn test_comment_is_discarded() {
    assert_eq!(
        compile_contract("PUSH1 0x01 // comment\nPUSH2 0x02\nADD").unwrap(),
        "600161000201"
    );
}

#[test]
fn test_push3_operand_too_wide() {
    assert_eq!(
        compile_contract("PUSH3 0x010203040").unwrap_err(),
        EVMMError::ValueTooBigForPushInstruction(
            "PUSH3".to_string(),
            "0x010203040".to_string(),
            5
        )
    );
}

#[test]
fn test_mnemonics_are_case_insensitive() {
    assert_eq!(compile_contract("push1 0x01\nPuSh1 0x02\nadd").unwrap(), "6001600201");
}

#[test]
fn test_sha3_is_keccak256() {
    assert_eq!(
        compile_contract("PUSH1 0x00\nPUSH1 0x00\nSHA3").unwrap(),
        compile_contract("PUSH1 0x00\nPUSH1 0x00\nKECCAK256").unwrap()
    );
}

#[test]
fn test_push_zero_decimal() {
    assert_eq!(compile_contract("PUSH1 0").unwrap(), "6000");
}

#[test]
fn test_push_decimal_operand() {
    assert_eq!(compile_contract("PUSH1 255").unwrap(), "60FF");
    assert_eq!(compile_contract("PUSH2 256").unwrap(), "610100");
}

#[test]
fn test_push_decimal_with_leading_zeros() {
    assert_eq!(compile_contract("PUSH1 007").unwrap(), "6007");
}

#[test]
fn test_push_largest_256_bit_decimal() {
    let out = compile_contract(
        "PUSH32 115792089237316195423570985008687907853269984665640564039457584007913129639935",
    )
    .unwrap();
    assert_eq!(out, format!("7F{}", "F".repeat(64)));
}

#[test]
fn test_decimal_overflowing_256_bits_is_a_parse_error() {
    let big = "115792089237316195423570985008687907853269984665640564039457584007913129639936";
    assert_eq!(
        compile_contract(&format!("PUSH32 {}", big)).unwrap_err(),
        EVMMError::ParseError(big.to_string())
    );
}

#[test]
fn test_push_at_end_of_input() {
    assert_eq!(
        compile_contract("PUSH1").unwrap_err(),
        EVMMError::ExpectedInstruction()
    );
}

#[test]
fn test_push_followed_by_instruction() {
    assert_eq!(
        compile_contract("PUSH1 ADD").unwrap_err(),
        EVMMError::UnexpectedInstruction("ADD".to_string())
    );
}

#[test]
fn test_stray_literal_is_unexpected() {
    assert_eq!(
        compile_contract("0x01").unwrap_err(),
        EVMMError::UnexpectedInstruction("0x01".to_string())
    );
}

#[test]
fn test_unrecognized_lexeme_is_a_parse_error() {
    assert_eq!(
        compile_contract("PUSH1 0x01\nBOGUS").unwrap_err(),
        EVMMError::ParseError("BOGUS".to_string())
    );
}

#[test]
fn test_empty_input_is_empty_output() {
    assert_eq!(compile_contract("").unwrap(), "");
    assert_eq!(compile_contract("  \n\t // only a comment\n").unwrap(), "");
}

#[test]
fn test_swap_depth_requirement() {
    // SWAP1 demands depth 1, as the table has it.
    assert_eq!(
        compile_contract("SWAP1").unwrap_err(),
        EVMMError::NotEnoughValuesOnStack("SWAP1".to_string(), 1, 0)
    );
    assert_eq!(compile_contract("PUSH1 0x01\nSWAP1").unwrap(), "600190");
}

#[test]
fn test_output_is_uppercase_hex_of_even_length() {
    let out = compile_contract("PUSH3 0xabcdef\nPUSH1 10\nADD\nPOP\nSTOP").unwrap();
    assert_eq!(out, "62ABCDEF600A015000");
    assert_eq!(out.len() % 2, 0);
    assert!(out.chars().all(|c| c.is_ascii_hexdigit() && !c.is_ascii_lowercase()));
}

#[test]
fn test_encode_strips_prefix_and_uppercases() {
    let h = convert_to_hex_number_and_strip_prefix(&Token::HexNumber("0xab".to_string()));
    assert_eq!(h.unwrap(), "AB");
}

#[test]
fn test_encode_widens_odd_digit_runs() {
    let h = convert_to_hex_number_and_strip_prefix(&Token::HexNumber("0xabc".to_string()));
    assert_eq!(h.unwrap(), "0ABC");
}

#[test]
fn test_encode_decimal_literal() {
    let h = convert_to_hex_number_and_strip_prefix(&Token::Number("4660".to_string()));
    assert_eq!(h.unwrap(), "1234");
}

#[test]
fn test_encode_refuses_instruction_token() {
    let t = Token::Instruction(Opcode::Add, "ADD".to_string());
    assert_eq!(
        convert_to_hex_number_and_strip_prefix(&t).unwrap_err(),
        EVMMError::UnexpectedInstruction("ADD".to_string())
    );
}

#[test]
fn test_byte_size_of_zero_is_zero() {
    assert_eq!(get_byte_size(&Token::Number("0".to_string())).unwrap(), 0);
}

#[test]
fn test_byte_size_rounds_digits_up() {
    assert_eq!(get_byte_size(&Token::HexNumber("0x1".to_string())).unwrap(), 1);
    assert_eq!(get_byte_size(&Token::HexNumber("0x100".to_string())).unwrap(), 2);
    assert_eq!(get_byte_size(&Token::Number("256".to_string())).unwrap(), 2);
}

#[test]
fn test_padding_to_own_width_changes_nothing() {
    let lit = Token::HexNumber("0x0102".to_string());
    let width = get_byte_size(&lit).unwrap();
    let push = Token::Instruction(Opcode::Push2, "PUSH2".to_string());
    let padded = validate_proceeding_push_instruction(&push, Some(&lit), width).unwrap();
    let encoded = convert_to_hex_number_and_strip_prefix(&lit).unwrap();
    assert_eq!(padded, encoded);
}

#[test]
fn test_validate_pads_to_expected_size() {
    let push = Token::Instruction(Opcode::Push4, "PUSH4".to_string());
    let lit = Token::HexNumber("0xff".to_string());
    let padded = validate_proceeding_push_instruction(&push, Some(&lit), 4).unwrap();
    assert_eq!(padded, "000000FF");
}

#[test]
fn test_validate_without_next_token() {
    let push = Token::Instruction(Opcode::Push1, "PUSH1".to_string());
    assert_eq!(
        validate_proceeding_push_instruction(&push, None, 1).unwrap_err(),
        EVMMError::ExpectedInstruction()
    );
}

#[test]
fn test_compile_instructions_extends_given_bytecode() {
    let tokens = vec![Token::Instruction(Opcode::Stop, "STOP".to_string())];
    let out = compile_instructions(&tokens, "6001".to_string()).unwrap();
    assert_eq!(out, "600100");
}

#[test]
fn test_decode_hex_pairs() {
    assert_eq!(decode_hex("60FF").unwrap(), vec![0x60, 0xFF]);
    assert_eq!(decode_hex("").unwrap(), Vec::<u8>::new());
    assert_eq!(decode_hex("0ff"), None);
    assert_eq!(decode_hex("zz"), None);
}

#[test]
fn test_usize_rendering() {
    assert_eq!(usize_to_string(0), "0");
    assert_eq!(usize_to_string(907), "907");
}

#[test]
fn test_not_enough_values_message() {
    let e = EVMMError::NotEnoughValuesOnStack("POP".to_string(), 1, 0);
    assert_eq!(
        e.message(),
        "Not enough values on the stack. Instruction: \"POP\". Stack size: 0. Stack Size Needed: 1"
    );
}

#[test]
fn test_value_too_big_message() {
    let e = EVMMError::ValueTooBigForPushInstruction("PUSH1".to_string(), "0x100".to_string(), 2);
    assert_eq!(
        e.message(),
        "Value is too large for PUSH instruction. Instruction: \"PUSH1\". Value: \"0x100\". Value byte size: 2"
    );
}

#[test]
fn test_unexpected_instruction_message() {
    let e = EVMMError::UnexpectedInstruction("0x01".to_string());
    assert_eq!(e.message(), "Unexpected instruction: \"0x01\"");
}

#[test]
fn test_expected_instruction_message() {
    let e = EVMMError::ExpectedInstruction();
    assert_eq!(e.message(), "Expected instruction but none was found");
}

#[test]
fn test_parse_error_message() {
    let e = EVMMError::ParseError("@@".to_string());
    assert_eq!(e.message(), "Error when parsing file. Unrecognized lexeme: \"@@\"");
}

#[test]
fn test_parser_error_carries_over() {
    let e = EVMMParserError::ParseError("@@".to_string());
    assert_eq!(e.into_evmm_error(), EVMMError::ParseError("@@".to_string()));
}

#[test]
fn test_parse_tokens_in_order() {
    let tokens = parse_file("PUSH1 0x01 caller 33").unwrap();
    assert_eq!(
        tokens,
        vec![
            Token::Instruction(Opcode::Push1, "PUSH1".to_string()),
            Token::HexNumber("0x01".to_string()),
            Token::Instruction(Opcode::Caller, "caller".to_string()),
            Token::Number("33".to_string()),
        ]
    );
}

#[test]
fn test_parse_rejects_bare_prefix() {
    assert_eq!(
        parse_file("0x").unwrap_err(),
        EVMMParserError::ParseError("0x".to_string())
    );
}

#[test]
fn test_parse_comment_without_newline() {
    let tokens = parse_file("ADD // trailing").unwrap();
    assert_eq!(tokens, vec![Token::Instruction(Opcode::Add, "ADD".to_string())]);
}

#[test]
fn test_parse_and_compile_single_file() {
    let files = vec![EVMMFile::new(
        "counter.evmm".to_string(),
        "PUSH1 0x01".to_string(),
    )];
    let out = parse_and_compile_bytecode(files, false).unwrap();
    assert_eq!(out.len(), 1);
    assert_eq!(out[0].file_name, "counter.evmasm");
    assert_eq!(out[0].compiled_bytecode, "6001");
}

#[test]
fn test_parse_and_compile_deployment_name() {
    let files = vec![EVMMFile::new(
        "counter.evmm".to_string(),
        "PUSH1 0x01".to_string(),
    )];
    let out = parse_and_compile_bytecode(files, true).unwrap();
    assert_eq!(out[0].file_name, "counter_deploy.evmasm");
    assert_eq!(out[0].compiled_bytecode, "6001");
}

#[test]
fn test_parse_and_compile_stops_at_first_error() {
    let files = vec![
        EVMMFile::new("a.evmm".to_string(), "PUSH1 0x01".to_string()),
        EVMMFile::new("b.evmm".to_string(), "POP".to_string()),
        EVMMFile::new("c.evmm".to_string(), "BOGUS".to_string()),
    ];
    assert_eq!(
        parse_and_compile_bytecode(files, false).unwrap_err(),
        EVMMError::NotEnoughValuesOnStack("POP".to_string(), 1, 0)
    );
}

#[test]
fn test_every_stack_group_compiles() {
    // One accepted program that walks through the depth bookkeeping of each
    // stack-effect group.
    let listing = "PUSH1 0x01 PUSH1 0x02 PUSH1 0x03 PUSH1 0x04 PUSH1 0x05 PUSH1 0x06 PUSH1 0x07 \
                   DUP1 SWAP1 ADD ADDMOD MULMOD CALLER POP GAS ISZERO LOG0";
    let out = compile_contract(listing).unwrap();
    assert_eq!(
        out,
        "6001600260036004600560066007809001080933505A15A0"
    );
}
