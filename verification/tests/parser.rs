//! The tokenizer on whole listings.

use evmm::parse::parse_file;

#[test]
fn test_parse_file() {
    let file = r#"
    PUSH1 0x01 //[0x01]
    push5 0x0102030405 //[0x0102030405 0x01]
    CALLER //[CALLER 0x0102030405 0x01]
    "#;

    let parsed_file = parse_file(file);

    println!("{:?}", parsed_file);
    assert!(parsed_file.is_ok());
    assert_eq!(parsed_file.unwrap().len(), 5);
}

#[test]
fn test_parse_push1() {
    let file = r#"
        PUSH1 0x01
    "#;

    let parsed_file = parse_file(file);

    println!("{:?}", parsed_file);
    assert!(parsed_file.is_ok());
    assert_eq!(parsed_file.unwrap().len(), 2);
}
