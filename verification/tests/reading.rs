use adder::reader::{read, ReadError};
use adder::value::Value;

fn sym(name: &str) -> Value {
    Value::Sym(name.to_string())
}

#[test]
fn reader_hands_over_nested_lists() {
    let value = read("(add1 (sub1 7))").unwrap();
    let expected = Value::List(vec![
        sym("add1"),
        Value::List(vec![sym("sub1"), Value::Int(7)]),
    ]);
    assert_eq!(value, expected);
}

#[test]
fn reader_tells_atoms_apart() {
    assert_eq!(read("42"), Ok(Value::Int(42)));
    assert_eq!(read("-42"), Ok(Value::Int(-42)));
    assert_eq!(read("add1"), Ok(sym("add1")));
    assert_eq!(read("\"12\""), Ok(sym("12")));
    assert_eq!(read("2.5"), Ok(Value::Float(2.5f64.to_bits())));
    assert_eq!(read("-4.0"), Ok(Value::Float((-4.0f64).to_bits())));
    assert_eq!(read("()"), Ok(Value::List(vec![])));
}

#[test]
fn reader_skips_space_and_comments() {
    let value = read("  ( add1\n\t5 ) ; the end").unwrap();
    assert_eq!(value, Value::List(vec![sym("add1"), Value::Int(5)]));
}

#[test]
fn reader_keeps_integers_beyond_32_bits() {
    assert_eq!(read("2147483648"), Ok(Value::Int(2147483648)));
    assert_eq!(
        read("9223372036854775807"),
        Ok(Value::Int(9223372036854775807))
    );
}

#[test]
fn unclosed_list_is_a_read_error() {
    assert_eq!(
        read("(add1 5"),
        Err(ReadError {
            message: "unexpected eof".to_string(),
            line: 1,
            column: 6,
            index: 7,
        })
    );
}

#[test]
fn empty_text_is_a_read_error() {
    assert_eq!(
        read(""),
        Err(ReadError {
            message: "unexpected eof".to_string(),
            line: 1,
            column: 0,
            index: 0,
        })
    );
}

#[test]
fn text_after_the_expression_is_a_read_error() {
    assert_eq!(
        read("5 6"),
        Err(ReadError {
            message: "unrecognized post-s-expression data".to_string(),
            line: 1,
            column: 2,
            index: 2,
        })
    );
}

#[test]
fn read_error_counts_lines() {
    let outcome = read("(add1\n  (sub1\n 5)");
    let error = outcome.unwrap_err();
    assert_eq!(error.message, "unexpected eof");
    assert_eq!(error.line, 3);
    assert_eq!(error.index, 17);
}
