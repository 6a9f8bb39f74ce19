use adder::compiler::{compile, compile_value, CompileError};
use adder::parser::ParseError;
use adder::program::assemble;
use adder::reader::ReadError;
use adder::value::Value;

#[test]
fn literal_compiles_to_a_file() {
    assert_eq!(
        compile("5"),
        Ok("section .text\nglobal our_code_starts_here\nour_code_starts_here:\n    mov rax, 5\n  ret\n"
            .to_string())
    );
}

#[test]
fn nested_expression_compiles_to_a_file() {
    let expected = "section .text
global our_code_starts_here
our_code_starts_here:
    mov rax, 5
  add rax, 1
  sub rax, 1
  neg rax
  ret
";
    assert_eq!(
        compile("(negate (sub1 (add1 5)))"),
        Ok(expected.to_string())
    );
}

#[test]
fn value_compiles_as_its_text_does() {
    let value = Value::List(vec![Value::Sym("sub1".to_string()), Value::Int(-40)]);
    assert_eq!(
        compile_value(&value).map_err(CompileError::Parse),
        compile("(sub1 -40)")
    );
    assert_eq!(
        compile_value(&value),
        Ok("section .text\nglobal our_code_starts_here\nour_code_starts_here:\n    mov rax, -40\n  sub rax, 1\n  ret\n"
            .to_string())
    );
}

#[test]
fn wrong_arity_ends_the_compilation() {
    let offending = Value::List(vec![
        Value::Sym("add1".to_string()),
        Value::Int(5),
        Value::Int(6),
    ]);
    assert_eq!(
        compile("(add1 5 6)"),
        Err(CompileError::Parse(ParseError::MalformedExpression(
            offending
        )))
    );
}

#[test]
fn unknown_operator_ends_the_compilation() {
    let offending = Value::List(vec![Value::Sym("double".to_string()), Value::Int(5)]);
    assert_eq!(
        compile("(double 5)"),
        Err(CompileError::Parse(ParseError::MalformedExpression(
            offending
        )))
    );
}

#[test]
fn literal_out_of_range_ends_the_compilation() {
    assert_eq!(
        compile("(add1 2147483648)"),
        Err(CompileError::Parse(ParseError::OutOfRange(2147483648)))
    );
    assert_eq!(
        compile_value(&Value::Int(-2147483649)),
        Err(ParseError::OutOfRange(-2147483649))
    );
}

#[test]
fn unreadable_text_ends_the_compilation() {
    assert_eq!(
        compile("(add1 5"),
        Err(CompileError::Read(ReadError {
            message: "unexpected eof".to_string(),
            line: 1,
            column: 6,
            index: 7,
        }))
    );
}

#[test]
fn assemble_indents_and_closes_with_ret() {
    let lines = vec!["mov rax, 1".to_string(), "neg rax".to_string()];
    assert_eq!(
        assemble(&lines),
        "section .text\nglobal our_code_starts_here\nour_code_starts_here:\n    mov rax, 1\n  neg rax\n  ret\n"
    );
}

#[test]
fn assemble_of_no_lines_keeps_the_frame() {
    assert_eq!(
        assemble(&vec![]),
        "section .text\nglobal our_code_starts_here\nour_code_starts_here:\n  \n  ret\n"
    );
}

#[test]
fn assemble_matches_indenting_and_joining_the_lines() {
    let lines = vec![
        "mov rax, 10".to_string(),
        "add rax, 1".to_string(),
        "add rax, 1".to_string(),
        "neg rax".to_string(),
    ];
    let body = lines
        .iter()
        .map(|line| format!("  {}", line))
        .collect::<Vec<_>>()
        .join("\n");
    let expected = format!(
        "section .text\nglobal our_code_starts_here\nour_code_starts_here:\n  {}\n  ret\n",
        body
    );
    assert_eq!(assemble(&lines), expected);
}
