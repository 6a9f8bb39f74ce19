use adder::codegen::{compile_expr, execute, generate, render_lines, Instr};
use adder::expr::Expr;
use adder::parser::parse_expr;
use adder::reader::read;

fn num(n: i32) -> Expr {
    Expr::Num(n)
}

fn add1(e: Expr) -> Expr {
    Expr::Add1(Box::new(e))
}

fn sub1(e: Expr) -> Expr {
    Expr::Sub1(Box::new(e))
}

fn negate(e: Expr) -> Expr {
    Expr::Negate(Box::new(e))
}

fn expr_of(text: &str) -> Expr {
    parse_expr(&read(text).unwrap()).unwrap()
}

#[test]
fn literal_loads_the_accumulator() {
    let e = expr_of("5");
    assert_eq!(e, num(5));
    assert_eq!(compile_expr(&e), vec!["mov rax, 5".to_string()]);
    assert_eq!(generate(&e), vec![Instr::Load(5)]);
    assert_eq!(execute(&generate(&e), 0), 5);
}

#[test]
fn increment_follows_its_operand() {
    let e = expr_of("(add1 5)");
    assert_eq!(e, add1(num(5)));
    assert_eq!(
        compile_expr(&e),
        vec!["mov rax, 5".to_string(), "add rax, 1".to_string()]
    );
    assert_eq!(execute(&generate(&e), 0), 6);
}

#[test]
fn nested_operators_run_from_the_inside_out() {
    let e = expr_of("(negate (sub1 (add1 5)))");
    assert_eq!(e, negate(sub1(add1(num(5)))));
    assert_eq!(
        compile_expr(&e),
        vec![
            "mov rax, 5".to_string(),
            "add rax, 1".to_string(),
            "sub rax, 1".to_string(),
            "neg rax".to_string(),
        ]
    );
    assert_eq!(
        generate(&e),
        vec![Instr::Load(5), Instr::AddOne, Instr::SubOne, Instr::Negate]
    );
    assert_eq!(execute(&generate(&e), 0), -5);
    assert_eq!(e.eval(), -5);
}

#[test]
fn literals_are_written_in_signed_decimal() {
    assert_eq!(Instr::Load(0).render(), "mov rax, 0");
    assert_eq!(Instr::Load(7).render(), "mov rax, 7");
    assert_eq!(Instr::Load(10).render(), "mov rax, 10");
    assert_eq!(Instr::Load(-1).render(), "mov rax, -1");
    assert_eq!(Instr::Load(1002003).render(), "mov rax, 1002003");
    assert_eq!(Instr::Load(2147483647).render(), "mov rax, 2147483647");
    assert_eq!(Instr::Load(-2147483648).render(), "mov rax, -2147483648");
}

#[test]
fn decimal_agrees_with_the_standard_notation() {
    for n in [0, 1, 9, 10, 11, 99, 100, 101, 4096, -1, -9, -10, -100, -65535, i32::MAX, i32::MIN] {
        assert_eq!(Instr::Load(n).render(), format!("mov rax, {}", n));
    }
}

#[test]
fn operators_have_fixed_text() {
    assert_eq!(Instr::AddOne.render(), "add rax, 1");
    assert_eq!(Instr::SubOne.render(), "sub rax, 1");
    assert_eq!(Instr::Negate.render(), "neg rax");
}

#[test]
fn render_lines_keeps_order_and_length() {
    let code = vec![Instr::Negate, Instr::Load(-3), Instr::SubOne];
    assert_eq!(
        render_lines(&code),
        vec![
            "neg rax".to_string(),
            "mov rax, -3".to_string(),
            "sub rax, 1".to_string()
        ]
    );
    assert_eq!(render_lines(&vec![]), Vec::<String>::new());
}

#[test]
fn generating_twice_gives_identical_lines() {
    let e = negate(add1(sub1(num(-12345))));
    let first = compile_expr(&e);
    let second = compile_expr(&e);
    assert_eq!(first, second);
    let first_bytes: Vec<Vec<u8>> = first.iter().map(|l| l.as_bytes().to_vec()).collect();
    let second_bytes: Vec<Vec<u8>> = second.iter().map(|l| l.as_bytes().to_vec()).collect();
    assert_eq!(first_bytes, second_bytes);
}

#[test]
fn generated_code_computes_the_value_of_the_expression() {
    let cases = vec![
        num(0),
        num(-7),
        add1(num(41)),
        sub1(num(0)),
        negate(num(9)),
        negate(negate(num(9))),
        add1(negate(sub1(sub1(add1(num(1000)))))),
        add1(num(i32::MAX)),
        sub1(num(i32::MIN)),
        negate(num(i32::MIN)),
        negate(add1(num(i32::MAX))),
    ];
    for e in cases {
        let code = generate(&e);
        assert_eq!(execute(&code, 0), e.eval());
        assert_eq!(execute(&code, 123456), e.eval());
        assert_eq!(execute(&code, i32::MIN), e.eval());
    }
}

#[test]
fn arithmetic_wraps_in_two_s_complement() {
    assert_eq!(add1(num(i32::MAX)).eval(), i32::MIN);
    assert_eq!(sub1(num(i32::MIN)).eval(), i32::MAX);
    assert_eq!(negate(num(i32::MIN)).eval(), i32::MIN);
    assert_eq!(negate(num(i32::MAX)).eval(), -i32::MAX);
    assert_eq!(add1(num(-1)).eval(), 0);
    assert_eq!(sub1(num(0)).eval(), -1);
    assert_eq!(negate(num(0)).eval(), 0);
}

#[test]
fn instructions_act_on_the_accumulator_alone() {
    assert_eq!(Instr::Load(8).apply(-1), 8);
    assert_eq!(Instr::AddOne.apply(8), 9);
    assert_eq!(Instr::SubOne.apply(8), 7);
    assert_eq!(Instr::Negate.apply(8), -8);
    assert_eq!(Instr::AddOne.apply(i32::MAX), i32::MIN);
    assert_eq!(Instr::SubOne.apply(i32::MIN), i32::MAX);
    assert_eq!(Instr::Negate.apply(i32::MIN), i32::MIN);
    assert_eq!(execute(&vec![], 77), 77);
    assert_eq!(execute(&vec![Instr::AddOne, Instr::AddOne], 77), 79);
}

#[test]
fn code_has_one_instruction_per_node() {
    let e = add1(add1(add1(num(1))));
    assert_eq!(generate(&e).len(), 4);
    assert_eq!(compile_expr(&e).len(), 4);
    assert_eq!(generate(&num(1)).len(), 1);
}
