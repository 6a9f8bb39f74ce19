//! From an expression to instructions for a one-register machine.
//!
//! The machine has a single accumulator, the register `rax`. The code of an
//! expression is the code of its operand followed by one instruction for the
//! operator, so the accumulator holds the operand's value when the operator's
//! instruction runs.

use vstd::prelude::*;
use crate::decimal::{decimal, lemma_decimal_injective, push_decimal};
use crate::expr::{negation, operand_of, predecessor, successor, Expr};

verus! {

/// One instruction of the machine.
#[derive(Debug, Clone, Copy, PartialEq, Eq, Structural)]
pub enum Instr {
    /// Puts a literal into the accumulator.
    Load(i32),
    /// Adds one to the accumulator.
    AddOne,
    /// Subtracts one from the accumulator.
    SubOne,
    /// Negates the accumulator.
    Negate,
}

impl Instr {
    /// The instruction as a line of assembly text.
    pub open spec fn text(self) -> Seq<char> {
        match self {
            Instr::Load(n) => "mov rax, "@ + decimal(n as int),
            Instr::AddOne => "add rax, 1"@,
            Instr::SubOne => "sub rax, 1"@,
            Instr::Negate => "neg rax"@,
        }
    }

    /// The accumulator after the instruction has run on `acc`, in two's
    /// complement.
    pub open spec fn step(self, acc: i32) -> i32 {
        match self {
            Instr::Load(n) => n,
            Instr::AddOne => successor(acc),
            Instr::SubOne => predecessor(acc),
            Instr::Negate => negation(acc),
        }
    }

    /// Writes the instruction as a line of assembly text.
    pub fn render(&self) -> (line: String)
        ensures
            line@ == self.text(),
    {
        match self {
            Instr::Load(n) => {
                let mut line = String::from_str("mov rax, ");
                push_decimal(*n, &mut line);
                line
            },
            Instr::AddOne => String::from_str("add rax, 1"),
            Instr::SubOne => String::from_str("sub rax, 1"),
            Instr::Negate => String::from_str("neg rax"),
        }
    }

    /// Runs the instruction on the accumulator.
    pub fn apply(&self, acc: i32) -> (next: i32)
        ensures
            next == self.step(acc),
    {
        match self {
            Instr::Load(n) => *n,
            Instr::AddOne => acc.wrapping_add(1),
            Instr::SubOne => acc.wrapping_sub(1),
            Instr::Negate => 0i32.wrapping_sub(acc),
        }
    }
}

/// The code of an expression: the operand's code, then the operator's
/// instruction; a literal is a single load.
pub open spec fn instructions(e: Expr) -> Seq<Instr>
    decreases e,
{
    match e {
        Expr::Num(n) => seq![Instr::Load(n)],
        Expr::Add1(operand) => instructions(*operand).push(Instr::AddOne),
        Expr::Sub1(operand) => instructions(*operand).push(Instr::SubOne),
        Expr::Negate(operand) => instructions(*operand).push(Instr::Negate),
    }
}

/// The accumulator after the instructions have run in order, starting
/// from `acc`.
pub open spec fn run(code: Seq<Instr>, acc: i32) -> i32
    decreases code.len(),
{
    if code.len() == 0 {
        acc
    } else {
        run(code.drop_first(), code[0].step(acc))
    }
}

/// The lines of assembly text of a sequence of instructions.
pub open spec fn lines_of(code: Seq<Instr>) -> Seq<Seq<char>> {
    code.map_values(|i: Instr| i.text())
}

/// The assembly text of an expression, line by line.
pub open spec fn listing(e: Expr) -> Seq<Seq<char>> {
    lines_of(instructions(e))
}

/// Running a sequence and then one more instruction is running the longer
/// sequence.
pub proof fn lemma_run_push(code: Seq<Instr>, last: Instr, acc: i32)
    ensures
        run(code.push(last), acc) == last.step(run(code, acc)),
    decreases code.len(),
{
    let longer = code.push(last);
    if code.len() == 0 {
        assert(longer.drop_first() =~= Seq::<Instr>::empty());
        assert(run(longer.drop_first(), longer[0].step(acc)) == longer[0].step(acc));
    } else {
        assert(longer.drop_first() =~= code.drop_first().push(last));
        lemma_run_push(code.drop_first(), last, code[0].step(acc));
    }
}

/// The code of an expression, run from any accumulator, ends with the value
/// of the expression in the accumulator.
pub proof fn lemma_run_instructions(e: Expr, acc: i32)
    ensures
        run(instructions(e), acc) == e.value(),
    decreases e,
{
    match e {
        Expr::Num(n) => {
            let code = instructions(e);
            assert(code.drop_first() =~= Seq::<Instr>::empty());
            assert(run(code.drop_first(), code[0].step(acc)) == n);
        },
        Expr::Add1(operand) => {
            lemma_run_instructions(*operand, acc);
            lemma_run_push(instructions(*operand), Instr::AddOne, acc);
        },
        Expr::Sub1(operand) => {
            lemma_run_instructions(*operand, acc);
            lemma_run_push(instructions(*operand), Instr::SubOne, acc);
        },
        Expr::Negate(operand) => {
            lemma_run_instructions(*operand, acc);
            lemma_run_push(instructions(*operand), Instr::Negate, acc);
        },
    }
}

/// The code of an expression holds one instruction for the literal and one
/// for each operator.
pub proof fn lemma_instructions_len(e: Expr)
    ensures
        instructions(e).len() == e.depth() + 1,
    decreases e,
{
    match e {
        Expr::Num(_) => {},
        Expr::Add1(operand) => lemma_instructions_len(*operand),
        Expr::Sub1(operand) => lemma_instructions_len(*operand),
        Expr::Negate(operand) => lemma_instructions_len(*operand),
    }
}

/// Appends the code of `e` to `out`.
fn emit(e: &Expr, out: &mut Vec<Instr>)
    ensures
        final(out)@ == old(out)@ + instructions(*e),
    decreases e,
{
    match e {
        Expr::Num(n) => {
            out.push(Instr::Load(*n));
        },
        Expr::Add1(operand) => {
            emit(operand, out);
            out.push(Instr::AddOne);
        },
        Expr::Sub1(operand) => {
            emit(operand, out);
            out.push(Instr::SubOne);
        },
        Expr::Negate(operand) => {
            emit(operand, out);
            out.push(Instr::Negate);
        },
    }
    assert(out@ =~= old(out)@ + instructions(*e));
}

/// Generates the instructions that leave the value of `e` in the
/// accumulator.
pub fn generate(e: &Expr) -> (code: Vec<Instr>)
    ensures
        code@ == instructions(*e),
{
    let mut code: Vec<Instr> = Vec::new();
    emit(e, &mut code);
    assert(code@ =~= instructions(*e));
    code
}

/// Writes each instruction as a line of assembly text.
pub fn render_lines(code: &Vec<Instr>) -> (lines: Vec<String>)
    ensures
        lines.deep_view() == lines_of(code@),
{
    let mut lines: Vec<String> = Vec::new();
    let mut i: usize = 0;
    while i < code.len()
        invariant
            i <= code.len(),
            lines@.len() == i,
            forall|k: int| 0 <= k < i ==> lines@[k]@ == code@[k].text(),
        decreases code.len() - i,
    {
        lines.push(code[i].render());
        i = i + 1;
    }
    assert(lines.deep_view() =~= lines_of(code@));
    lines
}

/// Compiles an expression to assembly text, one instruction per line.
///
/// The lines are those of [`listing`]: generation cannot fail, and the same
/// expression always gives the same lines.
pub fn compile_expr(e: &Expr) -> (lines: Vec<String>)
    ensures
        lines.deep_view() == listing(*e),
{
    let code = generate(e);
    render_lines(&code)
}

/// Different instructions have different text.
pub proof fn lemma_text_injective(i: Instr, j: Instr)
    requires
        i.text() == j.text(),
    ensures
        i == j,
{
    reveal_strlit("mov rax, ");
    reveal_strlit("add rax, 1");
    reveal_strlit("sub rax, 1");
    reveal_strlit("neg rax");
    let load = "mov rax, "@;
    assert(load.len() == 9 && load[0] == 'm');
    assert(Instr::AddOne.text()[0] == 'a');
    assert(Instr::SubOne.text()[0] == 's');
    assert(Instr::Negate.text()[0] == 'n');
    assert(i is Load ==> i.text()[0] == load[0]);
    assert(j is Load ==> j.text()[0] == load[0]);
    match (i, j) {
        (Instr::Load(n), Instr::Load(m)) => {
            assert((load + decimal(n as int)).skip(9) =~= decimal(n as int));
            assert((load + decimal(m as int)).skip(9) =~= decimal(m as int));
            lemma_decimal_injective(n as int, m as int);
        },
        _ => {},
    }
}

/// Different sequences of instructions have different lines.
pub proof fn lemma_lines_injective(a: Seq<Instr>, b: Seq<Instr>)
    requires
        lines_of(a) == lines_of(b),
    ensures
        a == b,
{
    assert(a.len() == lines_of(a).len());
    assert(b.len() == lines_of(b).len());
    assert forall|k: int| 0 <= k < a.len() implies a[k] == b[k] by {
        assert(lines_of(a)[k] == a[k].text());
        assert(lines_of(b)[k] == b[k].text());
        lemma_text_injective(a[k], b[k]);
    }
    assert(a =~= b);
}

/// Different expressions have different code.
pub proof fn lemma_instructions_injective(d: Expr, e: Expr)
    requires
        instructions(d) == instructions(e),
    ensures
        d == e,
    decreases d,
{
    lemma_instructions_len(d);
    lemma_instructions_len(e);
    let code = instructions(d);
    match (d, e) {
        (Expr::Num(_), Expr::Num(_)) => {
            assert(instructions(d)[0] == instructions(e)[0]);
        },
        (Expr::Num(_), _) => {},
        (_, Expr::Num(_)) => {},
        _ => {
            let inner_d = operand_of(d);
            let inner_e = operand_of(e);
            assert(instructions(d).drop_last() =~= instructions(inner_d));
            assert(instructions(e).drop_last() =~= instructions(inner_e));
            assert(instructions(d).last() == instructions(e).last());
            lemma_instructions_injective(inner_d, inner_e);
        },
    }
}

/// The lines of an expression determine it: whatever instructions are read
/// off the lines are the code of the expression, and no other expression
/// has the same lines.
pub proof fn lemma_listing_determines(d: Expr, e: Expr)
    requires
        listing(d) == listing(e),
    ensures
        d == e,
{
    lemma_lines_injective(instructions(d), instructions(e));
    lemma_instructions_injective(d, e);
}

/// Whatever instructions stand behind the lines written for an expression,
/// running them from any accumulator ends with the value of the expression.
pub proof fn lemma_listing_computes_value(e: Expr, code: Seq<Instr>, acc: i32)
    requires
        lines_of(code) == listing(e),
    ensures
        run(code, acc) == e.value(),
{
    lemma_lines_injective(code, instructions(e));
    lemma_run_instructions(e, acc);
}

/// Compiling is repeatable: two results of compiling one expression hold
/// the same lines, character for character.
pub proof fn lemma_compile_repeatable(e: Expr, first: Vec<String>, second: Vec<String>)
    requires
        first.deep_view() == listing(e),
        second.deep_view() == listing(e),
    ensures
        first.deep_view() == second.deep_view(),
{
}

/// Runs the instructions in order on the accumulator.
pub fn execute(code: &Vec<Instr>, acc: i32) -> (result: i32)
    ensures
        result == run(code@, acc),
{
    let mut current: i32 = acc;
    let mut i: usize = 0;
    assert(code@.skip(0) =~= code@);
    while i < code.len()
        invariant
            i <= code.len(),
            run(code@, acc) == run(code@.skip(i as int), current),
        decreases code.len() - i,
    {
        assert(code@.skip(i as int).drop_first() =~= code@.skip(i + 1));
        current = code[i].apply(current);
        i = i + 1;
    }
    current
}

} // verus!
