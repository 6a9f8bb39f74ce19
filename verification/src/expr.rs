//! The abstract syntax tree and its meaning.

use vstd::prelude::*;

verus! {

/// An expression: a literal, or one unary operator over a single operand.
///
/// A literal is an `i32`, so every tree holds only values of the signed
/// 32-bit range. Each operator node owns its operand.
#[derive(Debug, PartialEq, Eq)]
pub enum Expr {
    /// An integer literal.
    Num(i32),
    /// The operand plus one.
    Add1(Box<Expr>),
    /// The operand minus one.
    Sub1(Box<Expr>),
    /// The operand with its sign changed.
    Negate(Box<Expr>),
}

/// `x + 1` in two's complement: the largest value wraps to the smallest.
pub open spec fn successor(x: i32) -> i32 {
    if x == i32::MAX {
        i32::MIN
    } else {
        (x + 1) as i32
    }
}

/// `x - 1` in two's complement: the smallest value wraps to the largest.
pub open spec fn predecessor(x: i32) -> i32 {
    if x == i32::MIN {
        i32::MAX
    } else {
        (x - 1) as i32
    }
}

/// `-x` in two's complement: the smallest value is its own negation.
pub open spec fn negation(x: i32) -> i32 {
    if x == i32::MIN {
        i32::MIN
    } else {
        (-x) as i32
    }
}

/// The operand of an operator node; a literal stands for itself.
pub open spec fn operand_of(e: Expr) -> Expr {
    match e {
        Expr::Num(_) => e,
        Expr::Add1(operand) => *operand,
        Expr::Sub1(operand) => *operand,
        Expr::Negate(operand) => *operand,
    }
}

impl Expr {
    /// The integer that the expression denotes.
    pub open spec fn value(self) -> i32
        decreases self,
    {
        match self {
            Expr::Num(n) => n,
            Expr::Add1(operand) => successor(operand.value()),
            Expr::Sub1(operand) => predecessor(operand.value()),
            Expr::Negate(operand) => negation(operand.value()),
        }
    }

    /// The number of operators above the literal.
    pub open spec fn depth(self) -> nat
        decreases self,
    {
        match self {
            Expr::Num(_) => 0,
            Expr::Add1(operand) => operand.depth() + 1,
            Expr::Sub1(operand) => operand.depth() + 1,
            Expr::Negate(operand) => operand.depth() + 1,
        }
    }

    /// Evaluates the expression directly on its structure.
    pub fn eval(&self) -> (result: i32)
        ensures
            result == self.value(),
        decreases self,
    {
        match self {
            Expr::Num(n) => *n,
            Expr::Add1(operand) => operand.eval().wrapping_add(1),
            Expr::Sub1(operand) => operand.eval().wrapping_sub(1),
            Expr::Negate(operand) => 0i32.wrapping_sub(operand.eval()),
        }
    }
}

} // verus!
