//! From a generic value to an expression: the grammar and its range rule.
//!
//! Four forms are expressions: an integer atom within the signed 32-bit
//! range, and a list of exactly two elements whose head is the symbol
//! `add1`, `sub1` or `negate` and whose second element is an expression.

use vstd::prelude::*;
use crate::expr::{negation, predecessor, successor, Expr};
use crate::value::{Value, ValueView};

verus! {

/// The three unary operators.
#[derive(Debug, Clone, Copy, PartialEq, Eq, Structural)]
pub enum Operator {
    /// Written `add1`.
    Add1,
    /// Written `sub1`.
    Sub1,
    /// Written `negate`.
    Negate,
}

impl Operator {
    /// The operator that a symbol names, compared character by character.
    pub open spec fn named(name: Seq<char>) -> Option<Operator> {
        if name == "add1"@ {
            Some(Operator::Add1)
        } else if name == "sub1"@ {
            Some(Operator::Sub1)
        } else if name == "negate"@ {
            Some(Operator::Negate)
        } else {
            None
        }
    }

    /// The node that applies the operator to an operand.
    pub open spec fn node(self, operand: Expr) -> Expr {
        match self {
            Operator::Add1 => Expr::Add1(Box::new(operand)),
            Operator::Sub1 => Expr::Sub1(Box::new(operand)),
            Operator::Negate => Expr::Negate(Box::new(operand)),
        }
    }

    /// Looks a symbol up among the operator names.
    pub fn from_name(name: &str) -> (found: Option<Operator>)
        ensures
            found == Operator::named(name@),
    {
        let name = String::from_str(name);
        if name == String::from_str("add1") {
            Some(Operator::Add1)
        } else if name == String::from_str("sub1") {
            Some(Operator::Sub1)
        } else if name == String::from_str("negate") {
            Some(Operator::Negate)
        } else {
            None
        }
    }

    /// Builds the node that applies the operator to an operand.
    pub fn apply(self, operand: Expr) -> (expr: Expr)
        ensures
            expr == self.node(operand),
    {
        match self {
            Operator::Add1 => Expr::Add1(Box::new(operand)),
            Operator::Sub1 => Expr::Sub1(Box::new(operand)),
            Operator::Negate => Expr::Negate(Box::new(operand)),
        }
    }
}

/// The mathematical model of a [`ParseError`].
pub enum ParseErrorView {
    /// The value that matches no form.
    MalformedExpression(ValueView),
    /// The integer atom outside the signed 32-bit range.
    OutOfRange(int),
}

/// Why a generic value is not an expression.
#[derive(Debug, PartialEq, Eq)]
pub enum ParseError {
    /// A value matches none of the four forms; it is carried here.
    MalformedExpression(Value),
    /// An integer atom does not fit the signed 32-bit range; it is carried here.
    OutOfRange(i64),
}

impl View for ParseError {
    type V = ParseErrorView;

    open spec fn view(&self) -> ParseErrorView {
        match self {
            ParseError::MalformedExpression(value) => ParseErrorView::MalformedExpression(value@),
            ParseError::OutOfRange(n) => ParseErrorView::OutOfRange(*n as int),
        }
    }
}

/// Whether a value is a list of two elements headed by an operator name.
pub open spec fn is_application(v: ValueView) -> bool {
    &&& v matches ValueView::List(items)
    &&& items.len() == 2
    &&& items[0] matches ValueView::Sym(name)
    &&& Operator::named(name) is Some
}

/// The operator at the head of an application.
pub open spec fn head(v: ValueView) -> Operator
    recommends
        is_application(v),
{
    Operator::named(v->List_0[0]->Sym_0)->Some_0
}

/// The operand of an application.
pub open spec fn operand(v: ValueView) -> ValueView
    recommends
        is_application(v),
{
    v->List_0[1]
}

/// What parsing a value gives: the expression it denotes, or the first
/// failure met on the way from the value down through the operands.
pub open spec fn parsed(v: ValueView) -> Result<Expr, ParseErrorView>
    decreases v,
{
    match v {
        ValueView::Int(n) => if i32::MIN <= n <= i32::MAX {
            Ok(Expr::Num(n as i32))
        } else {
            Err(ParseErrorView::OutOfRange(n))
        },
        ValueView::List(_) => if is_application(v) {
            match parsed(operand(v)) {
                Ok(e) => Ok(head(v).node(e)),
                Err(err) => Err(err),
            }
        } else {
            Err(ParseErrorView::MalformedExpression(v))
        },
        _ => Err(ParseErrorView::MalformedExpression(v)),
    }
}

/// Whether a value has the shape of an expression at every level: an integer
/// atom of any size, or an application whose operand has that shape.
pub open spec fn grammatical(v: ValueView) -> bool
    decreases v,
{
    match v {
        ValueView::Int(_) => true,
        ValueView::List(_) => is_application(v) && grammatical(operand(v)),
        _ => false,
    }
}

/// Whether a value is an expression: it has the shape of one, and its literal
/// fits the signed 32-bit range.
pub open spec fn well_formed(v: ValueView) -> bool
    decreases v,
{
    match v {
        ValueView::Int(n) => i32::MIN <= n <= i32::MAX,
        ValueView::List(_) => is_application(v) && well_formed(operand(v)),
        _ => false,
    }
}

/// The value at the end of the chain of operands: the first one, from the
/// outside in, that is no application.
pub open spec fn innermost(v: ValueView) -> ValueView
    decreases v,
{
    if is_application(v) {
        innermost(operand(v))
    } else {
        v
    }
}

/// The integer that a well-formed value denotes, read off the value itself.
pub open spec fn denotation(v: ValueView) -> i32
    recommends
        well_formed(v),
    decreases v,
{
    match v {
        ValueView::Int(n) => n as i32,
        ValueView::List(_) => if is_application(v) {
            match head(v) {
                Operator::Add1 => successor(denotation(operand(v))),
                Operator::Sub1 => predecessor(denotation(operand(v))),
                Operator::Negate => negation(denotation(operand(v))),
            }
        } else {
            0
        },
        _ => 0,
    }
}

/// Parsing succeeds on the well-formed values and on no others, and the
/// expression it gives denotes what the value denotes.
pub proof fn lemma_parsed_ok(v: ValueView)
    ensures
        parsed(v) is Ok <==> well_formed(v),
        well_formed(v) ==> parsed(v)->Ok_0.value() == denotation(v),
    decreases v,
{
    if is_application(v) {
        lemma_parsed_ok(operand(v));
    }
}

/// A value that has not the shape of an expression is refused as malformed,
/// and the error carries the sub-value that matches no form; nothing else is
/// refused so.
pub proof fn lemma_parsed_malformed(v: ValueView)
    ensures
        !grammatical(v) <==> parsed(v) is Err && parsed(v)->Err_0 is MalformedExpression,
        !grammatical(v) ==> parsed(v) == Err::<Expr, ParseErrorView>(
            ParseErrorView::MalformedExpression(innermost(v)),
        ),
    decreases v,
{
    if is_application(v) {
        lemma_parsed_malformed(operand(v));
    }
}

/// A value with the shape of an expression whose literal lies outside the
/// signed 32-bit range is refused as out of range, and the error carries the
/// literal; nothing else is refused so.
pub proof fn lemma_parsed_out_of_range(v: ValueView)
    ensures
        grammatical(v) && !well_formed(v) <==> parsed(v) is Err && parsed(v)->Err_0 is OutOfRange,
        grammatical(v) && !well_formed(v) ==> parsed(v) == Err::<Expr, ParseErrorView>(
            ParseErrorView::OutOfRange(innermost(v)->Int_0),
        ),
    decreases v,
{
    if is_application(v) {
        lemma_parsed_out_of_range(operand(v));
    }
}

/// Parses a generic value into an expression.
///
/// The result is [`parsed`] of the value. It is `Ok` exactly for the
/// well-formed values. A value that has not the shape of an expression is
/// refused as malformed, with the sub-value that matches no form; one that
/// has the shape but a literal outside the signed 32-bit range is refused as
/// out of range, with the literal.
pub fn parse_expr(s: &Value) -> (result: Result<Expr, ParseError>)
    ensures
        match result {
            Ok(e) => parsed(s@) == Ok::<Expr, ParseErrorView>(e),
            Err(err) => parsed(s@) == Err::<Expr, ParseErrorView>(err@),
        },
        result is Ok <==> well_formed(s@),
        result matches Ok(e) ==> e.value() == denotation(s@),
        !grammatical(s@) <==> result is Err && result->Err_0 is MalformedExpression,
        result matches Err(ParseError::MalformedExpression(value)) ==> value@ == innermost(s@),
        grammatical(s@) && !well_formed(s@) <==> result is Err && result->Err_0 is OutOfRange,
        result matches Err(ParseError::OutOfRange(n)) ==> innermost(s@) == ValueView::Int(
            n as int,
        ),
    decreases s,
{
    proof {
        lemma_parsed_ok(s@);
        lemma_parsed_malformed(s@);
        lemma_parsed_out_of_range(s@);
    }
    match s {
        Value::Int(n) => {
            if -2147483648 <= *n && *n <= 2147483647 {
                Ok(Expr::Num(*n as i32))
            } else {
                Err(ParseError::OutOfRange(*n))
            }
        },
        Value::List(items) => {
            if items.len() != 2 {
                return Err(ParseError::MalformedExpression(s.duplicate()));
            }
            proof {
                assert(s@->List_0[0] == items@[0]@);
                assert(s@->List_0[1] == items@[1]@);
            }
            match &items[0] {
                Value::Sym(name) => match Operator::from_name(name.as_str()) {
                    Some(op) => {
                        proof {
                            assert(decreases_to!(*s => s->List_0));
                        }
                        match parse_expr(&items[1]) {
                            Ok(e) => Ok(op.apply(e)),
                            Err(err) => Err(err),
                        }
                    },
                    None => Err(ParseError::MalformedExpression(s.duplicate())),
                },
                _ => Err(ParseError::MalformedExpression(s.duplicate())),
            }
        },
        _ => Err(ParseError::MalformedExpression(s.duplicate())),
    }
}

} // verus!
