//! From text to a generic value, through the `sexp` crate's reader.
//!
//! The reader's own value type stays opaque here. One trusted function looks
//! at a single level of such a value; the verified [`read`] walks the whole
//! tree with it and hands back a [`Value`].

use vstd::prelude::*;
use sexp::{Atom, Sexp};
use crate::value::{Value, ValueView};

verus! {

/// The `sexp` crate's value type, `sexp::Sexp`, as an opaque type.
#[verifier::external_type_specification]
#[verifier::external_body]
pub struct ExSexp(sexp::Sexp);

/// The tree of plain values that a `sexp::Sexp` holds.
///
/// Nothing is known of it but what [`node`] states, level by level.
pub uninterp spec fn shape(s: Sexp) -> ValueView;

/// What `sexp::parse` makes of a text: the tree it reads, or its complaint.
///
/// The reader looks at nothing but its argument, so the result is a function
/// of the text.
pub uninterp spec fn reading(text: Seq<char>) -> Result<ValueView, ReadErrorView>;

/// The mathematical model of a [`ReadError`].
pub struct ReadErrorView {
    /// The reader's message.
    pub message: Seq<char>,
    /// The line of the fault, counted from one.
    pub line: nat,
    /// The column of the fault, counted from zero.
    pub column: nat,
    /// The byte index in the text at which the reader stopped.
    pub index: nat,
}

/// The reader's complaint about a text that is no S-expression.
#[derive(Debug, PartialEq, Eq)]
pub struct ReadError {
    /// The reader's message.
    pub message: String,
    /// The line of the fault, counted from one.
    pub line: usize,
    /// The column of the fault, counted from zero.
    pub column: usize,
    /// The byte index in the text at which the reader stopped.
    pub index: usize,
}

impl View for ReadError {
    type V = ReadErrorView;

    open spec fn view(&self) -> ReadErrorView {
        ReadErrorView {
            message: self.message@,
            line: self.line as nat,
            column: self.column as nat,
            index: self.index as nat,
        }
    }
}

/// The top level of a reader value: an atom's payload, or a list's items.
enum Node<'a> {
    Int(i64),
    Sym(&'a String),
    Float(u64),
    List(&'a Vec<Sexp>),
}

/// Tells the variants of `sexp::Sexp` and `sexp::Atom` apart and hands out
/// what the variant holds: the integer, the symbol, the float's bit pattern
/// (`f64::to_bits`), or the items of the list. The contract says that
/// [`shape`] is this, level by level.
#[verifier::external_body]
fn node(s: &Sexp) -> (n: Node<'_>)
    ensures
        match n {
            Node::Int(i) => shape(*s) == ValueView::Int(i as int),
            Node::Sym(name) => shape(*s) == ValueView::Sym(name@),
            Node::Float(bits) => shape(*s) == ValueView::Float(bits),
            Node::List(items) => shape(*s) == ValueView::List(
                items@.map_values(|item: Sexp| shape(item)),
            ),
        },
{
    match s {
        Sexp::Atom(Atom::I(i)) => Node::Int(*i),
        Sexp::Atom(Atom::S(name)) => Node::Sym(name),
        Sexp::Atom(Atom::F(x)) => Node::Float(x.to_bits()),
        Sexp::List(items) => Node::List(items),
    }
}

/// Calls `sexp::parse` on the text. The contract names the outcome
/// [`reading`] of the text: on success the value read has that tree as its
/// [`shape`]; on failure the error holds the message, line, column and index
/// of the reader's own error.
#[verifier::external_body]
fn parse_text(text: &str) -> (outcome: Result<Sexp, ReadError>)
    ensures
        match outcome {
            Ok(s) => reading(text@) == Ok::<ValueView, ReadErrorView>(shape(s)),
            Err(e) => reading(text@) == Err::<ValueView, ReadErrorView>(e@),
        },
{
    match sexp::parse(text) {
        Ok(s) => Ok(s),
        Err(e) => Err(
            ReadError {
                message: e.message.to_string(),
                line: e.line,
                column: e.column,
                index: e.index,
            },
        ),
    }
}

/// Copies a reader value into a [`Value`] of the same shape.
fn lift(s: &Sexp) -> (value: Value)
    ensures
        value@ == shape(*s),
    decreases shape(*s),
{
    match node(s) {
        Node::Int(i) => Value::Int(i),
        Node::Sym(name) => Value::Sym(name.clone()),
        Node::Float(bits) => Value::Float(bits),
        Node::List(items) => {
            let mut values: Vec<Value> = Vec::new();
            let mut i: usize = 0;
            while i < items.len()
                invariant
                    shape(*s) == ValueView::List(items@.map_values(|item: Sexp| shape(item))),
                    i <= items.len(),
                    values@.len() == i,
                    forall|k: int| 0 <= k < i ==> values@[k]@ == shape(items@[k]),
                decreases items.len() - i,
            {
                proof {
                    assert(decreases_to!(shape(*s) => shape(*s)->List_0));
                    assert(shape(*s)->List_0[i as int] == shape(items@[i as int]));
                }
                values.push(lift(&items[i]));
                i = i + 1;
            }
            let value = Value::List(values);
            assert(value@->List_0 =~= shape(*s)->List_0);
            value
        },
    }
}

/// Reads a text as one S-expression.
///
/// The outcome is the reader's, [`reading`] of the text: the value read, or
/// the reader's complaint.
pub fn read(text: &str) -> (outcome: Result<Value, ReadError>)
    ensures
        match outcome {
            Ok(value) => reading(text@) == Ok::<ValueView, ReadErrorView>(value@),
            Err(e) => reading(text@) == Err::<ValueView, ReadErrorView>(e@),
        },
{
    match parse_text(text) {
        Ok(s) => Ok(lift(&s)),
        Err(e) => Err(e),
    }
}

} // verus!
