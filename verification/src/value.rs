//! The generic S-expression value that the parser takes as input.

use vstd::prelude::*;

verus! {

/// The mathematical model of a generic value: an atom or a list of values.
pub enum ValueView {
    /// An integer atom.
    Int(int),
    /// A symbol atom, by its characters.
    Sym(Seq<char>),
    /// A floating-point atom, by the bit pattern of its IEEE 754 double.
    Float(u64),
    /// A list of values, in order.
    List(Seq<ValueView>),
}

/// A generic S-expression value, as a reader hands it over.
///
/// A floating-point atom is held by its bit pattern; the language has no use
/// for one, and the pattern is kept so that a diagnostic can show the atom.
#[derive(Debug, PartialEq, Eq)]
pub enum Value {
    /// An integer atom.
    Int(i64),
    /// A symbol atom.
    Sym(String),
    /// A floating-point atom, by the bit pattern of its IEEE 754 double.
    Float(u64),
    /// A list of values, in order.
    List(Vec<Value>),
}

impl View for Value {
    type V = ValueView;

    open spec fn view(&self) -> ValueView {
        self.model()
    }
}

impl Value {
    /// The value as a tree of plain values.
    pub open spec fn model(self) -> ValueView
        decreases self,
    {
        match self {
            Value::Int(n) => ValueView::Int(n as int),
            Value::Sym(name) => ValueView::Sym(name@),
            Value::Float(bits) => ValueView::Float(bits),
            Value::List(items) => ValueView::List(
                Seq::new(
                    items@.len(),
                    |i: int|
                        if 0 <= i < items@.len() {
                            items@[i].model()
                        } else {
                            ValueView::List(Seq::empty())
                        },
                ),
            ),
        }
    }

    /// A deep copy of the value.
    pub fn duplicate(&self) -> (copy: Value)
        ensures
            copy@ == self@,
        decreases self,
    {
        match self {
            Value::Int(n) => Value::Int(*n),
            Value::Sym(name) => Value::Sym(name.clone()),
            Value::Float(bits) => Value::Float(*bits),
            Value::List(items) => {
                let mut copies: Vec<Value> = Vec::new();
                let mut i: usize = 0;
                while i < items.len()
                    invariant
                        self is List,
                        self->List_0 == *items,
                        i <= items.len(),
                        copies@.len() == i,
                        forall|k: int| 0 <= k < i ==> copies@[k]@ == items@[k]@,
                    decreases items.len() - i,
                {
                    proof {
                        assert(decreases_to!(*self => self->List_0));
                    }
                    copies.push(items[i].duplicate());
                    i = i + 1;
                }
                let copy = Value::List(copies);
                assert(copy@->List_0 =~= self@->List_0);
                copy
            },
        }
    }
}

} // verus!
