//! The stages in a row: text in, assembly file out.

use vstd::prelude::*;
use crate::codegen::{compile_expr, instructions, lemma_run_instructions, listing, run};
use crate::parser::{
    denotation, lemma_parsed_ok, parse_expr, parsed, well_formed, ParseError, ParseErrorView,
};
use crate::program::{assemble, program_text};
use crate::reader::{read, reading, ReadError, ReadErrorView};
use crate::value::{Value, ValueView};

verus! {

/// The mathematical model of a [`CompileError`].
pub enum CompileErrorView {
    /// The text is no S-expression.
    Read(ReadErrorView),
    /// The S-expression is no expression of the language.
    Parse(ParseErrorView),
}

/// Why a text could not be compiled. Either stage's failure ends the
/// compilation; nothing is produced beside it.
#[derive(Debug, PartialEq, Eq)]
pub enum CompileError {
    /// The text is no S-expression.
    Read(ReadError),
    /// The S-expression is no expression of the language.
    Parse(ParseError),
}

impl View for CompileError {
    type V = CompileErrorView;

    open spec fn view(&self) -> CompileErrorView {
        match self {
            CompileError::Read(e) => CompileErrorView::Read(e@),
            CompileError::Parse(e) => CompileErrorView::Parse(e@),
        }
    }
}

/// The assembly file of a generic value: that of the expression it parses
/// to, or the parser's error.
pub open spec fn value_compiled(v: ValueView) -> Result<Seq<char>, ParseErrorView> {
    match parsed(v) {
        Ok(e) => Ok(program_text(listing(e))),
        Err(err) => Err(err),
    }
}

/// The assembly file of what the reader made of a text, or the error of the
/// stage that failed.
pub open spec fn compiled(
    outcome: Result<ValueView, ReadErrorView>,
) -> Result<Seq<char>, CompileErrorView> {
    match outcome {
        Ok(v) => match value_compiled(v) {
            Ok(text) => Ok(text),
            Err(err) => Err(CompileErrorView::Parse(err)),
        },
        Err(err) => Err(CompileErrorView::Read(err)),
    }
}

/// A well-formed value parses, and the code generated for it, run from any
/// accumulator, ends with the integer that the value denotes.
pub proof fn lemma_code_computes_denotation(v: ValueView, acc: i32)
    requires
        well_formed(v),
    ensures
        parsed(v) is Ok,
        run(instructions(parsed(v)->Ok_0), acc) == denotation(v),
{
    lemma_parsed_ok(v);
    lemma_run_instructions(parsed(v)->Ok_0, acc);
}

/// Compiles a generic value to the text of an assembly file.
pub fn compile_value(value: &Value) -> (result: Result<String, ParseError>)
    ensures
        match result {
            Ok(text) => value_compiled(value@) == Ok::<Seq<char>, ParseErrorView>(text@),
            Err(err) => value_compiled(value@) == Err::<Seq<char>, ParseErrorView>(err@),
        },
{
    match parse_expr(value) {
        Ok(e) => {
            let lines = compile_expr(&e);
            Ok(assemble(&lines))
        },
        Err(err) => Err(err),
    }
}

/// Compiles the text of one expression to the text of an assembly file.
///
/// The result is [`compiled`] of what the reader makes of the text.
pub fn compile(text: &str) -> (result: Result<String, CompileError>)
    ensures
        match result {
            Ok(out) => compiled(reading(text@)) == Ok::<Seq<char>, CompileErrorView>(out@),
            Err(err) => compiled(reading(text@)) == Err::<Seq<char>, CompileErrorView>(
                err@,
            ),
        },
{
    match read(text) {
        Ok(value) => match compile_value(&value) {
            Ok(out) => Ok(out),
            Err(err) => Err(CompileError::Parse(err)),
        },
        Err(err) => Err(CompileError::Read(err)),
    }
}

} // verus!
