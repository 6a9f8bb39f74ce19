//! The assembly file around the instructions of an expression.
//!
//! The file declares the entry point `our_code_starts_here`, holds the
//! instruction lines under it, and ends with a `ret`.

use vstd::prelude::*;

verus! {

/// The lines, each behind two spaces, with a line feed between neighbours.
pub open spec fn indented(lines: Seq<Seq<char>>) -> Seq<char>
    decreases lines.len(),
{
    if lines.len() == 0 {
        Seq::empty()
    } else if lines.len() == 1 {
        "  "@ + lines[0]
    } else {
        indented(lines.drop_last()) + "\n"@ + "  "@ + lines.last()
    }
}

/// The text of the assembly file for the given instruction lines.
///
/// The label's line is followed by two spaces, the indented lines, and the
/// final `ret`, so the first instruction stands behind four spaces and the
/// others behind two.
pub open spec fn program_text(lines: Seq<Seq<char>>) -> Seq<char> {
    "section .text\nglobal our_code_starts_here\nour_code_starts_here:\n  "@ + indented(lines)
        + "\n  ret\n"@
}

/// Writes the assembly file for the given instruction lines.
pub fn assemble(lines: &Vec<String>) -> (text: String)
    ensures
        text@ == program_text(lines.deep_view()),
{
    let mut text = String::from_str(
        "section .text\nglobal our_code_starts_here\nour_code_starts_here:\n  ",
    );
    let ghost head = text@;
    let ghost all = lines.deep_view();
    let mut i: usize = 0;
    while i < lines.len()
        invariant
            i <= lines.len(),
            all == lines.deep_view(),
            text@ == head + indented(all.take(i as int)),
        decreases lines.len() - i,
    {
        if i > 0 {
            text.append("\n");
        }
        text.append("  ");
        text.append(lines[i].as_str());
        proof {
            let before = all.take(i as int);
            let after = all.take(i + 1);
            assert(after.drop_last() =~= before);
            assert(after.last() == lines@[i as int]@);
            assert(text@ =~= head + indented(after));
        }
        i = i + 1;
    }
    assert(all.take(lines.len() as int) =~= all);
    text.append("\n  ret\n");
    text
}

} // verus!
