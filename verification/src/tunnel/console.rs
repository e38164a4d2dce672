//! Lines shown on the console.

use vstd::prelude::*;

verus! {

/// A line for the console.
#[derive(Debug)]
pub enum Line {
    /// For standard output.
    Output(String),
    /// For standard error.
    Error(String),
}

/// The content of a [`Line`].
pub enum Shown {
    /// On standard output.
    Output(Seq<char>),
    /// On standard error.
    Error(Seq<char>),
}

impl View for Line {
    type V = Shown;

    open spec fn view(&self) -> Shown {
        match self {
            Line::Output(text) => Shown::Output(text@),
            Line::Error(text) => Shown::Error(text@),
        }
    }
}

/// The content of a line that there may or may not be.
pub open spec fn shown(line: Option<Line>) -> Option<Shown> {
    match line {
        Some(line) => Some(line@),
        None => None,
    }
}

/// What is shown of a line is its text, on the stream that it is for.
pub proof fn lines_are_shown_as_they_are(text: String)
    ensures
        shown(Some(Line::Output(text))) == Some(Shown::Output(text@)),
        shown(Some(Line::Error(text))) == Some(Shown::Error(text@)),
        shown(None) is None,
{
}

/// A text followed by another.
pub(crate) fn joined(first: &str, second: &str) -> (text: String)
    ensures
        text@ == first@ + second@,
{
    let mut text = first.to_owned();
    text.append(second);
    text
}

/// A line for standard error: what failed, and why.
pub(crate) fn failure(what: &str, why: &str) -> (line: Line)
    ensures
        line@ == Shown::Error(what@ + why@),
{
    Line::Error(joined(what, why))
}

} // verus!
