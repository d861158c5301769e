//! The answer of a checker. A checker writes its decision as lines of the
//! form `key=value`; the only key is `outcome`, it has to be given once, and
//! nothing else may stand in the file.

use vstd::prelude::*;

verus! {

#[allow(non_camel_case_types)]
#[derive(Clone, Copy, Debug, PartialEq, Eq, Structural)]
pub enum Outcome {
    OK,
    WrongAnswer,
    PresentationError,
    BadChecker,
}

#[derive(Clone, Copy, Debug, PartialEq, Eq, Structural)]
pub struct Output {
    pub outcome: Outcome,
}

/// Whether `text` is the line `line`, with or without the end of the line
/// (a line feed, or a carriage return and a line feed).
pub open spec fn is_single_line(text: Seq<char>, line: Seq<char>) -> bool {
    text == line || text == line + seq!['\n'] || text == line + seq!['\r', '\n']
}

/// The decision that a text holds, if it is a well-formed decision.
pub open spec fn decision(text: Seq<char>) -> Option<Outcome> {
    if is_single_line(text, "outcome=Ok"@) {
        Some(Outcome::OK)
    } else if is_single_line(text, "outcome=WrongAnswer"@) {
        Some(Outcome::WrongAnswer)
    } else if is_single_line(text, "outcome=PresentationError"@) {
        Some(Outcome::PresentationError)
    } else if is_single_line(text, "outcome=BadChecker"@) {
        Some(Outcome::BadChecker)
    } else {
        None
    }
}

fn holds_line(text: &str, line: &str) -> (r: bool)
    ensures
        r == is_single_line(text@, line@),
{
    let given = String::from_str(text);
    let mut bare = String::from_str(line);
    if given == bare {
        return true;
    }
    let mut unix = String::from_str(line);
    unix.append("\n");
    bare.append("\r\n");
    proof {
        reveal_strlit("\n");
        reveal_strlit("\r\n");
        assert("\n"@ =~= seq!['\n']);
        assert("\r\n"@ =~= seq!['\r', '\n']);
    }
    given == unix || given == bare
}

/// Reads the decision of a checker. Fails on anything but a well-formed
/// decision.
pub fn parse(data: &str) -> (r: Option<Output>)
    ensures
        match decision(data@) {
            Some(outcome) => r == Some(Output { outcome }),
            None => r is None,
        },
{
    if holds_line(data, "outcome=Ok") {
        Some(Output { outcome: Outcome::OK })
    } else if holds_line(data, "outcome=WrongAnswer") {
        Some(Output { outcome: Outcome::WrongAnswer })
    } else if holds_line(data, "outcome=PresentationError") {
        Some(Output { outcome: Outcome::PresentationError })
    } else if holds_line(data, "outcome=BadChecker") {
        Some(Output { outcome: Outcome::BadChecker })
    } else {
        None
    }
}

} // verus!
