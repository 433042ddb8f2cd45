//! The question before a command is run, and what counts as a yes.

use vstd::prelude::*;
use crate::text::{
    is_white_space, join_with_spaces, joined, leading_white_space, lemma_leading_white_space,
    lemma_trailing_white_space, lemma_trimmed_between, texts, trailing_white_space, trim, trimmed,
};

verus! {

/// What is said before the command.
pub const NOTICE_OPENING: &'static str = "getcmd returned the following command:\n\n";

/// What is asked after the command.
pub const NOTICE_CLOSING: &'static str = "\n\nrun it? (y/n)";

/// The notice that shows the command and asks whether to run it: the tokens
/// joined by single spaces, between the opening and the closing.
pub open spec fn notice_text(command: Seq<Seq<char>>) -> Seq<char> {
    NOTICE_OPENING@ + joined(command) + NOTICE_CLOSING@
}

/// Whether the answer approves: without the white space around it, it is
/// the letter `y` and nothing else.
pub open spec fn is_approval(answer: Seq<char>) -> bool {
    trimmed(answer) == seq!['y']
}

/// Whether the answer holds the letter `y` at the place, and nothing but
/// white space anywhere else.
pub open spec fn is_lone_y(answer: Seq<char>, at: int) -> bool {
    &&& 0 <= at < answer.len()
    &&& answer[at] == 'y'
    &&& forall|j: int| 0 <= j < answer.len() && j != at ==> is_white_space(#[trigger] answer[j])
}

/// An answer approves exactly where it holds one `y` and nothing else but
/// white space: `yes`, `Y`, `n` and the empty line do not.
pub proof fn lemma_approval_is_lone_y(answer: Seq<char>)
    ensures
        is_approval(answer) <==> exists|at: int| is_lone_y(answer, at),
{
    lemma_leading_white_space(answer);
    lemma_trailing_white_space(answer);
    if is_approval(answer) {
        let from = leading_white_space(answer);
        let to = answer.len() - trailing_white_space(answer);
        assert(trimmed(answer).len() == 1);
        assert(trimmed(answer)[0] == 'y');
        assert(to == from + 1);
        assert(answer[from] == answer.subrange(from, to)[0]);
        assert(is_lone_y(answer, from));
    }
    if exists|at: int| is_lone_y(answer, at) {
        let at = choose|at: int| is_lone_y(answer, at);
        lemma_trimmed_between(answer, at, at + 1);
        assert(answer.subrange(at, at + 1) =~= seq!['y']);
    }
}

/// Writes the notice that shows the command and asks whether to run it.
pub fn confirmation_notice(command: &Vec<String>) -> (notice: String)
    ensures
        notice@ == notice_text(texts(command@)),
{
    let mut notice = String::from_str(NOTICE_OPENING);
    notice.append(join_with_spaces(command).as_str());
    notice.append(NOTICE_CLOSING);
    notice
}

/// Tells whether the line that the user typed approves the command.
pub fn confirm(answer: &str) -> (approved: bool)
    ensures
        approved == is_approval(answer@),
{
    let kept = trim(answer);
    let mut letters = kept.as_str().chars();
    let first = letters.next();
    let second = letters.next();
    proof {
        assert(kept@ =~= seq!['y'] <==> kept@.len() == 1 && kept@[0] == 'y');
    }
    first == Some('y') && second.is_none()
}

} // verus!
