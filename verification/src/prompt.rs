//! The objective that the user states, and the prompt that carries it to
//! the completion service.

use vstd::prelude::*;
use crate::text::{join_with_spaces, joined, texts};

verus! {

/// What the prompt says before it names the system.
pub const PROMPT_OPENING: &'static str =
    "Respond ONLY with the command to run to perform the following objective on ";

/// What the prompt says between the system and the objective.
pub const PROMPT_CLOSING: &'static str = ", surrounded by the '`' character: ";

/// The system that the command is meant for.
#[derive(Debug, Clone, PartialEq, Eq)]
pub struct EnvironmentFacts {
    /// The distribution, such as `ubuntu`.
    pub os_distro: String,
    /// The kind of operating system, such as `Linux`.
    pub os_type: String,
}

/// The prompt for an objective on a system: the opening, the distribution, a
/// space, the kind of system, the closing, and the objective as it stands.
pub open spec fn prompt_text(objective: Seq<char>, os_distro: Seq<char>, os_type: Seq<char>) -> Seq<
    char,
> {
    PROMPT_OPENING@ + os_distro + seq![' '] + os_type + PROMPT_CLOSING@ + objective
}

/// The objective that the arguments state: the arguments joined by single
/// spaces, and none where there is no argument. The program's own name is
/// not among the arguments.
pub fn build_objective(args: &Vec<String>) -> (objective: Option<String>)
    ensures
        objective is None <==> args@.len() == 0,
        objective matches Some(line) ==> line@ == joined(texts(args@)),
{
    if args.len() == 0 {
        None
    } else {
        Some(join_with_spaces(args))
    }
}

/// Builds the prompt for the objective. The objective is not escaped.
pub fn build_prompt(objective: &str, facts: &EnvironmentFacts) -> (prompt: String)
    ensures
        prompt@ == prompt_text(objective@, facts.os_distro@, facts.os_type@),
{
    let mut prompt = String::from_str(PROMPT_OPENING);
    prompt.append(facts.os_distro.as_str());
    prompt.push(' ');
    prompt.append(facts.os_type.as_str());
    prompt.append(PROMPT_CLOSING);
    prompt.append(objective);
    prompt
}

} // verus!
