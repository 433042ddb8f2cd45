//! From the completion service's reply to a command line.

use vstd::prelude::*;
use crate::json::{element, element_of, json_parse, json_tree, member, member_of, parse, text, text_of, JsonTree};
use crate::text::{
    joined, lemma_joined_pieces, lemma_without_fence_empty, pieces, split_on_spaces, strip_fence,
    texts, without_fence, FENCE,
};

verus! {

/// Why a reply gives no command line.
#[derive(Debug, Clone, Copy, PartialEq, Eq, Structural)]
pub enum ExtractError {
    /// The reply is not JSON.
    NotJson,
    /// The reply is no object with an entry `choices`.
    NoChoices,
    /// `choices` is no array with a first element.
    NoFirstChoice,
    /// The first choice is no object with an entry `message`.
    NoMessage,
    /// The message is no object with an entry `content`.
    NoContent,
    /// The content is no string.
    ContentNotText,
    /// Nothing is left of the content once the fences are removed.
    NoCommand,
}

/// What is said of a reply that is not JSON.
pub const SAYS_NOT_JSON: &'static str = "failed to read OpenAI API response as JSON";

/// What is said of a reply without choices.
pub const SAYS_NO_CHOICES: &'static str = "failed to get OpenAI API response choices array";

/// What is said of a reply without a first choice.
pub const SAYS_NO_FIRST_CHOICE: &'static str = "failed to get OpenAI API response choice object";

/// What is said of a choice without a message.
pub const SAYS_NO_MESSAGE: &'static str = "failed to get OpenAI API response choice message";

/// What is said of a message without content.
pub const SAYS_NO_CONTENT: &'static str = "failed to get OpenAI API response message content";

/// What is said of a content that is no string.
pub const SAYS_CONTENT_NOT_TEXT: &'static str = "OpenAI API response message content is not a string";

/// What is said of a content that holds no command.
pub const SAYS_NO_COMMAND: &'static str = "OpenAI API response holds no command";

impl ExtractError {
    /// What is said of the error.
    pub open spec fn message_text(self) -> Seq<char> {
        match self {
            ExtractError::NotJson => SAYS_NOT_JSON@,
            ExtractError::NoChoices => SAYS_NO_CHOICES@,
            ExtractError::NoFirstChoice => SAYS_NO_FIRST_CHOICE@,
            ExtractError::NoMessage => SAYS_NO_MESSAGE@,
            ExtractError::NoContent => SAYS_NO_CONTENT@,
            ExtractError::ContentNotText => SAYS_CONTENT_NOT_TEXT@,
            ExtractError::NoCommand => SAYS_NO_COMMAND@,
        }
    }

    /// Says what is wrong with the reply.
    pub fn message(&self) -> (said: String)
        ensures
            said@ == self.message_text(),
    {
        match self {
            ExtractError::NotJson => String::from_str(SAYS_NOT_JSON),
            ExtractError::NoChoices => String::from_str(SAYS_NO_CHOICES),
            ExtractError::NoFirstChoice => String::from_str(SAYS_NO_FIRST_CHOICE),
            ExtractError::NoMessage => String::from_str(SAYS_NO_MESSAGE),
            ExtractError::NoContent => String::from_str(SAYS_NO_CONTENT),
            ExtractError::ContentNotText => String::from_str(SAYS_CONTENT_NOT_TEXT),
            ExtractError::NoCommand => String::from_str(SAYS_NO_COMMAND),
        }
    }
}

/// The content of the first choice's message in a reply.
pub open spec fn content_in(reply: JsonTree) -> Result<Seq<char>, ExtractError> {
    match member_of(reply, "choices"@) {
        None => Err(ExtractError::NoChoices),
        Some(choices) => match element_of(choices, 0) {
            None => Err(ExtractError::NoFirstChoice),
            Some(choice) => match member_of(choice, "message"@) {
                None => Err(ExtractError::NoMessage),
                Some(message) => match member_of(message, "content"@) {
                    None => Err(ExtractError::NoContent),
                    Some(content) => match text_of(content) {
                        None => Err(ExtractError::ContentNotText),
                        Some(text) => Ok(text),
                    },
                },
            },
        },
    }
}

/// The command line that a content spells: what is left without the
/// fences, split at every space. There is none in a content that holds
/// nothing but fences.
pub open spec fn command_in_content(content: Seq<char>) -> Result<Seq<Seq<char>>, ExtractError> {
    if without_fence(content).len() == 0 {
        Err(ExtractError::NoCommand)
    } else {
        Ok(pieces(without_fence(content)))
    }
}

/// The command line that a reply holds.
pub open spec fn command_in_reply(reply: JsonTree) -> Result<Seq<Seq<char>>, ExtractError> {
    match content_in(reply) {
        Ok(content) => command_in_content(content),
        Err(error) => Err(error),
    }
}

/// The command line that the text of a reply holds.
pub open spec fn command_in_text(reply: Seq<char>) -> Result<Seq<Seq<char>>, ExtractError> {
    match json_parse(reply) {
        Some(tree) => command_in_reply(tree),
        None => Err(ExtractError::NotJson),
    }
}

/// Whether the outcome is the expected one: the same error, or tokens with
/// the expected texts.
pub open spec fn gives(
    outcome: Result<Vec<String>, ExtractError>,
    expected: Result<Seq<Seq<char>>, ExtractError>,
) -> bool {
    match outcome {
        Ok(tokens) => expected == Ok::<Seq<Seq<char>>, ExtractError>(texts(tokens@)),
        Err(error) => expected == Err::<Seq<Seq<char>>, ExtractError>(error),
    }
}

/// A reply without `choices` holds no command.
pub proof fn lemma_reply_without_choices(reply: JsonTree)
    requires
        member_of(reply, "choices"@) is None,
    ensures
        command_in_reply(reply) == Err::<Seq<Seq<char>>, ExtractError>(ExtractError::NoChoices),
{
}

/// A content holds no command exactly where it is empty or fences alone.
/// Any other content holds one of at least one token, and the tokens joined
/// by single spaces are the content without its fences.
pub proof fn lemma_command_in_content(content: Seq<char>)
    ensures
        command_in_content(content) is Err <==> forall|j: int|
            0 <= j < content.len() ==> content[j] == FENCE,
        command_in_content(content) matches Err(error) ==> error == ExtractError::NoCommand,
        command_in_content(content) matches Ok(tokens) ==> tokens.len() >= 1 && joined(tokens)
            == without_fence(content),
{
    lemma_without_fence_empty(content);
    lemma_joined_pieces(without_fence(content));
}

/// A command line is never empty, wherever it comes from.
pub proof fn lemma_command_is_never_empty(reply: Seq<char>)
    ensures
        command_in_text(reply) matches Ok(tokens) ==> tokens.len() >= 1,
{
    if let Some(tree) = json_parse(reply) {
        if let Ok(content) = content_in(tree) {
            lemma_command_in_content(content);
        }
    }
}

/// Removes the fences from the content and splits the rest at every space.
/// The first token is the program, the others are its arguments.
pub fn command_from_content(content: &str) -> (outcome: Result<Vec<String>, ExtractError>)
    ensures
        gives(outcome, command_in_content(content@)),
        outcome matches Ok(tokens) ==> tokens@.len() >= 1,
{
    let cleaned = strip_fence(content);
    if cleaned.as_str().is_empty() {
        Err(ExtractError::NoCommand)
    } else {
        let tokens = split_on_spaces(cleaned.as_str());
        proof {
            lemma_joined_pieces(cleaned@);
            assert(texts(tokens@).len() == tokens@.len());
        }
        Ok(tokens)
    }
}

/// Follows `choices`, its first element, `message` and `content` in the
/// reply, and reads the content as a command line.
pub fn extract_command_from_response(response: &serde_json::Value) -> (outcome: Result<
    Vec<String>,
    ExtractError,
>)
    ensures
        gives(outcome, command_in_reply(json_tree(*response))),
        outcome matches Ok(tokens) ==> tokens@.len() >= 1,
{
    let choices = match member(response, "choices") {
        Some(choices) => choices,
        None => { return Err(ExtractError::NoChoices); },
    };
    let choice = match element(choices, 0) {
        Some(choice) => choice,
        None => { return Err(ExtractError::NoFirstChoice); },
    };
    let message = match member(choice, "message") {
        Some(message) => message,
        None => { return Err(ExtractError::NoMessage); },
    };
    let content = match member(message, "content") {
        Some(content) => content,
        None => { return Err(ExtractError::NoContent); },
    };
    match text(content) {
        Some(content) => command_from_content(content),
        None => Err(ExtractError::ContentNotText),
    }
}

/// Reads the reply as JSON and extracts its command line.
pub fn extract_command(response_text: &str) -> (outcome: Result<Vec<String>, ExtractError>)
    ensures
        gives(outcome, command_in_text(response_text@)),
        outcome matches Ok(tokens) ==> tokens@.len() >= 1,
{
    match parse(response_text) {
        Some(response) => extract_command_from_response(&response),
        None => Err(ExtractError::NotJson),
    }
}

} // verus!
