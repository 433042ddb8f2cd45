//! The pipeline as a machine: it is told what happened and says what to do
//! next. Whoever drives it performs each action and reports the outcome as
//! the next event, until the action is to exit or to abort.

use vstd::prelude::*;
use crate::config::{
    key_in_stored, lemma_found_key_is_not_empty, record_text, stored_key, text_in, write_record,
    KeyInRecord, StoredKey,
    API_KEY_FIELD, CONFIG_FILE_NAME,
};
use crate::confirm::{confirm, confirmation_notice, is_approval, notice_text};
use crate::extract::{
    command_in_text, extract_command, lemma_command_is_never_empty, ExtractError,
};
use crate::json::{json_parse, member_of, JsonTree};
use crate::prompt::{build_objective, build_prompt, prompt_text, EnvironmentFacts};
use crate::request::{
    build_request, carries, reply_or_empty, reply_text, CompletionRequest, BEARER,
};
use crate::text::{joined, texts};

verus! {

/// Said where no objective is given.
pub const SAYS_NO_OBJECTIVE: &'static str = "error: An instruction must be provided.";

/// Said where the system cannot be told.
pub const SAYS_NO_FACTS: &'static str = "failed to get OS type";

/// Said where there is no directory for the configuration.
pub const SAYS_NO_DIRECTORY: &'static str = "error: Unable to get config dir.";

/// Said, before the reason, where the directory cannot be made.
pub const SAYS_DIRECTORY_NOT_MADE: &'static str = "error: Could not create config dir: ";

/// Said where the stored record holds no key.
pub const SAYS_NO_KEY: &'static str = "config holds no API key";

/// Said where the user types no key.
pub const SAYS_EMPTY_KEY: &'static str = "no API key entered";

/// Said to ask for the key.
pub const SAYS_ENTER_KEY: &'static str = "OpenAI API key not configured. Please paste your key below:";

/// Said where the key cannot be read from the terminal.
pub const SAYS_KEY_NOT_READ: &'static str = "read input";

/// Said, before the reason, where the record cannot be written.
pub const SAYS_NOT_WRITTEN: &'static str = "error: Could not write config: ";

/// Said where the answer cannot be read from the terminal.
pub const SAYS_ANSWER_NOT_READ: &'static str = "did not enter a correct string";

/// Said where the user declines.
pub const SAYS_DECLINED: &'static str = "exiting...";

/// Said where the command cannot be started.
pub const SAYS_NOT_STARTED: &'static str = "failed to execute command";

/// Said where the command's output cannot be read.
pub const SAYS_OUTPUT_NOT_READ: &'static str = "failed to read stdout";

/// Said where an event comes that the stage does not await.
pub const SAYS_UNEXPECTED: &'static str = "unexpected event";

/// Where the pipeline stands: what it awaits, and what it keeps until then.
#[derive(Debug, Clone, PartialEq, Eq)]
pub enum Stage {
    /// Awaits the arguments.
    Start,
    /// Awaits the facts about the system.
    Facts { objective: String },
    /// Awaits the directory for the configuration.
    Directory { prompt: String },
    /// Awaits the making of that directory.
    DirectoryMade { prompt: String, directory: String },
    /// Awaits what is stored in the file.
    Stored { prompt: String, directory: String },
    /// Awaits the key that the user types.
    Secret { prompt: String, directory: String },
    /// Awaits the writing of the record.
    Written { prompt: String, api_key: String },
    /// Awaits the service's reply.
    Reply,
    /// Awaits the user's answer to the command.
    Answer { command: Vec<String> },
    /// Awaits the command's output.
    Output,
    /// Awaits nothing.
    Finished,
}

/// Why a command gave no output.
#[derive(Debug, Clone, Copy, PartialEq, Eq, Structural)]
pub enum RunFailure {
    /// It could not be started.
    NotStarted,
    /// It was started, and its output could not be read.
    OutputNotRead,
}

/// What happened.
#[derive(Debug, PartialEq, Eq)]
pub enum Event {
    /// The program was called with these arguments after its own name.
    Arguments(Vec<String>),
    /// The system is this one, or cannot be told.
    Facts(Option<EnvironmentFacts>),
    /// The directory for the configuration is this one, or there is none.
    Directory(Option<String>),
    /// The directory is there, or could not be made for this reason.
    DirectoryMade(Result<(), String>),
    /// The file holds this text; or there is no file, or none that can be
    /// read.
    Stored(Option<String>),
    /// The user typed this key, or the terminal could not be read.
    Secret(Option<String>),
    /// The record is written, or could not be for this reason.
    Written(Result<(), String>),
    /// The service sent this reply, or the request could not be made.
    Reply(Option<String>),
    /// The user typed this line, or the terminal could not be read.
    Answer(Option<String>),
    /// The command wrote this to its standard output, or gave none.
    Output(Result<String, RunFailure>),
}

/// What to do next.
#[derive(Debug, Clone, PartialEq, Eq)]
pub enum Action {
    /// Find out the system, and report `Event::Facts`.
    FindFacts,
    /// Find the directory for the configuration, and report
    /// `Event::Directory`.
    FindDirectory,
    /// Make the directory and those above it unless they are there, and
    /// report `Event::DirectoryMade`.
    MakeDirectory { directory: String },
    /// Read the file in the directory, and report `Event::Stored`.
    ReadStored { directory: String, file_name: String },
    /// Show the notice, read a line without showing it, and report
    /// `Event::Secret`.
    AskSecret { notice: String },
    /// Write the text to the file in the directory, in the place of what it
    /// held, and report `Event::Written`.
    Write { directory: String, file_name: String, text: String },
    /// Send the request, and report `Event::Reply`.
    Send { request: CompletionRequest },
    /// Show the notice, read a line, and report `Event::Answer`.
    Ask { notice: String },
    /// Start the program with the arguments, in this process's environment
    /// and without a shell, wait for it, and report `Event::Output`.
    Run { program: String, arguments: Vec<String> },
    /// Show the notice and end the process with the code.
    Exit { code: i32, notice: String },
    /// End the process as failed, with the reason.
    Abort { reason: String },
}

/// How far the stage is from the start.
pub open spec fn rank(stage: Stage) -> nat {
    match stage {
        Stage::Start => 0,
        Stage::Facts { .. } => 1,
        Stage::Directory { .. } => 2,
        Stage::DirectoryMade { .. } => 3,
        Stage::Stored { .. } => 4,
        Stage::Secret { .. } => 5,
        Stage::Written { .. } => 6,
        Stage::Reply => 7,
        Stage::Answer { .. } => 8,
        Stage::Output => 9,
        Stage::Finished => 10,
    }
}

/// The pipeline ends with this code and notice.
pub open spec fn exits(post: Stage, action: Action, code: int, notice: Seq<char>) -> bool {
    &&& post is Finished
    &&& action matches Action::Exit { code: c, notice: n }
    &&& c == code
    &&& n@ == notice
}

/// The pipeline ends as failed for this reason.
pub open spec fn aborts(post: Stage, action: Action, reason: Seq<char>) -> bool {
    &&& post is Finished
    &&& action matches Action::Abort { reason: r }
    &&& r@ == reason
}

/// The pipeline sends the request that carries the prompt under the key, and
/// awaits the reply.
pub open spec fn sends(post: Stage, action: Action, prompt: Seq<char>, api_key: Seq<char>) -> bool {
    &&& post is Reply
    &&& action matches Action::Send { request }
    &&& carries(request, prompt, api_key)
}

impl Stage {
    /// Whether the stage keeps what the pipeline can have come by: a key
    /// that is not empty, and a command of at least one token.
    pub open spec fn well_formed(self) -> bool {
        match self {
            Stage::Written { api_key, .. } => api_key@.len() > 0,
            Stage::Answer { command } => command@.len() >= 1,
            _ => true,
        }
    }
}

/// The step that the pipeline takes when the event comes at the stage: the
/// stage that follows, and the action that it hands out. An event that the
/// stage does not await ends the pipeline as failed.
#[verifier::opaque]
pub open spec fn follows(pre: Stage, event: Event, post: Stage, action: Action) -> bool {
    match (pre, event) {
        (Stage::Start, Event::Arguments(args)) => if args@.len() == 0 {
            exits(post, action, 1, SAYS_NO_OBJECTIVE@)
        } else {
            &&& post matches Stage::Facts { objective }
            &&& objective@ == joined(texts(args@))
            &&& action is FindFacts
        },
        (Stage::Facts { objective }, Event::Facts(found)) => match found {
            Some(facts) => {
                &&& post matches Stage::Directory { prompt }
                &&& prompt@ == prompt_text(objective@, facts.os_distro@, facts.os_type@)
                &&& action is FindDirectory
            },
            None => aborts(post, action, SAYS_NO_FACTS@),
        },
        (Stage::Directory { prompt }, Event::Directory(found)) => match found {
            Some(directory) => if directory@.len() == 0 {
                exits(post, action, 1, SAYS_NO_DIRECTORY@)
            } else {
                &&& post matches Stage::DirectoryMade { prompt: kept, directory: place }
                &&& kept@ == prompt@
                &&& place@ == directory@
                &&& action matches Action::MakeDirectory { directory: made }
                &&& made@ == directory@
            },
            None => exits(post, action, 1, SAYS_NO_DIRECTORY@),
        },
        (Stage::DirectoryMade { prompt, directory }, Event::DirectoryMade(made)) => match made {
            Ok(_) => {
                &&& post matches Stage::Stored { prompt: kept, directory: place }
                &&& kept@ == prompt@
                &&& place@ == directory@
                &&& action matches Action::ReadStored { directory: read, file_name }
                &&& read@ == directory@
                &&& file_name@ == CONFIG_FILE_NAME@
            },
            Err(reason) => exits(post, action, 1, SAYS_DIRECTORY_NOT_MADE@ + reason@),
        },
        (Stage::Stored { prompt, directory }, Event::Stored(stored)) => match key_in_stored(
            text_in(stored),
        ) {
            KeyInRecord::Missing => {
                &&& post matches Stage::Secret { prompt: kept, directory: place }
                &&& kept@ == prompt@
                &&& place@ == directory@
                &&& action matches Action::AskSecret { notice }
                &&& notice@ == SAYS_ENTER_KEY@
            },
            KeyInRecord::Found(api_key) => sends(post, action, prompt@, api_key),
            KeyInRecord::Unusable => aborts(post, action, SAYS_NO_KEY@),
        },
        (Stage::Secret { prompt, directory }, Event::Secret(typed)) => match typed {
            Some(key) => if key@.len() == 0 {
                aborts(post, action, SAYS_EMPTY_KEY@)
            } else {
                &&& post matches Stage::Written { prompt: kept, api_key }
                &&& kept@ == prompt@
                &&& api_key@ == key@
                &&& action matches Action::Write { directory: place, file_name, text }
                &&& place@ == directory@
                &&& file_name@ == CONFIG_FILE_NAME@
                &&& text@ == record_text(key@)
            },
            None => aborts(post, action, SAYS_KEY_NOT_READ@),
        },
        (Stage::Written { prompt, api_key }, Event::Written(written)) => match written {
            Ok(_) => sends(post, action, prompt@, api_key@),
            Err(reason) => exits(post, action, 1, SAYS_NOT_WRITTEN@ + reason@),
        },
        (Stage::Reply, Event::Reply(sent)) => match command_in_text(reply_text(text_in(sent))) {
            Ok(tokens) => {
                &&& post matches Stage::Answer { command }
                &&& texts(command@) == tokens
                &&& action matches Action::Ask { notice }
                &&& notice@ == notice_text(tokens)
            },
            Err(error) => aborts(post, action, error.message_text()),
        },
        (Stage::Answer { command }, Event::Answer(typed)) => match typed {
            Some(line) => if !is_approval(line@) {
                exits(post, action, 0, SAYS_DECLINED@)
            } else if command@.len() == 0 {
                aborts(post, action, ExtractError::NoCommand.message_text())
            } else {
                &&& post is Output
                &&& action matches Action::Run { program, arguments }
                &&& program@ == command@[0]@
                &&& texts(arguments@) == texts(command@).drop_first()
            },
            None => aborts(post, action, SAYS_ANSWER_NOT_READ@),
        },
        (Stage::Output, Event::Output(output)) => match output {
            Ok(written) => exits(post, action, 0, written@),
            Err(RunFailure::NotStarted) => aborts(post, action, SAYS_NOT_STARTED@),
            Err(RunFailure::OutputNotRead) => aborts(post, action, SAYS_OUTPUT_NOT_READ@),
        },
        _ => aborts(post, action, SAYS_UNEXPECTED@),
    }
}

fn exit(code: i32, notice: String) -> (next: (Stage, Action))
    ensures
        exits(next.0, next.1, code as int, notice@),
{
    (Stage::Finished, Action::Exit { code, notice })
}

fn abort(reason: String) -> (next: (Stage, Action))
    ensures
        aborts(next.0, next.1, reason@),
{
    (Stage::Finished, Action::Abort { reason })
}

fn send(prompt: &str, api_key: &str) -> (next: (Stage, Action))
    ensures
        sends(next.0, next.1, prompt@, api_key@),
{
    (Stage::Reply, Action::Send { request: build_request(prompt, api_key) })
}

/// Takes one step: from the stage and what happened to the next stage and
/// what to do.
pub fn step(stage: Stage, event: Event) -> (next: (Stage, Action))
    ensures
        follows(stage, event, next.0, next.1),
{
    reveal(follows);
    match (stage, event) {
        (Stage::Start, Event::Arguments(args)) => match build_objective(&args) {
            Some(objective) => (Stage::Facts { objective }, Action::FindFacts),
            None => exit(1, String::from_str(SAYS_NO_OBJECTIVE)),
        },
        (Stage::Facts { objective }, Event::Facts(found)) => match found {
            Some(facts) => {
                let prompt = build_prompt(objective.as_str(), &facts);
                (Stage::Directory { prompt }, Action::FindDirectory)
            },
            None => abort(String::from_str(SAYS_NO_FACTS)),
        },
        (Stage::Directory { prompt }, Event::Directory(found)) => match found {
            Some(directory) => if directory.as_str().is_empty() {
                exit(1, String::from_str(SAYS_NO_DIRECTORY))
            } else {
                let made = directory.clone();
                (Stage::DirectoryMade { prompt, directory }, Action::MakeDirectory { directory: made })
            },
            None => exit(1, String::from_str(SAYS_NO_DIRECTORY)),
        },
        (Stage::DirectoryMade { prompt, directory }, Event::DirectoryMade(made)) => match made {
            Ok(_) => {
                let read = directory.clone();
                let file_name = String::from_str(CONFIG_FILE_NAME);
                (Stage::Stored { prompt, directory }, Action::ReadStored { directory: read, file_name })
            },
            Err(reason) => {
                let mut notice = String::from_str(SAYS_DIRECTORY_NOT_MADE);
                notice.append(reason.as_str());
                exit(1, notice)
            },
        },
        (Stage::Stored { prompt, directory }, Event::Stored(stored)) => match stored_key(&stored) {
            StoredKey::Missing => {
                let notice = String::from_str(SAYS_ENTER_KEY);
                (Stage::Secret { prompt, directory }, Action::AskSecret { notice })
            },
            StoredKey::Found(api_key) => send(prompt.as_str(), api_key.as_str()),
            StoredKey::Unusable => abort(String::from_str(SAYS_NO_KEY)),
        },
        (Stage::Secret { prompt, directory }, Event::Secret(typed)) => match typed {
            Some(api_key) => if api_key.as_str().is_empty() {
                abort(String::from_str(SAYS_EMPTY_KEY))
            } else {
                let file_name = String::from_str(CONFIG_FILE_NAME);
                let text = write_record(api_key.as_str());
                (Stage::Written { prompt, api_key }, Action::Write { directory, file_name, text })
            },
            None => abort(String::from_str(SAYS_KEY_NOT_READ)),
        },
        (Stage::Written { prompt, api_key }, Event::Written(written)) => match written {
            Ok(_) => send(prompt.as_str(), api_key.as_str()),
            Err(reason) => {
                let mut notice = String::from_str(SAYS_NOT_WRITTEN);
                notice.append(reason.as_str());
                exit(1, notice)
            },
        },
        (Stage::Reply, Event::Reply(sent)) => {
            let reply = reply_or_empty(sent);
            match extract_command(reply.as_str()) {
                Ok(command) => {
                    let notice = confirmation_notice(&command);
                    (Stage::Answer { command }, Action::Ask { notice })
                },
                Err(error) => abort(error.message()),
            }
        },
        (Stage::Answer { command }, Event::Answer(typed)) => match typed {
            Some(line) => if !confirm(line.as_str()) {
                exit(0, String::from_str(SAYS_DECLINED))
            } else if command.len() == 0 {
                abort(ExtractError::NoCommand.message())
            } else {
                let mut command = command;
                let ghost whole = command@;
                let arguments = command.split_off(1);
                let program = command.remove(0);
                proof {
                    assert(texts(arguments@) =~= texts(whole).drop_first());
                }
                (Stage::Output, Action::Run { program, arguments })
            },
            None => abort(String::from_str(SAYS_ANSWER_NOT_READ)),
        },
        (Stage::Output, Event::Output(output)) => match output {
            Ok(written) => exit(0, written),
            Err(RunFailure::NotStarted) => abort(String::from_str(SAYS_NOT_STARTED)),
            Err(RunFailure::OutputNotRead) => abort(String::from_str(SAYS_OUTPUT_NOT_READ)),
        },
        _ => abort(String::from_str(SAYS_UNEXPECTED)),
    }
}

/// Every step leads further from the start, or to the end: no stage is
/// stood at twice, so no action is handed out twice for the same reason.
pub proof fn lemma_step_advances(pre: Stage, event: Event, post: Stage, action: Action)
    requires
        follows(pre, event, post, action),
    ensures
        rank(post) > rank(pre) || post is Finished,
{
    reveal(follows);
}

/// Once the pipeline has finished, whatever is reported to it ends as
/// failed: it hands out nothing more to do.
pub proof fn lemma_finished_stays(event: Event, post: Stage, action: Action)
    requires
        follows(Stage::Finished, event, post, action),
    ensures
        aborts(post, action, SAYS_UNEXPECTED@),
{
    reveal(follows);
}

/// With arguments the objective is the arguments joined by single spaces,
/// and the pipeline goes on; without any it exits with the code 1 as its
/// first action.
pub proof fn lemma_objective_or_exit(args: Vec<String>, post: Stage, action: Action)
    requires
        follows(Stage::Start, Event::Arguments(args), post, action),
    ensures
        args@.len() == 0 ==> exits(post, action, 1, SAYS_NO_OBJECTIVE@),
        args@.len() > 0 ==> action is FindFacts,
        args@.len() > 0 ==> (post matches Stage::Facts { objective } && objective@ == joined(
            texts(args@),
        )),
{
    reveal(follows);
}

/// The key is asked for at one stage only: where the stored record is
/// awaited, and what is stored holds none.
pub proof fn lemma_key_is_asked_for_missing_record(
    pre: Stage,
    event: Event,
    post: Stage,
    action: Action,
)
    requires
        follows(pre, event, post, action),
        action is AskSecret,
    ensures
        pre is Stored,
        post is Secret,
        event matches Event::Stored(stored) && key_in_stored(text_in(stored)) is Missing,
{
    reveal(follows);
}

/// The key that the user types is written to the file as the record that
/// holds it, and once that is done the request goes out under that key. An
/// empty key is no key: nothing is written for it.
pub proof fn lemma_typed_key_is_stored_and_used(
    prompt: String,
    directory: String,
    key: String,
    between: Stage,
    first: Action,
    post: Stage,
    second: Action,
)
    requires
        follows(Stage::Secret { prompt, directory }, Event::Secret(Some(key)), between, first),
        follows(between, Event::Written(Ok(())), post, second),
    ensures
        key@.len() == 0 ==> aborts(between, first, SAYS_EMPTY_KEY@),
        key@.len() > 0 ==> sends(post, second, prompt@, key@),
        key@.len() > 0 ==> (first matches Action::Write { directory: place, file_name, text }
            && place@ == directory@ && file_name@ == CONFIG_FILE_NAME@ && text@ == record_text(
            key@,
        )),
{
    reveal(follows);
}

/// A stored record that holds a key under `api_key`, as a string that is
/// not empty, is used as it is: the request goes out under that key, and
/// nothing is asked or written.
pub proof fn lemma_stored_key_is_used(
    prompt: String,
    directory: String,
    stored: String,
    record: JsonTree,
    key: Seq<char>,
    post: Stage,
    action: Action,
)
    requires
        json_parse(stored@) == Some(record),
        member_of(record, API_KEY_FIELD@) == Some(JsonTree::Text(key)),
        key.len() > 0,
        follows(Stage::Stored { prompt, directory }, Event::Stored(Some(stored)), post, action),
    ensures
        sends(post, action, prompt@, key),
{
    reveal(follows);
}

/// A stored text that is not JSON is treated as a missing file is: the key
/// is asked for.
pub proof fn lemma_unreadable_record_asks(
    prompt: String,
    directory: String,
    stored: String,
    post: Stage,
    action: Action,
)
    requires
        json_parse(stored@) is None,
    ensures
        follows(Stage::Stored { prompt, directory }, Event::Stored(Some(stored)), post, action)
            <==> follows(Stage::Stored { prompt, directory }, Event::Stored(None), post, action),
        follows(Stage::Stored { prompt, directory }, Event::Stored(Some(stored)), post, action)
            ==> action is AskSecret,
{
    reveal(follows);
}

/// A reply that holds no command ends the pipeline as failed, with what is
/// said of the error: nothing is asked and nothing is run.
pub proof fn lemma_malformed_reply_aborts(
    sent: Option<String>,
    error: ExtractError,
    post: Stage,
    action: Action,
)
    requires
        command_in_text(reply_text(text_in(sent))) == Err::<Seq<Seq<char>>, ExtractError>(error),
        follows(Stage::Reply, Event::Reply(sent), post, action),
    ensures
        aborts(post, action, error.message_text()),
{
    reveal(follows);
}

/// A command is run only on an answer that approves it.
pub proof fn lemma_run_needs_approval(pre: Stage, event: Event, post: Stage, action: Action)
    requires
        follows(pre, event, post, action),
        action is Run,
    ensures
        pre is Answer,
        post is Output,
        event matches Event::Answer(Some(line)) && is_approval(line@),
{
    reveal(follows);
}

/// Any other answer ends the pipeline with the code 0.
pub proof fn lemma_other_answer_declines(
    command: Vec<String>,
    line: String,
    post: Stage,
    action: Action,
)
    requires
        !is_approval(line@),
        follows(Stage::Answer { command }, Event::Answer(Some(line)), post, action),
    ensures
        exits(post, action, 0, SAYS_DECLINED@),
{
    reveal(follows);
}

/// An approved command is run as it stands: the first token is the
/// program, and the others are its arguments, in their order.
pub proof fn lemma_approved_command_runs(
    command: Vec<String>,
    line: String,
    post: Stage,
    action: Action,
)
    requires
        command@.len() >= 1,
        is_approval(line@),
        follows(Stage::Answer { command }, Event::Answer(Some(line)), post, action),
    ensures
        action matches Action::Run { program, arguments } && seq![program@] + texts(arguments@)
            == texts(command@),
{
    reveal(follows);
    if let Action::Run { program, arguments } = action {
        assert(seq![program@] + texts(arguments@) =~= texts(command@));
    }
}

/// A step from a well-formed stage leads to a well-formed stage.
pub proof fn lemma_step_keeps_well_formed(pre: Stage, event: Event, post: Stage, action: Action)
    requires
        pre.well_formed(),
        follows(pre, event, post, action),
    ensures
        post.well_formed(),
{
    reveal(follows);
    if let Event::Reply(sent) = event {
        lemma_command_is_never_empty(reply_text(text_in(sent)));
    }
}

/// The request never goes out without a key: after `Bearer ` the
/// authorization holds at least one character.
pub proof fn lemma_sent_key_is_not_empty(pre: Stage, event: Event, post: Stage, action: Action)
    requires
        pre.well_formed(),
        follows(pre, event, post, action),
    ensures
        action matches Action::Send { request } ==> request.authorization@.len() > BEARER@.len(),
{
    reveal(follows);
    if let Event::Stored(stored) = event {
        lemma_found_key_is_not_empty(text_in(stored));
    }
}

/// Every stage of a run from the start is well-formed.
pub proof fn lemma_run_is_well_formed(steps: Seq<(Event, Stage, Action)>, at: int)
    requires
        is_run(Stage::Start, steps),
        0 <= at <= steps.len(),
    ensures
        stage_before(Stage::Start, steps, at).well_formed(),
    decreases at,
{
    if at > 0 {
        lemma_run_is_well_formed(steps, at - 1);
        let reached = steps[at - 1];
        lemma_step_keeps_well_formed(
            stage_before(Stage::Start, steps, at - 1),
            reached.0,
            reached.1,
            reached.2,
        );
    }
}

/// The pipeline exits with the code 0 or 1, and with 1 only from the stages
/// before the request: where there is no objective, no directory for the
/// configuration, or the record cannot be written.
pub proof fn lemma_exit_codes(pre: Stage, event: Event, post: Stage, action: Action)
    requires
        follows(pre, event, post, action),
    ensures
        action matches Action::Exit { code, .. } ==> (code == 0 || code == 1),
        action matches Action::Exit { code, .. } ==> (code == 1 <==> pre is Start
            || pre is Directory || pre is DirectoryMade || pre is Written),
        action matches Action::Exit { code, .. } ==> (code == 0 <==> pre is Answer
            || pre is Output),
{
    reveal(follows);
}

/// The stage at which the step with the number `at` of a run is taken.
pub open spec fn stage_before(start: Stage, steps: Seq<(Event, Stage, Action)>, at: int) -> Stage {
    if at <= 0 {
        start
    } else {
        steps[at - 1].1
    }
}

/// Whether the steps are a run of the pipeline from the stage: each is
/// taken at the stage that the one before it led to.
pub open spec fn is_run(start: Stage, steps: Seq<(Event, Stage, Action)>) -> bool {
    forall|at: int|
        0 <= at < steps.len() ==> follows(
            stage_before(start, steps, at),
            (#[trigger] steps[at]).0,
            steps[at].1,
            steps[at].2,
        )
}

/// A run never comes back: a later step is taken at a stage further from
/// the start than an earlier one, or after the end.
pub proof fn lemma_run_never_returns(
    start: Stage,
    steps: Seq<(Event, Stage, Action)>,
    earlier: int,
    later: int,
)
    requires
        is_run(start, steps),
        0 <= earlier < later < steps.len(),
    ensures
        rank(stage_before(start, steps, later)) > rank(stage_before(start, steps, earlier))
            || stage_before(start, steps, later) is Finished,
    decreases later - earlier,
{
    let reached = steps[later - 1];
    lemma_step_advances(stage_before(start, steps, later - 1), reached.0, reached.1, reached.2);
    if earlier < later - 1 {
        lemma_run_never_returns(start, steps, earlier, later - 1);
    }
}

/// In a run the key is asked for at most once.
pub proof fn lemma_key_is_asked_at_most_once(
    start: Stage,
    steps: Seq<(Event, Stage, Action)>,
    earlier: int,
    later: int,
)
    requires
        is_run(start, steps),
        0 <= earlier < later < steps.len(),
        steps[earlier].2 is AskSecret,
    ensures
        !(steps[later].2 is AskSecret),
{
    lemma_run_never_returns(start, steps, earlier, later);
    lemma_key_is_asked_for_missing_record(
        stage_before(start, steps, earlier),
        steps[earlier].0,
        steps[earlier].1,
        steps[earlier].2,
    );
    if steps[later].2 is AskSecret {
        lemma_key_is_asked_for_missing_record(
            stage_before(start, steps, later),
            steps[later].0,
            steps[later].1,
            steps[later].2,
        );
    }
}

/// In a run a command is run at most once, and nothing is run after an
/// answer that does not approve.
pub proof fn lemma_command_is_run_at_most_once(
    start: Stage,
    steps: Seq<(Event, Stage, Action)>,
    earlier: int,
    later: int,
)
    requires
        is_run(start, steps),
        0 <= earlier < later < steps.len(),
        stage_before(start, steps, earlier) is Answer,
    ensures
        !(steps[later].2 is Run),
{
    lemma_run_never_returns(start, steps, earlier, later);
    if steps[later].2 is Run {
        lemma_run_needs_approval(
            stage_before(start, steps, later),
            steps[later].0,
            steps[later].1,
            steps[later].2,
        );
    }
}

/// In a run that begins without arguments nothing is handed out to do: the
/// first step exits with the code 1, and every later one ends as failed.
pub proof fn lemma_no_objective_does_nothing(steps: Seq<(Event, Stage, Action)>, at: int)
    requires
        is_run(Stage::Start, steps),
        0 <= at < steps.len(),
        steps[0].0 matches Event::Arguments(args) && args@.len() == 0,
    ensures
        at == 0 ==> exits(steps[at].1, steps[at].2, 1, SAYS_NO_OBJECTIVE@),
        at > 0 ==> aborts(steps[at].1, steps[at].2, SAYS_UNEXPECTED@),
    decreases at,
{
    if at > 0 {
        lemma_no_objective_does_nothing(steps, at - 1);
        lemma_finished_stays(steps[at].0, steps[at].1, steps[at].2);
    } else if let Event::Arguments(args) = steps[0].0 {
        lemma_objective_or_exit(args, steps[0].1, steps[0].2);
    }
}

} // verus!
