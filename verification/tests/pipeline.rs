use getcmd::pipeline::{step, Action, Event, RunFailure, Stage};
use getcmd::prompt::EnvironmentFacts;

fn strings(parts: &[&str]) -> Vec<String> {
    parts.iter().map(|p| p.to_string()).collect()
}

fn text(s: &str) -> String {
    s.to_string()
}

fn ubuntu() -> EnvironmentFacts {
    EnvironmentFacts { os_distro: text("ubuntu"), os_type: text("Linux") }
}

const PROMPT: &str = "Respond ONLY with the command to run to perform the following objective on ubuntu Linux, surrounded by the '`' character: list files";

const REPLY: &str = "{\"choices\":[{\"message\":{\"role\":\"assistant\",\"content\":\"`ls -la`\"}}]}";

fn abort(reason: &str) -> (Stage, Action) {
    (Stage::Finished, Action::Abort { reason: text(reason) })
}

fn exit(code: i32, notice: &str) -> (Stage, Action) {
    (Stage::Finished, Action::Exit { code, notice: text(notice) })
}

/// Drives the pipeline up to the stage that awaits what is stored.
fn up_to_stored() -> Stage {
    let (stage, action) = step(Stage::Start, Event::Arguments(strings(&["list", "files"])));
    assert_eq!(action, Action::FindFacts);
    let (stage, action) = step(stage, Event::Facts(Some(ubuntu())));
    assert_eq!(action, Action::FindDirectory);
    let (stage, action) = step(stage, Event::Directory(Some(text("/home/u/.config/getcmd"))));
    assert_eq!(action, Action::MakeDirectory { directory: text("/home/u/.config/getcmd") });
    let (stage, action) = step(stage, Event::DirectoryMade(Ok(())));
    assert_eq!(
        action,
        Action::ReadStored { directory: text("/home/u/.config/getcmd"), file_name: text("conf.json") }
    );
    stage
}

/// Drives the pipeline up to the stage that awaits the reply.
fn up_to_reply() -> Stage {
    let (stage, _) = step(up_to_stored(), Event::Stored(Some(text("{\"api_key\":\"sk-1\"}"))));
    assert_eq!(stage, Stage::Reply);
    stage
}

/// Drives the pipeline up to the stage that awaits the answer.
fn up_to_answer() -> Stage {
    let (stage, _) = step(up_to_reply(), Event::Reply(Some(text(REPLY))));
    assert_eq!(stage, Stage::Answer { command: strings(&["ls", "-la"]) });
    stage
}

fn sent_with(action: &Action, prompt: &str, key: &str) {
    match action {
        Action::Send { request } => {
            assert_eq!(request.method, "POST");
            assert_eq!(request.url, "https://api.openai.com/v1/chat/completions");
            assert_eq!(request.authorization, format!("Bearer {}", key));
            let body: serde_json::Value = serde_json::from_str(&request.body).unwrap();
            let content = body.get("messages").unwrap().get(0).unwrap().get("content").unwrap();
            assert_eq!(content.as_str(), Some(prompt));
        }
        other => panic!("{:?}", other),
    }
}

#[test]
fn no_argument_exits_with_code_one_at_once() {
    assert_eq!(
        step(Stage::Start, Event::Arguments(Vec::new())),
        exit(1, "error: An instruction must be provided.")
    );
}

#[test]
fn arguments_become_the_objective() {
    let (stage, action) = step(Stage::Start, Event::Arguments(strings(&["list", "all", "files"])));
    assert_eq!(stage, Stage::Facts { objective: text("list all files") });
    assert_eq!(action, Action::FindFacts);
}

#[test]
fn facts_and_objective_become_the_prompt() {
    let (stage, action) = step(Stage::Facts { objective: text("list files") }, Event::Facts(Some(ubuntu())));
    assert_eq!(stage, Stage::Directory { prompt: text(PROMPT) });
    assert_eq!(action, Action::FindDirectory);
}

#[test]
fn unknown_system_aborts() {
    assert_eq!(
        step(Stage::Facts { objective: text("x") }, Event::Facts(None)),
        abort("failed to get OS type")
    );
}

#[test]
fn no_directory_exits_with_code_one() {
    let stage = Stage::Directory { prompt: text("p") };
    assert_eq!(step(stage.clone(), Event::Directory(None)), exit(1, "error: Unable to get config dir."));
    assert_eq!(
        step(stage, Event::Directory(Some(String::new()))),
        exit(1, "error: Unable to get config dir.")
    );
}

#[test]
fn directory_that_cannot_be_made_exits_with_code_one() {
    let stage = Stage::DirectoryMade { prompt: text("p"), directory: text("/d") };
    assert_eq!(
        step(stage, Event::DirectoryMade(Err(text("Permission denied (os error 13)")))),
        exit(1, "error: Could not create config dir: Permission denied (os error 13)")
    );
}

#[test]
fn missing_file_asks_for_the_key_once_and_stores_it() {
    let (stage, action) = step(up_to_stored(), Event::Stored(None));
    assert_eq!(
        action,
        Action::AskSecret { notice: text("OpenAI API key not configured. Please paste your key below:") }
    );
    let (stage, action) = step(stage, Event::Secret(Some(text("sk-new"))));
    assert_eq!(
        action,
        Action::Write {
            directory: text("/home/u/.config/getcmd"),
            file_name: text("conf.json"),
            text: text("{\"api_key\":\"sk-new\"}"),
        }
    );
    let written = match &action {
        Action::Write { text, .. } => text.clone(),
        other => panic!("{:?}", other),
    };
    let record: serde_json::Value = serde_json::from_str(&written).unwrap();
    assert_eq!(record.get("api_key").unwrap().as_str(), Some("sk-new"));
    let (stage, action) = step(stage, Event::Written(Ok(())));
    assert_eq!(stage, Stage::Reply);
    sent_with(&action, PROMPT, "sk-new");
}

#[test]
fn stored_key_is_used_without_asking() {
    let (stage, action) = step(up_to_stored(), Event::Stored(Some(text("{\"api_key\":\"sk-1\",\"more\":true}"))));
    assert_eq!(stage, Stage::Reply);
    sent_with(&action, PROMPT, "sk-1");
}

#[test]
fn invalid_file_is_treated_as_a_missing_one() {
    for stored in ["", "not json", "{\"api_key\""] {
        assert_eq!(
            step(up_to_stored(), Event::Stored(Some(text(stored)))),
            step(up_to_stored(), Event::Stored(None))
        );
    }
}

#[test]
fn empty_record_asks_for_the_key() {
    let (stage, action) = step(up_to_stored(), Event::Stored(Some(text("{}"))));
    assert!(matches!(stage, Stage::Secret { .. }));
    assert!(matches!(action, Action::AskSecret { .. }));
}

#[test]
fn record_without_a_key_aborts() {
    assert_eq!(
        step(up_to_stored(), Event::Stored(Some(text("{\"theme\":\"dark\"}")))),
        abort("config holds no API key")
    );
}

#[test]
fn empty_key_is_not_stored() {
    let stage = Stage::Secret { prompt: text("p"), directory: text("/d") };
    assert_eq!(step(stage, Event::Secret(Some(String::new()))), abort("no API key entered"));
}

#[test]
fn stored_empty_key_aborts() {
    assert_eq!(
        step(up_to_stored(), Event::Stored(Some(text("{\"api_key\":\"\"}")))),
        abort("config holds no API key")
    );
}

#[test]
fn key_that_cannot_be_read_aborts() {
    let stage = Stage::Secret { prompt: text("p"), directory: text("/d") };
    assert_eq!(step(stage, Event::Secret(None)), abort("read input"));
}

#[test]
fn record_that_cannot_be_written_exits_with_code_one() {
    let stage = Stage::Written { prompt: text("p"), api_key: text("k") };
    assert_eq!(
        step(stage, Event::Written(Err(text("disk full")))),
        exit(1, "error: Could not write config: disk full")
    );
}

#[test]
fn reply_becomes_the_command_to_confirm() {
    let (stage, action) = step(up_to_reply(), Event::Reply(Some(text(REPLY))));
    assert_eq!(stage, Stage::Answer { command: strings(&["ls", "-la"]) });
    assert_eq!(
        action,
        Action::Ask { notice: text("getcmd returned the following command:\n\nls -la\n\nrun it? (y/n)") }
    );
}

#[test]
fn request_that_could_not_be_made_aborts_as_a_reply_without_choices() {
    assert_eq!(
        step(Stage::Reply, Event::Reply(None)),
        abort("failed to get OpenAI API response choices array")
    );
    assert_eq!(step(Stage::Reply, Event::Reply(None)), step(Stage::Reply, Event::Reply(Some(text("{}")))));
}

#[test]
fn malformed_reply_aborts() {
    assert_eq!(
        step(Stage::Reply, Event::Reply(Some(text("<html>")))),
        abort("failed to read OpenAI API response as JSON")
    );
    assert_eq!(
        step(Stage::Reply, Event::Reply(Some(text("{\"choices\":[]}")))),
        abort("failed to get OpenAI API response choice object")
    );
    assert_eq!(
        step(Stage::Reply, Event::Reply(Some(text("{\"choices\":[{\"message\":{\"content\":\"``\"}}]}")))),
        abort("OpenAI API response holds no command")
    );
}

#[test]
fn approval_runs_the_command() {
    let (stage, action) = step(up_to_answer(), Event::Answer(Some(text("y\n"))));
    assert_eq!(stage, Stage::Output);
    assert_eq!(action, Action::Run { program: text("ls"), arguments: strings(&["-la"]) });
}

#[test]
fn command_of_one_token_runs_without_arguments() {
    let stage = Stage::Answer { command: strings(&["pwd"]) };
    let (_, action) = step(stage, Event::Answer(Some(text("y"))));
    assert_eq!(action, Action::Run { program: text("pwd"), arguments: Vec::new() });
}

#[test]
fn any_other_answer_exits_with_code_zero() {
    for answer in ["n\n", "\n", "yes\n", "Y\n", ""] {
        assert_eq!(step(up_to_answer(), Event::Answer(Some(text(answer)))), exit(0, "exiting..."));
    }
}

#[test]
fn answer_that_cannot_be_read_aborts() {
    assert_eq!(step(up_to_answer(), Event::Answer(None)), abort("did not enter a correct string"));
}

#[test]
fn approval_of_no_command_aborts() {
    let stage = Stage::Answer { command: Vec::new() };
    assert_eq!(step(stage, Event::Answer(Some(text("y")))), abort("OpenAI API response holds no command"));
}

#[test]
fn output_is_shown_and_the_pipeline_exits_with_code_zero() {
    assert_eq!(step(Stage::Output, Event::Output(Ok(text("hello\n")))), exit(0, "hello\n"));
}

#[test]
fn command_that_does_not_start_aborts() {
    assert_eq!(
        step(Stage::Output, Event::Output(Err(RunFailure::NotStarted))),
        abort("failed to execute command")
    );
    assert_eq!(
        step(Stage::Output, Event::Output(Err(RunFailure::OutputNotRead))),
        abort("failed to read stdout")
    );
}

#[test]
fn event_that_is_not_awaited_aborts() {
    assert_eq!(step(Stage::Start, Event::Answer(Some(text("y")))), abort("unexpected event"));
    assert_eq!(step(Stage::Reply, Event::Arguments(strings(&["x"]))), abort("unexpected event"));
    assert_eq!(step(Stage::Finished, Event::Output(Ok(text("x")))), abort("unexpected event"));
}

#[test]
fn whole_run_with_a_stored_key() {
    let (stage, action) = step(up_to_answer(), Event::Answer(Some(text("y\n"))));
    assert_eq!(action, Action::Run { program: text("ls"), arguments: strings(&["-la"]) });
    let (stage, action) = step(stage, Event::Output(Ok(text("total 0\n"))));
    assert_eq!(stage, Stage::Finished);
    assert_eq!(action, Action::Exit { code: 0, notice: text("total 0\n") });
}
