use getcmd::prompt::{build_objective, build_prompt, EnvironmentFacts};

fn strings(parts: &[&str]) -> Vec<String> {
    parts.iter().map(|p| p.to_string()).collect()
}

fn ubuntu() -> EnvironmentFacts {
    EnvironmentFacts { os_distro: "ubuntu".to_string(), os_type: "Linux".to_string() }
}

#[test]
fn objective_is_the_arguments_joined_by_spaces() {
    assert_eq!(
        build_objective(&strings(&["list", "all", "files"])),
        Some("list all files".to_string())
    );
}

#[test]
fn objective_of_one_argument_is_the_argument() {
    assert_eq!(build_objective(&strings(&["list all files"])), Some("list all files".to_string()));
}

#[test]
fn objective_of_an_empty_argument_is_empty() {
    assert_eq!(build_objective(&strings(&[""])), Some(String::new()));
}

#[test]
fn no_argument_is_no_objective() {
    assert_eq!(build_objective(&Vec::new()), None);
}

#[test]
fn prompt_names_the_system_and_ends_with_the_objective() {
    assert_eq!(
        build_prompt("list all files", &ubuntu()),
        "Respond ONLY with the command to run to perform the following objective on ubuntu Linux, surrounded by the '`' character: list all files"
    );
}

#[test]
fn prompt_does_not_escape_the_objective() {
    let objective = "print `date` and \"quotes\"\n";
    let prompt = build_prompt(objective, &ubuntu());
    assert!(prompt.ends_with(objective));
}

#[test]
fn prompt_of_an_empty_objective_is_the_instruction_alone() {
    let facts = EnvironmentFacts { os_distro: "arch".to_string(), os_type: "Linux".to_string() };
    assert_eq!(
        build_prompt("", &facts),
        "Respond ONLY with the command to run to perform the following objective on arch Linux, surrounded by the '`' character: "
    );
}
