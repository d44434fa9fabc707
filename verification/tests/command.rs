use ferris_fetch::command::{
    names_program, split_command, CARGO_LISTING, CARGO_VERSION, RUSTC_VERSION, RUSTUP_VERSION,
};

#[test]
fn first_token_is_the_program() {
    let (program, arguments) = split_command("cargo install --list");
    assert_eq!(program, "cargo");
    assert_eq!(arguments, vec!["install".to_string(), "--list".to_string()]);
}

#[test]
fn runs_of_spaces_separate_once() {
    let (program, arguments) = split_command("rustc  -V");
    assert_eq!(program, "rustc");
    assert_eq!(arguments, vec!["-V".to_string()]);
}

#[test]
fn program_may_stand_alone() {
    let (program, arguments) = split_command("  rustup\n");
    assert_eq!(program, "rustup");
    assert!(arguments.is_empty());
}

#[test]
fn blank_command_names_no_program() {
    assert!(!names_program(""));
    assert!(!names_program(" \t\n"));
    assert!(names_program("x"));
    assert!(names_program(" x y"));
}

#[test]
fn tools_are_asked_in_their_own_words() {
    assert_eq!(RUSTC_VERSION, "rustc  -V");
    assert_eq!(CARGO_VERSION, "cargo  -V");
    assert_eq!(RUSTUP_VERSION, "rustup -V");
    assert_eq!(CARGO_LISTING, "cargo install --list");
}

#[test]
fn every_tool_command_names_its_program() {
    for command in [RUSTC_VERSION, CARGO_VERSION, RUSTUP_VERSION, CARGO_LISTING] {
        assert!(names_program(command));
    }
    assert_eq!(split_command(RUSTC_VERSION), ("rustc".to_string(), vec!["-V".to_string()]));
    assert_eq!(split_command(CARGO_VERSION), ("cargo".to_string(), vec!["-V".to_string()]));
    assert_eq!(split_command(RUSTUP_VERSION), ("rustup".to_string(), vec!["-V".to_string()]));
    assert_eq!(
        split_command(CARGO_LISTING),
        ("cargo".to_string(), vec!["install".to_string(), "--list".to_string()])
    );
}
