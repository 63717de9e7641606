use branchless_test::options::{TestOptions, Verbosity};

fn options(command: &str) -> TestOptions {
    TestOptions {
        command: command.to_string(),
        verbosity: Verbosity::NoOutput,
    }
}

#[test]
fn verbosity_from_flag_count() {
    assert_eq!(Verbosity::from(0), Verbosity::NoOutput);
    assert_eq!(Verbosity::from(1), Verbosity::PartialOutput);
    assert_eq!(Verbosity::from(2), Verbosity::FullOutput);
    assert_eq!(Verbosity::from(255), Verbosity::FullOutput);
}

#[test]
fn verbosity_is_ordered() {
    assert!(Verbosity::NoOutput < Verbosity::PartialOutput);
    assert!(Verbosity::PartialOutput < Verbosity::FullOutput);
}

#[test]
fn verbosity_shows_output() {
    assert!(!Verbosity::NoOutput.shows_output());
    assert!(Verbosity::PartialOutput.shows_output());
    assert!(Verbosity::FullOutput.shows_output());
}

#[test]
fn slug_replaces_slashes_spaces_and_newlines() {
    assert_eq!(
        options("cd foo/bar &&\ncargo test").make_command_slug(),
        "cd_foo_bar_&&_cargo_test"
    );
    assert_eq!(options("").make_command_slug(), "");
    assert_eq!(options("/ \n").make_command_slug(), "___");
}

#[test]
fn slug_keeps_other_characters() {
    assert_eq!(options("écho\t\\x\r").make_command_slug(), "écho\t\\x\r");
}

#[test]
fn slug_agrees_with_str_replace() {
    for command in ["a b", "a/b c\nd", "___", " x", "ünïcödé / path", "\n\n"] {
        let replaced = command.replace(&['/', ' ', '\n'], "_");
        assert_eq!(options(command).make_command_slug(), replaced);
    }
}

#[test]
fn slug_holds_no_separator() {
    let slug = options("a / b\nc").make_command_slug();
    assert!(!slug.contains(|c| c == '/' || c == ' ' || c == '\n'));
}

#[test]
fn slug_is_idempotent() {
    let slug = options("make -C a/b test").make_command_slug();
    assert_eq!(options(&slug).make_command_slug(), slug);
}

#[test]
fn slug_is_shared_by_commands_that_differ_in_separators() {
    assert_eq!(
        options("a b/c").make_command_slug(),
        options("a/b_c").make_command_slug()
    );
    assert_ne!(
        options("a b").make_command_slug(),
        options("a-b").make_command_slug()
    );
}
