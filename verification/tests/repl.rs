use feldspar::repl::{classify_line, next_step, parse_command, Command, ReadEvent, ReplStep};
use feldspar::text::{chars_of, first_space, same_text, trim};

#[test]
fn same_text_compares_characters() {
    assert!(same_text("", ""));
    assert!(same_text("load", "load"));
    assert!(!same_text("load", "Load"));
    assert!(!same_text("load", "loa"));
    assert!(!same_text("load", "load "));
}

#[test]
fn chars_of_a_text() {
    assert_eq!(chars_of(""), Vec::<char>::new());
    assert_eq!(chars_of("a\u{e9}\u{1F600}"), vec!['a', '\u{e9}', '\u{1F600}']);
}

#[test]
fn first_space_of_a_text() {
    assert_eq!(first_space(&chars_of("")), 0);
    assert_eq!(first_space(&chars_of("load")), 4);
    assert_eq!(first_space(&chars_of("load a b")), 4);
    assert_eq!(first_space(&chars_of(" x")), 0);
    assert_eq!(first_space(&chars_of("\u{e9}\u{e9} x")), 2);
    assert_eq!(first_space(&chars_of("a\tb")), 3);
}

#[test]
fn trim_drops_whitespace_at_both_ends() {
    assert_eq!(trim("  hello world \t\n"), "hello world");
    assert_eq!(trim("hello"), "hello");
    assert_eq!(trim("\r\n:q"), ":q");
    assert_eq!(trim("x "), "x");
}

#[test]
fn trim_of_nothing_but_whitespace() {
    assert_eq!(trim(""), "");
    assert_eq!(trim("   "), "");
    assert_eq!(trim("\t\n\r "), "");
}

#[test]
fn trim_knows_whitespace_beyond_ascii() {
    assert_eq!(trim("\u{3000}\u{a0}caf\u{e9}\u{2003}\u{85}"), "caf\u{e9}");
    assert_eq!(trim("\u{200b}x\u{200b}"), "\u{200b}x\u{200b}");
}

#[test]
fn trim_agrees_with_the_standard_library() {
    let samples = [
        "",
        " ",
        "a",
        " a",
        "a ",
        "  a  b  ",
        "\u{2028}line\u{2029}",
        "\u{1680}ogham\u{205f}",
        "_ _",
        "\u{feff}bom ",
    ];
    for sample in samples {
        assert_eq!(trim(sample), sample.trim());
    }
}

#[test]
fn help_and_quit_commands() {
    assert_eq!(parse_command("h"), Command::Help);
    assert_eq!(parse_command("help"), Command::Help);
    assert_eq!(parse_command("q"), Command::Quit);
    assert_eq!(parse_command("quit"), Command::Quit);
    assert_eq!(parse_command("help me"), Command::Help);
    assert_eq!(parse_command("quit now"), Command::Quit);
}

#[test]
fn load_command_with_a_path() {
    assert_eq!(parse_command("load init.scm"), Command::Load(Some("init.scm".to_string())));
    assert_eq!(parse_command("l init.scm"), Command::Load(Some("init.scm".to_string())));
    assert_eq!(
        parse_command("load   dir/my file.scm \t"),
        Command::Load(Some("dir/my file.scm".to_string()))
    );
}

#[test]
fn load_command_without_a_path() {
    assert_eq!(parse_command("load"), Command::Load(None));
    assert_eq!(parse_command("l"), Command::Load(None));
    assert_eq!(parse_command("load "), Command::Load(Some(String::new())));
    assert_eq!(parse_command("load    "), Command::Load(Some(String::new())));
}

#[test]
fn unknown_commands() {
    assert_eq!(parse_command("bogus"), Command::Unknown("bogus".to_string()));
    assert_eq!(parse_command("bogus arg"), Command::Unknown("bogus".to_string()));
    assert_eq!(parse_command(""), Command::Unknown(String::new()));
    assert_eq!(parse_command(" help"), Command::Unknown(String::new()));
    assert_eq!(parse_command("Help"), Command::Unknown("Help".to_string()));
    assert_eq!(parse_command("load\tx.scm"), Command::Unknown("load\tx.scm".to_string()));
    assert_eq!(parse_command("\u{e9}t\u{e9} x"), Command::Unknown("\u{e9}t\u{e9}".to_string()));
}

#[test]
fn only_quit_ends_the_session_among_commands() {
    assert!(Command::Quit.quits());
    assert!(!Command::Help.quits());
    assert!(!Command::Load(None).quits());
    assert!(!Command::Load(Some("quit".to_string())).quits());
    assert!(!Command::Unknown("quit!".to_string()).quits());
}

#[test]
fn blank_lines_are_skipped() {
    assert_eq!(classify_line(""), ReplStep::Skip);
    assert_eq!(classify_line("   "), ReplStep::Skip);
    assert_eq!(classify_line("\t\n"), ReplStep::Skip);
    assert_eq!(classify_line("\u{3000}"), ReplStep::Skip);
}

#[test]
fn script_lines_are_evaluated_trimmed() {
    assert_eq!(
        classify_line("  (+ 1 2)  "),
        ReplStep::Evaluate { entry: "(+ 1 2)".to_string() }
    );
    assert_eq!(
        classify_line("(display \":q\")"),
        ReplStep::Evaluate { entry: "(display \":q\")".to_string() }
    );
    assert_eq!(classify_line("x :help"), ReplStep::Evaluate { entry: "x :help".to_string() });
}

#[test]
fn colon_lines_are_commands() {
    assert_eq!(
        classify_line(":help"),
        ReplStep::Run { entry: ":help".to_string(), command: Command::Help }
    );
    assert_eq!(
        classify_line("  :q  "),
        ReplStep::Run { entry: ":q".to_string(), command: Command::Quit }
    );
    assert_eq!(
        classify_line(":load  lib.scm "),
        ReplStep::Run {
            entry: ":load  lib.scm".to_string(),
            command: Command::Load(Some("lib.scm".to_string())),
        }
    );
    assert_eq!(
        classify_line(":l"),
        ReplStep::Run { entry: ":l".to_string(), command: Command::Load(None) }
    );
    assert_eq!(
        classify_line(":"),
        ReplStep::Run { entry: ":".to_string(), command: Command::Unknown(String::new()) }
    );
    assert_eq!(
        classify_line(": help"),
        ReplStep::Run { entry: ": help".to_string(), command: Command::Unknown(String::new()) }
    );
    assert_eq!(
        classify_line(":frobnicate now"),
        ReplStep::Run {
            entry: ":frobnicate now".to_string(),
            command: Command::Unknown("frobnicate".to_string()),
        }
    );
}

#[test]
fn step_after_each_event() {
    assert_eq!(
        next_step(ReadEvent::Line(" (f) ".to_string())),
        ReplStep::Evaluate { entry: "(f)".to_string() }
    );
    assert_eq!(next_step(ReadEvent::Line(String::new())), ReplStep::Skip);
    assert_eq!(next_step(ReadEvent::Interrupted), ReplStep::Interrupted);
    assert_eq!(next_step(ReadEvent::EndOfInput), ReplStep::Finish);
    assert_eq!(
        next_step(ReadEvent::Failed("broken pipe".to_string())),
        ReplStep::Fail { reason: "broken pipe".to_string() }
    );
}

#[test]
fn steps_that_end_the_session() {
    assert!(next_step(ReadEvent::EndOfInput).ends_session());
    assert!(next_step(ReadEvent::Failed("x".to_string())).ends_session());
    assert!(next_step(ReadEvent::Line(":quit".to_string())).ends_session());
    assert!(next_step(ReadEvent::Line(" :q".to_string())).ends_session());
}

#[test]
fn steps_that_do_not_end_the_session() {
    assert!(!next_step(ReadEvent::Interrupted).ends_session());
    assert!(!next_step(ReadEvent::Line(String::new())).ends_session());
    assert!(!next_step(ReadEvent::Line("(quit)".to_string())).ends_session());
    assert!(!next_step(ReadEvent::Line(":help".to_string())).ends_session());
    assert!(!next_step(ReadEvent::Line(":load quit".to_string())).ends_session());
    assert!(!next_step(ReadEvent::Line(":quitt".to_string())).ends_session());
}
