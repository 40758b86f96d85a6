use ia_coding::repl::{is_exit_command, process_line, trim_line, LineAction};

#[test]
fn quit_stops_the_loop_in_any_casing() {
    assert!(matches!(process_line("quit"), LineAction::Quit));
    assert!(matches!(process_line("QUIT"), LineAction::Quit));
    assert!(matches!(process_line("Quit\n"), LineAction::Quit));
    assert!(matches!(process_line("  exit  "), LineAction::Quit));
    assert!(matches!(process_line("EXIT\n"), LineAction::Quit));
}

#[test]
fn blank_lines_are_skipped_silently() {
    assert!(matches!(process_line(""), LineAction::Reprompt));
    assert!(matches!(process_line("\n"), LineAction::Reprompt));
    assert!(matches!(process_line("   \t  \n"), LineAction::Reprompt));
}

#[test]
fn other_lines_are_validated_after_trimming() {
    match process_line(" test \n") {
        LineAction::Respond(Err(message)) => assert!(message.contains("too short")),
        other => panic!("expected a validation error, got {:?}", other),
    }
    match process_line("Create a for loop in Rust\n") {
        LineAction::Respond(Err(message)) => {
            assert!(message.contains("Model not configured"));
            assert!(message.contains("'Create a for loop in Rust'"));
        }
        other => panic!("expected a backend error, got {:?}", other),
    }
}

#[test]
fn near_misses_of_the_exit_commands_are_not_exits() {
    assert!(is_exit_command("quit"));
    assert!(is_exit_command("eXiT"));
    assert!(!is_exit_command("quitt"));
    assert!(!is_exit_command("qui"));
    assert!(!is_exit_command("quit now"));
    assert!(!is_exit_command(""));
}

#[test]
fn trimming_removes_only_the_edges() {
    assert_eq!(trim_line("  a b \t\n"), "a b");
    assert_eq!(trim_line("abc"), "abc");
    assert_eq!(trim_line(""), "");
    assert_eq!(trim_line(" \t\r\n"), "");
    assert_eq!(trim_line("\nquit\n"), "quit");
}
