use echo_repl::session::{run, StreamEnd};

#[test]
fn empty_stream_prompts_once_and_stops() {
    let lines: Vec<String> = Vec::new();
    let log = run(&lines, &StreamEnd::Closed);
    assert_eq!(log.out, "user> ");
    assert!(log.echoes.is_empty());
    assert_eq!(log.report, None);
}

#[test]
fn two_lines_in_order() {
    let lines = vec![String::from("hello\n"), String::from("world\n")];
    let log = run(&lines, &StreamEnd::Closed);
    assert_eq!(log.out, "user> hello\nuser> world\nuser> ");
    assert_eq!(log.echoes, vec![String::from("hello\n"), String::from("world\n")]);
    assert_eq!(log.report, None);
}

#[test]
fn no_cross_iteration_leakage() {
    let lines = vec![String::from("first\n"), String::from("second\n")];
    let log = run(&lines, &StreamEnd::Closed);
    assert_eq!(log.echoes[0], "first\n");
    assert_eq!(log.echoes[1], "second\n");
    assert!(!log.echoes[1].contains("first"));
    assert!(!log.echoes[0].contains("second"));
}

#[test]
fn failure_is_reported_then_loop_stops() {
    let lines = vec![String::from("abc\n")];
    let log = run(&lines, &StreamEnd::Failed(String::from("stream broke")));
    assert_eq!(log.out, "user> abc\nuser> ");
    assert_eq!(log.report, Some(String::from("error: stream broke")));
}

#[test]
fn failure_outcome_is_deterministic() {
    let lines = vec![String::from("abc\n")];
    let end = StreamEnd::Failed(String::from("stream broke"));
    let first = run(&lines, &end);
    let second = run(&lines, &end);
    assert_eq!(first, second);
}

#[test]
fn line_without_terminator_at_end_of_stream() {
    let lines = vec![String::from("partial")];
    let log = run(&lines, &StreamEnd::Closed);
    assert_eq!(log.out, "user> partial\nuser> ");
}
