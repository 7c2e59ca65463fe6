use file_browser::external::{
    is_long_media, lines_of_report, output_of, probably_valid_utf, read_report,
    run_external_command, CommandReport, ExternalToolFailure, ProcessExit,
};
use file_browser::text::{append_decimal, copy_strings, pad, same_text};

fn exit(success: bool, code: Option<i32>, stdout: &str) -> ProcessExit {
    ProcessExit { success, code, stdout: stdout.to_string() }
}

fn strings(lines: &[&str]) -> Vec<String> {
    lines.iter().map(|l| l.to_string()).collect()
}

#[test]
fn the_output_of_a_successful_command_is_split_and_trimmed() {
    let result = run_external_command(&exit(true, Some(0), "  first \n\tsecond\r\nthird  "));
    match result {
        Ok(Some(lines)) => assert_eq!(lines, strings(&["first", "second", "third"])),
        _ => panic!("lines expected"),
    }
}

#[test]
fn empty_lines_are_kept_as_empty_strings() {
    match run_external_command(&exit(true, Some(0), "a\n\n   \nb\n")) {
        Ok(Some(lines)) => assert_eq!(lines, strings(&["a", "", "", "b"])),
        _ => panic!("lines expected"),
    }
}

#[test]
fn a_command_that_printed_nothing_gives_nothing() {
    assert!(matches!(run_external_command(&exit(true, Some(0), "")), Ok(None)));
}

#[test]
fn a_failed_command_gives_its_exit_code() {
    match run_external_command(&exit(false, Some(3), "ignored output\n")) {
        Err(ExternalToolFailure::ExitCode(code)) => assert_eq!(code, 3),
        _ => panic!("failure expected"),
    }
}

#[test]
fn a_command_without_exit_code_fails_with_minus_one() {
    match run_external_command(&exit(false, None, "")) {
        Err(ExternalToolFailure::ExitCode(code)) => assert_eq!(code, -1),
        _ => panic!("failure expected"),
    }
}

#[test]
fn the_status_decides_not_the_code() {
    assert!(matches!(run_external_command(&exit(true, Some(7), "x")), Ok(Some(_))));
    assert!(matches!(
        run_external_command(&exit(false, Some(0), "x")),
        Err(ExternalToolFailure::ExitCode(0))
    ));
}

#[test]
fn the_outcome_is_judged_by_status_and_lines() {
    assert!(matches!(output_of(true, None, Vec::new()), Ok(None)));
    match output_of(true, Some(0), strings(&[" kept as given "])) {
        Ok(Some(lines)) => assert_eq!(lines, strings(&[" kept as given "])),
        _ => panic!("lines expected"),
    }
    assert!(matches!(
        output_of(false, Some(-9), strings(&["x"])),
        Err(ExternalToolFailure::ExitCode(-9))
    ));
}

#[test]
fn a_command_that_could_not_be_run_is_unavailable() {
    let report = CommandReport::Failed("No such file or directory (os error 2)".to_string());
    match read_report(report) {
        Err(ExternalToolFailure::Unavailable(why)) => {
            assert_eq!(why, "No such file or directory (os error 2)")
        }
        _ => panic!("failure expected"),
    }
}

#[test]
fn a_report_of_a_run_is_read_like_the_run() {
    let report = CommandReport::Exited(exit(true, Some(0), " a \n b "));
    match read_report(report) {
        Ok(Some(lines)) => assert_eq!(lines, strings(&["a", "b"])),
        _ => panic!("lines expected"),
    }
}

#[test]
fn the_lines_of_a_report_are_missing_only_after_a_failure() {
    assert_eq!(
        lines_of_report(CommandReport::Exited(exit(true, Some(0), "x\ny"))),
        Some(strings(&["x", "y"]))
    );
    assert_eq!(lines_of_report(CommandReport::Exited(exit(true, Some(0), ""))), Some(Vec::new()));
    assert_eq!(lines_of_report(CommandReport::Exited(exit(false, Some(1), "x"))), None);
    assert_eq!(lines_of_report(CommandReport::Failed("gone".to_string())), None);
}

#[test]
fn failures_are_reported_in_words() {
    assert_eq!(
        ExternalToolFailure::ExitCode(1).message(),
        "Executing external command failed with code: 1"
    );
    assert_eq!(
        ExternalToolFailure::ExitCode(-1).message(),
        "Executing external command failed with code: -1"
    );
    assert_eq!(
        ExternalToolFailure::ExitCode(127).message(),
        "Executing external command failed with code: 127"
    );
    assert_eq!(ExternalToolFailure::Unavailable("why".to_string()).message(), "why");
}

#[test]
fn integers_are_written_in_decimal() {
    for i in [0, 1, 9, 10, 11, 99, 100, 101, 12345, -1, -10, -12345, i32::MAX, i32::MIN] {
        let mut text = String::from("x");
        append_decimal(&mut text, i);
        assert_eq!(text, format!("x{}", i));
    }
}

#[test]
fn well_formed_utf8_is_recognised() {
    assert!(probably_valid_utf(b""));
    assert!(probably_valid_utf(b"plain"));
    assert!(probably_valid_utf("\u{65e5}\u{672c}\u{8a9e} \u{1f600}".as_bytes()));
    assert!(!probably_valid_utf(&[0xff]));
    assert!(!probably_valid_utf(&[0xc3]));
    assert!(!probably_valid_utf(&[0xed, 0xa0, 0x80]));
    assert!(!probably_valid_utf(&[0xc0, 0x80]));
}

#[test]
fn bytes_behind_the_first_kilobyte_do_not_count() {
    let mut head = vec![b'x'; 1024];
    head.extend_from_slice(&[0xff, 0xff]);
    assert!(probably_valid_utf(&head));
    head[1023] = 0xff;
    assert!(!probably_valid_utf(&head));
}

#[test]
fn media_is_long_above_one_and_a_half_seconds() {
    let long = |seconds: f32| is_long_media(seconds.to_bits());
    assert!(!long(0.0));
    assert!(!long(0.3));
    assert!(!long(1.5));
    assert!(long(1.5000001));
    assert!(long(1.6));
    assert!(long(3600.0));
    assert!(long(f32::MAX));
    assert!(long(f32::INFINITY));
}

#[test]
fn lengths_that_are_no_positive_numbers_are_not_long() {
    let long = |seconds: f32| is_long_media(seconds.to_bits());
    assert!(!long(-0.0));
    assert!(!long(-2.0));
    assert!(!long(f32::NEG_INFINITY));
    assert!(!long(f32::NAN));
    assert!(!is_long_media(0x7fc0_0001));
    assert!(!is_long_media(0xffff_ffff));
}

#[test]
fn the_threshold_agrees_with_the_comparison_of_numbers() {
    let mut bits: u32 = 1;
    while bits < 0xff00_0000 {
        let seconds = f32::from_bits(bits);
        assert_eq!(is_long_media(bits), seconds > 1.5, "{:#x}", bits);
        bits += 0x0003_1337;
    }
}

#[test]
fn texts_are_compared_by_their_characters() {
    assert!(same_text("", ""));
    assert!(same_text("abc", "abc"));
    assert!(same_text("\u{e9}", "\u{e9}"));
    assert!(!same_text("abc", "abd"));
    assert!(!same_text("abc", "ab"));
    assert!(!same_text("", "a"));
    assert!(!same_text("e\u{301}", "\u{e9}"));
}

#[test]
fn padding_appends_spaces() {
    let mut text = String::from("ab");
    pad(&mut text, 3);
    assert_eq!(text, "ab   ");
    pad(&mut text, 0);
    assert_eq!(text, "ab   ");
}

#[test]
fn a_copy_of_strings_holds_the_same_strings() {
    let source = strings(&["a", "", "b c"]);
    assert_eq!(copy_strings(&source), source);
    assert!(copy_strings(&Vec::new()).is_empty());
}
