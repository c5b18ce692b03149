use cloude_vmm::qemu::{str_contains, str_starts_with, OutputParser, QemuRunner};

#[test]
fn captures_between_sentinels_with_exit_code() {
    let mut parser = OutputParser::new();
    let lines = [
        "[    0.000000] Linux version 6.1",
        "--- PROGRAM OUTPUT ---",
        "hello",
        "--- END OUTPUT ---",
        "Exit code: 0",
    ];
    for line in lines.iter() {
        parser.process_line(line);
    }
    let result = parser.finish();
    assert_eq!(result.stdout, "hello\n");
    assert_eq!(result.exit_code, 0);
    assert_eq!(result.stderr, "");
}

#[test]
fn compile_failure_run_reports_exit_one() {
    let mut parser = OutputParser::new();
    parser.process_line("--- PROGRAM OUTPUT ---");
    parser.process_line("Compilation failed");
    parser.process_line("--- END OUTPUT ---");
    parser.process_line("Exit code: 1");
    let result = parser.finish();
    assert_eq!(result.stdout, "Compilation failed\n");
    assert_eq!(result.exit_code, 1);
}

#[test]
fn exit_code_defaults_to_127() {
    let mut parser = OutputParser::new();
    parser.process_line("--- PROGRAM OUTPUT ---");
    parser.process_line("no code reported");
    let result = parser.finish();
    assert_eq!(result.exit_code, 127);
}

#[test]
fn lines_outside_sentinels_are_dropped() {
    let mut parser = OutputParser::new();
    parser.process_line("boot noise");
    parser.process_line("--- PROGRAM OUTPUT ---");
    parser.process_line("kept");
    parser.process_line("--- END OUTPUT ---");
    parser.process_line("trailing noise");
    assert_eq!(parser.finish().stdout, "kept\n");
}

#[test]
fn multiple_captured_lines_stay_in_order() {
    let mut parser = OutputParser::new();
    parser.process_line("--- PROGRAM OUTPUT ---");
    parser.process_line("one");
    parser.process_line("two");
    parser.process_line("--- END OUTPUT ---");
    assert_eq!(parser.finish().stdout, "one\ntwo\n");
}

#[test]
fn first_reported_exit_code_wins() {
    let mut parser = OutputParser::new();
    parser.process_line("Exit code: 1");
    parser.process_line("Exit code: 2");
    assert_eq!(parser.finish().exit_code, 1);
}

#[test]
fn unparseable_report_does_not_take_the_slot() {
    let mut parser = OutputParser::new();
    parser.process_line("Exit code: abc");
    parser.process_line("Exit code: 7");
    assert_eq!(parser.finish().exit_code, 7);
}

#[test]
fn malformed_exit_code_is_ignored() {
    let mut parser = OutputParser::new();
    parser.process_line("Exit code: abc");
    assert_eq!(parser.finish().exit_code, 127);
}

#[test]
fn oversized_exit_code_is_ignored() {
    let mut parser = OutputParser::new();
    parser.process_line("Exit code: 99999999999999999999");
    assert_eq!(parser.finish().exit_code, 127);
}

#[test]
fn exit_code_line_tolerates_spaces() {
    let mut parser = OutputParser::new();
    parser.process_line("Exit code:   42  ");
    assert_eq!(parser.finish().exit_code, 42);
}

#[test]
fn contains_finds_patterns() {
    assert!(str_contains("abcde", "cd"));
    assert!(str_contains("abcde", "abcde"));
    assert!(str_contains("abcde", ""));
    assert!(!str_contains("abcde", "ce"));
    assert!(!str_contains("ab", "abc"));
}

#[test]
fn starts_with_checks_prefixes() {
    assert!(str_starts_with("Exit code: 3", "Exit code:"));
    assert!(!str_starts_with(" Exit code: 3", "Exit code:"));
    assert!(!str_starts_with("Exit", "Exit code:"));
}

#[test]
fn runner_keeps_its_kernel_path() {
    let runner = QemuRunner::new("/var/lib/kernels/bzImage");
    assert_eq!(runner.kernel_path, "/var/lib/kernels/bzImage");
}
