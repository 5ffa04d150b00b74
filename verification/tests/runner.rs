use sensor_dispatch::runner::{
    failure_line, output_line, shell_command, ExecutionResult, Outcome, ShellCommand,
};

#[test]
fn shell_command_hands_the_whole_path_to_the_shell() {
    assert_eq!(
        shell_command("/opt/scripts/probe.sh"),
        ShellCommand {
            program: "sh".to_string(),
            arguments: vec!["-c".to_string(), "/opt/scripts/probe.sh".to_string()],
        }
    );
}

#[test]
fn shell_command_does_not_split_a_pipeline() {
    let command = shell_command("./notify.sh --loud | tee /tmp/log");
    assert_eq!(command.program, "sh");
    assert_eq!(command.arguments, vec!["-c", "./notify.sh --loud | tee /tmp/log"]);
    assert_eq!(shell_command("").arguments, vec!["-c", ""]);
}

#[test]
fn completed_keeps_output_and_any_exit_code() {
    let result =
        ExecutionResult::completed("./a.sh".to_string(), b"out".to_vec(), b"err".to_vec(), Some(3));
    assert_eq!(result.script_path, "./a.sh");
    assert_eq!(result.stdout, b"out".to_vec());
    assert_eq!(result.stderr, b"err".to_vec());
    assert_eq!(result.outcome, Outcome::Exited { code: Some(3) });
    assert!(result.started());
    let signalled = ExecutionResult::completed("./a.sh".to_string(), vec![], vec![], None);
    assert_eq!(signalled.outcome, Outcome::Exited { code: None });
    assert!(signalled.started());
}

#[test]
fn start_failure_has_a_reason_and_no_output() {
    let result = ExecutionResult::start_failure("./a.sh".to_string(), "permission denied".to_string());
    assert_eq!(result.script_path, "./a.sh");
    assert!(result.stdout.is_empty());
    assert!(result.stderr.is_empty());
    assert_eq!(result.outcome, Outcome::StartFailure { reason: "permission denied".to_string() });
    assert!(!result.started());
}

#[test]
fn output_line_is_name_then_output() {
    assert_eq!(output_line("probe.sh", "21.5 C\n"), "probe.sh output: 21.5 C\n");
    assert_eq!(output_line("probe.sh", ""), "probe.sh output: ");
    assert_eq!(output_line("", "x"), " output: x");
}

#[test]
fn failure_line_is_name_then_reason() {
    assert_eq!(
        failure_line("probe.sh", "No such file or directory"),
        "probe.sh failed to start: No such file or directory\n"
    );
}

#[test]
fn log_line_shows_standard_output_whatever_the_exit_code() {
    let passed = ExecutionResult::completed("p".to_string(), b"fine\n".to_vec(), vec![], Some(0));
    let failed =
        ExecutionResult::completed("p".to_string(), b"fine\n".to_vec(), b"no".to_vec(), Some(1));
    assert_eq!(passed.log_line("probe.sh"), "probe.sh output: fine\n");
    assert_eq!(failed.log_line("probe.sh"), "probe.sh output: fine\n");
}

#[test]
fn log_line_replaces_bytes_that_are_no_text() {
    let result =
        ExecutionResult::completed("p".to_string(), vec![0x68, 0x69, 0xff, 0x21], vec![], Some(0));
    assert_eq!(result.log_line("s"), "s output: hi\u{fffd}!");
    let text = ExecutionResult::completed("p".to_string(), "gr\u{fc}n".as_bytes().to_vec(), vec![], Some(0));
    assert_eq!(text.log_line("s"), "s output: gr\u{fc}n");
}

#[test]
fn log_line_of_a_start_failure_gives_the_reason() {
    let result = ExecutionResult::start_failure("p".to_string(), "not found".to_string());
    assert_eq!(result.log_line("gone.sh"), "gone.sh failed to start: not found\n");
}
