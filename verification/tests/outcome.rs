use xshell::Cmd;
use xshell::CaptureOutcome;
use xshell::Error;
use xshell::RunOutcome;

#[test]
fn successful_capture_strips_one_trailing_newline() {
    let cmd = Cmd::new("echo").arg("hello").arg("Julia!");
    let outcome = CaptureOutcome::Exited {
        success: true,
        code: Some(0),
        stdout: b"hello Julia!\n".to_vec(),
        stderr: Vec::new(),
    };
    assert_eq!(cmd.capture_result(outcome).unwrap(), "hello Julia!");
}

#[test]
fn only_one_trailing_newline_is_stripped() {
    let cmd = Cmd::new("printf");
    let outcome = CaptureOutcome::Exited {
        success: true,
        code: Some(0),
        stdout: b"a\n\n".to_vec(),
        stderr: Vec::new(),
    };
    assert_eq!(cmd.capture_result(outcome).unwrap(), "a\n");
}

#[test]
fn multibyte_output_is_decoded_as_utf8() {
    let cmd = Cmd::new("echo");
    let outcome = CaptureOutcome::Exited {
        success: true,
        code: Some(0),
        stdout: "héllo €\n".as_bytes().to_vec(),
        stderr: Vec::new(),
    };
    assert_eq!(cmd.capture_result(outcome).unwrap(), "héllo €");
}

#[test]
fn nonzero_exit_renders_the_documented_message() {
    let cmd = Cmd::new("false");
    let outcome = CaptureOutcome::Exited {
        success: false,
        code: Some(1),
        stdout: Vec::new(),
        stderr: Vec::new(),
    };
    let err = cmd.capture_result(outcome).unwrap_err();
    assert_eq!(err.message(), "command `false` failed, exit code: 1");
}

#[test]
fn invalid_utf8_capture_is_its_own_error() {
    let cmd = Cmd::new("cat");
    let outcome = CaptureOutcome::Exited {
        success: true,
        code: Some(0),
        stdout: vec![0xff, 0xfe],
        stderr: b"diag".to_vec(),
    };
    let err = cmd.capture_result(outcome).unwrap_err();
    assert!(matches!(err, Error::NonUtf8Capture { .. }));
    assert_eq!(err.message(), "command `cat` produced non-utf8 output");
}

#[test]
fn spawn_failure_carries_the_os_message() {
    let cmd = Cmd::new("no-such-program");
    let outcome = CaptureOutcome::SpawnFailed {
        os_message: "No such file or directory (os error 2)".to_string(),
    };
    let err = cmd.capture_result(outcome).unwrap_err();
    assert!(matches!(err, Error::SpawnIo { .. }));
    assert_eq!(
        err.message(),
        "command `no-such-program` failed: no such file or directory (os error 2)"
    );
}

#[test]
fn signal_termination_has_no_exit_code() {
    let cmd = Cmd::new("sleep").arg("100");
    let outcome = CaptureOutcome::Exited {
        success: false,
        code: None,
        stdout: Vec::new(),
        stderr: Vec::new(),
    };
    let err = cmd.capture_result(outcome).unwrap_err();
    assert_eq!(err.message(), "command `sleep 100` failed, terminated by signal");
}

#[test]
fn failed_capture_keeps_stderr_as_diagnostic() {
    let cmd = Cmd::new("false");
    let outcome = CaptureOutcome::Exited {
        success: false,
        code: Some(2),
        stdout: Vec::new(),
        stderr: b"boom".to_vec(),
    };
    match cmd.capture_result(outcome).unwrap_err() {
        Error::NonZeroExit { code, diagnostic, .. } => {
            assert_eq!(code, Some(2));
            assert_eq!(diagnostic, b"boom".to_vec());
        }
        other => panic!("unexpected error: {:?}", other.message()),
    }
}

#[test]
fn run_success_is_unit() {
    let cmd = Cmd::new("true");
    let outcome = RunOutcome::Exited { success: true, code: Some(0) };
    assert!(cmd.run_result(outcome).is_ok());
}

#[test]
fn run_failure_renders_like_capture_failure() {
    let cmd = Cmd::new("false");
    let outcome = RunOutcome::Exited { success: false, code: Some(1) };
    let err = cmd.run_result(outcome).unwrap_err();
    assert_eq!(err.message(), "command `false` failed, exit code: 1");
}

#[test]
fn run_spawn_failure_is_spawn_io() {
    let cmd = Cmd::new("ghost");
    let outcome = RunOutcome::SpawnFailed { os_message: "Permission denied (os error 13)".to_string() };
    let err = cmd.run_result(outcome).unwrap_err();
    assert_eq!(err.message(), "command `ghost` failed: permission denied (os error 13)");
}
