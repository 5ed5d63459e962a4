use xshell::Error;

#[test]
fn path_operation_message_matches_the_documented_form() {
    let err = Error::PathOperation {
        path: "feeling-lucky.txt".to_string(),
        os_message: "No such file or directory (os error 2)".to_string(),
    };
    assert_eq!(
        err.message(),
        "`feeling-lucky.txt`: no such file or directory (os error 2)"
    );
}

#[test]
fn env_operation_message_names_the_variable() {
    let err = Error::EnvOperation {
        name: "HOME".to_string(),
        os_message: "Invalid data (os error 22)".to_string(),
    };
    assert_eq!(err.message(), "`HOME`: invalid data (os error 22)");
}

#[test]
fn negative_exit_codes_render_with_a_sign() {
    let err = Error::NonZeroExit {
        cmd_text: "prog".to_string(),
        code: Some(-7),
        diagnostic: Vec::new(),
    };
    assert_eq!(err.message(), "command `prog` failed, exit code: -7");
}

#[test]
fn large_exit_codes_render_every_digit() {
    let err = Error::NonZeroExit {
        cmd_text: "prog".to_string(),
        code: Some(130),
        diagnostic: Vec::new(),
    };
    assert_eq!(err.message(), "command `prog` failed, exit code: 130");
}

#[test]
fn already_lowercase_messages_pass_through() {
    let err = Error::PathOperation {
        path: "x".to_string(),
        os_message: "permission denied (os error 13)".to_string(),
    };
    assert_eq!(err.message(), "`x`: permission denied (os error 13)");
}
