use xshell::Cmd;

#[test]
fn new_names_the_program() {
    let c = Cmd::new("date");
    assert_eq!(c.arguments(), vec!["date".to_string()]);
    assert_eq!(c.render(), "date");
}

#[test]
fn arg_appends_in_call_order() {
    let c = Cmd::new("git").arg("push").arg("--dry-run");
    assert_eq!(
        c.arguments(),
        vec!["git".to_string(), "push".to_string(), "--dry-run".to_string()]
    );
}

#[test]
fn args_appends_each_in_order() {
    let extra = vec!["a".to_string(), "b".to_string()];
    let c = Cmd::new("echo").args(&extra);
    assert_eq!(
        c.arguments(),
        vec!["echo".to_string(), "a".to_string(), "b".to_string()]
    );
}

#[test]
fn extend_arg_glues_onto_last_argument() {
    let c = Cmd::new("echo").arg("hello").__extend_arg("!");
    assert_eq!(c.arguments(), vec!["echo".to_string(), "hello!".to_string()]);
}

#[test]
fn stdin_keeps_arguments_unchanged() {
    let c = Cmd::new("cat").stdin(b"payload");
    assert_eq!(c.arguments(), vec!["cat".to_string()]);
    assert_eq!(c.stdin_bytes().as_deref(), Some(&b"payload"[..]));
}
