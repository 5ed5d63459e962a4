use xshell::Cmd;

#[test]
fn rendering_is_deterministic_and_idempotent() {
    let c = Cmd::new("echo").arg("Guten Tag").arg("plain");
    let first = c.render();
    let second = c.render();
    assert_eq!(first, second);
    assert_eq!(first, "echo \"Guten Tag\" plain");
}

#[test]
fn whitespace_argument_is_always_quoted() {
    let c = Cmd::new("printf").arg("two words");
    assert_eq!(c.render(), "printf \"two words\"");
    let tabbed = Cmd::new("printf").arg("a\tb");
    assert_eq!(tabbed.render(), "printf \"a\\tb\"");
}

#[test]
fn quoted_argument_escapes_special_characters() {
    let c = Cmd::new("echo").arg("say \"hi\" now");
    assert_eq!(c.render(), "echo \"say \\\"hi\\\" now\"");
    let back = Cmd::new("echo").arg("a\\b c");
    assert_eq!(back.render(), "echo \"a\\\\b c\"");
    let newline = Cmd::new("echo").arg("a\nb");
    assert_eq!(newline.render(), "echo \"a\\nb\"");
}

#[test]
fn plain_arguments_appear_verbatim() {
    let c = Cmd::new("tar").arg("-czf").arg("out.tar.gz");
    assert_eq!(c.render(), "tar -czf out.tar.gz");
}

#[test]
fn echo_line_prefixes_the_rendered_command() {
    let c = Cmd::new("echo").arg("hello!");
    assert_eq!(c.echo_line(), "$ echo hello!");
}
