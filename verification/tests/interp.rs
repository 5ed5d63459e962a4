use xshell::interpolate;
use xshell::Binding;
use xshell::InterpError;
use xshell::Piece;
use xshell::ShellValue;
use xshell::Template;
use xshell::Word;

fn word(pieces: Vec<Piece>) -> Word {
    Word { pieces }
}

fn single(name: &str, value: &str) -> Binding {
    Binding { name: name.to_string(), value: ShellValue::Single(value.to_string()) }
}

fn multi(name: &str, values: &[&str]) -> Binding {
    Binding {
        name: name.to_string(),
        value: ShellValue::Multi(values.iter().map(|v| v.to_string()).collect()),
    }
}

fn lit(t: &str) -> Piece {
    Piece::Literal(t.to_string())
}

fn hole(n: &str) -> Piece {
    Piece::Single(n.to_string())
}

fn splat(n: &str) -> Piece {
    Piece::Splat(n.to_string())
}

#[test]
fn single_placeholder_glues_onto_adjacent_literal() {
    // template: echo hello {name}!
    let template = Template {
        words: vec![
            word(vec![lit("echo")]),
            word(vec![lit("hello")]),
            word(vec![hole("name"), lit("!")]),
        ],
    };
    let bindings = vec![single("name", "Julia")];
    let cmd = interpolate(&template, &bindings).unwrap();
    assert_eq!(
        cmd.arguments(),
        vec!["echo".to_string(), "hello".to_string(), "Julia!".to_string()]
    );
}

#[test]
fn splat_renders_each_value_as_its_own_argument() {
    // template: echo {greeting} {people...}
    let template = Template {
        words: vec![
            word(vec![lit("echo")]),
            word(vec![hole("greeting")]),
            word(vec![splat("people")]),
        ],
    };
    let bindings = vec![
        single("greeting", "Guten Tag"),
        multi("people", &["Spica", "Boarst", "Georgina"]),
    ];
    let cmd = interpolate(&template, &bindings).unwrap();
    assert_eq!(cmd.render(), "echo \"Guten Tag\" Spica Boarst Georgina");
}

#[test]
fn empty_splat_contributes_no_argument() {
    // template: git push {dry_run...}
    let template = Template {
        words: vec![
            word(vec![lit("git")]),
            word(vec![lit("push")]),
            word(vec![splat("dry_run")]),
        ],
    };
    let bindings = vec![multi("dry_run", &[])];
    let cmd = interpolate(&template, &bindings).unwrap();
    assert_eq!(cmd.render(), "git push");
}

#[test]
fn splat_glues_first_and_last_values_onto_adjacent_literals() {
    // one word: a{xs...}b
    let template = Template {
        words: vec![word(vec![lit("run")]), word(vec![lit("a"), splat("xs"), lit("b")])],
    };
    let bindings = vec![multi("xs", &["1", "2", "3"])];
    let cmd = interpolate(&template, &bindings).unwrap();
    assert_eq!(
        cmd.arguments(),
        vec!["run".to_string(), "a1".to_string(), "2".to_string(), "3b".to_string()]
    );
}

#[test]
fn singleton_splat_glues_on_both_sides() {
    let template = Template {
        words: vec![word(vec![lit("run")]), word(vec![lit("a"), splat("xs"), lit("b")])],
    };
    let bindings = vec![multi("xs", &["x"])];
    let cmd = interpolate(&template, &bindings).unwrap();
    assert_eq!(cmd.arguments(), vec!["run".to_string(), "axb".to_string()]);
}

#[test]
fn empty_splat_lets_surrounding_glue_proceed() {
    let template = Template {
        words: vec![word(vec![lit("run")]), word(vec![lit("a"), splat("xs"), lit("b")])],
    };
    let bindings = vec![multi("xs", &[])];
    let cmd = interpolate(&template, &bindings).unwrap();
    assert_eq!(cmd.arguments(), vec!["run".to_string(), "ab".to_string()]);
}

#[test]
fn unbound_name_is_reported_before_anything_runs() {
    let template = Template { words: vec![word(vec![hole("missing")])] };
    let bindings: Vec<Binding> = vec![];
    let err = interpolate(&template, &bindings).unwrap_err();
    assert!(matches!(err, InterpError::Unbound { ref name } if name == "missing"));
}

#[test]
fn single_placeholder_refuses_a_sequence_value() {
    let template = Template { words: vec![word(vec![hole("xs")])] };
    let bindings = vec![multi("xs", &["a"])];
    let err = interpolate(&template, &bindings).unwrap_err();
    assert!(matches!(err, InterpError::ExpectedSingle { ref name } if name == "xs"));
}

#[test]
fn splat_placeholder_refuses_a_single_value() {
    let template = Template { words: vec![word(vec![splat("x")])] };
    let bindings = vec![single("x", "a")];
    let err = interpolate(&template, &bindings).unwrap_err();
    assert!(matches!(err, InterpError::ExpectedList { ref name } if name == "x"));
}

#[test]
fn template_without_arguments_is_refused() {
    let template = Template { words: vec![word(vec![splat("xs")])] };
    let bindings = vec![multi("xs", &[])];
    let err = interpolate(&template, &bindings).unwrap_err();
    assert!(matches!(err, InterpError::EmptyCommand));
}

#[test]
fn first_matching_binding_wins() {
    let template = Template { words: vec![word(vec![hole("x")])] };
    let bindings = vec![single("x", "first"), single("x", "second")];
    let cmd = interpolate(&template, &bindings).unwrap();
    assert_eq!(cmd.arguments(), vec!["first".to_string()]);
}
