use scriptisto::launch::resolve_launch;
use scriptisto::opt::{display_help, BuildMode, Opt};
use scriptisto::{normalize_script_arg, opt_from_args};
use scriptisto::error::LaunchError;

fn strings(v: &[&str]) -> Vec<String> {
    v.iter().map(|s| s.to_string()).collect()
}

#[test]
fn interpreter_indirection() {
    let interp = Some("node --experimental".to_string());
    let r = resolve_launch(&interp, "/x/script".to_string(), &strings(&["a", "--b"]));
    assert_eq!(r.binary, "node");
    assert_eq!(
        r.argv,
        strings(&["node", "--experimental", "/x/script", "a", "--b"])
    );
}

#[test]
fn absent_interpreter_runs_artifact() {
    let r = resolve_launch(&None, "/x/script".to_string(), &strings(&["one"]));
    assert_eq!(r.binary, "/x/script");
    assert_eq!(r.argv, strings(&["/x/script", "one"]));
}

#[test]
fn empty_interpreter_equals_absent() {
    let absent = resolve_launch(&None, "/x/script".to_string(), &strings(&["z"]));
    let empty = resolve_launch(
        &Some(String::new()),
        "/x/script".to_string(),
        &strings(&["z"]),
    );
    assert_eq!(absent.binary, empty.binary);
    assert_eq!(absent.argv, empty.argv);
}

#[test]
fn whitespace_interpreter_equals_absent() {
    let absent = resolve_launch(&None, "/x/script".to_string(), &strings(&[]));
    let blank = resolve_launch(
        &Some(" \t \u{c} ".to_string()),
        "/x/script".to_string(),
        &strings(&[]),
    );
    assert_eq!(absent.binary, blank.binary);
    assert_eq!(absent.argv, blank.argv);
}

#[test]
fn passthrough_arguments_are_not_reinterpreted() {
    let r = resolve_launch(
        &None,
        "/x/s".to_string(),
        &strings(&["a b", "--flag=v v", "*"]),
    );
    assert_eq!(r.argv, strings(&["/x/s", "a b", "--flag=v v", "*"]));
}

#[test]
fn build_mode_mapping() {
    assert_eq!(BuildMode::from_str("").unwrap(), BuildMode::Default);
    assert_eq!(BuildMode::from_str("source").unwrap(), BuildMode::Source);
    assert_eq!(BuildMode::from_str("full").unwrap(), BuildMode::Full);
    match BuildMode::from_str("release") {
        Err(LaunchError::BuildModeConfig { value }) => assert_eq!(value, "release"),
        other => panic!("expected a build-mode error, got {:?}", other),
    }
}

#[test]
fn build_mode_default_value() {
    assert_eq!(BuildMode::default(), BuildMode::Default);
}

#[test]
fn fast_path_builds_script_invocation() {
    let args = strings(&["scriptisto", "./hello.c", "--x", "1"]);
    let abs = Some("/home/me/hello.c".to_string());
    let opt: Opt = opt_from_args(&args, &abs).expect("fast path should apply");
    assert!(opt.cmd.is_none());
    assert_eq!(opt.command, strings(&["/home/me/hello.c", "--x", "1"]));
}

#[test]
fn fast_path_needs_existing_file() {
    let args = strings(&["scriptisto", "cache", "info"]);
    assert!(opt_from_args(&args, &None).is_none());
}

#[test]
fn fast_path_needs_an_argument() {
    let args = strings(&["scriptisto"]);
    assert!(opt_from_args(&args, &Some("/x".to_string())).is_none());
}

#[test]
fn help_text_names_the_tool() {
    let h = display_help();
    assert!(h.contains("scriptisto"));
    assert!(h.contains("Usage"));
}

#[test]
fn script_arg_normalization() {
    assert_eq!(normalize_script_arg("hello.c"), "./hello.c");
    assert_eq!(normalize_script_arg("./hello.c"), "./hello.c");
    assert_eq!(normalize_script_arg("/abs/hello.c"), "/abs/hello.c");
    assert_eq!(normalize_script_arg("../up.c"), "../up.c");
    assert_eq!(normalize_script_arg(""), "./");
}
