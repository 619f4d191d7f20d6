use scriptisto::cfg::{default_target_bin, BuildSpec, RawSpec};
use scriptisto::error::LaunchError;

fn empty_raw() -> RawSpec {
    RawSpec {
        script_src: None,
        build_cmd: None,
        build_once_cmd: None,
        target_bin: None,
        target_interpreter: None,
        replace_shebang_with: None,
        files: None,
        deps: None,
        docker_build: None,
        extra_src_paths: None,
        build_in_script_dir: None,
    }
}

#[test]
fn raw_defaults_are_filled() {
    let raw = RawSpec {
        script_src: Some("m.c".to_string()),
        ..empty_raw()
    };
    let spec = BuildSpec::from_raw(raw).unwrap();
    assert_eq!(spec.script_src, "m.c");
    assert_eq!(spec.target_bin, "./script");
    assert_eq!(spec.replace_shebang_with, "");
    assert!(spec.files.is_empty());
    assert!(spec.deps.is_empty());
    assert!(spec.extra_src_paths.is_empty());
    assert!(!spec.build_in_script_dir);
}

#[test]
fn raw_without_script_src_fails() {
    match BuildSpec::from_raw(empty_raw()) {
        Err(LaunchError::MissingField { field }) => assert_eq!(field, "script_src"),
        other => panic!("expected a missing-field error, got {:?}", other),
    }
}

fn with_config(cfg_lines: &[&str]) -> Result<BuildSpec, LaunchError> {
    let mut src = String::from("// scriptisto-begin\n");
    for l in cfg_lines {
        src.push_str("// ");
        src.push_str(l);
        src.push('\n');
    }
    src.push_str("// scriptisto-end\nbody\n");
    BuildSpec::new(src.as_bytes())
}

#[test]
fn defaults_from_minimal_document() {
    let spec = with_config(&["script_src: main.c"]).unwrap();
    assert_eq!(spec.script_src, "main.c");
    assert_eq!(spec.target_bin, "./script");
    assert_eq!(spec.replace_shebang_with, "");
    assert!(spec.build_cmd.is_none());
    assert!(spec.build_once_cmd.is_none());
    assert!(spec.target_interpreter.is_none());
    assert!(spec.docker_build.is_none());
    assert!(spec.deps.is_empty());
    assert!(spec.extra_src_paths.is_empty());
    assert!(!spec.build_in_script_dir);
    // Only the reconstructed body itself.
    assert_eq!(spec.files.len(), 1);
}

#[test]
fn default_target_bin_value() {
    assert_eq!(default_target_bin(), "./script");
}

#[test]
fn all_fields_populated() {
    let spec = with_config(&[
        "script_src: main.rs",
        "build_cmd: cargo build",
        "build_once_cmd: rustup toolchain install stable",
        "target_bin: ./target/debug/main",
        "target_interpreter: env node",
        "replace_shebang_with: \"// removed\"",
        "build_in_script_dir: true",
        "deps:",
        "  - serde",
        "  - log",
        "extra_src_paths:",
        "  - ../common",
        "files:",
        "  - path: Cargo.toml",
        "    content: \"[package]\"",
        "docker_build:",
        "  dockerfile: Dockerfile.build",
        "  src_mount_dir: /src",
        "  extra_args:",
        "    - --network=host",
    ])
    .unwrap();
    assert_eq!(spec.script_src, "main.rs");
    assert_eq!(spec.build_cmd.as_deref(), Some("cargo build"));
    assert_eq!(
        spec.build_once_cmd.as_deref(),
        Some("rustup toolchain install stable")
    );
    assert_eq!(spec.target_bin, "./target/debug/main");
    assert_eq!(spec.target_interpreter.as_deref(), Some("env node"));
    assert_eq!(spec.replace_shebang_with, "// removed");
    assert!(spec.build_in_script_dir);
    assert_eq!(spec.deps, vec!["serde".to_string(), "log".to_string()]);
    assert_eq!(spec.extra_src_paths, vec!["../common".to_string()]);
    assert_eq!(spec.files.len(), 2);
    assert_eq!(spec.files[0].path, "Cargo.toml");
    assert_eq!(spec.files[0].content, "[package]");
    let docker = spec.docker_build.unwrap();
    assert_eq!(docker.dockerfile.as_deref(), Some("Dockerfile.build"));
    assert_eq!(docker.src_mount_dir.as_deref(), Some("/src"));
    assert_eq!(docker.extra_args, vec!["--network=host".to_string()]);
}

#[test]
fn missing_script_src_fails() {
    match with_config(&["target_bin: ./x"]) {
        Err(LaunchError::MissingField { field }) => assert_eq!(field, "script_src"),
        other => panic!("expected a missing-field error, got {:?}", other),
    }
}

#[test]
fn wrong_field_kind_fails() {
    match with_config(&["script_src: m.c", "target_bin: [1, 2]"]) {
        Err(LaunchError::FieldType { field }) => assert_eq!(field, "target_bin"),
        other => panic!("expected a field-type error, got {:?}", other),
    }
}

#[test]
fn wrong_bool_kind_fails() {
    match with_config(&["script_src: m.c", "build_in_script_dir: yes please"]) {
        Err(LaunchError::FieldType { field }) => assert_eq!(field, "build_in_script_dir"),
        other => panic!("expected a field-type error, got {:?}", other),
    }
}

#[test]
fn file_entry_missing_path_fails() {
    match with_config(&["script_src: m.c", "files:", "  - content: xyz"]) {
        Err(LaunchError::MissingField { field }) => assert_eq!(field, "path"),
        other => panic!("expected a missing-field error, got {:?}", other),
    }
}

#[test]
fn file_entry_missing_content_fails() {
    match with_config(&["script_src: m.c", "files:", "  - path: a.txt"]) {
        Err(LaunchError::MissingField { field }) => assert_eq!(field, "content"),
        other => panic!("expected a missing-field error, got {:?}", other),
    }
}

#[test]
fn non_mapping_document_fails() {
    match with_config(&["- just", "- a", "- list"]) {
        Err(LaunchError::ConfigSyntax { text }) => {
            assert!(text.contains("just"));
        }
        other => panic!("expected a config syntax error, got {:?}", other),
    }
}

#[test]
fn malformed_yaml_fails() {
    assert!(matches!(
        with_config(&["script_src: [unterminated"]),
        Err(LaunchError::ConfigSyntax { .. })
    ));
}

#[test]
fn null_optional_field_is_absent() {
    let spec = with_config(&["script_src: m.c", "target_interpreter:"]).unwrap();
    assert!(spec.target_interpreter.is_none());
}

#[test]
fn unknown_keys_are_ignored() {
    let spec = with_config(&["script_src: m.c", "someday_maybe: true"]).unwrap();
    assert_eq!(spec.script_src, "m.c");
}
