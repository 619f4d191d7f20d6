use scriptisto::cfg::BuildSpec;
use scriptisto::error::LaunchError;

fn spec_of(src: &str) -> BuildSpec {
    BuildSpec::new(src.as_bytes()).expect("extraction should succeed")
}

#[test]
fn round_trip_exclusion_c_comments() {
    let src = "#include <stdio.h>\n\
               // scriptisto-begin\n\
               // script_src: main.c\n\
               // scriptisto-end\n\
               int main() { return 0; }\n";
    let spec = spec_of(src);
    assert_eq!(spec.script_src, "main.c");
    let body = &spec.files.last().unwrap().content;
    // The marker lines stay; the captured line between them leaves the body.
    assert_eq!(
        body,
        "#include <stdio.h>\n// scriptisto-begin\n// scriptisto-end\nint main() { return 0; }"
    );
}

#[test]
fn prefix_stripping_follows_marker_column() {
    // The begin marker sits at column 2; captured lines lose two characters.
    let src = "x\n\
               # scriptisto-begin\n\
               # script_src: a.sh\n\
               # target_bin: ./a\n\
               # scriptisto-end\n\
               echo hi\n";
    let spec = spec_of(src);
    assert_eq!(spec.script_src, "a.sh");
    assert_eq!(spec.target_bin, "./a");
}

#[test]
fn prefix_shorter_lines_never_fail() {
    // A blank captured line is shorter than the prefix; stripping removes
    // what is there and no more.
    let src = "// scriptisto-begin\n\
               \n\
               // script_src: m.c\n\
               // scriptisto-end\n";
    let spec = spec_of(src);
    assert_eq!(spec.script_src, "m.c");
}

#[test]
fn end_marker_is_prefix_test_after_stripping() {
    // Trailing characters after the end marker are discarded.
    let src = "// scriptisto-begin\n\
               // script_src: m.c\n\
               // scriptisto-end trailing junk\n\
               body\n";
    let spec = spec_of(src);
    assert_eq!(spec.script_src, "m.c");
    let body = &spec.files.last().unwrap().content;
    assert_eq!(body, "// scriptisto-begin\n// scriptisto-end trailing junk\nbody");
}

#[test]
fn missing_marker_always_fails() {
    let src = "#!/bin/sh\necho hello\n";
    match BuildSpec::new(src.as_bytes()) {
        Err(LaunchError::ConfigSyntax { text }) => assert_eq!(text, ""),
        other => panic!("expected a config syntax error, got {:?}", other),
    }
}

#[test]
fn empty_input_fails() {
    assert!(matches!(
        BuildSpec::new(b""),
        Err(LaunchError::ConfigSyntax { .. })
    ));
}

#[test]
fn invalid_utf8_fails() {
    assert!(matches!(
        BuildSpec::new(&[0x66, 0xff, 0xfe, 0x0a]),
        Err(LaunchError::ScriptEncoding)
    ));
}

#[test]
fn shebang_self_reference_is_replaced() {
    let src = "#!/usr/bin/env scriptisto\n\
               // scriptisto-begin\n\
               // script_src: m.c\n\
               // replace_shebang_with: \"#!/bin/true\"\n\
               // scriptisto-end\n\
               rest\n";
    let spec = spec_of(src);
    let body = &spec.files.last().unwrap().content;
    assert!(body.starts_with("#!/bin/true\n"));
}

#[test]
fn shebang_default_replacement_is_empty() {
    let src = "#!/usr/bin/env scriptisto\n\
               // scriptisto-begin\n\
               // script_src: m.c\n\
               // scriptisto-end\n\
               rest\n";
    let spec = spec_of(src);
    let body = &spec.files.last().unwrap().content;
    assert_eq!(body, "\n// scriptisto-begin\n// scriptisto-end\nrest");
}

#[test]
fn foreign_shebang_is_kept() {
    let src = "#!/usr/bin/env python3\n\
               # scriptisto-begin\n\
               # script_src: m.py\n\
               # replace_shebang_with: \"#!/bin/true\"\n\
               # scriptisto-end\n";
    let spec = spec_of(src);
    let body = &spec.files.last().unwrap().content;
    assert!(body.starts_with("#!/usr/bin/env python3\n"));
}

#[test]
fn crlf_line_endings_are_split() {
    let src = "a\r\n// scriptisto-begin\r\n// script_src: m.c\r\n// scriptisto-end\r\nb\r\n";
    let spec = spec_of(src);
    assert_eq!(spec.script_src, "m.c");
    let body = &spec.files.last().unwrap().content;
    assert_eq!(body, "a\n// scriptisto-begin\n// scriptisto-end\nb");
}

#[test]
fn second_marker_pair_starts_new_capture() {
    let src = "// scriptisto-begin\n\
               // script_src: m.c\n\
               // scriptisto-end\n\
               middle\n\
               // scriptisto-begin\n\
               // target_bin: ./other\n\
               // scriptisto-end\n";
    let spec = spec_of(src);
    assert_eq!(spec.script_src, "m.c");
    assert_eq!(spec.target_bin, "./other");
    let body = &spec.files.last().unwrap().content;
    assert_eq!(
        body,
        "// scriptisto-begin\n// scriptisto-end\nmiddle\n// scriptisto-begin\n// scriptisto-end"
    );
}

#[test]
fn body_is_appended_under_script_src_path() {
    let src = "// scriptisto-begin\n// script_src: sub/dir/m.c\n// scriptisto-end\nx\n";
    let spec = spec_of(src);
    let last = spec.files.last().unwrap();
    assert_eq!(last.path, "sub/dir/m.c");
    assert_eq!(spec.files.len(), 1);
}
