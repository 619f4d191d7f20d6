//! The build specification: the structured form of a script's embedded
//! configuration, plus the reconstructed script body.
use vstd::prelude::*;
use vstd::string::StringExecFns;

use crate::error::LaunchError;
use crate::extract::{
    apply_shebang_rewrite, begin_marker, lemma_missing_marker, rewrite_shebang, scan, scan_lines,
};
use crate::text::{
    chars_of, chars_to_string, join_nl, join_nl_vec, split_lines, split_lines_vec, utf8_decode,
    utf8_to_string,
};
use crate::yaml::{config_ok, files_field_val, parse_config_text, spec_matches_doc, yaml_doc_ok};

verus! {

/// A virtual source file carried by the configuration: a relative path and
/// the file's content.
#[derive(Debug, Clone)]
pub struct File {
    pub path: String,
    pub content: String,
}

/// Settings for a containerized build backend; consumed downstream, opaque
/// to the launch core.
#[derive(Debug, Clone)]
pub struct DockerBuild {
    pub dockerfile: Option<String>,
    pub src_mount_dir: Option<String>,
    pub extra_args: Vec<String>,
}

/// The parsed embedded configuration. After extraction, the last entry of
/// `files` holds the reconstructed script body under the path `script_src`.
#[derive(Debug, Clone)]
pub struct BuildSpec {
    pub script_src: String,
    pub build_cmd: Option<String>,
    pub build_once_cmd: Option<String>,
    pub target_bin: String,
    pub target_interpreter: Option<String>,
    pub replace_shebang_with: String,
    pub files: Vec<File>,
    pub deps: Vec<String>,
    pub docker_build: Option<DockerBuild>,
    pub extra_src_paths: Vec<String>,
    pub build_in_script_dir: bool,
}

/// The conventional relative path of the built artifact when the
/// configuration does not name one.
pub fn default_target_bin() -> (r: String)
    ensures
        r@ == "./script"@,
{
    String::from_str("./script")
}

/// The fields of a configuration document exactly as the document supplied
/// them: absent fields are `None`, and no default has been filled in yet.
#[derive(Debug)]
pub struct RawSpec {
    pub script_src: Option<String>,
    pub build_cmd: Option<String>,
    pub build_once_cmd: Option<String>,
    pub target_bin: Option<String>,
    pub target_interpreter: Option<String>,
    pub replace_shebang_with: Option<String>,
    pub files: Option<Vec<File>>,
    pub deps: Option<Vec<String>>,
    pub docker_build: Option<DockerBuild>,
    pub extra_src_paths: Option<Vec<String>>,
    pub build_in_script_dir: Option<bool>,
}

/// The configuration text a script file captures: the stripped lines of its
/// configuration block, joined by line feeds.
pub open spec fn config_text_of(t: Seq<char>) -> Seq<char> {
    join_nl(scan_lines(split_lines(t)).config)
}

impl BuildSpec {
    /// Extracts the embedded configuration from the raw bytes of a script
    /// file: splits the bytes into physical lines, scans the lines once to
    /// separate the script body from the configuration block, parses the
    /// captured text as a configuration document, applies the shebang
    /// substitution to the body, and appends the reconstructed body to
    /// `files` under the path `script_src`. The input file is never touched.
    ///
    /// Extraction succeeds exactly when the bytes decode as UTF-8 and the
    /// captured text is a non-empty, acceptable configuration document; the
    /// result then holds the document's fields with every default filled in,
    /// and its `files` are the document's own entries with exactly one body
    /// entry appended.
    pub fn new(script_body: &[u8]) -> (r: Result<BuildSpec, LaunchError>)
        ensures
            r is Ok <==> (utf8_decode(script_body@) matches Some(t) && config_text_of(t).len() > 0
                && config_ok(config_text_of(t))),
            utf8_decode(script_body@) is None ==> r matches Err(LaunchError::ScriptEncoding),
            utf8_decode(script_body@) matches Some(t) ==> ((config_text_of(t).len() == 0
                || !yaml_doc_ok(config_text_of(t))) ==> (r matches Err(
                LaunchError::ConfigSyntax { text },
            ) && text@ == config_text_of(t))),
            r matches Ok(spec) ==> ({
                let t = utf8_decode(script_body@)->0;
                let acc = scan_lines(split_lines(t));
                let cfg = config_text_of(t);
                &&& spec_matches_doc(spec, cfg)
                &&& spec.files@.len() == files_field_val(cfg).len() + 1
                &&& spec.files@.take(spec.files@.len() - 1).map_values(
                    |f: File| (f.path@, f.content@),
                ) == files_field_val(cfg)
                &&& spec.files@.last().path == spec.script_src
                &&& spec.files@.last().content@ == join_nl(
                    rewrite_shebang(acc.script, spec.replace_shebang_with@),
                )
            }),
            (utf8_decode(script_body@) matches Some(t) && (forall|k: int|
                0 <= k < split_lines(t).len() ==> crate::text::find_from(
                    #[trigger] split_lines(t)[k],
                    begin_marker(),
                    0,
                ) is None)) ==> r is Err,
    {
        proof {
            match utf8_decode(script_body@) {
                Some(t) => {
                    let lines = split_lines(t);
                    if forall|k: int|
                        0 <= k < lines.len() ==> crate::text::find_from(
                            #[trigger] lines[k],
                            begin_marker(),
                            0,
                        ) is None {
                        lemma_missing_marker(lines);
                    }
                },
                None => {},
            }
        }
        let text = match utf8_to_string(script_body) {
            Some(t) => t,
            None => {
                return Err(LaunchError::ScriptEncoding);
            },
        };
        let chars = chars_of(text.as_str());
        let lines = split_lines_vec(&chars);
        let pair = scan(&lines);
        let mut script_lines = pair.0;
        let config_lines = pair.1;
        let cfg_text = join_nl_vec(&config_lines);
        let mut spec = parse_config_text(&cfg_text)?;
        let repl = chars_of(spec.replace_shebang_with.as_str());
        apply_shebang_rewrite(&mut script_lines, &repl);
        let body_chars = join_nl_vec(&script_lines);
        let content = chars_to_string(&body_chars);
        let path = spec.script_src.clone();
        let ghost files0 = spec.files@;
        spec.files.push(File { path, content });
        proof {
            assert(spec.files@.take(spec.files@.len() - 1) =~= files0);
        }
        Ok(spec)
    }

    /// Fills in every default: `script_src` is required; `target_bin`
    /// defaults to `./script`; `replace_shebang_with` defaults to the empty
    /// string; `files`, `deps` and `extra_src_paths` default to empty
    /// sequences; `build_in_script_dir` defaults to false.
    pub fn from_raw(raw: RawSpec) -> (r: Result<BuildSpec, LaunchError>)
        ensures
            raw.script_src is None ==> (r matches Err(LaunchError::MissingField { field })
                && field@ == "script_src"@),
            raw.script_src is Some ==> r is Ok,
            r matches Ok(spec) ==> {
                &&& raw.script_src == Some(spec.script_src)
                &&& spec.build_cmd == raw.build_cmd
                &&& spec.build_once_cmd == raw.build_once_cmd
                &&& (match raw.target_bin {
                    Some(t) => spec.target_bin == t,
                    None => spec.target_bin@ == "./script"@,
                })
                &&& spec.target_interpreter == raw.target_interpreter
                &&& (match raw.replace_shebang_with {
                    Some(t) => spec.replace_shebang_with == t,
                    None => spec.replace_shebang_with@ == Seq::<char>::empty(),
                })
                &&& (match raw.files {
                    Some(f) => spec.files == f,
                    None => spec.files@ == Seq::<File>::empty(),
                })
                &&& (match raw.deps {
                    Some(d) => spec.deps == d,
                    None => spec.deps@ == Seq::<String>::empty(),
                })
                &&& spec.docker_build == raw.docker_build
                &&& (match raw.extra_src_paths {
                    Some(p) => spec.extra_src_paths == p,
                    None => spec.extra_src_paths@ == Seq::<String>::empty(),
                })
                &&& spec.build_in_script_dir == (match raw.build_in_script_dir {
                    Some(b) => b,
                    None => false,
                })
            },
    {
        match raw.script_src {
            None => Err(LaunchError::MissingField { field: String::from_str("script_src") }),
            Some(script_src) => {
                let target_bin = match raw.target_bin {
                    Some(t) => t,
                    None => default_target_bin(),
                };
                let replace_shebang_with = match raw.replace_shebang_with {
                    Some(t) => t,
                    None => String::new(),
                };
                let files = match raw.files {
                    Some(f) => f,
                    None => Vec::new(),
                };
                let deps = match raw.deps {
                    Some(d) => d,
                    None => Vec::new(),
                };
                let extra_src_paths = match raw.extra_src_paths {
                    Some(p) => p,
                    None => Vec::new(),
                };
                let build_in_script_dir = match raw.build_in_script_dir {
                    Some(b) => b,
                    None => false,
                };
                Ok(
                    BuildSpec {
                        script_src,
                        build_cmd: raw.build_cmd,
                        build_once_cmd: raw.build_once_cmd,
                        target_bin,
                        target_interpreter: raw.target_interpreter,
                        replace_shebang_with,
                        files,
                        deps,
                        docker_build: raw.docker_build,
                        extra_src_paths,
                        build_in_script_dir,
                    },
                )
            },
        }
    }
}

} // verus!
