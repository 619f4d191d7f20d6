//! The command-line model: the invocation forms the launcher understands,
//! and the build-mode selection consumed from the environment.
use vstd::prelude::*;
use vstd::string::StringExecFns;

use crate::error::LaunchError;
use crate::text::str_eq;

verus! {

/// Build-cache operations, each keyed by a script file path.
#[derive(Debug, Clone)]
pub enum CacheCommand {
    /// Shows information about the cache directory for the script.
    Info { file: String },
    /// Removes the cache directory for the script.
    Clean { file: String },
    /// Shows a single item from the cache information by name.
    Get { name: String, file: String },
}

/// Management of custom script templates.
#[derive(Debug, Clone)]
pub enum TemplatesCommand {
    /// Imports a template from a file.
    Import { file: String },
    /// Opens an editor to modify an existing template.
    Edit { template_name: String },
    /// Removes a custom template or resets it to built-in contents.
    Remove { template_name: String },
    /// Lists all templates.
    List {},
}

/// How aggressively the build service rebuilds: only when stale, from
/// source each time, or fully, refreshing dependencies too.
#[derive(Debug, Clone, Copy, PartialEq, Eq, Structural)]
pub enum BuildMode {
    Default,
    Source,
    Full,
}

impl Default for BuildMode {
    /// The mode selected when nothing asks for more.
    fn default() -> (r: BuildMode)
        ensures
            r == BuildMode::Default,
    {
        BuildMode::Default
    }
}

impl BuildMode {
    /// Maps a build-mode selection value: the empty value selects the
    /// default mode, `source` and `full` select those modes, and any other
    /// value is a configuration error carrying the offending value. An unset
    /// selection variable is handed in as the empty value.
    pub fn from_str(s: &str) -> (r: Result<BuildMode, LaunchError>)
        ensures
            s@ == ""@ ==> r == Ok::<BuildMode, LaunchError>(BuildMode::Default),
            s@ == "source"@ ==> r == Ok::<BuildMode, LaunchError>(BuildMode::Source),
            s@ == "full"@ ==> r == Ok::<BuildMode, LaunchError>(BuildMode::Full),
            (s@ != ""@ && s@ != "source"@ && s@ != "full"@) ==> (r matches Err(
                LaunchError::BuildModeConfig { value },
            ) && value@ == s@),
    {
        proof {
            reveal_strlit("");
            reveal_strlit("source");
            reveal_strlit("full");
            assert(""@.len() == 0);
            assert("source"@.len() == 6);
            assert("full"@.len() == 4);
        }
        if str_eq(s, "") {
            Ok(BuildMode::Default)
        } else if str_eq(s, "source") {
            Ok(BuildMode::Source)
        } else if str_eq(s, "full") {
            Ok(BuildMode::Full)
        } else {
            Err(LaunchError::BuildModeConfig { value: String::from_str(s) })
        }
    }
}

/// A parsed invocation: either a script path with the arguments to forward,
/// or a subcommand.
#[derive(Debug, Clone)]
pub struct Opt {
    pub command: Vec<String>,
    pub cmd: Option<Command>,
}

/// The launcher's subcommands.
#[derive(Debug, Clone)]
pub enum Command {
    /// Build cache operations.
    Cache { cmd: CacheCommand },
    /// Prints an example starting script in a chosen language.
    New { template_name: Option<String> },
    /// Manages custom script templates.
    Template { cmd: TemplatesCommand },
    /// Builds a script without running it.
    Build { script_src: String, build_mode: Option<BuildMode> },
}

pub open spec fn help_text() -> Seq<char> {
    "scriptisto: a shebang interpreter for compiled languages\n\nUsage:\n  scriptisto <SCRIPT> [ARGS]...   run a script (path must start with . or /)\n  scriptisto cache <info|clean|get> ...\n  scriptisto new [TEMPLATE]\n  scriptisto template <import|edit|rm|ls> ...\n  scriptisto build <SCRIPT> [--build-mode MODE]\n"@
}

/// The usage text shown when neither a script nor a subcommand was given;
/// the caller prints it.
pub fn display_help() -> (r: String)
    ensures
        r@ == help_text(),
{
    String::from_str(
        "scriptisto: a shebang interpreter for compiled languages\n\nUsage:\n  scriptisto <SCRIPT> [ARGS]...   run a script (path must start with . or /)\n  scriptisto cache <info|clean|get> ...\n  scriptisto new [TEMPLATE]\n  scriptisto template <import|edit|rm|ls> ...\n  scriptisto build <SCRIPT> [--build-mode MODE]\n",
    )
}

} // verus!
