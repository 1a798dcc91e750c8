//! Formatting and linting after an edit. The library decides which tool to run and what each
//! outcome means; running the tools is left to the caller, which hands each outcome back.
use vstd::prelude::*;

use crate::text::{opt_text, string_texts};

pub mod formatter;
pub mod improve;
pub mod linter;

verus! {

/// A program to run, with its arguments and, if given, the directory to run it in.
#[derive(Debug)]
pub struct ToolCommand {
    pub program: String,
    pub args: Vec<String>,
    pub current_dir: Option<String>,
}

pub struct ToolCommandView {
    pub program: Seq<char>,
    pub args: Seq<Seq<char>>,
    pub current_dir: Option<Seq<char>>,
}

impl View for ToolCommand {
    type V = ToolCommandView;

    open spec fn view(&self) -> ToolCommandView {
        ToolCommandView {
            program: self.program@,
            args: string_texts(self.args@),
            current_dir: opt_text(self.current_dir),
        }
    }
}

/// What running a tool came to.
#[derive(Debug)]
pub enum ToolOutcome {
    /// It ran and exited successfully.
    Succeeded,
    /// It ran and exited with a failure; `stderr` is what it wrote to standard error.
    Failed { stderr: String },
    /// It could not be started; `error` describes why.
    Unavailable { error: String },
}

/// Why a tool could not be started, or nothing when it could.
pub open spec fn unavailable_text(outcome: ToolOutcome) -> Seq<char> {
    match outcome {
        ToolOutcome::Unavailable { error } => error@,
        _ => Seq::empty(),
    }
}

/// A file that was just written, as the automation needs it: its path, its extension (if
/// any), and the nearest directory above it that holds a `Cargo.toml` (if any).
#[derive(Debug)]
pub struct EditedFile {
    pub path: String,
    pub extension: Option<String>,
    pub cargo_root: Option<String>,
}

/// How a path is written in messages: quoted, with special characters escaped.
pub uninterp spec fn path_debug_text(path: Seq<char>) -> Seq<char>;

/// Relies on the `Debug` formatting of `std::path::Path`, which depends on the path alone.
#[verifier::external_body]
pub(crate) fn path_debug(path: &str) -> (r: String)
    ensures
        r@ == path_debug_text(path@),
{
    format!("{:?}", std::path::Path::new(path))
}

/// Whether `ext` is one of the given extensions.
pub open spec fn ext_is(ext: Option<String>, name: Seq<char>) -> bool {
    ext matches Some(e) && e@ == name
}

/// Whether a file with extension `ext` is JavaScript or TypeScript.
pub open spec fn is_script_ext(ext: Option<String>) -> bool {
    ext_is(ext, "js"@) || ext_is(ext, "jsx"@) || ext_is(ext, "ts"@) || ext_is(ext, "tsx"@)
}

/// Whether the optional extension `ext` is `name`.
pub(crate) fn has_ext(ext: &Option<String>, name: &str) -> (r: bool)
    ensures
        r == ext_is(*ext, name@),
{
    match ext {
        Some(e) => crate::text::same_text(e.as_str(), name),
        None => false,
    }
}

/// The extension classes that the automation tells apart.
pub(crate) fn is_script(ext: &Option<String>) -> (r: bool)
    ensures
        r == is_script_ext(*ext),
{
    has_ext(ext, "js") || has_ext(ext, "jsx") || has_ext(ext, "ts") || has_ext(ext, "tsx")
}

/// A command from a program name and literal arguments, run in the current directory.
pub(crate) fn command_of(program: &str, args: &Vec<&str>) -> (r: ToolCommand)
    ensures
        r@ == (ToolCommandView {
            program: program@,
            args: crate::text::word_texts(args@),
            current_dir: None,
        }),
{
    ToolCommand {
        program: String::from_str(program),
        args: crate::text::to_strings(args),
        current_dir: None,
    }
}

/// A command from a program name, literal arguments and a file path last, run in the current
/// directory.
pub(crate) fn command_with_file(program: &str, args: &Vec<&str>, file: &String) -> (r: ToolCommand)
    ensures
        r@ == (ToolCommandView {
            program: program@,
            args: crate::text::word_texts(args@).push(file@),
            current_dir: None,
        }),
{
    let mut c = command_of(program, args);
    c.args.push(file.clone());
    assert(string_texts(c.args@) =~= crate::text::word_texts(args@).push(file@));
    c
}

} // verus!
