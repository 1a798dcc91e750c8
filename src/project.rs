//! Which kind of project the working directory holds, judged by the marker files present.
use vstd::prelude::*;

use crate::text::{same_text, string_texts, word_texts};

verus! {

/// File names whose presence marks a project of some ecosystem.
pub open spec fn project_markers() -> Seq<Seq<char>> {
    seq![
        "Cargo.toml"@,
        "package.json"@,
        "requirements.txt"@,
        "Pipfile"@,
        "pyproject.toml"@,
        "Gemfile"@,
        "go.mod"@,
        "pom.xml"@,
        "build.gradle"@,
        "composer.json"@,
    ]
}

/// The file names that mark a project, in the order they are looked for.
pub fn project_marker_files() -> (r: Vec<&'static str>)
    ensures
        word_texts(r@) == project_markers(),
{
    let r = vec![
        "Cargo.toml",
        "package.json",
        "requirements.txt",
        "Pipfile",
        "pyproject.toml",
        "Gemfile",
        "go.mod",
        "pom.xml",
        "build.gradle",
        "composer.json",
    ];
    assert(word_texts(r@) =~= project_markers());
    r
}

/// Whether `name` is one of `present`.
pub fn string_contains(present: &Vec<String>, name: &str) -> (r: bool)
    ensures
        r == string_texts(present@).contains(name@),
{
    let mut i: usize = 0;
    while i < present.len()
        invariant
            i <= present.len(),
            forall|k: int| 0 <= k < i ==> present@[k]@ != name@,
        decreases present.len() - i,
    {
        if same_text(present[i].as_str(), name) {
            assert(string_texts(present@)[i as int] == name@);
            return true;
        }
        i = i + 1;
    }
    assert forall|k: int| 0 <= k < string_texts(present@).len() implies string_texts(
        present@,
    )[k] != name@ by {
        assert(string_texts(present@)[k] == present@[k]@);
    }
    false
}

/// Whether one of the project marker files is among `present`, the names of the files found
/// in the working directory.
pub fn check_language_files_exist(present: &Vec<String>) -> (r: bool)
    ensures
        r == exists|i: int|
            0 <= i < project_markers().len() && string_texts(present@).contains(
                #[trigger] project_markers()[i],
            ),
{
    let markers = project_marker_files();
    let mut i: usize = 0;
    while i < markers.len()
        invariant
            i <= markers.len(),
            word_texts(markers@) == project_markers(),
            forall|k: int|
                0 <= k < i ==> !string_texts(present@).contains(#[trigger] project_markers()[k]),
        decreases markers.len() - i,
    {
        assert(project_markers()[i as int] == markers@[i as int]@);
        if string_contains(present, markers[i]) {
            return true;
        }
        i = i + 1;
    }
    false
}

/// The kind of project in a directory.
#[derive(Debug, Clone, Copy, PartialEq, Eq, Structural)]
pub enum ProjectType {
    Rust,
    NodeJs,
    Python,
    Unknown,
}

/// The kind of project that the marker files `present` show: Rust before Node.js before
/// Python.
pub open spec fn project_type_of(present: Seq<Seq<char>>) -> ProjectType {
    if present.contains("Cargo.toml"@) {
        ProjectType::Rust
    } else if present.contains("package.json"@) {
        ProjectType::NodeJs
    } else if present.contains("requirements.txt"@) || present.contains("pyproject.toml"@) {
        ProjectType::Python
    } else {
        ProjectType::Unknown
    }
}

impl ProjectType {
    /// The kind of project, from `present`, the names of the files found in the working
    /// directory.
    pub fn detect(present: &Vec<String>) -> (r: ProjectType)
        ensures
            r == project_type_of(string_texts(present@)),
    {
        if string_contains(present, "Cargo.toml") {
            ProjectType::Rust
        } else if string_contains(present, "package.json") {
            ProjectType::NodeJs
        } else if string_contains(present, "requirements.txt") || string_contains(present, "pyproject.toml") {
            ProjectType::Python
        } else {
            ProjectType::Unknown
        }
    }
}

/// The directory, among `ancestors` (nearest first, each with whether it holds a
/// `Cargo.toml`), that is the nearest Cargo project root.
pub open spec fn nearest_root(ancestors: Seq<(String, bool)>) -> Option<Seq<char>>
    decreases ancestors.len(),
{
    if ancestors.len() == 0 {
        None
    } else if ancestors[0].1 {
        Some(ancestors[0].0@)
    } else {
        nearest_root(ancestors.drop_first())
    }
}

/// The nearest directory that holds a `Cargo.toml`, among the directories that contain a file,
/// listed nearest first with whether each holds one; `None` when none does.
pub fn find_cargo_project_root(ancestors: &Vec<(String, bool)>) -> (r: Option<String>)
    ensures
        r matches Some(root) ==> nearest_root(ancestors@) == Some(root@),
        r is None ==> nearest_root(ancestors@) is None,
{
    let mut i: usize = 0;
    assert(ancestors@.subrange(0, ancestors@.len() as int) =~= ancestors@);
    while i < ancestors.len()
        invariant
            i <= ancestors.len(),
            nearest_root(ancestors@.subrange(i as int, ancestors@.len() as int)) == nearest_root(
                ancestors@,
            ),
        decreases ancestors.len() - i,
    {
        let ghost rest = ancestors@.subrange(i as int, ancestors@.len() as int);
        assert(rest[0] == ancestors@[i as int]);
        if ancestors[i].1 {
            return Some(ancestors[i].0.clone());
        }
        assert(rest.drop_first() =~= ancestors@.subrange(i + 1, ancestors@.len() as int));
        i = i + 1;
    }
    None
}

} // verus!
