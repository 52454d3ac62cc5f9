//! What the commands decide about a project: which build artifacts go,
//! which files are programs, what a manifest enables, and which template a
//! new project starts from.

use crate::lines::{line_views, lines, split_lines};
use crate::names::{project_name_validator, valid_project_name};
use crate::text::{
    chars_of, contains, find_in, index_of_last, lemma_index_of_first_is, lemma_index_of_first_none,
    same_chars, same_text, slice_of, string_of, text_contains, text_ends_with,
};
use vstd::prelude::*;

verus! {

/// What cleaning does with an entry of the build directory.
#[derive(Clone, Copy, Debug, PartialEq, Eq, Structural)]
pub enum CleanAction {
    /// The entry is a directory of artifacts and goes with all it holds.
    RemoveDirectory,
    /// The entry is an artifact file and goes.
    RemoveFile,
    /// The entry stays.
    Keep,
}

/// What cleaning does with the entry `name` of the build directory: the
/// directories `deploy` and `idl` go, and so does every file whose name ends
/// in `.so` or `.json`.
pub open spec fn clean_action(name: Seq<char>) -> CleanAction {
    if name == "deploy"@ || name == "idl"@ {
        CleanAction::RemoveDirectory
    } else if ".so"@.is_suffix_of(name) || ".json"@.is_suffix_of(name) {
        CleanAction::RemoveFile
    } else {
        CleanAction::Keep
    }
}

/// Decides what cleaning does with an entry of the build directory.
pub fn classify_target_entry(name: &str) -> (r: CleanAction)
    ensures
        r == clean_action(name@),
{
    if same_text(name, "deploy") || same_text(name, "idl") {
        CleanAction::RemoveDirectory
    } else if text_ends_with(name, ".so") || text_ends_with(name, ".json") {
        CleanAction::RemoveFile
    } else {
        CleanAction::Keep
    }
}

/// Tells whether an entry of a profile directory holds build artifacts: it
/// is a directory and `build` occurs in its name.
pub fn is_build_directory(name: &str, is_dir: bool) -> (r: bool)
    ensures
        r == (is_dir && contains(name@, "build"@)),
{
    is_dir && text_contains(name, "build")
}

/// The extension of a file name: what follows its last dot, unless it has
/// no dot or its only dot is its first character.
pub open spec fn extension(file_name: Seq<char>) -> Option<Seq<char>> {
    match file_name.index_of_last('.') {
        None => None,
        Some(i) => if i == 0 {
            None
        } else {
            Some(file_name.skip(i + 1))
        },
    }
}

/// Tells whether `file_name` has the extension `wanted`.
pub fn has_extension(file_name: &str, wanted: &str) -> (r: bool)
    ensures
        r == (extension(file_name@) == Some(wanted@)),
{
    let name = chars_of(file_name);
    match index_of_last(&name, '.') {
        None => false,
        Some(i) => {
            if i == 0 {
                false
            } else {
                let tail = slice_of(&name, i + 1, name.len());
                let want = chars_of(wanted);
                proof {
                    assert(name@.skip(i + 1) =~= tail@);
                }
                same_chars(&tail, &want)
            }
        },
    }
}

/// Tells whether a manifest names the `test_helpers` feature.
pub fn has_test_helpers_feature(cargo_content: &str) -> (r: bool)
    ensures
        r == contains(cargo_content@, "test_helpers"@),
{
    text_contains(cargo_content, "test_helpers")
}

/// A manifest asks for an interface description: it names `star_frame`
/// and, in one spelling or another, the feature `idl`.
pub open spec fn asks_for_idl(content: Seq<char>) -> bool {
    contains(content, "star_frame"@) && (contains(content, "features = [\"idl\"]"@) || contains(
        content,
        "features = ['idl']"@,
    ) || contains(content, "\"idl\""@) || contains(content, "'idl'"@))
}

/// Tells whether a manifest asks for an interface description.
pub fn should_generate_idl(cargo_content: &str) -> (r: bool)
    ensures
        r == asks_for_idl(cargo_content@),
{
    text_contains(cargo_content, "star_frame") && (text_contains(
        cargo_content,
        "features = [\"idl\"]",
    ) || text_contains(cargo_content, "features = ['idl']") || text_contains(
        cargo_content,
        "\"idl\"",
    ) || text_contains(cargo_content, "'idl'"))
}

/// Tells whether the errors of a test run speak of a refused connection,
/// which is what a validator that is not running leads to.
pub fn suggests_validator(stderr: &str) -> (r: bool)
    ensures
        r == contains(stderr@, "Connection refused"@),
{
    text_contains(stderr, "Connection refused")
}

/// `line` without the carriage return it may end with.
pub open spec fn without_return(line: Seq<char>) -> Seq<char> {
    if line.len() > 0 && line.last() == '\r' {
        line.drop_last()
    } else {
        line
    }
}

/// The index of the first line of `ls` in which `needle` occurs.
pub open spec fn first_line_with(ls: Seq<Seq<char>>, needle: Seq<char>) -> Option<int> {
    ls.map_values(|l: Seq<char>| contains(l, needle)).index_of_first(true)
}

/// The line of a deployment's output that tells the program's identifier:
/// the first in which `Program Id:` occurs.
pub open spec fn program_id_line(output: Seq<char>) -> Option<Seq<char>> {
    match first_line_with(lines(output), "Program Id:"@) {
        Some(i) => Some(without_return(lines(output)[i])),
        None => None,
    }
}

/// What an optional text reads as.
pub open spec fn line_read(v: Option<String>) -> Option<Seq<char>> {
    match v {
        Some(s) => Some(s@),
        None => None,
    }
}

/// Finds the line of a deployment's output that tells the program's
/// identifier.
pub fn find_program_id_line(output: &str) -> (r: Option<String>)
    ensures
        line_read(r) == program_id_line(output@),
{
    let text = chars_of(output);
    let needle = chars_of("Program Id:");
    let ls = split_lines(&text);
    let ghost flags = line_views(ls@).map_values(|l: Seq<char>| contains(l, needle@));
    let mut k: usize = 0;
    while k < ls.len()
        invariant
            0 <= k <= ls.len(),
            needle@ == "Program Id:"@,
            line_views(ls@) == lines(output@),
            flags == line_views(ls@).map_values(|l: Seq<char>| contains(l, needle@)),
            forall|j: int| 0 <= j < k ==> flags[j] != true,
        decreases ls.len() - k,
    {
        let line = &ls[k];
        assert(line@ == line_views(ls@)[k as int]);
        assert(flags[k as int] == contains(line@, needle@));
        if find_in(line, &needle).is_some() {
            proof {
                lemma_index_of_first_is(flags, true, k as int);
            }
            let n = line.len();
            if n > 0 && line[n - 1] == '\r' {
                let cut = slice_of(line, 0, n - 1);
                return Some(string_of(&cut));
            } else {
                return Some(string_of(line));
            }
        }
        k += 1;
    }
    proof {
        lemma_index_of_first_none(flags, true);
    }
    None
}

/// A template that a new project can start from.
#[derive(Clone, Copy, Debug, PartialEq, Eq, Structural)]
pub enum TemplateKind {
    Counter,
    SimpleCounter,
    Marketplace,
}

/// Why a project cannot be created.
#[derive(Clone, Copy, Debug, PartialEq, Eq, Structural)]
pub enum InitError {
    /// The project name is not accepted.
    InvalidName,
    /// No template goes by the name given.
    UnknownTemplate,
}

/// The template that goes by `name`.
pub open spec fn named_template(name: Seq<char>) -> Option<TemplateKind> {
    if name == "counter"@ {
        Some(TemplateKind::Counter)
    } else if name == "simple_counter"@ || name == "simple-counter"@ {
        Some(TemplateKind::SimpleCounter)
    } else if name == "marketplace"@ {
        Some(TemplateKind::Marketplace)
    } else {
        None
    }
}

/// Finds the template that goes by `name`.
pub fn template_kind(name: &str) -> (r: Option<TemplateKind>)
    ensures
        r == named_template(name@),
{
    if same_text(name, "counter") {
        Some(TemplateKind::Counter)
    } else if same_text(name, "simple_counter") || same_text(name, "simple-counter") {
        Some(TemplateKind::SimpleCounter)
    } else if same_text(name, "marketplace") {
        Some(TemplateKind::Marketplace)
    } else {
        None
    }
}

/// What creating a project named `name` from `template` starts with: the
/// name is checked first, the template after it.
pub open spec fn init_plan(name: Seq<char>, template: Seq<char>) -> Result<
    TemplateKind,
    InitError,
> {
    if !valid_project_name(name) {
        Err(InitError::InvalidName)
    } else {
        match named_template(template) {
            Some(kind) => Ok(kind),
            None => Err(InitError::UnknownTemplate),
        }
    }
}

/// Checks the name of a new project and finds its template.
pub fn check_init(name: &str, template: &str) -> (r: Result<TemplateKind, InitError>)
    ensures
        r == init_plan(name@, template@),
{
    if !project_name_validator(name) {
        Err(InitError::InvalidName)
    } else {
        match template_kind(template) {
            Some(kind) => Ok(kind),
            None => Err(InitError::UnknownTemplate),
        }
    }
}

} // verus!
