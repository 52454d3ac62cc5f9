//! The templates that a new project can start from. Each one plans the
//! files of a project: their places and what they hold. Writing them is
//! the caller's part.

pub mod counter;
pub mod counter_text;
pub mod marketplace;
pub mod marketplace_text;
pub mod simple_counter;
pub mod simple_counter_text;

use crate::names::{pascal_case, program_type_name, snake_case, TemplateVariables};
use crate::registry::DependencyVersions;
use crate::render::text_views;
use vstd::prelude::*;

verus! {

/// A file to write: its place below the project's directory, with `/`
/// between the parts, and what it holds.
#[derive(Clone, Debug)]
pub struct GeneratedFile {
    pub path: String,
    pub content: String,
}

/// A `GeneratedFile` as plain values.
pub struct FileView {
    pub path: Seq<char>,
    pub content: Seq<char>,
}

impl View for GeneratedFile {
    type V = FileView;

    open spec fn view(&self) -> FileView {
        FileView { path: self.path@, content: self.content@ }
    }
}

/// The views of a list of files.
pub open spec fn file_views(files: Seq<GeneratedFile>) -> Seq<FileView> {
    Seq::new(files.len(), |i: int| files[i]@)
}

/// What the patterns of a template are filled with.
pub struct Blanks {
    pub project_name: Seq<char>,
    pub snake_name: Seq<char>,
    pub pascal_name: Seq<char>,
    pub program_name: Seq<char>,
    pub star_frame: Seq<char>,
    pub program_id: Seq<char>,
}

/// The blanks that given spellings, versions and identifier make.
pub open spec fn blanks_of(
    variables: TemplateVariables,
    versions: DependencyVersions,
    program_id: Seq<char>,
) -> Blanks {
    Blanks {
        project_name: variables.project_name@,
        snake_name: variables.snake_name@,
        pascal_name: variables.pascal_name@,
        program_name: variables.program_name@,
        star_frame: versions.star_frame@,
        program_id,
    }
}

/// The blanks that a project name makes, with the version of `star_frame`
/// and the identifier given.
pub open spec fn blanks_for(project_name: Seq<char>, star_frame: Seq<char>, program_id: Seq<char>) -> Blanks {
    Blanks {
        project_name,
        snake_name: snake_case(project_name),
        pascal_name: pascal_case(project_name),
        program_name: program_type_name(project_name),
        star_frame,
        program_id,
    }
}

/// Adds a file to a plan.
pub fn push_file(files: &mut Vec<GeneratedFile>, path: String, content: String)
    ensures
        file_views(final(files)@) == file_views(old(files)@).push(
            FileView { path: path@, content: content@ },
        ),
{
    let ghost before = file_views(files@);
    let ghost entry = FileView { path: path@, content: content@ };
    files.push(GeneratedFile { path, content });
    proof {
        assert(file_views(files@) =~= before.push(entry));
    }
}

/// A template: a plan of the files of a new project.
pub trait Template {
    /// The files of a project, with the blanks `b` filled in.
    spec fn planned(&self, b: Blanks) -> Seq<FileView>;

    /// The directories of a project, each after the one that holds it; the
    /// empty text stands for the project's own directory.
    spec fn layout(&self) -> Seq<Seq<char>>;

    /// The version of `star_frame` that is declared where none is given.
    spec fn default_star_frame(&self) -> Seq<char>;

    /// The directories to make before the files are written.
    fn directories(&self) -> (r: Vec<&'static str>)
        ensures
            text_views(r@) == self.layout(),
    ;

    /// Plans the files for given spellings, versions and identifier.
    fn files(
        &self,
        variables: &TemplateVariables,
        versions: &DependencyVersions,
        program_id: &str,
    ) -> (r: Vec<GeneratedFile>)
        ensures
            file_views(r@) == self.planned(blanks_of(*variables, *versions, program_id@)),
    ;

    /// Plans the files for given spellings and versions, with a new
    /// identifier.
    fn generate_with_variables(
        &self,
        variables: &TemplateVariables,
        versions: &DependencyVersions,
    ) -> (r: Vec<GeneratedFile>)
        ensures
            exists|id: Seq<char>|
                file_views(r@) == #[trigger] self.planned(blanks_of(*variables, *versions, id)),
    ;

    /// Plans the files for a project name and given versions, with a new
    /// identifier.
    fn generate_with_versions(&self, project_name: &str, versions: &DependencyVersions) -> (r: Vec<
        GeneratedFile,
    >)
        ensures
            exists|id: Seq<char>|
                file_views(r@) == #[trigger] self.planned(
                    blanks_for(project_name@, versions.star_frame@, id),
                ),
    ;

    /// Plans the files for a project name, with the template's own version
    /// of `star_frame` and a new identifier.
    fn generate(&self, project_name: &str) -> (r: Vec<GeneratedFile>)
        ensures
            exists|id: Seq<char>|
                file_views(r@) == #[trigger] self.planned(
                    blanks_for(project_name@, self.default_star_frame(), id),
                ),
    ;
}

} // verus!
