//! The simple counter template.

use crate::names::{generate_template_variables, TemplateVariables};
use crate::program_id::generate_program_id;
use crate::registry::{default_dependency_versions, DependencyVersions};
use crate::render::{render, rendered, text_views};
use crate::templates::{
    Blanks, blanks_for, blanks_of, file_views, FileView, GeneratedFile, push_file, Template,
};
use crate::templates::simple_counter_text::{
    SIMPLE_CARGO_TOML, SIMPLE_GITIGNORE, SIMPLE_LIB_RS, SIMPLE_README, SIMPLE_STARPIN_TOML,
    SIMPLE_TEST_RS,
};
use crate::text::{replace_char, replace_in};
use vstd::prelude::*;

verus! {

/// The simple counter template.
#[derive(Clone, Copy, Debug)]
pub struct SimpleCounterTemplate;

impl SimpleCounterTemplate {
    /// The template.
    pub fn new() -> (r: Self) {
        SimpleCounterTemplate
    }
}

/// The files of the simple counter template with the blanks `b` filled in.
pub open spec fn simple_counter_files(b: Blanks) -> Seq<FileView> {
    seq![
        FileView {
            path: "Cargo.toml"@,
            content: rendered(
                SIMPLE_CARGO_TOML@,
                seq![
                    b.project_name, b.star_frame, b.program_id,
                ],
            ),
        },
        FileView {
            path: "src/lib.rs"@,
            content: rendered(
                SIMPLE_LIB_RS@,
                seq![
                    b.program_id,
                ],
            ),
        },
        FileView {
            path: "tests/simple_counter.rs"@,
            content: rendered(
                SIMPLE_TEST_RS@,
                seq![
                    replace_char(b.project_name, '-', '_'),
                ],
            ),
        },
        FileView {
            path: "README.md"@,
            content: rendered(
                SIMPLE_README@,
                seq![
                    b.project_name, b.program_id,
                ],
            ),
        },
        FileView {
            path: ".gitignore"@,
            content: SIMPLE_GITIGNORE@,
        },
        FileView {
            path: "Starpin.toml"@,
            content: rendered(
                SIMPLE_STARPIN_TOML@,
                seq![
                    replace_char(b.project_name, '-', '_'), b.program_id, replace_char(b.project_name, '-', '_'),
                    b.program_id, replace_char(b.project_name, '-', '_'), b.program_id,
                ],
            ),
        },
    ]
}

impl Template for SimpleCounterTemplate {
    open spec fn planned(&self, b: Blanks) -> Seq<FileView> {
        simple_counter_files(b)
    }

    open spec fn layout(&self) -> Seq<Seq<char>> {
        seq![""@, "src"@, "tests"@]
    }

    open spec fn default_star_frame(&self) -> Seq<char> {
        "0.1.0"@
    }

    fn directories(&self) -> (r: Vec<&'static str>) {
        let dirs: Vec<&'static str> = vec!["", "src", "tests"];
        proof {
            assert(text_views(dirs@) =~= self.layout());
        }
        dirs
    }

    fn files(
        &self,
        variables: &TemplateVariables,
        versions: &DependencyVersions,
        program_id: &str,
    ) -> (r: Vec<GeneratedFile>) {
        let ghost b = blanks_of(*variables, *versions, program_id@);
        let mut out: Vec<GeneratedFile> = Vec::new();
        let project = variables.project_name.as_str();
        let star_frame = versions.star_frame.as_str();
        let id = program_id;
        let turned = replace_in(project, '-', '_');
        let underscored = turned.as_str();
        let values: Vec<&str> = vec![
            project, star_frame, id,
        ];
        proof {
            assert(text_views(values@) =~= seq![
                b.project_name, b.star_frame, b.program_id,
            ]);
        }
        push_file(&mut out, "Cargo.toml".to_owned(), render(SIMPLE_CARGO_TOML, &values));
        let values: Vec<&str> = vec![
            id,
        ];
        proof {
            assert(text_views(values@) =~= seq![
                b.program_id,
            ]);
        }
        push_file(&mut out, "src/lib.rs".to_owned(), render(SIMPLE_LIB_RS, &values));
        let values: Vec<&str> = vec![
            underscored,
        ];
        proof {
            assert(text_views(values@) =~= seq![
                replace_char(b.project_name, '-', '_'),
            ]);
        }
        push_file(&mut out, "tests/simple_counter.rs".to_owned(), render(SIMPLE_TEST_RS, &values));
        let values: Vec<&str> = vec![
            project, id,
        ];
        proof {
            assert(text_views(values@) =~= seq![
                b.project_name, b.program_id,
            ]);
        }
        push_file(&mut out, "README.md".to_owned(), render(SIMPLE_README, &values));
        push_file(&mut out, ".gitignore".to_owned(), SIMPLE_GITIGNORE.to_owned());
        let values: Vec<&str> = vec![
            underscored, id, underscored, id, underscored, id,
        ];
        proof {
            assert(text_views(values@) =~= seq![
                replace_char(b.project_name, '-', '_'), b.program_id, replace_char(b.project_name, '-', '_'),
                b.program_id, replace_char(b.project_name, '-', '_'), b.program_id,
            ]);
        }
        push_file(&mut out, "Starpin.toml".to_owned(), render(SIMPLE_STARPIN_TOML, &values));
        proof {
            assert(file_views(out@) =~= simple_counter_files(b));
        }
        out
    }

    fn generate_with_variables(
        &self,
        variables: &TemplateVariables,
        versions: &DependencyVersions,
    ) -> (r: Vec<GeneratedFile>) {
        let program_id = generate_program_id();
        let r = self.files(variables, versions, program_id.as_str());
        proof {
            assert(file_views(r@) == self.planned(blanks_of(*variables, *versions, program_id@)));
        }
        r
    }

    fn generate_with_versions(&self, project_name: &str, versions: &DependencyVersions) -> (r: Vec<
        GeneratedFile,
    >) {
        let variables = generate_template_variables(project_name, "simple_counter");
        let program_id = generate_program_id();
        let r = self.files(&variables, versions, program_id.as_str());
        proof {
            assert(blanks_of(variables, *versions, program_id@) == blanks_for(
                project_name@,
                versions.star_frame@,
                program_id@,
            ));
            assert(file_views(r@) == self.planned(
                blanks_for(project_name@, versions.star_frame@, program_id@),
            ));
        }
        r
    }

    fn generate(&self, project_name: &str) -> (r: Vec<GeneratedFile>) {
        let mut versions = default_dependency_versions();
        versions.star_frame = "0.1.0".to_owned();
        let variables = generate_template_variables(project_name, "simple_counter");
        let program_id = generate_program_id();
        let r = self.files(&variables, &versions, program_id.as_str());
        proof {
            assert(blanks_of(variables, versions, program_id@) == blanks_for(
                project_name@,
                self.default_star_frame(),
                program_id@,
            ));
            assert(file_views(r@) == self.planned(
                blanks_for(project_name@, self.default_star_frame(), program_id@),
            ));
        }
        r
    }
}

} // verus!
