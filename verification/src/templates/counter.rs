//! The counter template.

use crate::names::{generate_template_variables, str_to_uppercase, TemplateVariables, uppercase_of};
use crate::program_id::generate_program_id;
use crate::registry::{default_dependency_versions, DependencyVersions};
use crate::render::{render, rendered, text_views};
use crate::templates::{
    Blanks, blanks_for, blanks_of, file_views, FileView, GeneratedFile, push_file, Template,
};
use crate::templates::counter_text::{
    COUNTER_CARGO_TOML, COUNTER_GITIGNORE, COUNTER_LIB_RS, COUNTER_README, COUNTER_STARPIN_TOML,
    COUNTER_TEST_RS,
};
use crate::text::{append_chars, chars_of, string_of};
use vstd::prelude::*;

verus! {

/// The counter template.
#[derive(Clone, Copy, Debug)]
pub struct CounterTemplate;

impl CounterTemplate {
    /// The template.
    pub fn new() -> (r: Self) {
        CounterTemplate
    }
}

/// The files of the counter template with the blanks `b` filled in.
pub open spec fn counter_files(b: Blanks) -> Seq<FileView> {
    seq![
        FileView {
            path: "Cargo.toml"@,
            content: rendered(
                COUNTER_CARGO_TOML@,
                seq![
                    b.project_name, b.star_frame, b.program_id,
                ],
            ),
        },
        FileView {
            path: "src/lib.rs"@,
            content: rendered(
                COUNTER_LIB_RS@,
                seq![
                    b.pascal_name, b.program_id, b.program_name,
                    b.pascal_name, b.pascal_name, b.pascal_name,
                    b.pascal_name, b.pascal_name, b.pascal_name,
                    b.pascal_name, b.pascal_name, b.pascal_name,
                    b.pascal_name, b.pascal_name, b.pascal_name,
                    uppercase_of(b.pascal_name), b.pascal_name, b.pascal_name,
                    b.pascal_name, b.pascal_name, b.pascal_name,
                    b.pascal_name, b.pascal_name, b.pascal_name,
                    b.pascal_name, b.pascal_name, b.pascal_name,
                    b.pascal_name, b.pascal_name, b.pascal_name,
                    b.pascal_name, b.pascal_name, b.pascal_name,
                    b.pascal_name, b.pascal_name, b.pascal_name,
                ],
            ),
        },
        FileView {
            path: "tests/"@ + b.snake_name + ".rs"@,
            content: rendered(
                COUNTER_TEST_RS@,
                seq![
                    b.snake_name, b.snake_name, b.pascal_name,
                    b.snake_name, b.pascal_name, b.snake_name,
                    b.pascal_name, b.snake_name, b.snake_name,
                    b.pascal_name, b.snake_name, b.snake_name,
                    b.pascal_name, b.program_name,
                ],
            ),
        },
        FileView {
            path: "README.md"@,
            content: rendered(
                COUNTER_README@,
                seq![
                    b.project_name, b.pascal_name, b.pascal_name,
                    b.pascal_name, b.program_id,
                ],
            ),
        },
        FileView {
            path: ".gitignore"@,
            content: COUNTER_GITIGNORE@,
        },
        FileView {
            path: "Starpin.toml"@,
            content: rendered(
                COUNTER_STARPIN_TOML@,
                seq![
                    b.snake_name, b.program_id, b.snake_name,
                    b.program_id, b.snake_name, b.program_id,
                ],
            ),
        },
    ]
}

impl Template for CounterTemplate {
    open spec fn planned(&self, b: Blanks) -> Seq<FileView> {
        counter_files(b)
    }

    open spec fn layout(&self) -> Seq<Seq<char>> {
        seq![""@, "src"@, "tests"@]
    }

    open spec fn default_star_frame(&self) -> Seq<char> {
        "0.23.1"@
    }

    fn directories(&self) -> (r: Vec<&'static str>) {
        let dirs: Vec<&'static str> = vec!["", "src", "tests"];
        proof {
            assert(text_views(dirs@) =~= self.layout());
        }
        dirs
    }

    fn files(
        &self,
        variables: &TemplateVariables,
        versions: &DependencyVersions,
        program_id: &str,
    ) -> (r: Vec<GeneratedFile>) {
        let ghost b = blanks_of(*variables, *versions, program_id@);
        let mut out: Vec<GeneratedFile> = Vec::new();
        let project = variables.project_name.as_str();
        let snake = variables.snake_name.as_str();
        let pascal = variables.pascal_name.as_str();
        let program = variables.program_name.as_str();
        let star_frame = versions.star_frame.as_str();
        let id = program_id;
        let raised = str_to_uppercase(pascal);
        let shouted = raised.as_str();
        let values: Vec<&str> = vec![
            project, star_frame, id,
        ];
        proof {
            assert(text_views(values@) =~= seq![
                b.project_name, b.star_frame, b.program_id,
            ]);
        }
        push_file(&mut out, "Cargo.toml".to_owned(), render(COUNTER_CARGO_TOML, &values));
        let values: Vec<&str> = vec![
            pascal, id, program, pascal, pascal, pascal,
            pascal, pascal, pascal, pascal, pascal, pascal,
            pascal, pascal, pascal, shouted, pascal, pascal,
            pascal, pascal, pascal, pascal, pascal, pascal,
            pascal, pascal, pascal, pascal, pascal, pascal,
            pascal, pascal, pascal, pascal, pascal, pascal,
        ];
        proof {
            assert(text_views(values@) =~= seq![
                b.pascal_name, b.program_id, b.program_name,
                b.pascal_name, b.pascal_name, b.pascal_name,
                b.pascal_name, b.pascal_name, b.pascal_name,
                b.pascal_name, b.pascal_name, b.pascal_name,
                b.pascal_name, b.pascal_name, b.pascal_name,
                uppercase_of(b.pascal_name), b.pascal_name, b.pascal_name,
                b.pascal_name, b.pascal_name, b.pascal_name,
                b.pascal_name, b.pascal_name, b.pascal_name,
                b.pascal_name, b.pascal_name, b.pascal_name,
                b.pascal_name, b.pascal_name, b.pascal_name,
                b.pascal_name, b.pascal_name, b.pascal_name,
                b.pascal_name, b.pascal_name, b.pascal_name,
            ]);
        }
        push_file(&mut out, "src/lib.rs".to_owned(), render(COUNTER_LIB_RS, &values));
        let mut place = chars_of("tests/");
        let stem = chars_of(snake);
        append_chars(&mut place, &stem);
        let ending = chars_of(".rs");
        append_chars(&mut place, &ending);
        let values: Vec<&str> = vec![
            snake, snake, pascal, snake, pascal, snake,
            pascal, snake, snake, pascal, snake, snake,
            pascal, program,
        ];
        proof {
            assert(text_views(values@) =~= seq![
                b.snake_name, b.snake_name, b.pascal_name,
                b.snake_name, b.pascal_name, b.snake_name,
                b.pascal_name, b.snake_name, b.snake_name,
                b.pascal_name, b.snake_name, b.snake_name,
                b.pascal_name, b.program_name,
            ]);
        }
        push_file(&mut out, string_of(&place), render(COUNTER_TEST_RS, &values));
        let values: Vec<&str> = vec![
            project, pascal, pascal, pascal, id,
        ];
        proof {
            assert(text_views(values@) =~= seq![
                b.project_name, b.pascal_name, b.pascal_name,
                b.pascal_name, b.program_id,
            ]);
        }
        push_file(&mut out, "README.md".to_owned(), render(COUNTER_README, &values));
        push_file(&mut out, ".gitignore".to_owned(), COUNTER_GITIGNORE.to_owned());
        let values: Vec<&str> = vec![
            snake, id, snake, id, snake, id,
        ];
        proof {
            assert(text_views(values@) =~= seq![
                b.snake_name, b.program_id, b.snake_name,
                b.program_id, b.snake_name, b.program_id,
            ]);
        }
        push_file(&mut out, "Starpin.toml".to_owned(), render(COUNTER_STARPIN_TOML, &values));
        proof {
            assert(file_views(out@) =~= counter_files(b));
        }
        out
    }

    fn generate_with_variables(
        &self,
        variables: &TemplateVariables,
        versions: &DependencyVersions,
    ) -> (r: Vec<GeneratedFile>) {
        let program_id = generate_program_id();
        let r = self.files(variables, versions, program_id.as_str());
        proof {
            assert(file_views(r@) == self.planned(blanks_of(*variables, *versions, program_id@)));
        }
        r
    }

    fn generate_with_versions(&self, project_name: &str, versions: &DependencyVersions) -> (r: Vec<
        GeneratedFile,
    >) {
        let variables = generate_template_variables(project_name, "counter");
        let program_id = generate_program_id();
        let r = self.files(&variables, versions, program_id.as_str());
        proof {
            assert(blanks_of(variables, *versions, program_id@) == blanks_for(
                project_name@,
                versions.star_frame@,
                program_id@,
            ));
            assert(file_views(r@) == self.planned(
                blanks_for(project_name@, versions.star_frame@, program_id@),
            ));
        }
        r
    }

    fn generate(&self, project_name: &str) -> (r: Vec<GeneratedFile>) {
        let versions = default_dependency_versions();
        let variables = generate_template_variables(project_name, "counter");
        let program_id = generate_program_id();
        let r = self.files(&variables, &versions, program_id.as_str());
        proof {
            assert(blanks_of(variables, versions, program_id@) == blanks_for(
                project_name@,
                self.default_star_frame(),
                program_id@,
            ));
            assert(file_views(r@) == self.planned(
                blanks_for(project_name@, self.default_star_frame(), program_id@),
            ));
        }
        r
    }
}

} // verus!
