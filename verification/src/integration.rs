//! Joining a project that already has a code generator configuration: what
//! is added to its files, and when.

use vstd::prelude::*;
use crate::text::ends_with;

verus! {

/// Adds this generator to an existing project.
#[derive(Clone, Copy, Debug)]
pub struct Integration;

/// What the integration is told.
#[derive(Debug)]
pub struct IntegrationConfig {
    /// The directory under which the generated code goes.
    pub output_dir: String,
    /// Whether scripts are added to the package file.
    pub add_scripts: bool,
    /// Whether an existing section is overwritten.
    pub force: bool,
}

/// Why a project cannot be joined.
#[derive(Clone, Copy, Debug, PartialEq, Eq, Structural)]
pub enum IntegrationError {
    /// Neither `codegen.yml` nor `codegen.yaml` exists.
    NoCodegenConfig,
}

/// The text of an `IntegrationError`.
pub open spec fn integration_error_message(error: IntegrationError) -> Seq<char> {
    match error {
        IntegrationError::NoCodegenConfig => "No GraphQL Code Generator config found. Expected 'codegen.yml' or 'codegen.yaml' in current directory.\n\nPlease ensure you have GraphQL Code Generator set up first, then run this integration command."@,
    }
}

impl IntegrationError {
    /// The text of the error.
    pub fn message(&self) -> (text: String)
        ensures
            text@ == integration_error_message(*self),
    {
        match self {
            IntegrationError::NoCodegenConfig => String::from_str(
                "No GraphQL Code Generator config found. Expected 'codegen.yml' or 'codegen.yaml' in current directory.\n\nPlease ensure you have GraphQL Code Generator set up first, then run this integration command.",
            ),
        }
    }
}

/// A value of the section that is added to the configuration.
#[derive(Debug)]
pub enum SectionValue {
    Text(String),
    Flag(bool),
}

/// Model of a `SectionValue`.
pub enum SectionValueView {
    Text(Seq<char>),
    Flag(bool),
}

impl DeepView for SectionValue {
    type V = SectionValueView;

    open spec fn deep_view(&self) -> SectionValueView {
        match self {
            SectionValue::Text(text) => SectionValueView::Text(text@),
            SectionValue::Flag(flag) => SectionValueView::Flag(*flag),
        }
    }
}

impl View for SectionValue {
    type V = SectionValueView;

    open spec fn view(&self) -> SectionValueView {
        self.deep_view()
    }
}

/// The configuration file that is used, given which of `codegen.yml` and
/// `codegen.yaml` exist: the first before the second.
pub open spec fn found_codegen_config(yml: bool, yaml: bool) -> Result<
    Seq<char>,
    IntegrationError,
> {
    if yml {
        Ok("codegen.yml"@)
    } else if yaml {
        Ok("codegen.yaml"@)
    } else {
        Err(IntegrationError::NoCodegenConfig)
    }
}

/// The directory `db` under `output_dir`.
pub open spec fn database_directory(output_dir: Seq<char>) -> Seq<char> {
    if output_dir.len() == 0 {
        "db"@
    } else if "/"@.is_suffix_of(output_dir) {
        output_dir + "db"@
    } else {
        output_dir + "/"@ + "db"@
    }
}

/// The section that is added to the configuration: the first backend and
/// engine, the database directory under `output_dir`, and everything emitted.
pub open spec fn codegen_section(output_dir: Seq<char>) -> Seq<(Seq<char>, SectionValueView)> {
    seq![
        ("orm"@, SectionValueView::Text("diesel"@)),
        ("db"@, SectionValueView::Text("sqlite"@)),
        ("output_dir"@, SectionValueView::Text(database_directory(output_dir))),
        ("generate_migrations"@, SectionValueView::Flag(true)),
        ("generate_entities"@, SectionValueView::Flag(true)),
    ]
}

/// The scripts that are added to a package file: each of the two unless
/// the package file has a script of that name.
pub open spec fn missing_scripts(has_rust: bool, has_all: bool) -> Seq<(Seq<char>, Seq<char>)> {
    let rust = if has_rust {
        Seq::empty()
    } else {
        seq![("codegen:rust"@, "graphql-codegen-rust generate"@)]
    };
    let all = if has_all {
        Seq::empty()
    } else {
        seq![("codegen:all"@, "npm run codegen && npm run codegen:rust"@)]
    };
    rust + all
}

impl Integration {
    /// Picks the configuration file of the existing generator, given which
    /// of `codegen.yml` and `codegen.yaml` exist in the current directory.
    pub fn find_codegen_config(yml_exists: bool, yaml_exists: bool) -> (found: Result<
        String,
        IntegrationError,
    >)
        ensures
            match found {
                Ok(path) => found_codegen_config(yml_exists, yaml_exists) == Ok::<
                    Seq<char>,
                    IntegrationError,
                >(path@),
                Err(error) => found_codegen_config(yml_exists, yaml_exists) == Err::<
                    Seq<char>,
                    IntegrationError,
                >(error),
            },
    {
        if yml_exists {
            Ok(String::from_str("codegen.yml"))
        } else if yaml_exists {
            Ok(String::from_str("codegen.yaml"))
        } else {
            Err(IntegrationError::NoCodegenConfig)
        }
    }

    /// Tells whether the section is written: always, unless one exists and
    /// overwriting is not asked for.
    pub fn writes_section(section_exists: bool, config: &IntegrationConfig) -> (writes: bool)
        ensures
            writes == (!section_exists || config.force),
    {
        !section_exists || config.force
    }

    /// Makes the section that is added to the configuration.
    pub fn add_rust_codegen_section(output_dir: &str) -> (section: Vec<(String, SectionValue)>)
        ensures
            section.deep_view() == codegen_section(output_dir@),
    {
        let mut directory = String::from_str(output_dir);
        if output_dir.unicode_len() == 0 {
            directory = String::from_str("db");
        } else if ends_with(output_dir, "/") {
            directory.append("db");
        } else {
            directory.append("/");
            directory.append("db");
        }
        let mut section: Vec<(String, SectionValue)> = Vec::new();
        section.push((String::from_str("orm"), SectionValue::Text(String::from_str("diesel"))));
        section.push((String::from_str("db"), SectionValue::Text(String::from_str("sqlite"))));
        section.push((String::from_str("output_dir"), SectionValue::Text(directory)));
        section.push((String::from_str("generate_migrations"), SectionValue::Flag(true)));
        section.push((String::from_str("generate_entities"), SectionValue::Flag(true)));
        assert(section.deep_view() =~= codegen_section(output_dir@));
        section
    }

    /// Makes the scripts that are added to a package file, given which
    /// of the two names it has already.
    pub fn add_scripts_to_package_json(has_rust: bool, has_all: bool) -> (scripts: Vec<
        (String, String),
    >)
        ensures
            scripts.deep_view() == missing_scripts(has_rust, has_all),
    {
        let mut scripts: Vec<(String, String)> = Vec::new();
        if !has_rust {
            scripts.push(
                (String::from_str("codegen:rust"), String::from_str("graphql-codegen-rust generate")),
            );
        }
        if !has_all {
            scripts.push(
                (
                    String::from_str("codegen:all"),
                    String::from_str("npm run codegen && npm run codegen:rust"),
                ),
            );
        }
        assert(scripts.deep_view() =~= missing_scripts(has_rust, has_all));
        scripts
    }
}

} // verus!
