//! The generation settings and the rules by which they are found and filled in.

use vstd::prelude::*;
pub use crate::cli::DatabaseType;
use crate::cli::{Commands, OrmType};
use crate::name_map::{upsert, Entries, NameMap};
use crate::text::{ends_with, starts_with, str_eq, trim, trimmed};

verus! {

/// How type names become table names.
#[derive(Clone, Copy, Debug, PartialEq, Eq, Structural)]
pub enum TableNamingConvention {
    /// `UserProfile` becomes `user_profile`.
    SnakeCase,
    /// `UserProfile` stays `UserProfile`.
    PascalCase,
}

impl Default for TableNamingConvention {
    fn default() -> (convention: Self)
        ensures
            convention == TableNamingConvention::SnakeCase,
    {
        TableNamingConvention::SnakeCase
    }
}

/// Everything a generation run is told: where the schema lives, what to emit
/// for, and where the result goes.
#[derive(Debug, Clone)]
pub struct Config {
    /// The GraphQL endpoint.
    pub url: String,
    /// The ORM to emit for.
    pub orm: OrmType,
    /// The storage engine to emit for.
    pub db: DatabaseType,
    /// The directory that receives the artifacts.
    pub output_dir: String,
    /// Headers sent with every request to the endpoint.
    pub headers: NameMap<String>,
    /// Overrides for scalars that are not built in: scalar name to emitted type.
    pub type_mappings: NameMap<String>,
    /// Further scalar overrides, kept with the settings.
    pub scalar_mappings: NameMap<String>,
    /// How type names become table names.
    pub table_naming: TableNamingConvention,
    /// Whether migrations are emitted.
    pub generate_migrations: bool,
    /// Whether entity files are emitted.
    pub generate_entities: bool,
}

/// Model of a `Config`.
pub struct ConfigView {
    pub url: Seq<char>,
    pub orm: OrmType,
    pub db: DatabaseType,
    pub output_dir: Seq<char>,
    pub headers: Entries<Seq<char>>,
    pub type_mappings: Entries<Seq<char>>,
    pub scalar_mappings: Entries<Seq<char>>,
    pub table_naming: TableNamingConvention,
    pub generate_migrations: bool,
    pub generate_entities: bool,
}

impl DeepView for Config {
    type V = ConfigView;

    open spec fn deep_view(&self) -> ConfigView {
        ConfigView {
            url: self.url@,
            orm: self.orm,
            db: self.db,
            output_dir: self.output_dir@,
            headers: self.headers@,
            type_mappings: self.type_mappings@,
            scalar_mappings: self.scalar_mappings@,
            table_naming: self.table_naming,
            generate_migrations: self.generate_migrations,
            generate_entities: self.generate_entities,
        }
    }
}

impl View for Config {
    type V = ConfigView;

    open spec fn view(&self) -> ConfigView {
        self.deep_view()
    }
}

/// The settings of an empty configuration: no endpoint, the first backend
/// and engine, nothing to send, nothing overridden, and nothing to emit.
pub open spec fn empty_config() -> ConfigView {
    ConfigView {
        url: Seq::empty(),
        orm: OrmType::Diesel,
        db: DatabaseType::Sqlite,
        output_dir: Seq::empty(),
        headers: Seq::empty(),
        type_mappings: Seq::empty(),
        scalar_mappings: Seq::empty(),
        table_naming: TableNamingConvention::SnakeCase,
        generate_migrations: false,
        generate_entities: false,
    }
}

impl Default for Config {
    fn default() -> (config: Self)
        ensures
            config@ == empty_config(),
    {
        Config {
            url: String::new(),
            orm: OrmType::Diesel,
            db: DatabaseType::Sqlite,
            output_dir: String::new(),
            headers: NameMap::new(),
            type_mappings: NameMap::new(),
            scalar_mappings: NameMap::new(),
            table_naming: TableNamingConvention::SnakeCase,
            generate_migrations: false,
            generate_entities: false,
        }
    }
}

/// Where the schema of a YAML configuration lives.
#[derive(Debug, Clone)]
pub enum SchemaConfig {
    /// Just the endpoint.
    Url(String),
    /// The endpoint and the headers to send to it.
    Object { url: String, headers: NameMap<String> },
}

/// Model of a `SchemaConfig`.
pub enum SchemaConfigView {
    Url(Seq<char>),
    Object { url: Seq<char>, headers: Entries<Seq<char>> },
}

impl DeepView for SchemaConfig {
    type V = SchemaConfigView;

    open spec fn deep_view(&self) -> SchemaConfigView {
        match self {
            SchemaConfig::Url(url) => SchemaConfigView::Url(url@),
            SchemaConfig::Object { url, headers } => SchemaConfigView::Object {
                url: url@,
                headers: headers@,
            },
        }
    }
}

impl View for SchemaConfig {
    type V = SchemaConfigView;

    open spec fn view(&self) -> SchemaConfigView {
        self.deep_view()
    }
}

/// The part of a YAML configuration that belongs to this generator.
#[derive(Debug, Clone)]
pub struct RustCodegenConfig {
    pub orm: OrmType,
    pub db: DatabaseType,
    pub output_dir: String,
    pub type_mappings: NameMap<String>,
    pub scalar_mappings: NameMap<String>,
    pub table_naming: TableNamingConvention,
    pub generate_migrations: bool,
    pub generate_entities: bool,
}

/// Model of a `RustCodegenConfig`.
pub struct RustCodegenConfigView {
    pub orm: OrmType,
    pub db: DatabaseType,
    pub output_dir: Seq<char>,
    pub type_mappings: Entries<Seq<char>>,
    pub scalar_mappings: Entries<Seq<char>>,
    pub table_naming: TableNamingConvention,
    pub generate_migrations: bool,
    pub generate_entities: bool,
}

impl DeepView for RustCodegenConfig {
    type V = RustCodegenConfigView;

    open spec fn deep_view(&self) -> RustCodegenConfigView {
        RustCodegenConfigView {
            orm: self.orm,
            db: self.db,
            output_dir: self.output_dir@,
            type_mappings: self.type_mappings@,
            scalar_mappings: self.scalar_mappings@,
            table_naming: self.table_naming,
            generate_migrations: self.generate_migrations,
            generate_entities: self.generate_entities,
        }
    }
}

impl View for RustCodegenConfig {
    type V = RustCodegenConfigView;

    open spec fn view(&self) -> RustCodegenConfigView {
        self.deep_view()
    }
}

/// The generator's part of a YAML configuration that does not have one.
pub open spec fn default_codegen_config() -> RustCodegenConfigView {
    RustCodegenConfigView {
        orm: OrmType::Diesel,
        db: DatabaseType::Sqlite,
        output_dir: "./generated"@,
        type_mappings: Seq::empty(),
        scalar_mappings: Seq::empty(),
        table_naming: TableNamingConvention::SnakeCase,
        generate_migrations: true,
        generate_entities: true,
    }
}

/// The backend that is used when none is chosen.
pub fn default_orm() -> (orm: OrmType)
    ensures
        orm == OrmType::Diesel,
{
    OrmType::Diesel
}

/// The engine that is used when none is chosen.
pub fn default_db() -> (db: DatabaseType)
    ensures
        db == DatabaseType::Sqlite,
{
    DatabaseType::Sqlite
}

/// The output directory that is used when none is chosen.
pub fn default_output() -> (output: String)
    ensures
        output@ == "./generated"@,
{
    String::from_str("./generated")
}

/// Whether artifacts are emitted when nothing is said about them.
pub fn default_true() -> (flag: bool)
    ensures
        flag,
{
    true
}

impl Default for RustCodegenConfig {
    fn default() -> (config: Self)
        ensures
            config@ == default_codegen_config(),
    {
        RustCodegenConfig {
            orm: default_orm(),
            db: default_db(),
            output_dir: default_output(),
            type_mappings: NameMap::new(),
            scalar_mappings: NameMap::new(),
            table_naming: TableNamingConvention::SnakeCase,
            generate_migrations: true,
            generate_entities: true,
        }
    }
}

/// A YAML configuration: the schema, shared with other generators, and this
/// generator's own part.
#[derive(Debug, Clone)]
pub struct YamlConfig {
    pub schema: SchemaConfig,
    pub rust_codegen: Option<RustCodegenConfig>,
}

/// Model of a `YamlConfig`.
pub struct YamlConfigView {
    pub schema: SchemaConfigView,
    pub rust_codegen: Option<RustCodegenConfigView>,
}

impl DeepView for YamlConfig {
    type V = YamlConfigView;

    open spec fn deep_view(&self) -> YamlConfigView {
        YamlConfigView { schema: self.schema@, rust_codegen: self.rust_codegen.deep_view() }
    }
}

impl View for YamlConfig {
    type V = YamlConfigView;

    open spec fn view(&self) -> YamlConfigView {
        self.deep_view()
    }
}

/// The settings that a YAML configuration stands for: endpoint and headers
/// from the schema, the rest from the generator's part or its defaults.
pub open spec fn config_of_yaml(yaml: YamlConfigView) -> ConfigView {
    let codegen = match yaml.rust_codegen {
        Some(codegen) => codegen,
        None => default_codegen_config(),
    };
    ConfigView {
        url: match yaml.schema {
            SchemaConfigView::Url(url) => url,
            SchemaConfigView::Object { url, .. } => url,
        },
        orm: codegen.orm,
        db: codegen.db,
        output_dir: codegen.output_dir,
        headers: match yaml.schema {
            SchemaConfigView::Url(_) => Seq::empty(),
            SchemaConfigView::Object { headers, .. } => headers,
        },
        type_mappings: codegen.type_mappings,
        scalar_mappings: codegen.scalar_mappings,
        table_naming: codegen.table_naming,
        generate_migrations: codegen.generate_migrations,
        generate_entities: codegen.generate_entities,
    }
}

/// The headers of a command line bound one after the other: a later value
/// replaces an earlier one of the same name.
pub open spec fn header_map(headers: Seq<(Seq<char>, Seq<char>)>, n: nat) -> Entries<Seq<char>>
    decreases n,
{
    if n == 0 {
        Seq::empty()
    } else {
        upsert(header_map(headers, (n - 1) as nat), headers[n - 1].0, headers[n - 1].1)
    }
}

/// The settings that an `init` command stands for.
pub open spec fn config_of_init(
    url: Seq<char>,
    orm: OrmType,
    db: DatabaseType,
    output: Seq<char>,
    headers: Seq<(Seq<char>, Seq<char>)>,
) -> ConfigView {
    ConfigView {
        url,
        orm,
        db,
        output_dir: output,
        headers: header_map(headers, headers.len()),
        type_mappings: Seq::empty(),
        scalar_mappings: Seq::empty(),
        table_naming: TableNamingConvention::SnakeCase,
        generate_migrations: true,
        generate_entities: true,
    }
}

/// The name of the configuration file that `init` writes.
pub open spec fn config_file_name() -> Seq<char> {
    "graphql-codegen-rust.toml"@
}

/// The path of the configuration file in `output_dir`: the directory, a
/// slash unless the directory is empty or ends in one, and the file's name.
pub open spec fn config_path_of(output_dir: Seq<char>) -> Seq<char> {
    if output_dir.len() == 0 {
        config_file_name()
    } else if "/"@.is_suffix_of(output_dir) {
        output_dir + config_file_name()
    } else {
        output_dir + "/"@ + config_file_name()
    }
}

/// Which configuration file is found.
#[derive(Clone, Copy, Debug, PartialEq, Eq, Structural)]
pub enum ConfigError {
    /// None of the three known files exists.
    NoConfigFile,
}

/// The text of a `ConfigError`.
pub open spec fn config_error_message(error: ConfigError) -> Seq<char> {
    match error {
        ConfigError::NoConfigFile => "No config file found in current directory.\n\nExpected one of:\n  - codegen.yml\n  - codegen.yaml\n  - graphql-codegen-rust.toml\n\nTo create a new project, run:\n  graphql-codegen-rust init --url <your-graphql-endpoint>\n\nTo specify a config file explicitly, run:\n  graphql-codegen-rust generate --config <path-to-config>"@,
    }
}

impl ConfigError {
    /// The text of the error.
    pub fn message(&self) -> (text: String)
        ensures
            text@ == config_error_message(*self),
    {
        match self {
            ConfigError::NoConfigFile => String::from_str(
                "No config file found in current directory.\n\nExpected one of:\n  - codegen.yml\n  - codegen.yaml\n  - graphql-codegen-rust.toml\n\nTo create a new project, run:\n  graphql-codegen-rust init --url <your-graphql-endpoint>\n\nTo specify a config file explicitly, run:\n  graphql-codegen-rust generate --config <path-to-config>",
            ),
        }
    }
}

/// The configuration file that is used, given which of the three known
/// files exist: `codegen.yml` before `codegen.yaml` before the TOML file.
pub open spec fn detected_config(yml: bool, yaml: bool, toml: bool) -> Result<
    Seq<char>,
    ConfigError,
> {
    if yml {
        Ok("codegen.yml"@)
    } else if yaml {
        Ok("codegen.yaml"@)
    } else if toml {
        Ok("graphql-codegen-rust.toml"@)
    } else {
        Err(ConfigError::NoConfigFile)
    }
}

/// Whether a configuration file is read as YAML: its extension says so, or
/// its text begins, after whitespace, with a schema key.
pub open spec fn reads_as_yaml(extension: Option<Seq<char>>, contents: Seq<char>) -> bool {
    extension == Some("yml"@) || extension == Some("yaml"@) || "schema:"@.is_prefix_of(
        trimmed(contents),
    )
}

impl Config {
    /// The settings that a YAML configuration stands for.
    pub fn from_yaml_config(yaml_config: YamlConfig) -> (config: Config)
        ensures
            config@ == config_of_yaml(yaml_config@),
    {
        let (url, headers) = match yaml_config.schema {
            SchemaConfig::Url(url) => (url, NameMap::new()),
            SchemaConfig::Object { url, headers } => (url, headers),
        };
        let rust_config = match yaml_config.rust_codegen {
            Some(rust_config) => rust_config,
            None => RustCodegenConfig::default(),
        };
        Config {
            url,
            orm: rust_config.orm,
            db: rust_config.db,
            output_dir: rust_config.output_dir,
            headers,
            type_mappings: rust_config.type_mappings,
            scalar_mappings: rust_config.scalar_mappings,
            table_naming: rust_config.table_naming,
            generate_migrations: rust_config.generate_migrations,
            generate_entities: rust_config.generate_entities,
        }
    }

    /// The settings that an `init` command stands for, or nothing for
    /// another command.
    pub fn from_command(cmd: &Commands) -> (config: Option<Config>)
        ensures
            match *cmd {
                Commands::Init { url, orm, db, output, headers } => config.deep_view() == Some(
                    config_of_init(url@, orm, db, output@, headers.deep_view()),
                ),
                Commands::Generate { .. } => config.is_none(),
            },
    {
        match cmd {
            Commands::Init { url, orm, db, output, headers } => {
                let mut headers_map: NameMap<String> = NameMap::new();
                let n: usize = headers.len();
                let mut i: usize = 0;
                while i < n
                    invariant
                        i <= n,
                        n == headers@.len(),
                        headers_map@ == header_map(headers.deep_view(), i as nat),
                    decreases n - i,
                {
                    headers_map.insert(headers[i].0.clone(), headers[i].1.clone());
                    i = i + 1;
                }
                Some(
                    Config {
                        url: url.clone(),
                        orm: *orm,
                        db: *db,
                        output_dir: output.clone(),
                        headers: headers_map,
                        type_mappings: NameMap::new(),
                        scalar_mappings: NameMap::new(),
                        table_naming: TableNamingConvention::SnakeCase,
                        generate_migrations: true,
                        generate_entities: true,
                    },
                )
            },
            Commands::Generate { .. } => None,
        }
    }

    /// The path of the configuration file in `output_dir`.
    pub fn config_path(output_dir: &str) -> (path: String)
        ensures
            path@ == config_path_of(output_dir@),
    {
        if output_dir.unicode_len() == 0 {
            String::from_str("graphql-codegen-rust.toml")
        } else if ends_with(output_dir, "/") {
            let mut path = String::from_str(output_dir);
            path.append("graphql-codegen-rust.toml");
            path
        } else {
            let mut path = String::from_str(output_dir);
            path.append("/");
            path.append("graphql-codegen-rust.toml");
            path
        }
    }

    /// Picks the configuration file to use, given which of `codegen.yml`,
    /// `codegen.yaml` and `graphql-codegen-rust.toml` exist in the current
    /// directory.
    pub fn auto_detect_config(yml_exists: bool, yaml_exists: bool, toml_exists: bool) -> (found:
        Result<String, ConfigError>)
        ensures
            match found {
                Ok(path) => detected_config(yml_exists, yaml_exists, toml_exists) == Ok::<
                    Seq<char>,
                    ConfigError,
                >(path@),
                Err(error) => detected_config(yml_exists, yaml_exists, toml_exists) == Err::<
                    Seq<char>,
                    ConfigError,
                >(error),
            },
    {
        if yml_exists {
            Ok(String::from_str("codegen.yml"))
        } else if yaml_exists {
            Ok(String::from_str("codegen.yaml"))
        } else if toml_exists {
            Ok(String::from_str("graphql-codegen-rust.toml"))
        } else {
            Err(ConfigError::NoConfigFile)
        }
    }

    /// Tells whether a configuration file with this extension and this text
    /// is read as YAML.
    pub fn is_yaml(extension: Option<&str>, contents: &str) -> (yaml: bool)
        ensures
            yaml == reads_as_yaml(extension.deep_view(), contents@),
    {
        let by_extension = match extension {
            Some(ext) => str_eq(ext, "yml") || str_eq(ext, "yaml"),
            None => false,
        };
        by_extension || starts_with(trim(contents), "schema:")
    }
}

} // verus!
