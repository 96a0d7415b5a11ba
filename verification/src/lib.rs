//! Turns an introspected GraphQL schema into a normalized type model and emits
//! ORM source text (entities, table declarations, SQL migrations) from it.
//!
//! Every emitter is a pure function of the model, the configuration and, for
//! time-stamped migrations, the time it is given: nothing in this crate
//! touches the network, the file system or the clock.

pub mod cli;
pub mod config;
pub mod generator;
pub mod integration;
pub mod introspection;
pub mod logger;
pub mod model;
pub mod name_map;
pub mod parser;
pub mod sdl;
pub mod text;

use vstd::prelude::*;

pub use crate::cli::{DatabaseType, OrmType};
pub use crate::config::Config;
pub use crate::generator::create_generator;
pub use crate::logger::Logger;

use crate::config::ConfigView;
use crate::generator::{
    entity_files, migration_files, schema_text, MigrationFile, MigrationFileView,
};
use crate::name_map::{Entries, NameMap};
use crate::parser::{ParsedSchema, ParsedSchemaView};

verus! {

/// Everything one generation run emits. Nothing is written anywhere: the
/// caller decides where the artifacts go.
#[derive(Debug)]
pub struct GeneratedCode {
    /// The schema file: table declarations or a module index.
    pub schema: String,
    /// The entity files: file name to file text.
    pub entities: NameMap<String>,
    /// The migrations, in the order in which they apply.
    pub migrations: Vec<MigrationFile>,
}

/// Model of `GeneratedCode`.
pub struct GeneratedCodeView {
    pub schema: Seq<char>,
    pub entities: Entries<Seq<char>>,
    pub migrations: Seq<MigrationFileView>,
}

impl DeepView for GeneratedCode {
    type V = GeneratedCodeView;

    open spec fn deep_view(&self) -> GeneratedCodeView {
        GeneratedCodeView {
            schema: self.schema@,
            entities: self.entities@,
            migrations: self.migrations.deep_view(),
        }
    }
}

impl View for GeneratedCode {
    type V = GeneratedCodeView;

    open spec fn view(&self) -> GeneratedCodeView {
        self.deep_view()
    }
}

/// What a run of backend `orm` over `schema` at the time `timestamp` emits:
/// the backend's schema file, its entity files if the settings ask for
/// entities, and its migrations if they ask for migrations.
pub open spec fn generated_code(
    orm: OrmType,
    schema: ParsedSchemaView,
    config: ConfigView,
    timestamp: int,
) -> GeneratedCodeView {
    GeneratedCodeView {
        schema: schema_text(orm, schema, config),
        entities: if config.generate_entities {
            entity_files(orm, schema, config)
        } else {
            Seq::empty()
        },
        migrations: if config.generate_migrations {
            migration_files(orm, schema, config, timestamp)
        } else {
            Seq::empty()
        },
    }
}

/// Runs a backend over a schema and collects what it emits. `timestamp` is
/// the time of the run, in seconds since 1970.
pub fn generate_all_code(
    schema: &ParsedSchema,
    config: &Config,
    generator: &dyn generator::CodeGenerator,
    timestamp: i64,
) -> (code: GeneratedCode)
    ensures
        code@ == generated_code(generator.backend(), schema@, config@, timestamp as int),
{
    let schema_code = generator.generate_schema(schema, config);
    let entities = if config.generate_entities {
        generator.generate_entities(schema, config)
    } else {
        NameMap::new()
    };
    let migrations = if config.generate_migrations {
        generator.generate_migrations(schema, config, timestamp)
    } else {
        let none: Vec<MigrationFile> = Vec::new();
        assert(none.deep_view() =~= Seq::<MigrationFileView>::empty());
        none
    };
    GeneratedCode { schema: schema_code, entities, migrations }
}

/// The name of the schema file under the output directory: the table
/// declarations go to the sources, the module index to the root.
pub open spec fn schema_file_name(orm: OrmType) -> Seq<char> {
    match orm {
        OrmType::Diesel => "src/schema.rs"@,
        OrmType::SeaOrm => "mod.rs"@,
    }
}

/// Where the schema file of a backend goes, relative to the output directory.
pub fn schema_file(orm: &OrmType) -> (name: &'static str)
    ensures
        name@ == schema_file_name(*orm),
{
    match orm {
        OrmType::Diesel => "src/schema.rs",
        OrmType::SeaOrm => "mod.rs",
    }
}

/// A generator for one backend, chosen when it is made.
pub struct CodeGenerator {
    inner: generator::Backend,
}

impl CodeGenerator {
    /// The backend that this generator emits for.
    pub closed spec fn backend(&self) -> OrmType {
        generator::CodeGenerator::backend(&self.inner)
    }

    /// Makes the generator of the backend `orm`.
    pub fn new(orm: &OrmType) -> (generator: Self)
        ensures
            generator.backend() == *orm,
    {
        CodeGenerator { inner: create_generator(orm) }
    }

    /// Emits everything for `schema` in a run at the time `timestamp`, in
    /// seconds since 1970.
    pub fn generate(&self, schema: &ParsedSchema, config: &Config, timestamp: i64) -> (code:
        GeneratedCode)
        ensures
            code@ == generated_code(self.backend(), schema@, config@, timestamp as int),
    {
        generate_all_code(schema, config, &self.inner, timestamp)
    }
}

} // verus!
