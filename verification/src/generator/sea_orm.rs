//! The entity-model backend: one self-contained model file per object, a
//! module index in place of a schema file, and time-stamped migrations.

use vstd::prelude::*;
use crate::cli::{DatabaseType, OrmType};
use crate::config::{Config, ConfigView};
use crate::generator::migration::{create_table, create_table_sql, drop_table, drop_table_sql};
use crate::generator::{
    detect_relationships, id_rust_type, id_rust_type_name, rust_type, rust_type_for_field,
    schema_relationships, snake_case, table_name, table_name_for, to_snake_case, CodeGenerator,
    MigrationFile, MigrationFileView, Relationship, RelationshipView,
};
use crate::name_map::{lookup, upsert, Entries, NameMap};
use crate::parser::{
    ParsedEnum, ParsedEnumView, ParsedField, ParsedFieldView, ParsedSchema, ParsedSchemaView,
    ParsedType, ParsedTypeView, TypeKind,
};
use crate::text::{decimal, lemma_decimal_has_no_underscore, signed_decimal};

verus! {

/// The generator of the entity-model backend.
#[derive(Clone, Copy, Debug)]
pub struct SeaOrmGenerator;

impl SeaOrmGenerator {
    /// Makes the generator.
    pub fn new() -> (generator: Self)
        ensures
            generator.backend() == OrmType::SeaOrm,
    {
        SeaOrmGenerator
    }
}

impl Default for SeaOrmGenerator {
    fn default() -> Self {
        SeaOrmGenerator::new()
    }
}

/// The two lines of a model field: its column attribute and its declaration.
pub open spec fn model_field(field: ParsedFieldView, config: ConfigView) -> Seq<char> {
    "    #[sea_orm(column_name = \""@ + snake_case(field.name) + "\")]\n"@ + "    pub "@
        + snake_case(field.name) + ": "@ + rust_type(field, config.db, config.type_mappings)
        + ",\n"@
}

/// The body of the model record: the lines of each field in order.
pub open spec fn model_fields(fields: Seq<ParsedFieldView>, config: ConfigView) -> Seq<char>
    decreases fields.len(),
{
    if fields.len() == 0 {
        Seq::empty()
    } else {
        model_fields(fields.drop_last(), config) + model_field(fields.last(), config)
    }
}

/// The variants of the column enumeration: one line for each field in order.
pub open spec fn column_variants(fields: Seq<ParsedFieldView>) -> Seq<char>
    decreases fields.len(),
{
    if fields.len() == 0 {
        Seq::empty()
    } else {
        column_variants(fields.drop_last()) + "    "@ + snake_case(fields.last().name) + ",\n"@
    }
}

/// Whether the engine fills in the primary key by counting: true for integer
/// keys, false for UUID keys.
pub open spec fn key_auto_increments(db: DatabaseType) -> bool {
    match db {
        DatabaseType::Sqlite => true,
        DatabaseType::Postgres => false,
        DatabaseType::Mysql => true,
    }
}

/// The primary-key descriptor: the key's host type and whether it increments
/// by itself.
pub open spec fn primary_key_descriptor(db: DatabaseType) -> Seq<char> {
    "impl PrimaryKeyTrait for PrimaryKey {\n"@ + "    type ValueType = "@ + id_rust_type(db)
        + ";\n"@ + "    fn auto_increment() -> bool {\n"@ + "        "@ + (if key_auto_increments(
        db,
    ) {
        "true"@
    } else {
        "false"@
    }) + "\n"@ + "    }\n"@ + "}\n\n"@
}

/// The relation descriptor of one relationship of the table `table`: it links
/// the owning column to the primary key of the related type.
pub open spec fn relation_descriptor(table: Seq<char>, relationship: RelationshipView) -> Seq<
    char,
> {
    "#[derive(Clone, Debug, PartialEq, DeriveRelation)]\n"@ + "#[sea_orm(table_name = \""@ + table
        + "\")]\n"@ + "pub enum Relation {\n"@ + "    #[sea_orm(\n"@
        + "        belongs_to = \"super::"@ + relationship.related_type + "::Entity\",\n"@
        + "        from = \"Column::"@ + relationship.field_name + "\",\n"@
        + "        to = \"super::"@ + relationship.related_type + "::Column::Id\",\n"@
        + "        on_update = \"Cascade\",\n"@ + "        on_delete = \"Cascade\"\n"@
        + "    )]\n"@ + "    "@ + relationship.related_type + ",\n"@ + "}\n\n"@
}

/// The relation descriptors of a list of relationships, in order.
pub open spec fn relation_descriptors(
    table: Seq<char>,
    relationships: Seq<RelationshipView>,
) -> Seq<char>
    decreases relationships.len(),
{
    if relationships.len() == 0 {
        Seq::empty()
    } else {
        relation_descriptors(table, relationships.drop_last()) + relation_descriptor(
            table,
            relationships.last(),
        )
    }
}

/// The closing section of an entity file: nothing without relationships, else
/// a heading and the relation descriptors.
pub open spec fn relations_section(table: Seq<char>, relationships: Seq<RelationshipView>) -> Seq<
    char,
> {
    if relationships.len() == 0 {
        Seq::empty()
    } else {
        "// Relationships\n"@ + relation_descriptors(table, relationships)
    }
}

/// The entity file of the object `name`.
pub open spec fn entity_text(
    name: Seq<char>,
    parsed_type: ParsedTypeView,
    config: ConfigView,
    relationships: Seq<RelationshipView>,
) -> Seq<char> {
    "use sea_orm::entity::prelude::*;\n"@ + "use serde::{Deserialize, Serialize};\n\n"@
        + "#[derive(Clone, Debug, PartialEq, DeriveEntityModel, Deserialize, Serialize)]\n"@
        + "#[sea_orm(table_name = \""@ + table_name(config.table_naming, name) + "\")]\n"@
        + "pub struct Model {\n"@
        + model_fields(parsed_type.fields, config) + "}\n\n"@
        + "#[derive(Copy, Clone, Debug, EnumIter, DeriveRelation)]\n"@
        + "pub enum Relation {}\n\n"@
        + "#[derive(Copy, Clone, Debug, EnumIter, DeriveCustomColumn)]\n"@
        + "pub enum Column {\n"@ + column_variants(parsed_type.fields) + "}\n\n"@
        + "#[derive(Copy, Clone, Debug, EnumIter)]\n"@ + "pub enum PrimaryKey {\n"@
        + "    Id,\n"@ + "}\n\n"@ + primary_key_descriptor(config.db)
        + "impl ActiveModelBehavior for ActiveModel {}\n\n"@ + "pub struct Entity;\n\n"@
        + "impl EntityName for Entity {\n"@ + "    fn table_name(&self) -> &str {\n"@
        + "        \""@ + table_name(config.table_naming, name) + "\"\n"@ + "    }\n"@ + "}\n\n"@
        + relations_section(table_name(config.table_naming, name), relationships)
}

/// Writes the two lines of a model field.
fn model_field_lines(field: &ParsedField, config: &Config) -> (code: String)
    ensures
        code@ == model_field(field@, config@),
{
    let field_name = to_snake_case(field.name.as_str());
    let field_type = rust_type_for_field(field, &config.db, &config.type_mappings);
    let mut code = String::from_str("    #[sea_orm(column_name = \"");
    code.append(field_name.as_str());
    code.append("\")]\n");
    code.append("    pub ");
    code.append(field_name.as_str());
    code.append(": ");
    code.append(field_type.as_str());
    code.append(",\n");
    code
}

/// Writes the primary-key descriptor.
fn primary_key_block(db: &DatabaseType) -> (code: String)
    ensures
        code@ == primary_key_descriptor(*db),
{
    let mut code = String::from_str("impl PrimaryKeyTrait for PrimaryKey {\n");
    code.append("    type ValueType = ");
    code.append(id_rust_type_name(db));
    code.append(";\n");
    code.append("    fn auto_increment() -> bool {\n");
    code.append("        ");
    match db {
        DatabaseType::Sqlite => code.append("true"),
        DatabaseType::Postgres => code.append("false"),
        DatabaseType::Mysql => code.append("true"),
    }
    code.append("\n");
    code.append("    }\n");
    code.append("}\n\n");
    code
}

/// Writes the relation descriptor of one relationship of the table `table`.
fn relation_block(table: &str, relationship: &Relationship) -> (code: String)
    ensures
        code@ == relation_descriptor(table@, relationship@),
{
    let mut code = String::from_str("#[derive(Clone, Debug, PartialEq, DeriveRelation)]\n");
    code.append("#[sea_orm(table_name = \"");
    code.append(table);
    code.append("\")]\n");
    code.append("pub enum Relation {\n");
    code.append("    #[sea_orm(\n");
    code.append("        belongs_to = \"super::");
    code.append(relationship.related_type.as_str());
    code.append("::Entity\",\n");
    code.append("        from = \"Column::");
    code.append(relationship.field_name.as_str());
    code.append("\",\n");
    code.append("        to = \"super::");
    code.append(relationship.related_type.as_str());
    code.append("::Column::Id\",\n");
    code.append("        on_update = \"Cascade\",\n");
    code.append("        on_delete = \"Cascade\"\n");
    code.append("    )]\n");
    code.append("    ");
    code.append(relationship.related_type.as_str());
    code.append(",\n");
    code.append("}\n\n");
    code
}

impl SeaOrmGenerator {
    /// Writes the entity file of the object `name`: model record, column
    /// enumeration, primary-key descriptor, and a relation descriptor for
    /// each of its relationships.
    pub fn generate_entity_struct(
        &self,
        name: &str,
        parsed_type: &ParsedType,
        config: &Config,
        relationships: &Vec<Relationship>,
    ) -> (code: String)
        ensures
            code@ == entity_text(name@, parsed_type@, config@, relationships.deep_view()),
    {
        let table = table_name_for(config, name);
        let fields = &parsed_type.fields;
        let n: usize = fields.len();
        let mut output = String::from_str("use sea_orm::entity::prelude::*;\n");
        output.append("use serde::{Deserialize, Serialize};\n\n");
        output.append(
            "#[derive(Clone, Debug, PartialEq, DeriveEntityModel, Deserialize, Serialize)]\n",
        );
        output.append("#[sea_orm(table_name = \"");
        output.append(table.as_str());
        output.append("\")]\n");
        output.append("pub struct Model {\n");

        let ghost head = output@;
        let mut i: usize = 0;
        assert(fields.deep_view().take(0) =~= Seq::<ParsedFieldView>::empty());
        while i < n
            invariant
                i <= n,
                n == fields@.len(),
                output@ == head + model_fields(fields.deep_view().take(i as int), config@),
            decreases n - i,
        {
            let field = &fields[i];
            proof {
                let all = fields.deep_view();
                assert(all.take(i + 1).drop_last() =~= all.take(i as int));
                assert(all.take(i + 1).last() == field@);
            }
            let ghost before = output@;
            let lines = model_field_lines(field, config);
            output.append(lines.as_str());
            assert(output@ =~= before + model_field(field@, config@));
            i = i + 1;
        }
        assert(fields.deep_view().take(n as int) =~= fields.deep_view());

        output.append("}\n\n");
        output.append("#[derive(Copy, Clone, Debug, EnumIter, DeriveRelation)]\n");
        output.append("pub enum Relation {}\n\n");
        output.append("#[derive(Copy, Clone, Debug, EnumIter, DeriveCustomColumn)]\n");
        output.append("pub enum Column {\n");

        let ghost head = output@;
        let mut i: usize = 0;
        while i < n
            invariant
                i <= n,
                n == fields@.len(),
                output@ == head + column_variants(fields.deep_view().take(i as int)),
            decreases n - i,
        {
            let field = &fields[i];
            proof {
                let all = fields.deep_view();
                assert(all.take(i + 1).drop_last() =~= all.take(i as int));
                assert(all.take(i + 1).last() == field@);
            }
            let ghost before = output@;
            let field_name = to_snake_case(field.name.as_str());
            output.append("    ");
            output.append(field_name.as_str());
            output.append(",\n");
            assert(output@ =~= before + ("    "@ + snake_case(field@.name) + ",\n"@));
            assert(output@ =~= head + (column_variants(fields.deep_view().take(i as int)) + "    "@
                + snake_case(field@.name) + ",\n"@));
            i = i + 1;
        }
        assert(fields.deep_view().take(n as int) =~= fields.deep_view());

        output.append("}\n\n");
        output.append("#[derive(Copy, Clone, Debug, EnumIter)]\n");
        output.append("pub enum PrimaryKey {\n");
        output.append("    Id,\n");
        output.append("}\n\n");

        let descriptor = primary_key_block(&config.db);
        output.append(descriptor.as_str());

        output.append("impl ActiveModelBehavior for ActiveModel {}\n\n");
        output.append("pub struct Entity;\n\n");
        output.append("impl EntityName for Entity {\n");
        output.append("    fn table_name(&self) -> &str {\n");
        output.append("        \"");
        output.append(table.as_str());
        output.append("\"\n");
        output.append("    }\n");
        output.append("}\n\n");

        let ghost head = output@;
        let m: usize = relationships.len();
        if m > 0 {
            output.append("// Relationships\n");
            let ghost titled = output@;
            let mut k: usize = 0;
            assert(relationships.deep_view().take(0) =~= Seq::<RelationshipView>::empty());
            while k < m
                invariant
                    k <= m,
                    m == relationships@.len(),
                    table@ == table_name(config@.table_naming, name@),
                    output@ == titled + relation_descriptors(
                        table@,
                        relationships.deep_view().take(k as int),
                    ),
                decreases m - k,
            {
                let relationship = &relationships[k];
                proof {
                    let all = relationships.deep_view();
                    assert(all.take(k + 1).drop_last() =~= all.take(k as int));
                    assert(all.take(k + 1).last() == relationship@);
                }
                let ghost before = output@;
                let descriptor = relation_block(table.as_str(), relationship);
                output.append(descriptor.as_str());
                assert(output@ =~= before + relation_descriptor(table@, relationship@));
                k = k + 1;
            }
            assert(relationships.deep_view().take(m as int) =~= relationships.deep_view());
            assert(output@ =~= head + relations_section(table@, relationships.deep_view()));
        } else {
            assert(output@ =~= head + relations_section(table@, relationships.deep_view()));
        }
        output
    }
}

/// The doc comment that carries a description, or nothing.
pub open spec fn doc_comment(description: Option<Seq<char>>) -> Seq<char> {
    match description {
        Some(text) => "/// "@ + text + "\n"@,
        None => Seq::empty(),
    }
}

/// Writes the doc comment that carries a description, or nothing.
pub fn doc_comment_line(description: &Option<String>) -> (code: String)
    ensures
        code@ == doc_comment(description.deep_view()),
{
    match description {
        Some(text) => {
            let mut code = String::from_str("/// ");
            code.append(text.as_str());
            code.append("\n");
            code
        },
        None => String::new(),
    }
}

/// The variants of an active enum: for each value its string value and its
/// name, in order.
pub open spec fn active_enum_variants(values: Seq<Seq<char>>) -> Seq<char>
    decreases values.len(),
{
    if values.len() == 0 {
        Seq::empty()
    } else {
        active_enum_variants(values.drop_last()) + "    #[sea_orm(string_value = \""@
            + values.last() + "\")]\n"@ + "    "@ + values.last() + ",\n"@
    }
}

/// The file of the enum `name`.
pub open spec fn enum_text(name: Seq<char>, parsed_enum: ParsedEnumView) -> Seq<char> {
    doc_comment(parsed_enum.description)
        + "#[derive(Debug, Clone, PartialEq, Eq, EnumIter, DeriveActiveEnum)]\n"@
        + "#[sea_orm(rs_type = \"String\", db_type = \"String(Some(1))\")]\n"@ + "pub enum "@
        + name + " {\n"@ + active_enum_variants(parsed_enum.values) + "}\n"@
}

/// The module declarations of a list of names, in order.
pub open spec fn module_declarations<T>(entries: Entries<T>) -> Seq<char>
    decreases entries.len(),
{
    if entries.len() == 0 {
        Seq::empty()
    } else {
        module_declarations(entries.drop_last()) + "pub mod "@ + snake_case(entries.last().0)
            + ";\n"@
    }
}

/// The re-exports of the entity in module `module`.
pub open spec fn entity_exports(module: Seq<char>) -> Seq<char> {
    "pub use "@ + module + "::Entity;\n"@ + "pub use "@ + module + "::Model;\n"@ + "pub use "@
        + module + "::ActiveModel;\n"@ + "pub use "@ + module + "::Column;\n"@
}

/// The module declarations of the objects among the types, in order.
pub open spec fn object_declarations(types: Entries<ParsedTypeView>) -> Seq<char>
    decreases types.len(),
{
    if types.len() == 0 {
        Seq::empty()
    } else if types.last().1.kind == TypeKind::Object {
        object_declarations(types.drop_last()) + "pub mod "@ + snake_case(types.last().0)
            + ";\n"@
    } else {
        object_declarations(types.drop_last())
    }
}

/// The re-exports of the objects among the types, in order.
pub open spec fn object_exports(types: Entries<ParsedTypeView>) -> Seq<char>
    decreases types.len(),
{
    if types.len() == 0 {
        Seq::empty()
    } else if types.last().1.kind == TypeKind::Object {
        object_exports(types.drop_last()) + entity_exports(snake_case(types.last().0))
    } else {
        object_exports(types.drop_last())
    }
}

/// The re-exports of all enums, in order.
pub open spec fn enum_exports(enums: Entries<ParsedEnumView>) -> Seq<char>
    decreases enums.len(),
{
    if enums.len() == 0 {
        Seq::empty()
    } else {
        enum_exports(enums.drop_last()) + "pub use "@ + snake_case(enums.last().0) + "::"@
            + enums.last().0 + ";\n"@
    }
}

/// The module index that stands in for a schema file: a module for every
/// entity file, that is for every object and every enum, then their
/// re-exports. Interfaces and unions have no file and no module.
pub open spec fn module_index(schema: ParsedSchemaView) -> Seq<char> {
    "//! Sea-ORM entities generated from GraphQL schema\n\n"@ + object_declarations(schema.types)
        + module_declarations(schema.enums) + "\n"@ + "// Re-exports for convenience\n"@
        + object_exports(schema.types) + enum_exports(schema.enums)
}

/// The relationships that belong to the type called `name`.
pub open spec fn relationships_of_type(types: Entries<ParsedTypeView>, name: Seq<char>) -> Seq<
    RelationshipView,
> {
    match lookup(schema_relationships(types), name) {
        Some(found) => found,
        None => Seq::empty(),
    }
}

/// The entity files of the first `n` types: one for each object, named after
/// its table.
pub open spec fn object_files(types: Entries<ParsedTypeView>, n: nat, config: ConfigView) -> Entries<
    Seq<char>,
>
    decreases n,
{
    if n == 0 {
        Seq::empty()
    } else if types[n - 1].1.kind == TypeKind::Object {
        upsert(
            object_files(types, (n - 1) as nat, config),
            snake_case(types[n - 1].0) + ".rs"@,
            entity_text(
                types[n - 1].0,
                types[n - 1].1,
                config,
                relationships_of_type(types, types[n - 1].0),
            ),
        )
    } else {
        object_files(types, (n - 1) as nat, config)
    }
}

/// `files` with the files of the first `n` enums added.
pub open spec fn with_enum_files(
    files: Entries<Seq<char>>,
    enums: Entries<ParsedEnumView>,
    n: nat,
) -> Entries<Seq<char>>
    decreases n,
{
    if n == 0 {
        files
    } else {
        upsert(
            with_enum_files(files, enums, (n - 1) as nat),
            snake_case(enums[n - 1].0) + ".rs"@,
            enum_text(enums[n - 1].0, enums[n - 1].1),
        )
    }
}

/// The entity files of a schema: the objects' files, then the enums'. A
/// later file replaces an earlier one of the same name.
pub open spec fn entity_files(schema: ParsedSchemaView, config: ConfigView) -> Entries<
    Seq<char>,
> {
    with_enum_files(
        object_files(schema.types, schema.types.len(), config),
        schema.enums,
        schema.enums.len(),
    )
}

/// The name of the migration that creates the table of type `name` at the
/// time `timestamp`.
pub open spec fn migration_name(name: Seq<char>, timestamp: int) -> Seq<char> {
    "m"@ + decimal(timestamp) + "_create_"@ + snake_case(name) + "_table"@
}

/// Objects whose names differ in snake case have migrations of different
/// names, whatever their timestamps.
pub proof fn lemma_migration_names_differ(
    first: Seq<char>,
    first_timestamp: int,
    second: Seq<char>,
    second_timestamp: int,
)
    requires
        snake_case(first) != snake_case(second),
    ensures
        migration_name(first, first_timestamp) != migration_name(second, second_timestamp),
{
    reveal_strlit("m");
    reveal_strlit("_create_");
    reveal_strlit("_table");
    let a = snake_case(first);
    let b = snake_case(second);
    let d = decimal(first_timestamp);
    let e = decimal(second_timestamp);
    lemma_decimal_has_no_underscore(first_timestamp);
    lemma_decimal_has_no_underscore(second_timestamp);
    let one = "m"@ + d + "_create_"@ + a + "_table"@;
    let other = "m"@ + e + "_create_"@ + b + "_table"@;
    if one == other {
        assert(one.len() == 1 + d.len() + 8 + a.len() + 6);
        assert(other.len() == 1 + e.len() + 8 + b.len() + 6);
        if d.len() < e.len() {
            assert(one[1 + d.len() as int] == '_');
            assert(other[1 + d.len() as int] == e[d.len() as int]);
        }
        if e.len() < d.len() {
            assert(other[1 + e.len() as int] == '_');
            assert(one[1 + e.len() as int] == d[e.len() as int]);
        }
        assert forall|k: int| 0 <= k < a.len() implies a[k] == b[k] by {
            assert(one[9 + d.len() + k] == a[k]);
            assert(other[9 + e.len() + k] == b[k]);
        }
        assert(a =~= b);
    }
}

/// The migration of the object `name`, stamped with `timestamp`.
pub open spec fn table_migration(
    name: Seq<char>,
    parsed_type: ParsedTypeView,
    config: ConfigView,
    timestamp: int,
) -> MigrationFileView {
    MigrationFileView {
        name: migration_name(name, timestamp),
        up_sql: create_table_sql(name, parsed_type.fields, config),
        down_sql: drop_table_sql(name, config),
    }
}

/// The migrations of the objects among the first `n` types, in order, all
/// stamped with `timestamp`.
pub open spec fn object_migrations(
    types: Entries<ParsedTypeView>,
    n: nat,
    config: ConfigView,
    timestamp: int,
) -> Seq<MigrationFileView>
    decreases n,
{
    if n == 0 {
        Seq::empty()
    } else if types[n - 1].1.kind == TypeKind::Object {
        object_migrations(types, (n - 1) as nat, config, timestamp).push(
            table_migration(types[n - 1].0, types[n - 1].1, config, timestamp),
        )
    } else {
        object_migrations(types, (n - 1) as nat, config, timestamp)
    }
}

/// The migrations of a schema in a run at the time `timestamp`: one for each
/// object, in order.
pub open spec fn migrations(
    schema: ParsedSchemaView,
    config: ConfigView,
    timestamp: int,
) -> Seq<MigrationFileView> {
    object_migrations(schema.types, schema.types.len(), config, timestamp)
}

impl SeaOrmGenerator {
    /// Writes the file of the enum `name`.
    pub fn generate_enum_type(&self, name: &str, parsed_enum: &ParsedEnum) -> (code: String)
        ensures
            code@ == enum_text(name@, parsed_enum@),
    {
        let mut output = doc_comment_line(&parsed_enum.description);
        output.append("#[derive(Debug, Clone, PartialEq, Eq, EnumIter, DeriveActiveEnum)]\n");
        output.append("#[sea_orm(rs_type = \"String\", db_type = \"String(Some(1))\")]\n");
        output.append("pub enum ");
        output.append(name);
        output.append(" {\n");
        let values = &parsed_enum.values;
        let n: usize = values.len();
        let ghost head = output@;
        let mut i: usize = 0;
        assert(values.deep_view().take(0) =~= Seq::<Seq<char>>::empty());
        while i < n
            invariant
                i <= n,
                n == values@.len(),
                output@ == head + active_enum_variants(values.deep_view().take(i as int)),
            decreases n - i,
        {
            let value = values[i].as_str();
            proof {
                let all = values.deep_view();
                assert(all.take(i + 1).drop_last() =~= all.take(i as int));
                assert(all.take(i + 1).last() == value@);
            }
            let ghost before = output@;
            output.append("    #[sea_orm(string_value = \"");
            output.append(value);
            output.append("\")]\n");
            output.append("    ");
            output.append(value);
            output.append(",\n");
            assert(output@ =~= head + (active_enum_variants(values.deep_view().take(i as int))
                + "    #[sea_orm(string_value = \""@ + value@ + "\")]\n"@ + "    "@ + value@
                + ",\n"@));
            i = i + 1;
        }
        assert(values.deep_view().take(n as int) =~= values.deep_view());
        output.append("}\n");
        output
    }

    /// Writes the migration of the object `name`, stamped with `timestamp`,
    /// the time of the run in seconds since 1970.
    pub fn generate_table_migration(
        &self,
        name: &str,
        parsed_type: &ParsedType,
        config: &Config,
        timestamp: i64,
    ) -> (migration: MigrationFile)
        ensures
            migration@ == table_migration(name@, parsed_type@, config@, timestamp as int),
    {
        let file_stem = to_snake_case(name);
        let stamp = signed_decimal(timestamp);
        let mut migration_name = String::from_str("m");
        migration_name.append(stamp.as_str());
        migration_name.append("_create_");
        migration_name.append(file_stem.as_str());
        migration_name.append("_table");
        MigrationFile {
            name: migration_name,
            up_sql: create_table(name, &parsed_type.fields, config),
            down_sql: drop_table(name, config),
        }
    }
}

/// Writes the module declarations of the names of a map.
fn declare_modules<V: DeepView>(output: &mut String, entries: &NameMap<V>)
    ensures
        final(output)@ == old(output)@ + module_declarations(entries@),
{
    let ghost head = output@;
    let n: usize = entries.len();
    let mut i: usize = 0;
    assert(entries@.take(0) =~= Seq::<(Seq<char>, V::V)>::empty());
    assert(output@ =~= head + module_declarations(entries@.take(0)));
    while i < n
        invariant
            i <= n,
            n == entries@.len(),
            output@ == head + module_declarations(entries@.take(i as int)),
        decreases n - i,
    {
        let name = entries.name_at(i);
        proof {
            let all = entries@;
            assert(all.take(i + 1).drop_last() =~= all.take(i as int));
            assert(all.take(i + 1).last() == all[i as int]);
        }
        let module_name = to_snake_case(name.as_str());
        output.append("pub mod ");
        output.append(module_name.as_str());
        output.append(";\n");
        assert(output@ =~= head + (module_declarations(entries@.take(i as int)) + "pub mod "@
            + snake_case(name@) + ";\n"@));
        i = i + 1;
    }
    assert(entries@.take(n as int) =~= entries@);
}

/// Writes the re-exports of the entity in module `module`.
fn export_entity(module: &str) -> (code: String)
    ensures
        code@ == entity_exports(module@),
{
    let mut code = String::from_str("pub use ");
    code.append(module);
    code.append("::Entity;\n");
    code.append("pub use ");
    code.append(module);
    code.append("::Model;\n");
    code.append("pub use ");
    code.append(module);
    code.append("::ActiveModel;\n");
    code.append("pub use ");
    code.append(module);
    code.append("::Column;\n");
    code
}

impl CodeGenerator for SeaOrmGenerator {
    open spec fn backend(&self) -> OrmType {
        OrmType::SeaOrm
    }

    fn generate_schema(&self, schema: &ParsedSchema, config: &Config) -> (text: String) {
        let mut output = String::from_str("//! Sea-ORM entities generated from GraphQL schema\n\n");
        let n: usize = schema.types.len();
        let ghost head = output@;
        let mut i: usize = 0;
        assert(schema.types@.take(0) =~= Seq::<(Seq<char>, ParsedTypeView)>::empty());
        assert(output@ =~= head + object_declarations(schema.types@.take(0)));
        while i < n
            invariant
                i <= n,
                n == schema.types@.len(),
                output@ == head + object_declarations(schema.types@.take(i as int)),
            decreases n - i,
        {
            let name = schema.types.name_at(i);
            let parsed_type = schema.types.value_at(i);
            proof {
                let all = schema.types@;
                assert(all.take(i + 1).drop_last() =~= all.take(i as int));
                assert(all.take(i + 1).last() == all[i as int]);
            }
            match parsed_type.kind {
                TypeKind::Object => {
                    let module_name = to_snake_case(name.as_str());
                    output.append("pub mod ");
                    output.append(module_name.as_str());
                    output.append(";\n");
                    assert(output@ =~= head + (object_declarations(schema.types@.take(i as int))
                        + "pub mod "@ + snake_case(name@) + ";\n"@));
                },
                _ => {},
            }
            i = i + 1;
        }
        assert(schema.types@.take(n as int) =~= schema.types@);
        declare_modules(&mut output, &schema.enums);
        output.append("\n");
        output.append("// Re-exports for convenience\n");

        let ghost head = output@;
        let mut i: usize = 0;
        assert(output@ =~= head + object_exports(schema.types@.take(0)));
        while i < n
            invariant
                i <= n,
                n == schema.types@.len(),
                output@ == head + object_exports(schema.types@.take(i as int)),
            decreases n - i,
        {
            let name = schema.types.name_at(i);
            let parsed_type = schema.types.value_at(i);
            proof {
                let all = schema.types@;
                assert(all.take(i + 1).drop_last() =~= all.take(i as int));
                assert(all.take(i + 1).last() == all[i as int]);
            }
            match parsed_type.kind {
                TypeKind::Object => {
                    let module_name = to_snake_case(name.as_str());
                    let exports = export_entity(module_name.as_str());
                    output.append(exports.as_str());
                    assert(output@ =~= head + (object_exports(schema.types@.take(i as int))
                        + entity_exports(snake_case(name@))));
                },
                _ => {},
            }
            i = i + 1;
        }
        assert(schema.types@.take(n as int) =~= schema.types@);

        let ghost head = output@;
        let m: usize = schema.enums.len();
        let mut j: usize = 0;
        assert(schema.enums@.take(0) =~= Seq::<(Seq<char>, ParsedEnumView)>::empty());
        assert(output@ =~= head + enum_exports(schema.enums@.take(0)));
        while j < m
            invariant
                j <= m,
                m == schema.enums@.len(),
                output@ == head + enum_exports(schema.enums@.take(j as int)),
            decreases m - j,
        {
            let name = schema.enums.name_at(j);
            proof {
                let all = schema.enums@;
                assert(all.take(j + 1).drop_last() =~= all.take(j as int));
                assert(all.take(j + 1).last() == all[j as int]);
            }
            let module_name = to_snake_case(name.as_str());
            output.append("pub use ");
            output.append(module_name.as_str());
            output.append("::");
            output.append(name.as_str());
            output.append(";\n");
            assert(output@ =~= head + (enum_exports(schema.enums@.take(j as int)) + "pub use "@
                + snake_case(name@) + "::"@ + name@ + ";\n"@));
            j = j + 1;
        }
        assert(schema.enums@.take(m as int) =~= schema.enums@);
        output
    }

    fn generate_entities(&self, schema: &ParsedSchema, config: &Config) -> (files: NameMap<
        String,
    >) {
        let mut entities: NameMap<String> = NameMap::new();
        let relationships = detect_relationships(schema);
        let unrelated: Vec<Relationship> = Vec::new();
        assert(unrelated.deep_view() =~= Seq::<RelationshipView>::empty());
        let n: usize = schema.types.len();
        let mut i: usize = 0;
        while i < n
            invariant
                i <= n,
                n == schema.types@.len(),
                relationships@ == schema_relationships(schema.types@),
                unrelated.deep_view() == Seq::<RelationshipView>::empty(),
                entities@ == object_files(schema.types@, i as nat, config@),
            decreases n - i,
        {
            let name = schema.types.name_at(i);
            let parsed_type = schema.types.value_at(i);
            match parsed_type.kind {
                TypeKind::Object => {
                    let related = match relationships.get(name.as_str()) {
                        Some(found) => found,
                        None => &unrelated,
                    };
                    let entity_code = self.generate_entity_struct(
                        name.as_str(),
                        parsed_type,
                        config,
                        related,
                    );
                    let mut file_name = to_snake_case(name.as_str());
                    file_name.append(".rs");
                    entities.insert(file_name, entity_code);
                },
                _ => {},
            }
            i = i + 1;
        }

        let ghost objects = entities@;
        let m: usize = schema.enums.len();
        let mut j: usize = 0;
        while j < m
            invariant
                j <= m,
                m == schema.enums@.len(),
                entities@ == with_enum_files(objects, schema.enums@, j as nat),
            decreases m - j,
        {
            let name = schema.enums.name_at(j);
            let parsed_enum = schema.enums.value_at(j);
            let enum_code = self.generate_enum_type(name.as_str(), parsed_enum);
            let mut file_name = to_snake_case(name.as_str());
            file_name.append(".rs");
            entities.insert(file_name, enum_code);
            j = j + 1;
        }
        entities
    }

    fn generate_migrations(&self, schema: &ParsedSchema, config: &Config, timestamp: i64) -> (migrations:
        Vec<MigrationFile>) {
        let mut migrations: Vec<MigrationFile> = Vec::new();
        let n: usize = schema.types.len();
        let mut i: usize = 0;
        assert(migrations.deep_view() =~= Seq::<MigrationFileView>::empty());
        while i < n
            invariant
                i <= n,
                n == schema.types@.len(),
                migrations.deep_view() == object_migrations(
                    schema.types@,
                    i as nat,
                    config@,
                    timestamp as int,
                ),
            decreases n - i,
        {
            let name = schema.types.name_at(i);
            let parsed_type = schema.types.value_at(i);
            match parsed_type.kind {
                TypeKind::Object => {
                    let migration = self.generate_table_migration(
                        name.as_str(),
                        parsed_type,
                        config,
                        timestamp,
                    );
                    let ghost before = migrations.deep_view();
                    migrations.push(migration);
                    assert(migrations.deep_view() =~= before.push(migration@));
                },
                _ => {},
            }
            i = i + 1;
        }
        migrations
    }
}

} // verus!
