//! The table-declaration backend: one schema file of table declarations, a
//! read struct and an insert struct per type, and one migration per type.

use vstd::prelude::*;
use crate::cli::OrmType;
use crate::config::{Config, ConfigView};
use crate::generator::migration::{
    create_table, create_table_sql, drop_table, drop_table_sql, has_id, has_id_field,
};
use crate::generator::sea_orm::{doc_comment, doc_comment_line};
use crate::generator::{
    diesel_column_type, diesel_column_type_for_field, rust_type, rust_type_for_field, snake_case,
    table_name, table_name_for, to_snake_case, CodeGenerator, MigrationFile, MigrationFileView,
};
use crate::name_map::{upsert, Entries, NameMap};
use crate::parser::{
    ParsedEnum, ParsedEnumView, ParsedField, ParsedFieldView, ParsedSchema, ParsedSchemaView,
    ParsedType, ParsedTypeView,
};
use crate::text::str_eq;

verus! {

/// The generator of the table-declaration backend.
#[derive(Clone, Copy, Debug)]
pub struct DieselGenerator;

impl DieselGenerator {
    /// Makes the generator.
    pub fn new() -> (generator: Self)
        ensures
            generator.backend() == OrmType::Diesel,
    {
        DieselGenerator
    }
}

impl Default for DieselGenerator {
    fn default() -> Self {
        DieselGenerator::new()
    }
}

/// The column that a table declaration names as its key: `id` if a field is
/// called so, else the first field, else `id`.
pub open spec fn key_column(fields: Seq<ParsedFieldView>) -> Seq<char> {
    if has_id_field(fields) {
        "id"@
    } else if fields.len() > 0 {
        fields[0].name
    } else {
        "id"@
    }
}

/// The line that declares the column of a field, with its not-null marker
/// unless the field is nullable.
pub open spec fn column_line(field: ParsedFieldView, config: ConfigView) -> Seq<char> {
    let plain = "        "@ + snake_case(field.name) + " -> "@ + diesel_column_type(
        field,
        config.db,
        config.type_mappings,
    );
    if field.is_nullable {
        plain + ",\n"@
    } else {
        plain + ".not_null()"@ + ",\n"@
    }
}

/// The column lines of a list of fields, in order.
pub open spec fn column_lines(fields: Seq<ParsedFieldView>, config: ConfigView) -> Seq<char>
    decreases fields.len(),
{
    if fields.len() == 0 {
        Seq::empty()
    } else {
        column_lines(fields.drop_last(), config) + column_line(fields.last(), config)
    }
}

/// The declaration block of the table of type `name`.
pub open spec fn table_macro_text(
    name: Seq<char>,
    parsed_type: ParsedTypeView,
    config: ConfigView,
) -> Seq<char> {
    "table! {\n    "@ + table_name(config.table_naming, name) + " ("@ + key_column(
        parsed_type.fields,
    )
        + "\n    ) {\n"@ + column_lines(parsed_type.fields, config) + "    }\n}\n"@
}

/// The line that declares the struct member of a field.
pub open spec fn member_line(field: ParsedFieldView, config: ConfigView) -> Seq<char> {
    "    pub "@ + snake_case(field.name) + ": "@ + rust_type(
        field,
        config.db,
        config.type_mappings,
    ) + ",\n"@
}

/// The members of the read struct: every field in order.
pub open spec fn read_members(fields: Seq<ParsedFieldView>, config: ConfigView) -> Seq<char>
    decreases fields.len(),
{
    if fields.len() == 0 {
        Seq::empty()
    } else {
        read_members(fields.drop_last(), config) + member_line(fields.last(), config)
    }
}

/// The members of the insert struct: every field but `id`, in order.
pub open spec fn insert_members(fields: Seq<ParsedFieldView>, config: ConfigView) -> Seq<char>
    decreases fields.len(),
{
    if fields.len() == 0 {
        Seq::empty()
    } else if fields.last().name == "id"@ {
        insert_members(fields.drop_last(), config)
    } else {
        insert_members(fields.drop_last(), config) + member_line(fields.last(), config)
    }
}

/// The entity file of the type `name`: a read struct with every field and an
/// insert struct without the primary key.
pub open spec fn entity_text(
    name: Seq<char>,
    parsed_type: ParsedTypeView,
    config: ConfigView,
) -> Seq<char> {
    "#[macro_use]\nex"@ + "tern crate diesel;\n\n"@ + "use diesel::prelude::*;\n"@
        + "use super::"@ + table_name(config.table_naming, name) + "::*;\n\n"@
        + "#[derive(Queryable, Debug)]\n"@
        + "pub struct "@ + name + " {\n"@ + read_members(parsed_type.fields, config) + "}\n\n"@
        + "#[derive(Insertable)]\n"@ + "#[table_name = \""@ + table_name(
        config.table_naming,
        name,
    ) + "\"]\n"@
        + "pub struct New"@ + name + " {\n"@ + insert_members(parsed_type.fields, config)
        + "}\n"@
}

/// The variants of an enum: one line for each value, in order.
pub open spec fn enum_variants(values: Seq<Seq<char>>) -> Seq<char>
    decreases values.len(),
{
    if values.len() == 0 {
        Seq::empty()
    } else {
        enum_variants(values.drop_last()) + "    "@ + values.last() + ",\n"@
    }
}

/// The declaration of the enum `name`.
pub open spec fn enum_text(name: Seq<char>, parsed_enum: ParsedEnumView) -> Seq<char> {
    doc_comment(parsed_enum.description) + "#[derive(Debug, Clone, PartialEq, Eq, Hash)]\n"@
        + "#[derive(diesel::deserialize::FromSqlRow, diesel::serialize::ToSql)]\n"@
        + "#[sql_type = \"diesel::sql_types::Text\"]\n"@ + "pub enum "@ + name + " {\n"@
        + enum_variants(parsed_enum.values) + "}\n"@
}

/// The declaration blocks of all types, each followed by an empty line.
pub open spec fn table_macros(types: Entries<ParsedTypeView>, config: ConfigView) -> Seq<char>
    decreases types.len(),
{
    if types.len() == 0 {
        Seq::empty()
    } else {
        table_macros(types.drop_last(), config) + table_macro_text(
            types.last().0,
            types.last().1,
            config,
        ) + "\n"@
    }
}

/// The declarations of all enums, each followed by an empty line.
pub open spec fn enum_declarations(enums: Entries<ParsedEnumView>) -> Seq<char>
    decreases enums.len(),
{
    if enums.len() == 0 {
        Seq::empty()
    } else {
        enum_declarations(enums.drop_last()) + enum_text(enums.last().0, enums.last().1) + "\n"@
    }
}

/// The schema file: a declaration block for every type, of whatever kind,
/// then the enums.
pub open spec fn schema_text(schema: ParsedSchemaView, config: ConfigView) -> Seq<char> {
    "use diesel::prelude::*;\n\n"@ + table_macros(schema.types, config) + enum_declarations(
        schema.enums,
    )
}

/// The entity files of the first `n` types, of whatever kind, each named
/// after its table. A later file replaces an earlier one of the same name.
pub open spec fn type_files(types: Entries<ParsedTypeView>, n: nat, config: ConfigView) -> Entries<
    Seq<char>,
>
    decreases n,
{
    if n == 0 {
        Seq::empty()
    } else {
        upsert(
            type_files(types, (n - 1) as nat, config),
            snake_case(types[n - 1].0) + ".rs"@,
            entity_text(types[n - 1].0, types[n - 1].1, config),
        )
    }
}

/// The entity files of a schema.
pub open spec fn entity_files(schema: ParsedSchemaView, config: ConfigView) -> Entries<
    Seq<char>,
> {
    type_files(schema.types, schema.types.len(), config)
}

/// The migration of the type `name`.
pub open spec fn table_migration(
    name: Seq<char>,
    parsed_type: ParsedTypeView,
    config: ConfigView,
) -> MigrationFileView {
    MigrationFileView {
        name: "create_"@ + snake_case(name) + "_table"@,
        up_sql: create_table_sql(name, parsed_type.fields, config),
        down_sql: drop_table_sql(name, config),
    }
}

/// Types whose names differ in snake case have migrations of different
/// names.
pub proof fn lemma_migration_names_differ(
    first: (Seq<char>, ParsedTypeView),
    second: (Seq<char>, ParsedTypeView),
    config: ConfigView,
)
    requires
        snake_case(first.0) != snake_case(second.0),
    ensures
        table_migration(first.0, first.1, config).name != table_migration(
            second.0,
            second.1,
            config,
        ).name,
{
    reveal_strlit("create_");
    reveal_strlit("_table");
    let a = snake_case(first.0);
    let b = snake_case(second.0);
    let one = "create_"@ + a + "_table"@;
    let other = "create_"@ + b + "_table"@;
    if one == other {
        assert(one.len() == 7 + a.len() + 6);
        assert(other.len() == 7 + b.len() + 6);
        assert forall|k: int| 0 <= k < a.len() implies a[k] == b[k] by {
            assert(one[7 + k] == a[k]);
            assert(other[7 + k] == b[k]);
        }
        assert(a =~= b);
    }
}

/// The migrations of a schema: one for every type, of whatever kind, in order.
pub open spec fn migrations(schema: ParsedSchemaView, config: ConfigView) -> Seq<
    MigrationFileView,
> {
    Seq::new(
        schema.types.len(),
        |i: int| table_migration(schema.types[i].0, schema.types[i].1, config),
    )
}

/// Writes the line that declares the column of a field.
fn column_declaration(field: &ParsedField, config: &Config) -> (code: String)
    ensures
        code@ == column_line(field@, config@),
{
    let column_name = to_snake_case(field.name.as_str());
    let column_type = diesel_column_type_for_field(field, &config.db, &config.type_mappings);
    let mut code = String::from_str("        ");
    code.append(column_name.as_str());
    code.append(" -> ");
    code.append(column_type.as_str());
    if !field.is_nullable {
        code.append(".not_null()");
    }
    code.append(",\n");
    code
}

/// Writes the line that declares the struct member of a field.
fn member_declaration(field: &ParsedField, config: &Config) -> (code: String)
    ensures
        code@ == member_line(field@, config@),
{
    let field_name = to_snake_case(field.name.as_str());
    let field_type = rust_type_for_field(field, &config.db, &config.type_mappings);
    let mut code = String::from_str("    pub ");
    code.append(field_name.as_str());
    code.append(": ");
    code.append(field_type.as_str());
    code.append(",\n");
    code
}

impl DieselGenerator {
    /// Writes the declaration block of the table of type `name`.
    pub fn generate_table_macro(&self, name: &str, parsed_type: &ParsedType, config: &Config) -> (code:
        String)
        ensures
            code@ == table_macro_text(name@, parsed_type@, config@),
    {
        let table = table_name_for(config, name);
        let fields = &parsed_type.fields;
        let n: usize = fields.len();
        let mut output = String::from_str("table! {\n    ");
        output.append(table.as_str());
        output.append(" (");
        if has_id(fields) {
            output.append("id");
        } else if n > 0 {
            output.append(fields[0].name.as_str());
        } else {
            output.append("id");
        }
        output.append("\n    ) {\n");

        let ghost head = output@;
        let mut i: usize = 0;
        assert(fields.deep_view().take(0) =~= Seq::<ParsedFieldView>::empty());
        while i < n
            invariant
                i <= n,
                n == fields@.len(),
                output@ == head + column_lines(fields.deep_view().take(i as int), config@),
            decreases n - i,
        {
            let field = &fields[i];
            proof {
                let all = fields.deep_view();
                assert(all.take(i + 1).drop_last() =~= all.take(i as int));
                assert(all.take(i + 1).last() == field@);
            }
            let ghost before = output@;
            let line = column_declaration(field, config);
            output.append(line.as_str());
            assert(output@ =~= before + column_line(field@, config@));
            i = i + 1;
        }
        assert(fields.deep_view().take(n as int) =~= fields.deep_view());
        output.append("    }\n}\n");
        output
    }

    /// Writes the entity file of the type `name`.
    pub fn generate_entity_struct(
        &self,
        name: &str,
        parsed_type: &ParsedType,
        config: &Config,
    ) -> (code: String)
        ensures
            code@ == entity_text(name@, parsed_type@, config@),
    {
        let table = table_name_for(config, name);
        let fields = &parsed_type.fields;
        let n: usize = fields.len();
        let mut output = String::from_str("#[macro_use]\nex");
        output.append("tern crate diesel;\n\n");
        output.append("use diesel::prelude::*;\n");
        output.append("use super::");
        output.append(table.as_str());
        output.append("::*;\n\n");
        output.append("#[derive(Queryable, Debug)]\n");
        output.append("pub struct ");
        output.append(name);
        output.append(" {\n");

        let ghost head = output@;
        let mut i: usize = 0;
        assert(fields.deep_view().take(0) =~= Seq::<ParsedFieldView>::empty());
        while i < n
            invariant
                i <= n,
                n == fields@.len(),
                output@ == head + read_members(fields.deep_view().take(i as int), config@),
            decreases n - i,
        {
            let field = &fields[i];
            proof {
                let all = fields.deep_view();
                assert(all.take(i + 1).drop_last() =~= all.take(i as int));
                assert(all.take(i + 1).last() == field@);
            }
            let ghost before = output@;
            let line = member_declaration(field, config);
            output.append(line.as_str());
            assert(output@ =~= before + member_line(field@, config@));
            i = i + 1;
        }
        assert(fields.deep_view().take(n as int) =~= fields.deep_view());

        output.append("}\n\n");
        output.append("#[derive(Insertable)]\n");
        output.append("#[table_name = \"");
        output.append(table.as_str());
        output.append("\"]\n");
        output.append("pub struct New");
        output.append(name);
        output.append(" {\n");

        let ghost head = output@;
        let mut i: usize = 0;
        while i < n
            invariant
                i <= n,
                n == fields@.len(),
                output@ == head + insert_members(fields.deep_view().take(i as int), config@),
            decreases n - i,
        {
            let field = &fields[i];
            proof {
                let all = fields.deep_view();
                assert(all.take(i + 1).drop_last() =~= all.take(i as int));
                assert(all.take(i + 1).last() == field@);
            }
            let ghost before = output@;
            if !str_eq(field.name.as_str(), "id") {
                let line = member_declaration(field, config);
                output.append(line.as_str());
                assert(output@ =~= before + member_line(field@, config@));
            }
            i = i + 1;
        }
        assert(fields.deep_view().take(n as int) =~= fields.deep_view());
        output.append("}\n");
        output
    }

    /// Writes the declaration of the enum `name`.
    pub fn generate_enum_type(&self, name: &str, parsed_enum: &ParsedEnum) -> (code: String)
        ensures
            code@ == enum_text(name@, parsed_enum@),
    {
        let mut output = doc_comment_line(&parsed_enum.description);
        output.append("#[derive(Debug, Clone, PartialEq, Eq, Hash)]\n");
        output.append("#[derive(diesel::deserialize::FromSqlRow, diesel::serialize::ToSql)]\n");
        output.append("#[sql_type = \"diesel::sql_types::Text\"]\n");
        output.append("pub enum ");
        output.append(name);
        output.append(" {\n");
        let values = &parsed_enum.values;
        let n: usize = values.len();
        let ghost head = output@;
        let mut i: usize = 0;
        assert(values.deep_view().take(0) =~= Seq::<Seq<char>>::empty());
        while i < n
            invariant
                i <= n,
                n == values@.len(),
                output@ == head + enum_variants(values.deep_view().take(i as int)),
            decreases n - i,
        {
            let value = values[i].as_str();
            proof {
                let all = values.deep_view();
                assert(all.take(i + 1).drop_last() =~= all.take(i as int));
                assert(all.take(i + 1).last() == value@);
            }
            output.append("    ");
            output.append(value);
            output.append(",\n");
            assert(output@ =~= head + (enum_variants(values.deep_view().take(i as int)) + "    "@
                + value@ + ",\n"@));
            i = i + 1;
        }
        assert(values.deep_view().take(n as int) =~= values.deep_view());
        output.append("}\n");
        output
    }

    /// Writes the migration of the type `name`.
    pub fn generate_table_migration(
        &self,
        name: &str,
        parsed_type: &ParsedType,
        config: &Config,
    ) -> (migration: MigrationFile)
        ensures
            migration@ == table_migration(name@, parsed_type@, config@),
    {
        let file_stem = to_snake_case(name);
        let mut migration_name = String::from_str("create_");
        migration_name.append(file_stem.as_str());
        migration_name.append("_table");
        MigrationFile {
            name: migration_name,
            up_sql: create_table(name, &parsed_type.fields, config),
            down_sql: drop_table(name, config),
        }
    }
}

impl CodeGenerator for DieselGenerator {
    open spec fn backend(&self) -> OrmType {
        OrmType::Diesel
    }

    fn generate_schema(&self, schema: &ParsedSchema, config: &Config) -> (text: String) {
        let mut output = String::from_str("use diesel::prelude::*;\n\n");
        let ghost head = output@;
        let n: usize = schema.types.len();
        let mut i: usize = 0;
        assert(schema.types@.take(0) =~= Seq::<(Seq<char>, ParsedTypeView)>::empty());
        while i < n
            invariant
                i <= n,
                n == schema.types@.len(),
                output@ == head + table_macros(schema.types@.take(i as int), config@),
            decreases n - i,
        {
            let name = schema.types.name_at(i);
            let parsed_type = schema.types.value_at(i);
            proof {
                let all = schema.types@;
                assert(all.take(i + 1).drop_last() =~= all.take(i as int));
                assert(all.take(i + 1).last() == all[i as int]);
            }
            let block = self.generate_table_macro(name.as_str(), parsed_type, config);
            output.append(block.as_str());
            output.append("\n");
            assert(output@ =~= head + (table_macros(schema.types@.take(i as int), config@)
                + table_macro_text(name@, parsed_type@, config@) + "\n"@));
            i = i + 1;
        }
        assert(schema.types@.take(n as int) =~= schema.types@);

        let ghost head = output@;
        let m: usize = schema.enums.len();
        let mut j: usize = 0;
        assert(schema.enums@.take(0) =~= Seq::<(Seq<char>, ParsedEnumView)>::empty());
        while j < m
            invariant
                j <= m,
                m == schema.enums@.len(),
                output@ == head + enum_declarations(schema.enums@.take(j as int)),
            decreases m - j,
        {
            let name = schema.enums.name_at(j);
            let parsed_enum = schema.enums.value_at(j);
            proof {
                let all = schema.enums@;
                assert(all.take(j + 1).drop_last() =~= all.take(j as int));
                assert(all.take(j + 1).last() == all[j as int]);
            }
            let declaration = self.generate_enum_type(name.as_str(), parsed_enum);
            output.append(declaration.as_str());
            output.append("\n");
            assert(output@ =~= head + (enum_declarations(schema.enums@.take(j as int)) + enum_text(
                name@,
                parsed_enum@,
            ) + "\n"@));
            j = j + 1;
        }
        assert(schema.enums@.take(m as int) =~= schema.enums@);
        output
    }

    fn generate_entities(&self, schema: &ParsedSchema, config: &Config) -> (files: NameMap<
        String,
    >) {
        let mut entities: NameMap<String> = NameMap::new();
        let n: usize = schema.types.len();
        let mut i: usize = 0;
        while i < n
            invariant
                i <= n,
                n == schema.types@.len(),
                entities@ == type_files(schema.types@, i as nat, config@),
            decreases n - i,
        {
            let name = schema.types.name_at(i);
            let parsed_type = schema.types.value_at(i);
            let entity_code = self.generate_entity_struct(name.as_str(), parsed_type, config);
            let mut file_name = to_snake_case(name.as_str());
            file_name.append(".rs");
            entities.insert(file_name, entity_code);
            i = i + 1;
        }
        entities
    }

    fn generate_migrations(&self, schema: &ParsedSchema, config: &Config, _timestamp: i64) -> (migrations:
        Vec<MigrationFile>) {
        let mut migrations: Vec<MigrationFile> = Vec::new();
        let n: usize = schema.types.len();
        let mut i: usize = 0;
        while i < n
            invariant
                i <= n,
                n == schema.types@.len(),
                migrations.deep_view() == Seq::new(
                    i as nat,
                    |k: int|
                        table_migration(schema.types@[k].0, schema.types@[k].1, config@),
                ),
            decreases n - i,
        {
            let name = schema.types.name_at(i);
            let parsed_type = schema.types.value_at(i);
            let migration = self.generate_table_migration(name.as_str(), parsed_type, config);
            let ghost before = migrations.deep_view();
            migrations.push(migration);
            assert(migrations.deep_view() =~= before.push(migration@));
            assert(migrations.deep_view() =~= Seq::new(
                (i + 1) as nat,
                |k: int| table_migration(schema.types@[k].0, schema.types@[k].1, config@),
            ));
            i = i + 1;
        }
        assert(migrations.deep_view() =~= self::migrations(schema@, config@));
        migrations
    }
}

} // verus!
