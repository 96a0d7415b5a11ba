//! The SQL of a table migration: one `CREATE TABLE` with its indexes going
//! forward, one `DROP TABLE` going back.

use vstd::prelude::*;
use crate::cli::DatabaseType;
use crate::config::{Config, ConfigView};
use crate::generator::{
    has_foreign_key_shape, is_foreign_key_name, snake_case, sql_type, sql_type_for_field,
    table_name, table_name_for, to_snake_case,
};
use crate::parser::{ParsedField, ParsedFieldView};
use crate::text::{join, join_strings, str_eq};

verus! {

/// Whether one of the fields is called `id`.
pub open spec fn has_id_field(fields: Seq<ParsedFieldView>) -> bool {
    exists|i: int| 0 <= i < fields.len() && (#[trigger] fields[i]).name == "id"@
}

/// The definition of a primary key that the engine fills in by itself.
pub open spec fn generated_key_ddl(db: DatabaseType) -> Seq<char> {
    match db {
        DatabaseType::Sqlite => "INTEGER PRIMARY KEY AUTOINCREMENT"@,
        DatabaseType::Postgres => "UUID PRIMARY KEY DEFAULT gen_random_uuid()"@,
        DatabaseType::Mysql => "INT UNSIGNED PRIMARY KEY AUTO_INCREMENT"@,
    }
}

/// The column definition of a field: name and type, `NOT NULL` unless the
/// field is nullable, `PRIMARY KEY` if the field is called `id`.
pub open spec fn column_ddl(field: ParsedFieldView, config: ConfigView) -> Seq<char> {
    let plain = "    "@ + snake_case(field.name) + " "@ + sql_type(
        field,
        config.db,
        config.type_mappings,
    );
    let checked = if field.is_nullable {
        plain
    } else {
        plain + " NOT NULL"@
    };
    if field.name == "id"@ {
        checked + " PRIMARY KEY"@
    } else {
        checked
    }
}

/// The column definitions of a table: a generated key first if no field is
/// called `id`, then one column for each field in order.
pub open spec fn table_columns(fields: Seq<ParsedFieldView>, config: ConfigView) -> Seq<
    Seq<char>,
> {
    let columns = Seq::new(fields.len(), |i: int| column_ddl(fields[i], config));
    if has_id_field(fields) {
        columns
    } else {
        seq!["    id "@ + generated_key_ddl(config.db)] + columns
    }
}

/// The statement that indexes the column of `field` in `table`.
pub open spec fn index_statement(table: Seq<char>, field: ParsedFieldView) -> Seq<char> {
    "\n\nCREATE INDEX idx_"@ + table + "_"@ + snake_case(field.name) + " ON "@ + table + " ("@
        + snake_case(field.name) + ");"@
}

/// The index statements of a table: one for each field whose name has the
/// shape of a foreign key, in field order.
pub open spec fn index_statements(table: Seq<char>, fields: Seq<ParsedFieldView>) -> Seq<char>
    decreases fields.len(),
{
    if fields.len() == 0 {
        Seq::empty()
    } else if has_foreign_key_shape(fields.last().name) {
        index_statements(table, fields.drop_last()) + index_statement(table, fields.last())
    } else {
        index_statements(table, fields.drop_last())
    }
}

/// The forward SQL of the table of type `name`.
pub open spec fn create_table_sql(
    name: Seq<char>,
    fields: Seq<ParsedFieldView>,
    config: ConfigView,
) -> Seq<char> {
    "CREATE TABLE "@ + table_name(config.table_naming, name) + " (\n"@ + join(
        table_columns(fields, config),
        ",\n"@,
    ) + "\n);"@ + index_statements(table_name(config.table_naming, name), fields)
}

/// The backward SQL of the table of type `name`.
pub open spec fn drop_table_sql(name: Seq<char>, config: ConfigView) -> Seq<char> {
    "DROP TABLE "@ + table_name(config.table_naming, name) + ";"@
}

/// Tells whether one of the fields is called `id`.
pub fn has_id(fields: &Vec<ParsedField>) -> (found: bool)
    ensures
        found == has_id_field(fields.deep_view()),
{
    let n: usize = fields.len();
    let mut i: usize = 0;
    while i < n
        invariant
            i <= n,
            n == fields@.len(),
            forall|k: int| 0 <= k < i ==> (#[trigger] fields.deep_view()[k]).name != "id"@,
        decreases n - i,
    {
        if str_eq(fields[i].name.as_str(), "id") {
            assert(fields.deep_view()[i as int].name == "id"@);
            return true;
        }
        i = i + 1;
    }
    false
}

/// The definition of a generated primary key.
fn generated_key(db: &DatabaseType) -> (ddl: &'static str)
    ensures
        ddl@ == generated_key_ddl(*db),
{
    match db {
        DatabaseType::Sqlite => "INTEGER PRIMARY KEY AUTOINCREMENT",
        DatabaseType::Postgres => "UUID PRIMARY KEY DEFAULT gen_random_uuid()",
        DatabaseType::Mysql => "INT UNSIGNED PRIMARY KEY AUTO_INCREMENT",
    }
}

/// Writes the column definition of a field.
fn column_definition(field: &ParsedField, config: &Config) -> (ddl: String)
    ensures
        ddl@ == column_ddl(field@, config@),
{
    let column_name = to_snake_case(field.name.as_str());
    let sql = sql_type_for_field(field, &config.db, &config.type_mappings);
    let mut ddl = String::from_str("    ");
    ddl.append(column_name.as_str());
    ddl.append(" ");
    ddl.append(sql.as_str());
    if !field.is_nullable {
        ddl.append(" NOT NULL");
    }
    if str_eq(field.name.as_str(), "id") {
        ddl.append(" PRIMARY KEY");
    }
    ddl
}

/// Writes the forward SQL that creates the table of type `name` and its
/// indexes.
pub fn create_table(name: &str, fields: &Vec<ParsedField>, config: &Config) -> (sql: String)
    ensures
        sql@ == create_table_sql(name@, fields.deep_view(), config@),
{
    let table = table_name_for(config, name);
    let mut up_sql = String::from_str("CREATE TABLE ");
    up_sql.append(table.as_str());
    up_sql.append(" (\n");

    let mut columns: Vec<String> = Vec::new();
    let ghost lead: Seq<Seq<char>> = if has_id_field(fields.deep_view()) {
        Seq::empty()
    } else {
        seq!["    id "@ + generated_key_ddl(config@.db)]
    };
    if !has_id(fields) {
        let mut key = String::from_str("    id ");
        key.append(generated_key(&config.db));
        columns.push(key);
    }
    assert(columns.deep_view() =~= lead);
    let n: usize = fields.len();
    let mut i: usize = 0;
    while i < n
        invariant
            i <= n,
            n == fields@.len(),
            columns.deep_view() == lead + Seq::new(
                i as nat,
                |k: int| column_ddl(fields.deep_view()[k], config@),
            ),
        decreases n - i,
    {
        let ghost before = columns.deep_view();
        let column = column_definition(&fields[i], config);
        columns.push(column);
        assert(columns.deep_view() =~= before.push(column@));
        assert(columns.deep_view() =~= lead + Seq::new(
            (i + 1) as nat,
            |k: int| column_ddl(fields.deep_view()[k], config@),
        ));
        i = i + 1;
    }
    assert(columns.deep_view() =~= table_columns(fields.deep_view(), config@));
    let joined = join_strings(&columns, ",\n");
    up_sql.append(joined.as_str());
    up_sql.append("\n);");

    let ghost head = up_sql@;
    let mut j: usize = 0;
    assert(fields.deep_view().take(0) =~= Seq::<ParsedFieldView>::empty());
    while j < n
        invariant
            j <= n,
            n == fields@.len(),
            table@ == table_name(config@.table_naming, name@),
            up_sql@ == head + index_statements(table@, fields.deep_view().take(j as int)),
        decreases n - j,
    {
        let field = &fields[j];
        proof {
            let all = fields.deep_view();
            assert(all.take(j + 1).drop_last() =~= all.take(j as int));
            assert(all.take(j + 1).last() == field@);
        }
        let ghost before = up_sql@;
        if is_foreign_key_name(field.name.as_str()) {
            let column_name = to_snake_case(field.name.as_str());
            up_sql.append("\n\nCREATE INDEX idx_");
            up_sql.append(table.as_str());
            up_sql.append("_");
            up_sql.append(column_name.as_str());
            up_sql.append(" ON ");
            up_sql.append(table.as_str());
            up_sql.append(" (");
            up_sql.append(column_name.as_str());
            up_sql.append(");");
            assert(up_sql@ =~= before + index_statement(table@, field@));
        }
        j = j + 1;
    }
    assert(fields.deep_view().take(n as int) =~= fields.deep_view());
    up_sql
}

/// Writes the backward SQL that drops the table of type `name`.
pub fn drop_table(name: &str, config: &Config) -> (sql: String)
    ensures
        sql@ == drop_table_sql(name@, config@),
{
    let table = table_name_for(config, name);
    let mut down_sql = String::from_str("DROP TABLE ");
    down_sql.append(table.as_str());
    down_sql.append(";");
    down_sql
}

} // verus!
