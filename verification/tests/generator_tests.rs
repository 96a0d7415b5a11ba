use graphql_codegen_rust::cli::{DatabaseType, OrmType};
use graphql_codegen_rust::config::{Config, TableNamingConvention};
use graphql_codegen_rust::generator::diesel::DieselGenerator;
use graphql_codegen_rust::generator::migration::{create_table, drop_table, has_id};
use graphql_codegen_rust::generator::sea_orm::SeaOrmGenerator;
use graphql_codegen_rust::generator::{
    create_generator, detect_relationships, diesel_column_type_for_field, is_foreign_key_field,
    is_foreign_key_name,
    is_settled_of, is_snake_case, related_type_of, rust_type_for_field, snake_case_of, sql_type_for_field, table_name_for, to_snake_case, Backend,
    CodeGenerator, Relationship, RelationshipType,
};
use graphql_codegen_rust::name_map::NameMap;
use graphql_codegen_rust::parser::{
    FieldType, ParsedEnum, ParsedField, ParsedSchema, ParsedType, TypeKind,
};
use graphql_codegen_rust::text::Letter;
use graphql_codegen_rust::{generate_all_code, schema_file};

/// The time of the runs in these tests, in seconds since 1970.
const RUN: i64 = 1_700_000_000;

fn field(name: &str, field_type: FieldType, is_nullable: bool) -> ParsedField {
    ParsedField { name: name.to_string(), field_type, description: None, is_nullable, is_list: false }
}

fn scalar(name: &str) -> FieldType {
    FieldType::Scalar(name.to_string())
}

fn object(name: &str, fields: Vec<ParsedField>) -> ParsedType {
    ParsedType {
        name: name.to_string(),
        kind: TypeKind::Object,
        fields,
        description: None,
        interfaces: vec![],
        union_members: vec![],
    }
}

fn config_for(orm: OrmType, db: DatabaseType) -> Config {
    Config {
        url: "https://example.com/graphql".to_string(),
        orm,
        db,
        output_dir: "./generated".to_string(),
        headers: NameMap::new(),
        type_mappings: NameMap::new(),
        scalar_mappings: NameMap::new(),
        table_naming: TableNamingConvention::SnakeCase,
        generate_migrations: true,
        generate_entities: true,
    }
}

fn user_schema() -> ParsedSchema {
    let mut types = NameMap::new();
    types.insert(
        "User".to_string(),
        ParsedType {
            description: Some("A user in the system".to_string()),
            ..object(
                "User",
                vec![
                    field("id", scalar("ID"), false),
                    field("name", scalar("String"), false),
                    field("email", scalar("String"), true),
                ],
            )
        },
    );
    let mut enums = NameMap::new();
    enums.insert(
        "Role".to_string(),
        ParsedEnum {
            name: "Role".to_string(),
            values: vec!["ADMIN".to_string(), "USER".to_string()],
            description: Some("User roles".to_string()),
        },
    );
    ParsedSchema { types, enums, scalars: vec![] }
}

fn empty_schema() -> ParsedSchema {
    ParsedSchema { types: NameMap::new(), enums: NameMap::new(), scalars: vec![] }
}

fn blog_schema() -> ParsedSchema {
    let mut types = NameMap::new();
    types.insert(
        "User".to_string(),
        object(
            "User",
            vec![
                field("id", scalar("ID"), false),
                field("username", scalar("String"), false),
                field("email", scalar("String"), true),
            ],
        ),
    );
    types.insert(
        "Post".to_string(),
        object(
            "Post",
            vec![
                field("id", scalar("ID"), false),
                field("title", scalar("String"), false),
                field("content", scalar("String"), false),
                field("authorId", scalar("ID"), false),
                field("categoryId", scalar("ID"), true),
            ],
        ),
    );
    types.insert(
        "Category".to_string(),
        object(
            "Category",
            vec![field("id", scalar("ID"), false), field("name", scalar("String"), false)],
        ),
    );
    ParsedSchema { types, enums: NameMap::new(), scalars: vec![] }
}

#[test]
fn snake_case_of_plain_and_mixed_identifiers() {
    assert_eq!(to_snake_case(""), "");
    assert_eq!(to_snake_case("a"), "a");
    assert_eq!(to_snake_case("A"), "a");
    assert_eq!(to_snake_case("already_snake"), "already_snake");
    assert_eq!(to_snake_case("categoryId"), "category_id");
    assert_eq!(to_snake_case("BlogPost"), "blog_post");
    assert_eq!(to_snake_case("ABC"), "abc");
    assert_eq!(to_snake_case("HTTPServer"), "http_server");
    assert_eq!(to_snake_case("user2Name"), "user2name");
    assert_eq!(to_snake_case("Type0"), "type0");
    assert_eq!(to_snake_case("ÉcoleNormale"), "école_normale");
}

#[test]
fn snake_case_rejects_the_underscore_before_every_capital_variant() {
    // An underscore before every capital but the first would give these.
    assert_ne!(to_snake_case("APIKey"), "a_p_i_key");
    assert_ne!(to_snake_case("XMLHttpRequest"), "x_m_l_http_request");
}

#[test]
fn snake_case_twice_is_snake_case_once() {
    for name in ["User", "UserProfile", "APIKey", "userName", "XMLHttpRequest", "a_B", "ÀÉÎ"] {
        let once = to_snake_case(name);
        assert!(is_snake_case(&once));
        assert_eq!(to_snake_case(&once), once);
    }
}

#[test]
fn snake_case_twice_differs_where_lowering_leaves_a_capital() {
    // U+1D400 is an uppercase letter without a lowercase form.
    let once = to_snake_case("A\u{1D400}");
    assert_eq!(once, "a\u{1D400}");
    assert!(!is_snake_case(&once));
    assert_eq!(to_snake_case(&once), "a_\u{1D400}");
    // After an underscore the letter stays where it is.
    assert!(is_snake_case("a_\u{1D400}"));
    assert_eq!(to_snake_case("a_\u{1D400}"), "a_\u{1D400}");
}

#[test]
fn snake_case_forms_are_recognized() {
    for name in ["", "user", "user_name", "xml_http_request", "a1_b2", "_", "\u{1D400}"] {
        assert!(is_snake_case(name), "{}", name);
        assert_eq!(to_snake_case(name), name);
    }
    for name in ["User", "userName", "user_Name", "USER", "aB", "\u{e9}\u{1D400}"] {
        assert!(!is_snake_case(name), "{}", name);
        assert_ne!(to_snake_case(name), name);
    }
}

#[test]
fn mapping_tables_move_in_lock_step() {
    let overrides = NameMap::new();
    let expected = [
        ("ID", DatabaseType::Sqlite, "i32", "Integer", "INTEGER"),
        ("ID", DatabaseType::Postgres, "uuid::Uuid", "Uuid", "UUID"),
        ("ID", DatabaseType::Mysql, "u32", "Unsigned<Integer>", "INT UNSIGNED"),
        ("String", DatabaseType::Sqlite, "String", "Text", "TEXT"),
        ("String", DatabaseType::Postgres, "String", "Text", "TEXT"),
        ("String", DatabaseType::Mysql, "String", "Text", "TEXT"),
        ("Int", DatabaseType::Sqlite, "i32", "Integer", "INTEGER"),
        ("Int", DatabaseType::Postgres, "i32", "Integer", "INTEGER"),
        ("Int", DatabaseType::Mysql, "i32", "Integer", "INTEGER"),
        ("Float", DatabaseType::Sqlite, "f64", "Double", "REAL"),
        ("Float", DatabaseType::Postgres, "f64", "Double", "REAL"),
        ("Float", DatabaseType::Mysql, "f64", "Double", "REAL"),
        ("Boolean", DatabaseType::Sqlite, "bool", "Bool", "INTEGER"),
        ("Boolean", DatabaseType::Postgres, "bool", "Bool", "BOOLEAN"),
        ("Boolean", DatabaseType::Mysql, "bool", "Bool", "TINYINT(1)"),
    ];
    for (name, db, rust, column, sql) in expected {
        let f = field("x", scalar(name), true);
        assert_eq!(rust_type_for_field(&f, &db, &overrides), rust);
        assert_eq!(diesel_column_type_for_field(&f, &db, &overrides), column);
        assert_eq!(sql_type_for_field(&f, &db, &overrides), sql);
    }
}

#[test]
fn references_map_to_the_identifier_type_and_enums_to_their_name() {
    let overrides = NameMap::new();
    let reference = field("author", FieldType::Reference("Author".to_string()), true);
    assert_eq!(rust_type_for_field(&reference, &DatabaseType::Sqlite, &overrides), "i32");
    assert_eq!(rust_type_for_field(&reference, &DatabaseType::Postgres, &overrides), "uuid::Uuid");
    assert_eq!(rust_type_for_field(&reference, &DatabaseType::Mysql, &overrides), "u32");
    assert_eq!(
        diesel_column_type_for_field(&reference, &DatabaseType::Mysql, &overrides),
        "Unsigned<Integer>"
    );
    assert_eq!(sql_type_for_field(&reference, &DatabaseType::Postgres, &overrides), "UUID");
    let role = field("role", FieldType::Enum("Role".to_string()), false);
    assert_eq!(rust_type_for_field(&role, &DatabaseType::Sqlite, &overrides), "Role");
    assert_eq!(diesel_column_type_for_field(&role, &DatabaseType::Sqlite, &overrides), "Text");
    assert_eq!(sql_type_for_field(&role, &DatabaseType::Sqlite, &overrides), "TEXT");
}

#[test]
fn custom_scalars_take_the_override_or_fall_back_to_text() {
    let mut overrides = NameMap::new();
    overrides.insert("DateTime".to_string(), "chrono::NaiveDateTime".to_string());
    // An override of a built-in scalar is never consulted.
    overrides.insert("Int".to_string(), "i64".to_string());
    let date = field("createdAt", scalar("DateTime"), false);
    let db = DatabaseType::Postgres;
    assert_eq!(rust_type_for_field(&date, &db, &overrides), "chrono::NaiveDateTime");
    assert_eq!(diesel_column_type_for_field(&date, &db, &overrides), "chrono::NaiveDateTime");
    assert_eq!(sql_type_for_field(&date, &db, &overrides), "chrono::NaiveDateTime");
    let json = field("payload", scalar("JSON"), false);
    assert_eq!(rust_type_for_field(&json, &db, &overrides), "String");
    assert_eq!(diesel_column_type_for_field(&json, &db, &overrides), "Text");
    assert_eq!(sql_type_for_field(&json, &db, &overrides), "TEXT");
    let int = field("n", scalar("Int"), false);
    assert_eq!(rust_type_for_field(&int, &db, &overrides), "i32");
}

#[test]
fn foreign_key_shape_of_field_names() {
    let target = |name: &str| is_foreign_key_field(&field(name, scalar("ID"), true));
    assert_eq!(target("authorId"), Some("Author".to_string()));
    assert_eq!(target("blogPostId"), Some("BlogPost".to_string()));
    assert_eq!(target("AuthorId"), Some("Author".to_string()));
    assert_eq!(target("xId"), Some("X".to_string()));
    assert_eq!(target("ßId"), Some("SS".to_string()));
    assert_eq!(target("éditeurId"), Some("Éditeur".to_string()));
    assert_eq!(target("id"), None);
    assert_eq!(target("Id"), None);
    assert_eq!(target("authorid"), None);
    assert_eq!(target("authorID"), None);
    assert_eq!(target("name"), None);
    assert_eq!(target(""), None);
    let reference = field("id", FieldType::Reference("Other".to_string()), true);
    assert_eq!(is_foreign_key_field(&reference), None);
}

#[test]
fn relationship_inference_finds_the_category_of_a_post() {
    let mut types = NameMap::new();
    types.insert(
        "Post".to_string(),
        object("Post", vec![field("id", scalar("ID"), false), field("categoryId", scalar("ID"), true)]),
    );
    types.insert("Category".to_string(), object("Category", vec![field("id", scalar("ID"), false)]));
    let schema = ParsedSchema { types, enums: NameMap::new(), scalars: vec![] };
    let relationships = detect_relationships(&schema);
    assert_eq!(relationships.len(), 1);
    assert!(!relationships.contains_key("Category"));
    let found = relationships.get("Post").unwrap();
    assert_eq!(found.len(), 1);
    assert_eq!(found[0].field_name, "categoryId");
    assert_eq!(found[0].related_type, "Category");
    assert_eq!(found[0].relationship_type, RelationshipType::BelongsTo);
    assert!(found[0].foreign_key);
}

#[test]
fn relationship_inference_skips_what_is_no_object_and_what_points_nowhere() {
    let mut types = NameMap::new();
    types.insert("Author".to_string(), object("Author", vec![field("id", scalar("ID"), false)]));
    types.insert(
        "Node".to_string(),
        ParsedType {
            kind: TypeKind::Interface,
            ..object("Node", vec![field("authorId", scalar("ID"), false)])
        },
    );
    types.insert(
        "Book".to_string(),
        object(
            "Book",
            vec![
                field("id", scalar("ID"), false),
                field("authorId", scalar("ID"), false),
                field("publisherId", scalar("ID"), false),
                field("nodeId", scalar("ID"), true),
            ],
        ),
    );
    let schema = ParsedSchema { types, enums: NameMap::new(), scalars: vec![] };
    let relationships = detect_relationships(&schema);
    assert_eq!(relationships.len(), 1);
    let found = relationships.get("Book").unwrap();
    let names: Vec<&str> = found.iter().map(|r| r.field_name.as_str()).collect();
    // `Publisher` does not exist; `Node` does, though it is an interface.
    assert_eq!(names, vec!["authorId", "nodeId"]);
    assert_eq!(found[1].related_type, "Node");
    assert!(detect_relationships(&empty_schema()).is_empty());
}

#[test]
fn diesel_end_to_end_for_sqlite() {
    let schema = user_schema();
    let config = config_for(OrmType::Diesel, DatabaseType::Sqlite);
    let generator = create_generator(&config.orm);
    let code = generate_all_code(&schema, &config, &generator, RUN);
    assert_eq!(
        code.schema,
        "use diesel::prelude::*;\n\n\
table! {\n    user (id\n    ) {\n        id -> Integer.not_null(),\n        name -> Text.not_null(),\n        email -> Text,\n    }\n}\n\n\
/// User roles\n#[derive(Debug, Clone, PartialEq, Eq, Hash)]\n#[derive(diesel::deserialize::FromSqlRow, diesel::serialize::ToSql)]\n#[sql_type = \"diesel::sql_types::Text\"]\npub enum Role {\n    ADMIN,\n    USER,\n}\n\n"
    );
    assert_eq!(code.entities.len(), 1);
    assert_eq!(
        code.entities.get("user.rs").unwrap(),
        "#[macro_use]\nextern crate diesel;\n\nuse diesel::prelude::*;\nuse super::user::*;\n\n\
#[derive(Queryable, Debug)]\npub struct User {\n    pub id: i32,\n    pub name: String,\n    pub email: String,\n}\n\n\
#[derive(Insertable)]\n#[table_name = \"user\"]\npub struct NewUser {\n    pub name: String,\n    pub email: String,\n}\n"
    );
    assert_eq!(code.migrations.len(), 1);
    assert_eq!(code.migrations[0].name, "create_user_table");
    assert_eq!(
        code.migrations[0].up_sql,
        "CREATE TABLE user (\n    id INTEGER NOT NULL PRIMARY KEY,\n    name TEXT NOT NULL,\n    email TEXT\n);"
    );
    assert!(code.migrations[0].up_sql.contains("CREATE TABLE user ("));
    assert_eq!(code.migrations[0].down_sql, "DROP TABLE user;");
}

#[test]
fn sea_orm_end_to_end_for_postgres() {
    let schema = user_schema();
    let config = config_for(OrmType::SeaOrm, DatabaseType::Postgres);
    let generator = create_generator(&config.orm);
    let code = generate_all_code(&schema, &config, &generator, RUN);
    assert_eq!(
        code.schema,
        "//! Sea-ORM entities generated from GraphQL schema\n\npub mod user;\npub mod role;\n\n\
// Re-exports for convenience\npub use user::Entity;\npub use user::Model;\npub use user::ActiveModel;\npub use user::Column;\npub use role::Role;\n"
    );
    assert_eq!(code.entities.len(), 2);
    let entity = code.entities.get("user.rs").unwrap();
    assert_eq!(
        entity,
        "use sea_orm::entity::prelude::*;\nuse serde::{Deserialize, Serialize};\n\n\
#[derive(Clone, Debug, PartialEq, DeriveEntityModel, Deserialize, Serialize)]\n#[sea_orm(table_name = \"user\")]\npub struct Model {\n    \
#[sea_orm(column_name = \"id\")]\n    pub id: uuid::Uuid,\n    \
#[sea_orm(column_name = \"name\")]\n    pub name: String,\n    \
#[sea_orm(column_name = \"email\")]\n    pub email: String,\n}\n\n\
#[derive(Copy, Clone, Debug, EnumIter, DeriveRelation)]\npub enum Relation {}\n\n\
#[derive(Copy, Clone, Debug, EnumIter, DeriveCustomColumn)]\npub enum Column {\n    id,\n    name,\n    email,\n}\n\n\
#[derive(Copy, Clone, Debug, EnumIter)]\npub enum PrimaryKey {\n    Id,\n}\n\n\
impl PrimaryKeyTrait for PrimaryKey {\n    type ValueType = uuid::Uuid;\n    fn auto_increment() -> bool {\n        false\n    }\n}\n\n\
impl ActiveModelBehavior for ActiveModel {}\n\npub struct Entity;\n\n\
impl EntityName for Entity {\n    fn table_name(&self) -> &str {\n        \"user\"\n    }\n}\n\n"
    );
    assert!(entity.contains("    type ValueType = uuid::Uuid;\n"));
    assert!(entity.contains("    fn auto_increment() -> bool {\n        false\n    }\n"));
    assert_eq!(
        code.entities.get("role.rs").unwrap(),
        "/// User roles\n#[derive(Debug, Clone, PartialEq, Eq, EnumIter, DeriveActiveEnum)]\n#[sea_orm(rs_type = \"String\", db_type = \"String(Some(1))\")]\npub enum Role {\n    #[sea_orm(string_value = \"ADMIN\")]\n    ADMIN,\n    #[sea_orm(string_value = \"USER\")]\n    USER,\n}\n"
    );
    assert_eq!(code.migrations.len(), 1);
    assert_eq!(code.migrations[0].name, "m1700000000_create_user_table");
    assert_eq!(
        code.migrations[0].up_sql,
        "CREATE TABLE user (\n    id UUID NOT NULL PRIMARY KEY,\n    name TEXT NOT NULL,\n    email TEXT\n);"
    );
    assert_eq!(code.migrations[0].down_sql, "DROP TABLE user;");
}

#[test]
fn primary_key_descriptor_follows_the_engine() {
    let schema = user_schema();
    let generator = SeaOrmGenerator::new();
    for (db, id_type, auto) in [
        (DatabaseType::Sqlite, "i32", "true"),
        (DatabaseType::Postgres, "uuid::Uuid", "false"),
        (DatabaseType::Mysql, "u32", "true"),
    ] {
        let config = config_for(OrmType::SeaOrm, db);
        let files = generator.generate_entities(&schema, &config);
        let entity = files.get("user.rs").unwrap();
        let descriptor = format!(
            "impl PrimaryKeyTrait for PrimaryKey {{\n    type ValueType = {};\n    fn auto_increment() -> bool {{\n        {}\n    }}\n}}\n\n",
            id_type, auto
        );
        assert!(entity.contains(&descriptor), "{:?}", db);
    }
}

#[test]
fn empty_schema_emits_no_entity_and_no_migration() {
    let schema = empty_schema();
    for orm in [OrmType::Diesel, OrmType::SeaOrm] {
        for db in [DatabaseType::Sqlite, DatabaseType::Postgres, DatabaseType::Mysql] {
            let config = config_for(orm, db);
            let generator = create_generator(&orm);
            let code = generate_all_code(&schema, &config, &generator, RUN);
            assert!(code.entities.is_empty());
            assert!(code.migrations.is_empty());
        }
    }
    let diesel = generate_all_code(
        &schema,
        &config_for(OrmType::Diesel, DatabaseType::Sqlite),
        &DieselGenerator::new(),
        RUN,
    );
    assert_eq!(diesel.schema, "use diesel::prelude::*;\n\n");
    let sea = generate_all_code(
        &schema,
        &config_for(OrmType::SeaOrm, DatabaseType::Sqlite),
        &SeaOrmGenerator::new(),
        RUN,
    );
    assert_eq!(
        sea.schema,
        "//! Sea-ORM entities generated from GraphQL schema\n\n\n// Re-exports for convenience\n"
    );
}

#[test]
fn toggles_switch_entities_and_migrations_off() {
    let schema = user_schema();
    for orm in [OrmType::Diesel, OrmType::SeaOrm] {
        let mut config = config_for(orm, DatabaseType::Sqlite);
        config.generate_entities = false;
        let code = generate_all_code(&schema, &config, &create_generator(&orm), RUN);
        assert!(code.entities.is_empty());
        assert_eq!(code.migrations.len(), 1);
        assert!(!code.schema.is_empty());
        config.generate_entities = true;
        config.generate_migrations = false;
        let code = generate_all_code(&schema, &config, &create_generator(&orm), RUN);
        assert!(!code.entities.is_empty());
        assert!(code.migrations.is_empty());
    }
}

#[test]
fn backends_differ_on_what_is_no_object() {
    let mut types = NameMap::new();
    types.insert(
        "Node".to_string(),
        ParsedType { kind: TypeKind::Interface, ..object("Node", vec![field("id", scalar("ID"), false)]) },
    );
    types.insert(
        "SearchResult".to_string(),
        ParsedType {
            kind: TypeKind::Union,
            union_members: vec!["User".to_string(), "Post".to_string()],
            ..object("SearchResult", vec![])
        },
    );
    types.insert("User".to_string(), object("User", vec![field("id", scalar("ID"), false)]));
    let schema = ParsedSchema { types, enums: NameMap::new(), scalars: vec![] };
    let config = config_for(OrmType::Diesel, DatabaseType::Sqlite);

    let diesel = DieselGenerator::new();
    let files = diesel.generate_entities(&schema, &config);
    assert_eq!(files.len(), 3);
    assert_eq!(files.name_at(0), "node.rs");
    assert_eq!(files.name_at(1), "search_result.rs");
    assert_eq!(files.name_at(2), "user.rs");
    let migrations = diesel.generate_migrations(&schema, &config, RUN);
    let names: Vec<&str> = migrations.iter().map(|m| m.name.as_str()).collect();
    assert_eq!(
        names,
        vec!["create_node_table", "create_search_result_table", "create_user_table"]
    );
    assert_eq!(
        migrations[1].up_sql,
        "CREATE TABLE search_result (\n    id INTEGER PRIMARY KEY AUTOINCREMENT\n);"
    );

    let sea = SeaOrmGenerator::new();
    let files = sea.generate_entities(&schema, &config);
    assert_eq!(files.len(), 1);
    assert_eq!(files.name_at(0), "user.rs");
    let migrations = sea.generate_migrations(&schema, &config, RUN);
    assert_eq!(migrations.len(), 1);
    assert_eq!(migrations[0].name, "m1700000000_create_user_table");
    // The module index names what has a file, and nothing else.
    assert_eq!(
        sea.generate_schema(&schema, &config),
        "//! Sea-ORM entities generated from GraphQL schema\n\npub mod user;\n\n// Re-exports for convenience\npub use user::Entity;\npub use user::Model;\npub use user::ActiveModel;\npub use user::Column;\n"
    );
}

#[test]
fn table_macro_names_its_key_column() {
    let generator = DieselGenerator::new();
    let config = config_for(OrmType::Diesel, DatabaseType::Mysql);
    let with_id = object(
        "OrderLine",
        vec![field("productCode", scalar("String"), false), field("id", scalar("ID"), false)],
    );
    assert_eq!(
        generator.generate_table_macro("OrderLine", &with_id, &config),
        "table! {\n    order_line (id\n    ) {\n        product_code -> Text.not_null(),\n        id -> Unsigned<Integer>.not_null(),\n    }\n}\n"
    );
    let without_id = object("Tag", vec![field("labelText", scalar("String"), true)]);
    assert_eq!(
        generator.generate_table_macro("Tag", &without_id, &config),
        "table! {\n    tag (labelText\n    ) {\n        label_text -> Text,\n    }\n}\n"
    );
    let bare = object("Empty", vec![]);
    assert_eq!(
        generator.generate_table_macro("Empty", &bare, &config),
        "table! {\n    empty (id\n    ) {\n    }\n}\n"
    );
}

#[test]
fn migration_indexes_the_columns_shaped_like_foreign_keys() {
    let config = config_for(OrmType::Diesel, DatabaseType::Sqlite);
    let fields = vec![
        field("id", scalar("ID"), false),
        field("categoryId", scalar("ID"), true),
        field("author", FieldType::Reference("User".to_string()), true),
    ];
    // One index, on the column whose name ends in `Id`; none on the
    // reference, whose name does not.
    assert_eq!(
        create_table("Post", &fields, &config),
        "CREATE TABLE post (\n    id INTEGER NOT NULL PRIMARY KEY,\n    category_id INTEGER,\n    author INTEGER\n);\n\nCREATE INDEX idx_post_category_id ON post (category_id);"
    );
    let migration = DieselGenerator::new().generate_table_migration("Post", &object("Post", fields), &config);
    assert_eq!(migration.up_sql.matches("CREATE INDEX").count(), 1);
    assert!(migration.up_sql.ends_with("CREATE INDEX idx_post_category_id ON post (category_id);"));
    // The shape is all that counts: the type pointed to need not exist, and
    // `id` and `Id` have nothing before the suffix.
    let shapes = vec![
        field("Id", scalar("ID"), false),
        field("publisherId", scalar("String"), false),
        field("paid", scalar("Boolean"), false),
        field("ownerID", scalar("ID"), false),
    ];
    let sql = create_table("Book", &shapes, &config);
    assert_eq!(sql.matches("CREATE INDEX").count(), 1);
    assert!(sql.ends_with(");\n\nCREATE INDEX idx_book_publisher_id ON book (publisher_id);"));
    assert!(is_foreign_key_name("categoryId"));
    assert!(is_foreign_key_name("xId"));
    assert!(!is_foreign_key_name("Id"));
    assert!(!is_foreign_key_name("id"));
    assert!(!is_foreign_key_name("author"));
    assert!(!is_foreign_key_name(""));
}

#[test]
fn migration_synthesizes_a_key_where_no_field_is_called_id() {
    let config = config_for(OrmType::Diesel, DatabaseType::Sqlite);
    let fields = vec![
        field("title", scalar("String"), false),
        field("authorId", FieldType::Reference("Author".to_string()), true),
        field("mainCategory", FieldType::Reference("Category".to_string()), false),
        field("published", scalar("Boolean"), false),
    ];
    assert!(!has_id(&fields));
    assert_eq!(
        create_table("BlogPost", &fields, &config),
        "CREATE TABLE blog_post (\n    id INTEGER PRIMARY KEY AUTOINCREMENT,\n    title TEXT NOT NULL,\n    author_id INTEGER,\n    main_category INTEGER NOT NULL,\n    published INTEGER NOT NULL\n);\n\nCREATE INDEX idx_blog_post_author_id ON blog_post (author_id);"
    );
    assert_eq!(drop_table("BlogPost", &config), "DROP TABLE blog_post;");
    let postgres = config_for(OrmType::Diesel, DatabaseType::Postgres);
    assert_eq!(
        create_table("T", &vec![], &postgres),
        "CREATE TABLE t (\n    id UUID PRIMARY KEY DEFAULT gen_random_uuid()\n);"
    );
    let mysql = config_for(OrmType::Diesel, DatabaseType::Mysql);
    assert_eq!(
        create_table("T", &vec![field("flag", scalar("Boolean"), true)], &mysql),
        "CREATE TABLE t (\n    id INT UNSIGNED PRIMARY KEY AUTO_INCREMENT,\n    flag TINYINT(1)\n);"
    );
    assert!(has_id(&vec![field("a", scalar("Int"), true), field("id", scalar("ID"), false)]));
}

#[test]
fn sea_orm_migration_is_stamped_with_the_given_time() {
    let generator = SeaOrmGenerator::new();
    let config = config_for(OrmType::SeaOrm, DatabaseType::Sqlite);
    let parsed = object("UserProfile", vec![field("id", scalar("ID"), false)]);
    let migration = generator.generate_table_migration("UserProfile", &parsed, &config, 1700000000);
    assert_eq!(migration.name, "m1700000000_create_user_profile_table");
    assert_eq!(migration.up_sql, "CREATE TABLE user_profile (\n    id INTEGER NOT NULL PRIMARY KEY\n);");
    assert_eq!(migration.down_sql, "DROP TABLE user_profile;");
    let zero = generator.generate_table_migration("A", &parsed, &config, 0);
    assert_eq!(zero.name, "m0_create_a_table");
    let early = generator.generate_table_migration("A", &parsed, &config, -42);
    assert_eq!(early.name, "m-42_create_a_table");
    let list = generator.generate_migrations(
        &ParsedSchema { types: NameMap::new(), enums: NameMap::new(), scalars: vec![] },
        &config,
        RUN,
    );
    assert!(list.is_empty());
}

#[test]
fn sea_orm_entity_describes_detected_relationships() {
    let schema = blog_schema();
    let config = config_for(OrmType::SeaOrm, DatabaseType::Sqlite);
    let files = SeaOrmGenerator::new().generate_entities(&schema, &config);
    let post = files.get("post.rs").unwrap();
    assert!(post.ends_with(
        "// Relationships\n#[derive(Clone, Debug, PartialEq, DeriveRelation)]\n#[sea_orm(table_name = \"post\")]\npub enum Relation {\n    #[sea_orm(\n        belongs_to = \"super::Category::Entity\",\n        from = \"Column::categoryId\",\n        to = \"super::Category::Column::Id\",\n        on_update = \"Cascade\",\n        on_delete = \"Cascade\"\n    )]\n    Category,\n}\n\n"
    ));
    assert_eq!(post.matches("belongs_to").count(), 1);
    let user = files.get("user.rs").unwrap();
    assert!(!user.contains("// Relationships"));
    assert!(user.ends_with("impl EntityName for Entity {\n    fn table_name(&self) -> &str {\n        \"user\"\n    }\n}\n\n"));
}

#[test]
fn sea_orm_entity_with_given_relationships() {
    let generator = SeaOrmGenerator::new();
    let config = config_for(OrmType::SeaOrm, DatabaseType::Mysql);
    let parsed = object("Book", vec![field("authorId", scalar("ID"), false)]);
    let relationships = vec![
        Relationship {
            field_name: "authorId".to_string(),
            related_type: "Author".to_string(),
            relationship_type: RelationshipType::BelongsTo,
            foreign_key: true,
        },
        Relationship {
            field_name: "shelfId".to_string(),
            related_type: "Shelf".to_string(),
            relationship_type: RelationshipType::BelongsTo,
            foreign_key: true,
        },
    ];
    let code = generator.generate_entity_struct("Book", &parsed, &config, &relationships);
    assert_eq!(code.matches("// Relationships\n").count(), 1);
    assert!(code.contains("        from = \"Column::authorId\",\n"));
    assert!(code.contains("    Shelf,\n}\n\n"));
    assert!(code.contains("    pub author_id: u32,\n"));
    let plain = generator.generate_entity_struct("Book", &parsed, &config, &vec![]);
    assert!(!plain.contains("// Relationships"));
    assert!(code.starts_with(plain.as_str()));
}

#[test]
fn enum_declarations_of_both_backends() {
    let with_doc = ParsedEnum {
        name: "Status".to_string(),
        values: vec!["ACTIVE".to_string(), "INACTIVE".to_string()],
        description: Some("Product status".to_string()),
    };
    let bare = ParsedEnum { name: "Empty".to_string(), values: vec![], description: None };
    assert_eq!(
        DieselGenerator::new().generate_enum_type("Status", &with_doc),
        "/// Product status\n#[derive(Debug, Clone, PartialEq, Eq, Hash)]\n#[derive(diesel::deserialize::FromSqlRow, diesel::serialize::ToSql)]\n#[sql_type = \"diesel::sql_types::Text\"]\npub enum Status {\n    ACTIVE,\n    INACTIVE,\n}\n"
    );
    assert_eq!(
        DieselGenerator::new().generate_enum_type("Empty", &bare),
        "#[derive(Debug, Clone, PartialEq, Eq, Hash)]\n#[derive(diesel::deserialize::FromSqlRow, diesel::serialize::ToSql)]\n#[sql_type = \"diesel::sql_types::Text\"]\npub enum Empty {\n}\n"
    );
    assert_eq!(
        SeaOrmGenerator::new().generate_enum_type("Empty", &bare),
        "#[derive(Debug, Clone, PartialEq, Eq, EnumIter, DeriveActiveEnum)]\n#[sea_orm(rs_type = \"String\", db_type = \"String(Some(1))\")]\npub enum Empty {\n}\n"
    );
}

#[test]
fn a_later_file_of_the_same_name_replaces_the_earlier_one() {
    let mut types = NameMap::new();
    types.insert("UserProfile".to_string(), object("UserProfile", vec![field("a", scalar("Int"), true)]));
    types.insert("Other".to_string(), object("Other", vec![]));
    types.insert("userProfile".to_string(), object("userProfile", vec![field("b", scalar("Int"), true)]));
    let schema = ParsedSchema { types, enums: NameMap::new(), scalars: vec![] };
    let config = config_for(OrmType::Diesel, DatabaseType::Sqlite);
    let files = DieselGenerator::new().generate_entities(&schema, &config);
    assert_eq!(files.len(), 2);
    assert_eq!(files.name_at(0), "user_profile.rs");
    assert_eq!(files.name_at(1), "other.rs");
    assert!(files.get("user_profile.rs").unwrap().contains("pub struct userProfile {\n    pub b: i32,\n}"));
}

#[test]
fn generator_of_each_backend() {
    assert!(matches!(create_generator(&OrmType::Diesel), Backend::Diesel(_)));
    assert!(matches!(create_generator(&OrmType::SeaOrm), Backend::SeaOrm(_)));
    assert_eq!(schema_file(&OrmType::Diesel), "src/schema.rs");
    assert_eq!(schema_file(&OrmType::SeaOrm), "mod.rs");
    let schema = user_schema();
    let config = config_for(OrmType::SeaOrm, DatabaseType::Sqlite);
    let through_facade = graphql_codegen_rust::CodeGenerator::new(&OrmType::SeaOrm).generate(&schema, &config, RUN);
    let direct = SeaOrmGenerator::new().generate_schema(&schema, &config);
    assert_eq!(through_facade.schema, direct);
}

#[test]
fn test_diesel_code_generation_compiles() {
    let schema = user_schema();
    let config = config_for(OrmType::Diesel, DatabaseType::Sqlite);
    let generator_inner = create_generator(&config.orm);
    let code = generate_all_code(&schema, &config, &generator_inner, RUN);
    assert_eq!(schema_file(&config.orm), "src/schema.rs");
    assert!(code.entities.contains_key("user.rs"));
    assert!(!code.migrations.is_empty());
    assert!(code.schema.contains("table!"));
    assert!(code.schema.contains("user"));
    let user_content = code.entities.get("user.rs").unwrap();
    assert!(user_content.contains("#[derive"));
    assert!(user_content.contains("pub struct User"));
}

#[test]
fn test_sea_orm_code_generation_compiles() {
    let mut types = NameMap::new();
    types.insert(
        "Product".to_string(),
        ParsedType {
            description: Some("A product in the catalog".to_string()),
            ..object(
                "Product",
                vec![
                    field("id", scalar("ID"), false),
                    field("title", scalar("String"), false),
                    field("price", scalar("Float"), false),
                ],
            )
        },
    );
    let mut enums = NameMap::new();
    enums.insert(
        "Status".to_string(),
        ParsedEnum {
            name: "Status".to_string(),
            values: vec!["ACTIVE".to_string(), "INACTIVE".to_string()],
            description: Some("Product status".to_string()),
        },
    );
    let schema = ParsedSchema { types, enums, scalars: vec![] };
    let config = config_for(OrmType::SeaOrm, DatabaseType::Postgres);
    let generator_inner = create_generator(&config.orm);
    let code = generate_all_code(&schema, &config, &generator_inner, RUN);
    assert_eq!(schema_file(&config.orm), "mod.rs");
    assert!(code.entities.contains_key("product.rs"));
    assert!(!code.migrations.is_empty());
    assert!(code.schema.contains("pub mod product;"));
    assert!(code.schema.contains("pub use product::Entity;"));
    let product_content = code.entities.get("product.rs").unwrap();
    assert!(product_content.contains("#[derive(Clone, Debug, PartialEq, DeriveEntityModel"));
    assert!(product_content.contains("pub struct Entity;"));
    assert!(product_content.contains("uuid::Uuid"));
    assert!(product_content.contains("    pub price: f64,\n"));
}

#[test]
fn test_multi_database_support() {
    let databases = vec![
        (DatabaseType::Sqlite, "i32"),
        (DatabaseType::Postgres, "uuid::Uuid"),
        (DatabaseType::Mysql, "u32"),
    ];
    for (db_type, expected_id_type) in databases {
        let mut types = NameMap::new();
        types.insert("Test".to_string(), object("Test", vec![field("id", scalar("ID"), false)]));
        let schema = ParsedSchema { types, enums: NameMap::new(), scalars: vec![] };
        for orm_type in &[OrmType::Diesel, OrmType::SeaOrm] {
            let config = config_for(*orm_type, db_type);
            let generator_inner = create_generator(&config.orm);
            let code = generate_all_code(&schema, &config, &generator_inner, RUN);
            if matches!(orm_type, OrmType::SeaOrm) {
                let content = code.entities.get("test.rs").unwrap();
                assert!(
                    content.contains(expected_id_type),
                    "Expected {} in Sea-ORM entity for {:?}",
                    expected_id_type,
                    db_type
                );
            }
        }
    }
}

#[test]
fn test_edge_cases() {
    let mut single = NameMap::new();
    single.insert("Minimal".to_string(), object("Minimal", vec![field("id", scalar("ID"), false)]));
    let mut enum_only = NameMap::new();
    enum_only.insert(
        "Status".to_string(),
        ParsedEnum {
            name: "Status".to_string(),
            values: vec!["ACTIVE".to_string(), "INACTIVE".to_string(), "PENDING".to_string()],
            description: Some("Entity status".to_string()),
        },
    );
    let edge_cases = vec![
        ("empty_schema", empty_schema(), 0, 0),
        ("single_field_type", ParsedSchema { types: single, enums: NameMap::new(), scalars: vec![] }, 1, 0),
        ("enum_only_schema", ParsedSchema { types: NameMap::new(), enums: enum_only, scalars: vec![] }, 0, 1),
        ("complex_relationships", blog_schema(), 3, 0),
    ];
    for (case_name, schema, n_types, n_enums) in edge_cases {
        for orm_type in &[OrmType::Diesel, OrmType::SeaOrm] {
            let db_type = match orm_type {
                OrmType::Diesel => DatabaseType::Sqlite,
                OrmType::SeaOrm => DatabaseType::Postgres,
            };
            let config = config_for(*orm_type, db_type);
            let generator_inner = create_generator(&config.orm);
            let code = generate_all_code(&schema, &config, &generator_inner, RUN);
            assert_eq!(code.migrations.len(), n_types, "{} {:?}", case_name, orm_type);
            let expected_files = match orm_type {
                OrmType::Diesel => n_types,
                OrmType::SeaOrm => n_types + n_enums,
            };
            assert_eq!(code.entities.len(), expected_files, "{} {:?}", case_name, orm_type);
        }
    }
}

#[test]
fn test_codegen_performance() {
    let mut types = NameMap::new();
    let mut enums = NameMap::new();
    for i in 0..10 {
        let mut fields = vec![field("id", scalar("ID"), false)];
        for j in 0..5 {
            fields.push(field(&format!("field{}", j), scalar("String"), true));
        }
        types.insert(
            format!("Type{}", i),
            ParsedType {
                description: Some(format!("Type {} description", i)),
                ..object(&format!("Type{}", i), fields)
            },
        );
    }
    for i in 0..5 {
        enums.insert(
            format!("Enum{}", i),
            ParsedEnum {
                name: format!("Enum{}", i),
                values: vec!["VALUE1".to_string(), "VALUE2".to_string(), "VALUE3".to_string()],
                description: Some(format!("Enum {} description", i)),
            },
        );
    }
    let schema = ParsedSchema { types, enums, scalars: vec![] };
    let start = std::time::Instant::now();
    for orm_type in &[OrmType::Diesel, OrmType::SeaOrm] {
        let db_type = match orm_type {
            OrmType::Diesel => DatabaseType::Sqlite,
            OrmType::SeaOrm => DatabaseType::Postgres,
        };
        let config = config_for(*orm_type, db_type);
        let generator_inner = create_generator(&config.orm);
        let code = generate_all_code(&schema, &config, &generator_inner, RUN);
        assert_eq!(code.migrations.len(), 10);
    }
    let total_time = start.elapsed();
    assert!(
        total_time < std::time::Duration::from_secs(1),
        "Code generation took too long: {:?}",
        total_time
    );
}

#[test]
fn table_names_follow_the_naming_convention() {
    let mut config = config_for(OrmType::Diesel, DatabaseType::Sqlite);
    assert_eq!(table_name_for(&config, "UserProfile"), "user_profile");
    config.table_naming = TableNamingConvention::PascalCase;
    assert_eq!(table_name_for(&config, "UserProfile"), "UserProfile");

    let parsed = object(
        "UserProfile",
        vec![
            field("id", scalar("ID"), false),
            field("displayName", scalar("String"), true),
            field("ownerId", FieldType::Reference("User".to_string()), true),
        ],
    );
    let mut types = NameMap::new();
    types.insert("UserProfile".to_string(), parsed);
    let schema = ParsedSchema { types, enums: NameMap::new(), scalars: vec![] };

    let diesel = DieselGenerator::new();
    assert_eq!(
        diesel.generate_schema(&schema, &config),
        "use diesel::prelude::*;\n\ntable! {\n    UserProfile (id\n    ) {\n        id -> Integer.not_null(),\n        display_name -> Text,\n        owner_id -> Integer,\n    }\n}\n\n"
    );
    let files = diesel.generate_entities(&schema, &config);
    // Files keep their snake-case names; only the table is renamed.
    let entity = files.get("user_profile.rs").unwrap();
    assert!(entity.contains("use super::UserProfile::*;\n"));
    assert!(entity.contains("#[table_name = \"UserProfile\"]\n"));
    assert!(entity.contains("    pub display_name: String,\n"));
    let migrations = diesel.generate_migrations(&schema, &config, RUN);
    assert_eq!(migrations[0].name, "create_user_profile_table");
    assert_eq!(
        migrations[0].up_sql,
        "CREATE TABLE UserProfile (\n    id INTEGER NOT NULL PRIMARY KEY,\n    display_name TEXT,\n    owner_id INTEGER\n);\n\nCREATE INDEX idx_UserProfile_owner_id ON UserProfile (owner_id);"
    );
    assert_eq!(migrations[0].down_sql, "DROP TABLE UserProfile;");

    let sea = SeaOrmGenerator::new();
    let files = sea.generate_entities(&schema, &config);
    let entity = files.get("user_profile.rs").unwrap();
    assert!(entity.contains("#[sea_orm(table_name = \"UserProfile\")]\npub struct Model {\n"));
    assert!(entity.contains("    fn table_name(&self) -> &str {\n        \"UserProfile\"\n    }\n"));
    let migration = sea.generate_table_migration("UserProfile", schema.types.value_at(0), &config, 5);
    assert_eq!(migration.name, "m5_create_user_profile_table");
    assert!(migration.up_sql.starts_with("CREATE TABLE UserProfile (\n"));
    assert_eq!(sea.generate_schema(&schema, &config), "//! Sea-ORM entities generated from GraphQL schema\n\npub mod user_profile;\n\n// Re-exports for convenience\npub use user_profile::Entity;\npub use user_profile::Model;\npub use user_profile::ActiveModel;\npub use user_profile::Column;\n");
}

fn upper(ch: char, lowercase: char) -> Letter {
    Letter { ch, is_uppercase: true, is_lowercase: false, is_whitespace: false, lowercase }
}

fn lower(ch: char) -> Letter {
    Letter { ch, is_uppercase: false, is_lowercase: true, is_whitespace: false, lowercase: ch }
}

fn other(ch: char) -> Letter {
    Letter { ch, is_uppercase: false, is_lowercase: false, is_whitespace: false, lowercase: ch }
}

#[test]
fn snake_case_follows_the_given_letters() {
    let api_key = vec![upper('A', 'a'), upper('P', 'p'), upper('I', 'i'), upper('K', 'k'), lower('e'), lower('y')];
    assert_eq!(snake_case_of(&api_key), "api_key");
    assert!(!is_settled_of(&api_key));
    let user_name = vec![lower('u'), lower('s'), lower('e'), lower('r'), upper('N', 'n'), lower('a'), lower('m'), lower('e')];
    assert_eq!(snake_case_of(&user_name), "user_name");
    // After a letter that is neither uppercase nor lowercase no underscore goes.
    assert_eq!(snake_case_of(&vec![other('1'), upper('A', 'a')]), "1a");
    assert_eq!(snake_case_of(&vec![upper('A', 'a'), upper('B', 'b'), other('1')]), "ab1");
    assert_eq!(snake_case_of(&vec![upper('A', 'a'), upper('B', 'b')]), "ab");
    assert_eq!(snake_case_of(&vec![lower('a'), upper('B', 'b')]), "a_b");
    assert_eq!(snake_case_of(&vec![]), "");
    // The letters decide, not the characters: here `x` counts as uppercase.
    assert_eq!(snake_case_of(&vec![lower('a'), upper('x', 'y')]), "a_y");
    // An uppercase letter that is its own lowercase form and takes no
    // underscore is settled.
    let settled = vec![upper('A', 'A'), upper('B', 'B'), other('_'), upper('C', 'C')];
    assert!(is_settled_of(&settled));
    assert_eq!(snake_case_of(&settled), "AB_C");
    assert!(!is_settled_of(&vec![lower('a'), upper('B', 'B')]));
    assert!(!is_settled_of(&vec![upper('A', 'a')]));
    assert!(is_settled_of(&vec![lower('a'), other('_'), lower('b')]));
    assert!(is_settled_of(&vec![]));
}

#[test]
fn related_type_takes_the_given_capital() {
    assert_eq!(related_type_of("authorId", "A"), Some("Author".to_string()));
    assert_eq!(related_type_of("authorId", "XY"), Some("XYuthor".to_string()));
    assert_eq!(related_type_of("aId", ""), Some("".to_string()));
    assert_eq!(related_type_of("id", "I"), None);
    assert_eq!(related_type_of("Id", "I"), None);
    assert_eq!(related_type_of("author", "A"), None);
    assert_eq!(related_type_of("", "A"), None);
}
