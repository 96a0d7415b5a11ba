use graphql_codegen_rust::cli::{Commands, DatabaseType, OrmType};
use graphql_codegen_rust::config::{
    default_db, default_orm, default_output, default_true, ConfigError, RustCodegenConfig,
    SchemaConfig, TableNamingConvention, YamlConfig,
};
use graphql_codegen_rust::name_map::NameMap;
use graphql_codegen_rust::Config;

#[test]
fn test_config_auto_detect() {
    // No config file exists.
    let result = Config::auto_detect_config(false, false, false);
    assert!(result.is_err());
    assert!(result.unwrap_err().message().contains("No config file found"));
}

#[test]
fn auto_detect_prefers_yml_then_yaml_then_toml() {
    assert_eq!(Config::auto_detect_config(true, true, true).unwrap(), "codegen.yml");
    assert_eq!(Config::auto_detect_config(true, false, false).unwrap(), "codegen.yml");
    assert_eq!(Config::auto_detect_config(false, true, true).unwrap(), "codegen.yaml");
    assert_eq!(
        Config::auto_detect_config(false, false, true).unwrap(),
        "graphql-codegen-rust.toml"
    );
    assert_eq!(Config::auto_detect_config(false, false, false), Err(ConfigError::NoConfigFile));
}

#[test]
fn config_path_joins_directory_and_file_name() {
    assert_eq!(Config::config_path("./generated"), "./generated/graphql-codegen-rust.toml");
    assert_eq!(Config::config_path("out/"), "out/graphql-codegen-rust.toml");
    assert_eq!(Config::config_path(""), "graphql-codegen-rust.toml");
    assert_eq!(Config::config_path("/"), "/graphql-codegen-rust.toml");
}

#[test]
fn yaml_is_told_by_extension_or_by_schema_key() {
    assert!(Config::is_yaml(Some("yml"), "url = \"x\""));
    assert!(Config::is_yaml(Some("yaml"), ""));
    assert!(Config::is_yaml(Some("toml"), "\n  schema: https://api.example.com/graphql\n"));
    assert!(Config::is_yaml(None, "schema:"));
    assert!(!Config::is_yaml(Some("toml"), "url = \"schema:\""));
    assert!(!Config::is_yaml(None, ""));
    assert!(!Config::is_yaml(Some("YML"), "x"));
}

#[test]
fn default_config_is_empty() {
    let config = Config::default();
    assert_eq!(config.url, "");
    assert_eq!(config.orm, OrmType::Diesel);
    assert_eq!(config.db, DatabaseType::Sqlite);
    assert_eq!(config.output_dir, "");
    assert!(config.headers.is_empty());
    assert!(config.type_mappings.is_empty());
    assert!(config.scalar_mappings.is_empty());
    assert_eq!(config.table_naming, TableNamingConvention::SnakeCase);
    assert!(!config.generate_migrations);
    assert!(!config.generate_entities);
}

#[test]
fn codegen_defaults() {
    assert_eq!(default_orm(), OrmType::Diesel);
    assert_eq!(default_db(), DatabaseType::Sqlite);
    assert_eq!(default_output(), "./generated");
    assert!(default_true());
    let config = RustCodegenConfig::default();
    assert_eq!(config.output_dir, "./generated");
    assert!(config.generate_migrations);
    assert!(config.generate_entities);
    assert_eq!(OrmType::default(), OrmType::Diesel);
    assert_eq!(DatabaseType::default(), DatabaseType::Sqlite);
    assert_eq!(TableNamingConvention::default(), TableNamingConvention::SnakeCase);
}

#[test]
fn test_config_yaml_minimal_schema() {
    // schema: https://api.example.com/graphql
    let yaml = YamlConfig {
        schema: SchemaConfig::Url("https://api.example.com/graphql".to_string()),
        rust_codegen: None,
    };
    let config = Config::from_yaml_config(yaml);

    assert_eq!(config.url, "https://api.example.com/graphql");
    assert_eq!(config.orm, OrmType::Diesel); // default
    assert_eq!(config.db, DatabaseType::Sqlite); // default
    assert_eq!(config.output_dir, "./generated"); // default
    assert!(config.headers.is_empty());
    assert!(config.generate_migrations);
    assert!(config.generate_entities);
}

#[test]
fn test_config_yaml_schema_with_headers() {
    // schema:
    //   url: https://api.example.com/graphql
    //   headers:
    //     Authorization: "Bearer token123"
    //     X-API-Key: "key456"
    let mut headers = NameMap::new();
    headers.insert("Authorization".to_string(), "Bearer token123".to_string());
    headers.insert("X-API-Key".to_string(), "key456".to_string());
    let yaml = YamlConfig {
        schema: SchemaConfig::Object {
            url: "https://api.example.com/graphql".to_string(),
            headers,
        },
        rust_codegen: None,
    };
    let config = Config::from_yaml_config(yaml);

    assert_eq!(config.url, "https://api.example.com/graphql");
    assert_eq!(config.headers.get("Authorization"), Some(&"Bearer token123".to_string()));
    assert_eq!(config.headers.get("X-API-Key"), Some(&"key456".to_string()));
}

#[test]
fn yaml_with_headers_and_codegen_section() {
    let mut headers = NameMap::new();
    headers.insert("Authorization".to_string(), "Bearer token123".to_string());
    headers.insert("X-API-Key".to_string(), "key456".to_string());
    let mut codegen = RustCodegenConfig::default();
    codegen.orm = OrmType::SeaOrm;
    codegen.db = DatabaseType::Postgres;
    codegen.output_dir = "./yaml_output".to_string();
    codegen.generate_entities = false;
    let yaml = YamlConfig {
        schema: SchemaConfig::Object {
            url: "https://api.example.com/graphql".to_string(),
            headers,
        },
        rust_codegen: Some(codegen),
    };
    let config = Config::from_yaml_config(yaml);
    assert_eq!(config.url, "https://api.example.com/graphql");
    assert_eq!(config.headers.get("Authorization"), Some(&"Bearer token123".to_string()));
    assert_eq!(config.headers.get("X-API-Key"), Some(&"key456".to_string()));
    assert_eq!(config.orm, OrmType::SeaOrm);
    assert_eq!(config.db, DatabaseType::Postgres);
    assert_eq!(config.output_dir, "./yaml_output");
    assert!(config.generate_migrations);
    assert!(!config.generate_entities);
}

#[test]
fn config_from_init_command() {
    let command = Commands::Init {
        url: "https://api.example.com/graphql".to_string(),
        orm: OrmType::SeaOrm,
        db: DatabaseType::Mysql,
        output: "./db".to_string(),
        headers: vec![
            ("A".to_string(), "1".to_string()),
            ("B".to_string(), "2".to_string()),
            ("A".to_string(), "3".to_string()),
        ],
    };
    let config = Config::from_command(&command).unwrap();
    assert_eq!(config.url, "https://api.example.com/graphql");
    assert_eq!(config.orm, OrmType::SeaOrm);
    assert_eq!(config.db, DatabaseType::Mysql);
    assert_eq!(config.output_dir, "./db");
    assert_eq!(config.headers.len(), 2);
    assert_eq!(config.headers.get("A"), Some(&"3".to_string()));
    assert_eq!(config.headers.get("B"), Some(&"2".to_string()));
    assert_eq!(config.headers.name_at(0), "A");
    assert!(config.type_mappings.is_empty());
    assert!(config.generate_migrations);
    assert!(config.generate_entities);

    let generate = Commands::Generate { config: None, output: None };
    assert!(Config::from_command(&generate).is_none());
}
