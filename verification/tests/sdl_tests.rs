use graphql_codegen_rust::generator::{detect_relationships, RelationshipType};
use graphql_codegen_rust::introspection::{
    EnumValue, Field, InputValue, Introspector, Schema, Type, TypeKind, TypeRef,
};
use graphql_codegen_rust::parser::{FieldType, GraphQLParser};
use graphql_codegen_rust::sdl::{
    SdlCompositeType, SdlDefinition, SdlDocument, SdlEnumType, SdlField, SdlType, SdlUnionType,
};

fn sdl_named(name: &str) -> SdlType {
    SdlType::NamedType(name.to_string())
}

fn sdl_non_null(inner: SdlType) -> SdlType {
    SdlType::NonNullType(Box::new(inner))
}

fn sdl_list(inner: SdlType) -> SdlType {
    SdlType::ListType(Box::new(inner))
}

fn sdl_field(name: &str, field_type: SdlType) -> SdlField {
    SdlField { name: name.to_string(), description: None, field_type }
}

fn sdl_object(name: &str, fields: Vec<SdlField>) -> SdlCompositeType {
    SdlCompositeType {
        name: name.to_string(),
        description: None,
        implements_interfaces: vec![],
        fields,
    }
}

fn ref_named(name: &str) -> TypeRef {
    TypeRef { name: Some(name.to_string()), kind: Some(TypeKind::Object), of_type: None }
}

fn ref_non_null(inner: TypeRef) -> TypeRef {
    TypeRef { name: None, kind: Some(TypeKind::NonNull), of_type: Some(Box::new(inner)) }
}

fn ref_list(inner: TypeRef) -> TypeRef {
    TypeRef { name: None, kind: Some(TypeKind::List), of_type: Some(Box::new(inner)) }
}

fn intro_field(name: &str, description: Option<&str>, type_: TypeRef) -> Field {
    Field {
        name: name.to_string(),
        description: description.map(|d| d.to_string()),
        args: vec![],
        type_,
        is_deprecated: false,
        deprecation_reason: None,
    }
}

fn intro_type(name: &str, kind: TypeKind) -> Type {
    Type {
        name: Some(name.to_string()),
        kind,
        description: None,
        fields: None,
        interfaces: None,
        possible_types: None,
        enum_values: None,
        input_fields: None,
        of_type: None,
    }
}

/// The document of:
///   type User { id: ID!  username: String!  email: String  posts: [Post!]! }
///   type Post { id: ID!  title: String!  content: String!  authorId: ID!
///               published: Boolean!  categoryId: ID }
///   type Category { id: ID!  name: String!  description: String }
///   enum Role { ADMIN USER MODERATOR }
///   interface Node { id: ID! }
///   union SearchResult = User | Post
fn blog_document() -> SdlDocument {
    SdlDocument {
        definitions: vec![
            SdlDefinition::Object(sdl_object(
                "User",
                vec![
                    sdl_field("id", sdl_non_null(sdl_named("ID"))),
                    sdl_field("username", sdl_non_null(sdl_named("String"))),
                    sdl_field("email", sdl_named("String")),
                    sdl_field("posts", sdl_non_null(sdl_list(sdl_non_null(sdl_named("Post"))))),
                ],
            )),
            SdlDefinition::Object(sdl_object(
                "Post",
                vec![
                    sdl_field("id", sdl_non_null(sdl_named("ID"))),
                    sdl_field("title", sdl_non_null(sdl_named("String"))),
                    sdl_field("content", sdl_non_null(sdl_named("String"))),
                    sdl_field("authorId", sdl_non_null(sdl_named("ID"))),
                    sdl_field("published", sdl_non_null(sdl_named("Boolean"))),
                    sdl_field("categoryId", sdl_named("ID")),
                ],
            )),
            SdlDefinition::Object(sdl_object(
                "Category",
                vec![
                    sdl_field("id", sdl_non_null(sdl_named("ID"))),
                    sdl_field("name", sdl_non_null(sdl_named("String"))),
                    sdl_field("description", sdl_named("String")),
                ],
            )),
            SdlDefinition::Enum(SdlEnumType {
                name: "Role".to_string(),
                description: None,
                values: vec!["ADMIN".to_string(), "USER".to_string(), "MODERATOR".to_string()],
            }),
            SdlDefinition::Interface(sdl_object(
                "Node",
                vec![sdl_field("id", sdl_non_null(sdl_named("ID")))],
            )),
            SdlDefinition::Union(SdlUnionType {
                name: "SearchResult".to_string(),
                description: None,
                types: vec!["User".to_string(), "Post".to_string()],
            }),
        ],
    }
}

#[test]
fn test_sdl_parsing() {
    let parser = GraphQLParser::new();
    let schema = parser.parse_sdl_document(&blog_document());

    assert!(schema.types.contains_key("User"), "Should contain User type");
    assert!(schema.types.contains_key("Post"), "Should contain Post type");
    assert!(schema.types.contains_key("Category"), "Should contain Category type");
    assert!(schema.types.contains_key("Node"), "Should contain Node interface");
    assert!(schema.types.contains_key("SearchResult"), "Should contain SearchResult union");
    assert!(schema.enums.contains_key("Role"), "Should contain Role enum");

    let user_type = schema.types.get("User").unwrap();
    assert_eq!(user_type.name, "User");
    assert_eq!(user_type.fields.len(), 4);

    let id_field = user_type.fields.iter().find(|f| f.name == "id").unwrap();
    assert!(!id_field.is_nullable);
    assert!(matches!(id_field.field_type, FieldType::Scalar(ref s) if s == "ID"));

    let email_field = user_type.fields.iter().find(|f| f.name == "email").unwrap();
    assert!(email_field.is_nullable);

    let posts_field = user_type.fields.iter().find(|f| f.name == "posts").unwrap();
    assert!(posts_field.is_list);
    assert!(!posts_field.is_nullable);
}

#[test]
fn test_relationship_detection() {
    let parser = GraphQLParser::new();
    let mut document = blog_document();
    document.definitions.truncate(3);
    let schema = parser.parse_sdl_document(&document);

    let relationships = detect_relationships(&schema);
    assert!(relationships.contains_key("Post"), "Post should have relationships");

    let post_relationships = relationships.get("Post").unwrap();
    assert_eq!(post_relationships.len(), 1, "Post should have 1 relationship");

    let category_rel = post_relationships.iter().find(|r| r.field_name == "categoryId").unwrap();
    assert_eq!(category_rel.related_type, "Category");
    assert!(matches!(category_rel.relationship_type, RelationshipType::BelongsTo));
    assert!(category_rel.foreign_key);
}

#[test]
fn document_types_resolve_by_wrapper() {
    let parser = GraphQLParser::new();
    let shape = |t: &SdlType| {
        let (base, nullable, is_list) = parser.parse_sdl_type(t);
        let name = match base {
            FieldType::Scalar(n) => format!("scalar {}", n),
            FieldType::Reference(n) => format!("reference {}", n),
            FieldType::Enum(n) => format!("enum {}", n),
        };
        (name, nullable, is_list)
    };
    assert_eq!(shape(&sdl_named("Int")), ("scalar Int".to_string(), true, false));
    assert_eq!(shape(&sdl_named("Post")), ("reference Post".to_string(), true, false));
    assert_eq!(shape(&sdl_non_null(sdl_named("ID"))), ("scalar ID".to_string(), false, false));
    // A list keeps the nullability of what it lists.
    assert_eq!(
        shape(&sdl_list(sdl_non_null(sdl_named("String")))),
        ("scalar String".to_string(), false, true)
    );
    assert_eq!(
        shape(&sdl_list(sdl_non_null(sdl_named("Post")))),
        ("reference Post".to_string(), false, true)
    );
    assert_eq!(shape(&sdl_list(sdl_named("Post"))), ("reference Post".to_string(), true, true));
    assert_eq!(
        shape(&sdl_list(sdl_list(sdl_non_null(sdl_named("Int"))))),
        ("scalar Int".to_string(), false, true)
    );
    assert_eq!(
        shape(&sdl_non_null(sdl_list(sdl_named("Post")))),
        ("reference Post".to_string(), false, true)
    );
    assert_eq!(
        shape(&sdl_non_null(sdl_non_null(sdl_named("Float")))),
        ("scalar Float".to_string(), false, false)
    );
}

#[test]
fn document_normalization_keeps_order_and_drops_what_is_not_stored() {
    let mut document = blog_document();
    document.definitions.insert(0, SdlDefinition::Schema);
    document.definitions.push(SdlDefinition::Scalar("DateTime".to_string()));
    document.definitions.push(SdlDefinition::InputObject("NewUser".to_string()));
    document.definitions.push(SdlDefinition::TypeExtension);
    document.definitions.push(SdlDefinition::Directive);
    document.definitions.push(SdlDefinition::Scalar("DateTime".to_string()));
    document.definitions.push(SdlDefinition::Object(SdlCompositeType {
        description: Some("Second".to_string()),
        implements_interfaces: vec!["Node".to_string()],
        ..sdl_object("User", vec![sdl_field("only", sdl_named("Int"))])
    }));
    let schema = GraphQLParser::new().parse_sdl_document(&document);
    let names: Vec<&str> =
        (0..schema.types.len()).map(|i| schema.types.name_at(i).as_str()).collect();
    assert_eq!(names, vec!["User", "Post", "Category", "Node", "SearchResult"]);
    assert_eq!(schema.scalars, vec!["DateTime"]);
    assert!(!schema.types.contains_key("NewUser"));
    let user = schema.types.get("User").unwrap();
    assert_eq!(user.fields.len(), 1);
    assert_eq!(user.description, Some("Second".to_string()));
    assert_eq!(user.interfaces, vec!["Node"]);
    let search = schema.types.get("SearchResult").unwrap();
    assert_eq!(search.union_members, vec!["User", "Post"]);
    assert_eq!(search.kind, graphql_codegen_rust::parser::TypeKind::Union);
    assert_eq!(schema.enums.get("Role").unwrap().values, vec!["ADMIN", "USER", "MODERATOR"]);
    let empty = GraphQLParser::new().parse_sdl_document(&SdlDocument { definitions: vec![] });
    assert!(empty.types.is_empty() && empty.enums.is_empty() && empty.scalars.is_empty());
}

#[test]
fn type_references_render_with_their_wrappers() {
    let introspector = Introspector::new();
    assert_eq!(introspector.type_ref_to_sdl(&ref_named("Post")), "Post");
    assert_eq!(introspector.type_ref_to_sdl(&ref_non_null(ref_named("ID"))), "ID!");
    assert_eq!(introspector.type_ref_to_sdl(&ref_list(ref_named("Post"))), "[Post]");
    assert_eq!(
        introspector.type_ref_to_sdl(&ref_non_null(ref_list(ref_non_null(ref_named("Post"))))),
        "[Post!]!"
    );
    let dangling = TypeRef { name: None, kind: Some(TypeKind::NonNull), of_type: None };
    assert_eq!(introspector.type_ref_to_sdl(&dangling), "");
    let dangling_list = TypeRef { name: None, kind: Some(TypeKind::List), of_type: None };
    assert_eq!(introspector.type_ref_to_sdl(&ref_non_null(dangling_list)), "!");
    let nameless = TypeRef { name: None, kind: None, of_type: None };
    assert_eq!(introspector.type_ref_to_sdl(&ref_list(nameless)), "[]");
}

#[test]
fn schema_renders_as_definition_language() {
    let schema = Schema {
        query_type: Some(ref_named("Query")),
        mutation_type: Some(TypeRef { name: None, kind: None, of_type: None }),
        subscription_type: Some(ref_named("Feed")),
        types: vec![
            intro_type("__Schema", TypeKind::Object),
            Type {
                description: Some("A user".to_string()),
                interfaces: Some(vec![ref_named("Node"), ref_named("Entity")]),
                fields: Some(vec![
                    intro_field("id", None, ref_non_null(ref_named("ID"))),
                    intro_field("posts", Some("What they wrote"), ref_list(ref_named("Post"))),
                ]),
                ..intro_type("User", TypeKind::Object)
            },
            Type {
                interfaces: Some(vec![]),
                ..intro_type("Bare", TypeKind::Object)
            },
            Type {
                fields: Some(vec![intro_field("id", None, ref_non_null(ref_named("ID")))]),
                ..intro_type("Node", TypeKind::Interface)
            },
            Type {
                description: Some("Roles".to_string()),
                enum_values: Some(vec![
                    EnumValue {
                        name: "ADMIN".to_string(),
                        description: Some("All powerful".to_string()),
                        is_deprecated: false,
                        deprecation_reason: None,
                    },
                    EnumValue {
                        name: "USER".to_string(),
                        description: None,
                        is_deprecated: true,
                        deprecation_reason: None,
                    },
                ]),
                ..intro_type("Role", TypeKind::Enum)
            },
            Type {
                input_fields: Some(vec![
                    InputValue {
                        name: "name".to_string(),
                        description: Some("Shown name".to_string()),
                        type_: ref_non_null(ref_named("String")),
                        default_value: None,
                    },
                    InputValue {
                        name: "age".to_string(),
                        description: None,
                        type_: ref_named("Int"),
                        default_value: Some("18".to_string()),
                    },
                ]),
                ..intro_type("NewUser", TypeKind::InputObject)
            },
            Type { description: Some("A point in time".to_string()), ..intro_type("DateTime", TypeKind::Scalar) },
            Type {
                possible_types: Some(vec![ref_named("User"), ref_named("Post"), ref_named("Tag")]),
                ..intro_type("SearchResult", TypeKind::Union)
            },
            intro_type("Alone", TypeKind::Union),
            intro_type("Skipped", TypeKind::NonNull),
            Type { name: None, ..intro_type("", TypeKind::Object) },
        ],
        directives: vec![],
    };
    let expected = "schema {\n  query: Query\n  subscription: Feed\n}\n\n\
\"\"\"\nA user\n\"\"\"\ntype User implements Node & Entity {\n  id: ID!\n  \"\"\"\n  What they wrote\n  \"\"\"\n  posts: [Post]\n}\n\n\
type Bare {\n}\n\n\
interface Node {\n  id: ID!\n}\n\n\
\"\"\"\nRoles\n\"\"\"\nenum Role {\n  \"\"\"\n  All powerful\n  \"\"\"\n  ADMIN\n  USER\n}\n\n\
input NewUser {\n  \"\"\"\n  Shown name\n  \"\"\"\n  name: String!\n  age: Int = 18\n}\n\n\
\"\"\"\nA point in time\n\"\"\"\nscalar DateTime\n\n\
union SearchResult = User | Post | Tag\n\n\
union Alone = \n\n";
    assert_eq!(Introspector::new().schema_to_sdl(&schema), expected);
}

#[test]
fn schema_without_roots_and_types_renders_its_frame() {
    let schema = Schema {
        query_type: None,
        mutation_type: None,
        subscription_type: None,
        types: vec![],
        directives: vec![],
    };
    assert_eq!(Introspector::new().schema_to_sdl(&schema), "schema {\n}\n\n");
    let full = Schema {
        query_type: Some(ref_named("Q")),
        mutation_type: Some(ref_named("M")),
        subscription_type: Some(ref_named("S")),
        types: vec![],
        directives: vec![],
    };
    assert_eq!(
        Introspector::new().schema_to_sdl(&full),
        "schema {\n  query: Q\n  mutation: M\n  subscription: S\n}\n\n"
    );
}

#[test]
fn single_definitions_render() {
    let introspector = Introspector::new();
    let bare = intro_type("X", TypeKind::Object);
    assert_eq!(introspector.object_type_to_sdl("X", &bare), "type X {\n}\n\n");
    assert_eq!(introspector.interface_type_to_sdl("X", &bare), "interface X {\n}\n\n");
    assert_eq!(introspector.enum_type_to_sdl("X", &bare), "enum X {\n}\n\n");
    assert_eq!(introspector.input_object_type_to_sdl("X", &bare), "input X {\n}\n\n");
    assert_eq!(introspector.scalar_type_to_sdl("X", &bare), "scalar X\n\n");
    assert_eq!(introspector.union_type_to_sdl("X", &bare), "union X = \n\n");
    let nameless_interfaces = Type {
        interfaces: Some(vec![TypeRef { name: None, kind: None, of_type: None }]),
        ..intro_type("Y", TypeKind::Object)
    };
    assert_eq!(
        introspector.object_type_to_sdl("Y", &nameless_interfaces),
        "type Y implements  {\n}\n\n"
    );
}
