//! A schema document as schema definition language states it, and its
//! normalization.

use vstd::prelude::*;
use crate::name_map::{upsert, NameMap};
use crate::text::clone_strings;
use crate::parser::{
    is_builtin_name, is_normal, lemma_enum_keeps_normal, lemma_scalar_keeps_normal,
    lemma_type_keeps_normal, named_type, push_scalar, with_scalar, FieldType, FieldTypeView, GraphQLParser, ParsedEnum,
    ParsedEnumView, ParsedField, ParsedFieldView, ParsedSchema, ParsedSchemaView, ParsedType,
    ParsedTypeView, TypeKind,
};

verus! {

/// The type of a field as a document writes it.
#[derive(Debug)]
pub enum SdlType {
    /// A type, by name.
    NamedType(String),
    /// `[T]`
    ListType(Box<SdlType>),
    /// `T!`
    NonNullType(Box<SdlType>),
}

/// Model of an `SdlType`.
pub enum SdlTypeView {
    NamedType(Seq<char>),
    ListType(Box<SdlTypeView>),
    NonNullType(Box<SdlTypeView>),
}

/// The model of a field type, wrapper by wrapper.
pub open spec fn sdl_type_view(field_type: SdlType) -> SdlTypeView
    decreases field_type,
{
    match field_type {
        SdlType::NamedType(name) => SdlTypeView::NamedType(name@),
        SdlType::ListType(inner) => SdlTypeView::ListType(Box::new(sdl_type_view(*inner))),
        SdlType::NonNullType(inner) => SdlTypeView::NonNullType(Box::new(sdl_type_view(*inner))),
    }
}

impl DeepView for SdlType {
    type V = SdlTypeView;

    open spec fn deep_view(&self) -> SdlTypeView {
        sdl_type_view(*self)
    }
}

impl View for SdlType {
    type V = SdlTypeView;

    open spec fn view(&self) -> SdlTypeView {
        self.deep_view()
    }
}

/// A field of an object or interface definition.
#[derive(Debug)]
pub struct SdlField {
    pub name: String,
    pub description: Option<String>,
    pub field_type: SdlType,
}

/// Model of an `SdlField`.
pub struct SdlFieldView {
    pub name: Seq<char>,
    pub description: Option<Seq<char>>,
    pub field_type: SdlTypeView,
}

impl DeepView for SdlField {
    type V = SdlFieldView;

    open spec fn deep_view(&self) -> SdlFieldView {
        SdlFieldView {
            name: self.name@,
            description: self.description.deep_view(),
            field_type: self.field_type@,
        }
    }
}

impl View for SdlField {
    type V = SdlFieldView;

    open spec fn view(&self) -> SdlFieldView {
        self.deep_view()
    }
}

/// The definition of an object or of an interface.
#[derive(Debug)]
pub struct SdlCompositeType {
    pub name: String,
    pub description: Option<String>,
    pub implements_interfaces: Vec<String>,
    pub fields: Vec<SdlField>,
}

/// Model of an `SdlCompositeType`.
pub struct SdlCompositeTypeView {
    pub name: Seq<char>,
    pub description: Option<Seq<char>>,
    pub implements_interfaces: Seq<Seq<char>>,
    pub fields: Seq<SdlFieldView>,
}

impl DeepView for SdlCompositeType {
    type V = SdlCompositeTypeView;

    open spec fn deep_view(&self) -> SdlCompositeTypeView {
        SdlCompositeTypeView {
            name: self.name@,
            description: self.description.deep_view(),
            implements_interfaces: self.implements_interfaces.deep_view(),
            fields: self.fields.deep_view(),
        }
    }
}

impl View for SdlCompositeType {
    type V = SdlCompositeTypeView;

    open spec fn view(&self) -> SdlCompositeTypeView {
        self.deep_view()
    }
}

/// The definition of a union.
#[derive(Debug)]
pub struct SdlUnionType {
    pub name: String,
    pub description: Option<String>,
    pub types: Vec<String>,
}

/// Model of an `SdlUnionType`.
pub struct SdlUnionTypeView {
    pub name: Seq<char>,
    pub description: Option<Seq<char>>,
    pub types: Seq<Seq<char>>,
}

impl DeepView for SdlUnionType {
    type V = SdlUnionTypeView;

    open spec fn deep_view(&self) -> SdlUnionTypeView {
        SdlUnionTypeView {
            name: self.name@,
            description: self.description.deep_view(),
            types: self.types.deep_view(),
        }
    }
}

impl View for SdlUnionType {
    type V = SdlUnionTypeView;

    open spec fn view(&self) -> SdlUnionTypeView {
        self.deep_view()
    }
}

/// The definition of an enum: the names of its values in order.
#[derive(Debug)]
pub struct SdlEnumType {
    pub name: String,
    pub description: Option<String>,
    pub values: Vec<String>,
}

/// Model of an `SdlEnumType`.
pub struct SdlEnumTypeView {
    pub name: Seq<char>,
    pub description: Option<Seq<char>>,
    pub values: Seq<Seq<char>>,
}

impl DeepView for SdlEnumType {
    type V = SdlEnumTypeView;

    open spec fn deep_view(&self) -> SdlEnumTypeView {
        SdlEnumTypeView {
            name: self.name@,
            description: self.description.deep_view(),
            values: self.values.deep_view(),
        }
    }
}

impl View for SdlEnumType {
    type V = SdlEnumTypeView;

    open spec fn view(&self) -> SdlEnumTypeView {
        self.deep_view()
    }
}

/// One definition of a document.
#[derive(Debug)]
pub enum SdlDefinition {
    /// A scalar, by name.
    Scalar(String),
    Object(SdlCompositeType),
    Interface(SdlCompositeType),
    Union(SdlUnionType),
    Enum(SdlEnumType),
    /// An input object, by name.
    InputObject(String),
    /// The schema definition.
    Schema,
    /// An extension of a type.
    TypeExtension,
    /// The definition of a directive.
    Directive,
}

/// Model of an `SdlDefinition`.
pub enum SdlDefinitionView {
    Scalar(Seq<char>),
    Object(SdlCompositeTypeView),
    Interface(SdlCompositeTypeView),
    Union(SdlUnionTypeView),
    Enum(SdlEnumTypeView),
    InputObject(Seq<char>),
    Schema,
    TypeExtension,
    Directive,
}

impl DeepView for SdlDefinition {
    type V = SdlDefinitionView;

    open spec fn deep_view(&self) -> SdlDefinitionView {
        match self {
            SdlDefinition::Scalar(name) => SdlDefinitionView::Scalar(name@),
            SdlDefinition::Object(object) => SdlDefinitionView::Object(object@),
            SdlDefinition::Interface(interface) => SdlDefinitionView::Interface(interface@),
            SdlDefinition::Union(union_def) => SdlDefinitionView::Union(union_def@),
            SdlDefinition::Enum(enum_def) => SdlDefinitionView::Enum(enum_def@),
            SdlDefinition::InputObject(name) => SdlDefinitionView::InputObject(name@),
            SdlDefinition::Schema => SdlDefinitionView::Schema,
            SdlDefinition::TypeExtension => SdlDefinitionView::TypeExtension,
            SdlDefinition::Directive => SdlDefinitionView::Directive,
        }
    }
}

impl View for SdlDefinition {
    type V = SdlDefinitionView;

    open spec fn view(&self) -> SdlDefinitionView {
        self.deep_view()
    }
}

/// A schema document: its definitions in order.
#[derive(Debug)]
pub struct SdlDocument {
    pub definitions: Vec<SdlDefinition>,
}

/// What a field type of a document resolves to: its base type, whether it
/// is nullable, and whether it is a list. A name is nullable and no list;
/// brackets make a list of what they hold and keep its nullability; `!`
/// makes what it follows non-nullable.
pub open spec fn resolve_sdl_type(field_type: SdlTypeView) -> (FieldTypeView, bool, bool)
    decreases field_type,
{
    match field_type {
        SdlTypeView::NamedType(name) => (named_type(name), true, false),
        SdlTypeView::ListType(inner) => (
            resolve_sdl_type(*inner).0,
            resolve_sdl_type(*inner).1,
            true,
        ),
        SdlTypeView::NonNullType(inner) => (
            resolve_sdl_type(*inner).0,
            false,
            resolve_sdl_type(*inner).2,
        ),
    }
}

/// The normalized form of a field of a document.
pub open spec fn normalize_sdl_field(field: SdlFieldView) -> ParsedFieldView {
    ParsedFieldView {
        name: field.name,
        field_type: resolve_sdl_type(field.field_type).0,
        description: field.description,
        is_nullable: resolve_sdl_type(field.field_type).1,
        is_list: resolve_sdl_type(field.field_type).2,
    }
}

/// The normalized form of an object or interface of a document.
pub open spec fn normalize_sdl_composite(
    kind: TypeKind,
    definition: SdlCompositeTypeView,
) -> ParsedTypeView {
    ParsedTypeView {
        name: definition.name,
        kind,
        fields: Seq::new(
            definition.fields.len(),
            |i: int| normalize_sdl_field(definition.fields[i]),
        ),
        description: definition.description,
        interfaces: definition.implements_interfaces,
        union_members: Seq::empty(),
    }
}

/// The normalized form of a union of a document.
pub open spec fn normalize_sdl_union(definition: SdlUnionTypeView) -> ParsedTypeView {
    ParsedTypeView {
        name: definition.name,
        kind: TypeKind::Union,
        fields: Seq::empty(),
        description: definition.description,
        interfaces: Seq::empty(),
        union_members: definition.types,
    }
}

/// The normalized form of an enum of a document.
pub open spec fn normalize_sdl_enum(definition: SdlEnumTypeView) -> ParsedEnumView {
    ParsedEnumView {
        name: definition.name,
        values: definition.values,
        description: definition.description,
    }
}

/// The schema after one more definition is taken in. A scalar is added
/// unless it is there; input objects, type extensions, and the definitions
/// of the schema and of directives change nothing.
pub open spec fn take_definition(
    schema: ParsedSchemaView,
    definition: SdlDefinitionView,
) -> ParsedSchemaView {
    match definition {
        SdlDefinitionView::Object(object) => ParsedSchemaView {
            types: upsert(
                schema.types,
                object.name,
                normalize_sdl_composite(TypeKind::Object, object),
            ),
            ..schema
        },
        SdlDefinitionView::Interface(interface) => ParsedSchemaView {
            types: upsert(
                schema.types,
                interface.name,
                normalize_sdl_composite(TypeKind::Interface, interface),
            ),
            ..schema
        },
        SdlDefinitionView::Union(union_def) => ParsedSchemaView {
            types: upsert(schema.types, union_def.name, normalize_sdl_union(union_def)),
            ..schema
        },
        SdlDefinitionView::Enum(enum_def) => ParsedSchemaView {
            enums: upsert(schema.enums, enum_def.name, normalize_sdl_enum(enum_def)),
            ..schema
        },
        SdlDefinitionView::Scalar(name) => ParsedSchemaView {
            scalars: with_scalar(schema.scalars, name),
            ..schema
        },
        _ => schema,
    }
}

/// The schema after the first `n` definitions are taken in.
pub open spec fn take_definitions(definitions: Seq<SdlDefinitionView>, n: nat) -> ParsedSchemaView
    decreases n,
{
    if n == 0 {
        crate::parser::empty_schema()
    } else {
        take_definition(take_definitions(definitions, (n - 1) as nat), definitions[n - 1])
    }
}

/// The normalized schema of a document.
pub open spec fn normalize_document(definitions: Seq<SdlDefinitionView>) -> ParsedSchemaView {
    take_definitions(definitions, definitions.len())
}

/// Every schema that a document normalizes to is in normal form.
pub proof fn lemma_normalized_document_is_normal(definitions: Seq<SdlDefinitionView>, n: nat)
    requires
        n <= definitions.len(),
    ensures
        is_normal(take_definitions(definitions, n)),
    decreases n,
{
    if n > 0 {
        lemma_normalized_document_is_normal(definitions, (n - 1) as nat);
        let before = take_definitions(definitions, (n - 1) as nat);
        match definitions[n - 1] {
            SdlDefinitionView::Object(object) => {
                lemma_type_keeps_normal(before, normalize_sdl_composite(TypeKind::Object, object));
            },
            SdlDefinitionView::Interface(interface) => {
                lemma_type_keeps_normal(
                    before,
                    normalize_sdl_composite(TypeKind::Interface, interface),
                );
            },
            SdlDefinitionView::Union(union_def) => {
                lemma_type_keeps_normal(before, normalize_sdl_union(union_def));
            },
            SdlDefinitionView::Enum(enum_def) => {
                lemma_enum_keeps_normal(before, normalize_sdl_enum(enum_def));
            },
            SdlDefinitionView::Scalar(name) => {
                lemma_scalar_keeps_normal(before, name);
            },
            _ => {},
        }
    }
}

impl GraphQLParser {
    /// Resolves a field type of a document.
    pub fn parse_sdl_type(&self, field_type: &SdlType) -> (resolved: (FieldType, bool, bool))
        ensures
            resolved.deep_view() == resolve_sdl_type(field_type@),
        decreases field_type,
    {
        match field_type {
            SdlType::NamedType(name) => {
                let base = if is_builtin_name(name.as_str()) {
                    FieldType::Scalar(name.clone())
                } else {
                    FieldType::Reference(name.clone())
                };
                (base, true, false)
            },
            SdlType::ListType(inner_type) => {
                let (base, is_nullable, _) = self.parse_sdl_type(inner_type);
                (base, is_nullable, true)
            },
            SdlType::NonNullType(inner_type) => {
                let (base, _, is_list) = self.parse_sdl_type(inner_type);
                (base, false, is_list)
            },
        }
    }

    /// Normalizes a field of a document.
    pub fn parse_sdl_field(&self, field: &SdlField) -> (parsed: ParsedField)
        ensures
            parsed@ == normalize_sdl_field(field@),
    {
        let (field_type, is_nullable, is_list) = self.parse_sdl_type(&field.field_type);
        ParsedField {
            name: field.name.clone(),
            field_type,
            description: field.description.clone(),
            is_nullable,
            is_list,
        }
    }

    /// Normalizes the fields of an object or interface of a document.
    fn parse_sdl_fields(&self, fields: &Vec<SdlField>) -> (parsed: Vec<ParsedField>)
        ensures
            parsed.deep_view() == Seq::new(
                fields@.len(),
                |i: int| normalize_sdl_field(fields.deep_view()[i]),
            ),
    {
        let mut parsed: Vec<ParsedField> = Vec::new();
        let n: usize = fields.len();
        let mut i: usize = 0;
        while i < n
            invariant
                i <= n,
                n == fields@.len(),
                parsed.deep_view() == Seq::new(
                    i as nat,
                    |k: int| normalize_sdl_field(fields.deep_view()[k]),
                ),
            decreases n - i,
        {
            let ghost before = parsed.deep_view();
            let field = self.parse_sdl_field(&fields[i]);
            parsed.push(field);
            assert(parsed.deep_view() =~= before.push(field@));
            i = i + 1;
        }
        parsed
    }

    /// Normalizes an object of a document.
    pub fn parse_sdl_object_type(&self, obj: &SdlCompositeType) -> (parsed: ParsedType)
        ensures
            parsed@ == normalize_sdl_composite(TypeKind::Object, obj@),
    {
        let union_members: Vec<String> = Vec::new();
        assert(union_members.deep_view() =~= Seq::<Seq<char>>::empty());
        ParsedType {
            name: obj.name.clone(),
            kind: TypeKind::Object,
            fields: self.parse_sdl_fields(&obj.fields),
            description: obj.description.clone(),
            interfaces: clone_strings(&obj.implements_interfaces),
            union_members,
        }
    }

    /// Normalizes an interface of a document.
    pub fn parse_sdl_interface_type(&self, interface: &SdlCompositeType) -> (parsed: ParsedType)
        ensures
            parsed@ == normalize_sdl_composite(TypeKind::Interface, interface@),
    {
        let union_members: Vec<String> = Vec::new();
        assert(union_members.deep_view() =~= Seq::<Seq<char>>::empty());
        ParsedType {
            name: interface.name.clone(),
            kind: TypeKind::Interface,
            fields: self.parse_sdl_fields(&interface.fields),
            description: interface.description.clone(),
            interfaces: clone_strings(&interface.implements_interfaces),
            union_members,
        }
    }

    /// Normalizes a union of a document.
    pub fn parse_sdl_union_type(&self, union_def: &SdlUnionType) -> (parsed: ParsedType)
        ensures
            parsed@ == normalize_sdl_union(union_def@),
    {
        let fields: Vec<ParsedField> = Vec::new();
        assert(fields.deep_view() =~= Seq::<ParsedFieldView>::empty());
        let interfaces: Vec<String> = Vec::new();
        assert(interfaces.deep_view() =~= Seq::<Seq<char>>::empty());
        ParsedType {
            name: union_def.name.clone(),
            kind: TypeKind::Union,
            fields,
            description: union_def.description.clone(),
            interfaces,
            union_members: clone_strings(&union_def.types),
        }
    }

    /// Normalizes an enum of a document.
    pub fn parse_sdl_enum_type(&self, enum_def: &SdlEnumType) -> (parsed: ParsedEnum)
        ensures
            parsed@ == normalize_sdl_enum(enum_def@),
    {
        ParsedEnum {
            name: enum_def.name.clone(),
            values: clone_strings(&enum_def.values),
            description: enum_def.description.clone(),
        }
    }

    /// Normalizes a schema document. A later definition replaces an earlier
    /// one of the same name, where that one stands.
    pub fn parse_sdl_document(&self, document: &SdlDocument) -> (parsed: ParsedSchema)
        ensures
            parsed@ == normalize_document(document.definitions.deep_view()),
    {
        let mut types: NameMap<ParsedType> = NameMap::new();
        let mut enums: NameMap<ParsedEnum> = NameMap::new();
        let mut scalars: Vec<String> = Vec::new();
        assert(scalars.deep_view() =~= Seq::<Seq<char>>::empty());
        let definitions = &document.definitions;
        let n: usize = definitions.len();
        let mut i: usize = 0;
        while i < n
            invariant
                i <= n,
                n == definitions@.len(),
                take_definitions(definitions.deep_view(), i as nat) == (ParsedSchemaView {
                    types: types@,
                    enums: enums@,
                    scalars: scalars.deep_view(),
                }),
            decreases n - i,
        {
            let definition = &definitions[i];
            assert(definitions.deep_view()[i as int] == definition@);
            match definition {
                SdlDefinition::Object(obj) => {
                    types.insert(obj.name.clone(), self.parse_sdl_object_type(obj));
                },
                SdlDefinition::Enum(enum_def) => {
                    enums.insert(enum_def.name.clone(), self.parse_sdl_enum_type(enum_def));
                },
                SdlDefinition::Scalar(name) => {
                    push_scalar(&mut scalars, name.as_str());
                },
                SdlDefinition::Interface(interface) => {
                    types.insert(interface.name.clone(), self.parse_sdl_interface_type(interface));
                },
                SdlDefinition::Union(union_def) => {
                    types.insert(union_def.name.clone(), self.parse_sdl_union_type(union_def));
                },
                _ => {},
            }
            i = i + 1;
        }
        ParsedSchema { types, enums, scalars }
    }
}

} // verus!
