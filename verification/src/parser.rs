//! The normalized schema model and the normalizer that builds it from an
//! introspection result.

use vstd::prelude::*;
use crate::model::agrees;
use crate::generator::is_builtin_scalar;
use crate::introspection::{
    collect_reference_names, or_empty, reference_names, Field, FieldView, Schema, SchemaView, Type, TypeRef, TypeRefView,
    TypeView,
};
use crate::name_map::{
    has_name, lemma_position_of, lemma_upsert_distinct, names_distinct, position_of, upsert,
    Entries, NameMap,
};
use crate::text::{clone_strings, starts_with, str_eq};

verus! {

/// What a normalized type is.
#[derive(Clone, Copy, Debug, PartialEq, Eq, Structural)]
pub enum TypeKind {
    Object,
    Interface,
    Union,
}

/// The base type of a field, after its wrappers are taken off.
#[derive(Debug, Clone)]
pub enum FieldType {
    /// A scalar, by name.
    Scalar(String),
    /// Another type of the schema, by name.
    Reference(String),
    /// An enum of the schema, by name.
    Enum(String),
}

/// Model of a `FieldType`.
pub enum FieldTypeView {
    Scalar(Seq<char>),
    Reference(Seq<char>),
    Enum(Seq<char>),
}

impl DeepView for FieldType {
    type V = FieldTypeView;

    open spec fn deep_view(&self) -> FieldTypeView {
        match self {
            FieldType::Scalar(name) => FieldTypeView::Scalar(name@),
            FieldType::Reference(name) => FieldTypeView::Reference(name@),
            FieldType::Enum(name) => FieldTypeView::Enum(name@),
        }
    }
}

impl View for FieldType {
    type V = FieldTypeView;

    open spec fn view(&self) -> FieldTypeView {
        self.deep_view()
    }
}

/// A field of a normalized type.
#[derive(Debug, Clone)]
pub struct ParsedField {
    pub name: String,
    pub field_type: FieldType,
    pub description: Option<String>,
    pub is_nullable: bool,
    pub is_list: bool,
}

/// Model of a `ParsedField`.
pub struct ParsedFieldView {
    pub name: Seq<char>,
    pub field_type: FieldTypeView,
    pub description: Option<Seq<char>>,
    pub is_nullable: bool,
    pub is_list: bool,
}

impl DeepView for ParsedField {
    type V = ParsedFieldView;

    open spec fn deep_view(&self) -> ParsedFieldView {
        ParsedFieldView {
            name: self.name@,
            field_type: self.field_type@,
            description: self.description.deep_view(),
            is_nullable: self.is_nullable,
            is_list: self.is_list,
        }
    }
}

impl View for ParsedField {
    type V = ParsedFieldView;

    open spec fn view(&self) -> ParsedFieldView {
        self.deep_view()
    }
}

/// A normalized object, interface or union. A union has members and no
/// fields; the others have fields and no members.
#[derive(Debug, Clone)]
pub struct ParsedType {
    pub name: String,
    pub kind: TypeKind,
    pub fields: Vec<ParsedField>,
    pub description: Option<String>,
    pub interfaces: Vec<String>,
    pub union_members: Vec<String>,
}

/// Model of a `ParsedType`.
pub struct ParsedTypeView {
    pub name: Seq<char>,
    pub kind: TypeKind,
    pub fields: Seq<ParsedFieldView>,
    pub description: Option<Seq<char>>,
    pub interfaces: Seq<Seq<char>>,
    pub union_members: Seq<Seq<char>>,
}

impl DeepView for ParsedType {
    type V = ParsedTypeView;

    open spec fn deep_view(&self) -> ParsedTypeView {
        ParsedTypeView {
            name: self.name@,
            kind: self.kind,
            fields: self.fields.deep_view(),
            description: self.description.deep_view(),
            interfaces: self.interfaces.deep_view(),
            union_members: self.union_members.deep_view(),
        }
    }
}

impl View for ParsedType {
    type V = ParsedTypeView;

    open spec fn view(&self) -> ParsedTypeView {
        self.deep_view()
    }
}

/// A normalized enum: its values in declaration order.
#[derive(Debug, Clone)]
pub struct ParsedEnum {
    pub name: String,
    pub values: Vec<String>,
    pub description: Option<String>,
}

/// Model of a `ParsedEnum`.
pub struct ParsedEnumView {
    pub name: Seq<char>,
    pub values: Seq<Seq<char>>,
    pub description: Option<Seq<char>>,
}

impl DeepView for ParsedEnum {
    type V = ParsedEnumView;

    open spec fn deep_view(&self) -> ParsedEnumView {
        ParsedEnumView {
            name: self.name@,
            values: self.values.deep_view(),
            description: self.description.deep_view(),
        }
    }
}

impl View for ParsedEnum {
    type V = ParsedEnumView;

    open spec fn view(&self) -> ParsedEnumView {
        self.deep_view()
    }
}

/// The normalized schema: types and enums by name, in the order in which the
/// names first appeared, and the names of the scalars.
#[derive(Debug, Clone)]
pub struct ParsedSchema {
    pub types: NameMap<ParsedType>,
    pub enums: NameMap<ParsedEnum>,
    pub scalars: Vec<String>,
}

/// Model of a `ParsedSchema`.
pub struct ParsedSchemaView {
    pub types: Entries<ParsedTypeView>,
    pub enums: Entries<ParsedEnumView>,
    pub scalars: Seq<Seq<char>>,
}

impl DeepView for ParsedSchema {
    type V = ParsedSchemaView;

    open spec fn deep_view(&self) -> ParsedSchemaView {
        ParsedSchemaView {
            types: self.types@,
            enums: self.enums@,
            scalars: self.scalars.deep_view(),
        }
    }
}

impl View for ParsedSchema {
    type V = ParsedSchemaView;

    open spec fn view(&self) -> ParsedSchemaView {
        self.deep_view()
    }
}

/// Why an introspection result could not be normalized.
#[derive(Debug)]
pub enum SchemaError {
    /// The type reference of a field has a wrapper without an inner type, or
    /// ends in a type without a name.
    UnresolvedFieldType {
        /// The type that owns the field.
        owner: String,
        /// The field.
        field: String,
    },
}

/// Model of a `SchemaError`.
pub enum SchemaErrorView {
    UnresolvedFieldType { owner: Seq<char>, field: Seq<char> },
}

impl DeepView for SchemaError {
    type V = SchemaErrorView;

    open spec fn deep_view(&self) -> SchemaErrorView {
        match self {
            SchemaError::UnresolvedFieldType { owner, field } => {
                SchemaErrorView::UnresolvedFieldType { owner: owner@, field: field@ }
            },
        }
    }
}

impl View for SchemaError {
    type V = SchemaErrorView;

    open spec fn view(&self) -> SchemaErrorView {
        self.deep_view()
    }
}

/// The text of an error, with the type and field that it is about.
pub open spec fn error_message(error: SchemaErrorView) -> Seq<char> {
    match error {
        SchemaErrorView::UnresolvedFieldType { owner, field } => {
            "Malformed introspection result: the type of field '"@ + field + "' of type '"@
                + owner + "' cannot be resolved"@
        },
    }
}

impl SchemaError {
    /// The text of the error, with the type and field that it is about.
    pub fn message(&self) -> (text: String)
        ensures
            text@ == error_message(self@),
    {
        match self {
            SchemaError::UnresolvedFieldType { owner, field } => {
                let mut text = String::from_str(
                    "Malformed introspection result: the type of field '",
                );
                text.append(field.as_str());
                text.append("' of type '");
                text.append(owner.as_str());
                text.append("' cannot be resolved");
                text
            },
        }
    }
}

/// The base type that a name stands for: a scalar if it is built in, else a
/// reference to a type of the schema.
pub open spec fn named_type(name: Seq<char>) -> FieldTypeView {
    if is_builtin_scalar(name) {
        FieldTypeView::Scalar(name)
    } else {
        FieldTypeView::Reference(name)
    }
}

/// What a type reference resolves to: its base type, whether it is nullable,
/// and whether it is a list. `NonNull` makes the inner type non-nullable,
/// `List` makes it a list, and a name is nullable and no list. A wrapper
/// without an inner type, or an end without a name, resolves to nothing.
pub open spec fn resolve(type_ref: TypeRefView) -> Option<(FieldTypeView, bool, bool)>
    decreases type_ref,
{
    match type_ref.kind {
        Some(crate::introspection::TypeKind::NonNull) => match type_ref.of_type {
            Some(inner) => match resolve(*inner) {
                Some((base, _, is_list)) => Some((base, false, is_list)),
                None => None,
            },
            None => None,
        },
        Some(crate::introspection::TypeKind::List) => match type_ref.of_type {
            Some(inner) => match resolve(*inner) {
                Some((base, is_nullable, _)) => Some((base, is_nullable, true)),
                None => None,
            },
            None => None,
        },
        _ => match type_ref.name {
            Some(name) => Some((named_type(name), true, false)),
            None => None,
        },
    }
}

/// Whether the link is a wrapper.
pub open spec fn is_wrapper(type_ref: TypeRefView) -> bool {
    type_ref.kind == Some(crate::introspection::TypeKind::NonNull) || type_ref.kind == Some(
        crate::introspection::TypeKind::List,
    )
}

/// Whether a wrapper of kind `kind` occurs anywhere in the chain.
pub open spec fn has_wrapper(type_ref: TypeRefView, kind: crate::introspection::TypeKind) -> bool
    decreases type_ref,
{
    is_wrapper(type_ref) && (type_ref.kind == Some(kind) || match type_ref.of_type {
        Some(inner) => has_wrapper(*inner, kind),
        None => false,
    })
}

/// The name at the end of the chain, if every wrapper has an inner type and
/// the end has a name.
pub open spec fn named_end(type_ref: TypeRefView) -> Option<Seq<char>>
    decreases type_ref,
{
    if is_wrapper(type_ref) {
        match type_ref.of_type {
            Some(inner) => named_end(*inner),
            None => None,
        }
    } else {
        type_ref.name
    }
}

/// Resolving loses nothing: a chain resolves exactly when it is complete,
/// and then to the type named at its end, non-nullable exactly when a
/// `NonNull` wrapper occurs in it, and a list exactly when a `List` wrapper
/// occurs in it.
pub proof fn lemma_resolve_keeps_wrappers(type_ref: TypeRefView)
    ensures
        resolve(type_ref) == match named_end(type_ref) {
            Some(name) => Some(
                (
                    named_type(name),
                    !has_wrapper(type_ref, crate::introspection::TypeKind::NonNull),
                    has_wrapper(type_ref, crate::introspection::TypeKind::List),
                ),
            ),
            None => None,
        },
    decreases type_ref,
{
    if is_wrapper(type_ref) {
        match type_ref.of_type {
            Some(inner) => {
                lemma_resolve_keeps_wrappers(*inner);
            },
            None => {},
        }
    }
}

/// The normalized form of a field of the type `owner`.
pub open spec fn normalize_field(owner: Seq<char>, field: FieldView) -> Result<
    ParsedFieldView,
    SchemaErrorView,
> {
    match resolve(field.type_) {
        Some((base, is_nullable, is_list)) => Ok(
            ParsedFieldView {
                name: field.name,
                field_type: base,
                description: field.description,
                is_nullable,
                is_list,
            },
        ),
        None => Err(SchemaErrorView::UnresolvedFieldType { owner, field: field.name }),
    }
}

/// The normalized forms of the fields of the type `owner`, in order, or the
/// error of the first field that has one.
pub open spec fn normalize_fields(owner: Seq<char>, fields: Seq<FieldView>) -> Result<
    Seq<ParsedFieldView>,
    SchemaErrorView,
>
    decreases fields.len(),
{
    if fields.len() == 0 {
        Ok(Seq::empty())
    } else {
        match normalize_fields(owner, fields.drop_last()) {
            Ok(done) => match normalize_field(owner, fields.last()) {
                Ok(field) => Ok(done.push(field)),
                Err(error) => Err(error),
            },
            Err(error) => Err(error),
        }
    }
}

/// The normalized form of an object or interface called `name`.
pub open spec fn normalize_composite(name: Seq<char>, kind: TypeKind, raw: TypeView) -> Result<
    ParsedTypeView,
    SchemaErrorView,
> {
    match normalize_fields(name, or_empty(raw.fields)) {
        Ok(fields) => Ok(
            ParsedTypeView {
                name,
                kind,
                fields,
                description: raw.description,
                interfaces: reference_names(or_empty(raw.interfaces)),
                union_members: Seq::empty(),
            },
        ),
        Err(error) => Err(error),
    }
}

/// The normalized form of a union called `name`: members and no fields.
pub open spec fn normalize_union(name: Seq<char>, raw: TypeView) -> ParsedTypeView {
    ParsedTypeView {
        name,
        kind: TypeKind::Union,
        fields: Seq::empty(),
        description: raw.description,
        interfaces: Seq::empty(),
        union_members: reference_names(or_empty(raw.possible_types)),
    }
}

/// The normalized form of an enum called `name`: the names of its values in
/// order.
pub open spec fn normalize_enum(name: Seq<char>, raw: TypeView) -> ParsedEnumView {
    ParsedEnumView {
        name,
        values: Seq::new(
            or_empty(raw.enum_values).len(),
            |i: int| or_empty(raw.enum_values)[i].name,
        ),
        description: raw.description,
    }
}

/// `scalars` with `name` in it: added at the end unless it is there already.
pub open spec fn with_scalar(scalars: Seq<Seq<char>>, name: Seq<char>) -> Seq<Seq<char>> {
    if scalars.contains(name) {
        scalars
    } else {
        scalars.push(name)
    }
}

/// Whether a type of this name is kept out of the types and enums: it is an
/// introspection type or carries the name of a built-in scalar.
pub open spec fn is_reserved_name(name: Seq<char>) -> bool {
    "__"@.is_prefix_of(name) || is_builtin_scalar(name)
}

/// The schema after one more introspected type is taken in.
pub open spec fn normalize_step(schema: ParsedSchemaView, raw: TypeView) -> Result<
    ParsedSchemaView,
    SchemaErrorView,
> {
    match raw.name {
        None => Ok(schema),
        Some(name) => if is_reserved_name(name) {
            if raw.kind == crate::introspection::TypeKind::Scalar && !"__"@.is_prefix_of(name) {
                Ok(ParsedSchemaView { scalars: with_scalar(schema.scalars, name), ..schema })
            } else {
                Ok(schema)
            }
        } else {
            match raw.kind {
                crate::introspection::TypeKind::Object => match normalize_composite(
                    name,
                    TypeKind::Object,
                    raw,
                ) {
                    Ok(parsed) => Ok(
                        ParsedSchemaView { types: upsert(schema.types, name, parsed), ..schema },
                    ),
                    Err(error) => Err(error),
                },
                crate::introspection::TypeKind::Interface => match normalize_composite(
                    name,
                    TypeKind::Interface,
                    raw,
                ) {
                    Ok(parsed) => Ok(
                        ParsedSchemaView { types: upsert(schema.types, name, parsed), ..schema },
                    ),
                    Err(error) => Err(error),
                },
                crate::introspection::TypeKind::Union => Ok(
                    ParsedSchemaView {
                        types: upsert(schema.types, name, normalize_union(name, raw)),
                        ..schema
                    },
                ),
                crate::introspection::TypeKind::Enum => Ok(
                    ParsedSchemaView {
                        enums: upsert(schema.enums, name, normalize_enum(name, raw)),
                        ..schema
                    },
                ),
                crate::introspection::TypeKind::Scalar => Ok(
                    ParsedSchemaView { scalars: with_scalar(schema.scalars, name), ..schema },
                ),
                _ => Ok(schema),
            }
        },
    }
}

/// The schema without any type.
pub open spec fn empty_schema() -> ParsedSchemaView {
    ParsedSchemaView { types: Seq::empty(), enums: Seq::empty(), scalars: Seq::empty() }
}

/// The schema after the first `n` introspected types are taken in, or the
/// error of the first type that has one.
pub open spec fn normalize_types(types: Seq<TypeView>, n: nat) -> Result<
    ParsedSchemaView,
    SchemaErrorView,
>
    decreases n,
{
    if n == 0 {
        Ok(empty_schema())
    } else {
        match normalize_types(types, (n - 1) as nat) {
            Ok(schema) => normalize_step(schema, types[n - 1]),
            Err(error) => Err(error),
        }
    }
}

/// The normalized schema of an introspection result.
pub open spec fn normalize(schema: SchemaView) -> Result<ParsedSchemaView, SchemaErrorView> {
    normalize_types(schema.types, schema.types.len())
}

/// The normalizer.
#[derive(Clone, Copy, Debug)]
pub struct GraphQLParser;

impl Default for GraphQLParser {
    fn default() -> Self {
        GraphQLParser::new()
    }
}

impl GraphQLParser {
    /// Makes the normalizer.
    pub fn new() -> Self {
        GraphQLParser
    }

    /// Resolves a type reference to its base type, its nullability and its
    /// listness.
    pub fn parse_type_ref(&self, type_ref: &TypeRef) -> (resolved: Option<
        (FieldType, bool, bool),
    >)
        ensures
            resolved.deep_view() == resolve(type_ref@),
        decreases type_ref,
    {
        match type_ref.kind {
            Some(crate::introspection::TypeKind::NonNull) => {
                match &type_ref.of_type {
                    Some(of_type) => match self.parse_type_ref(of_type) {
                        Some((field_type, _, is_list)) => Some((field_type, false, is_list)),
                        None => None,
                    },
                    None => None,
                }
            },
            Some(crate::introspection::TypeKind::List) => {
                match &type_ref.of_type {
                    Some(of_type) => match self.parse_type_ref(of_type) {
                        Some((field_type, is_nullable, _)) => Some((field_type, is_nullable, true)),
                        None => None,
                    },
                    None => None,
                }
            },
            _ => {
                match &type_ref.name {
                    Some(name) => {
                        let field_type = if is_builtin_name(name.as_str()) {
                            FieldType::Scalar(name.clone())
                        } else {
                            FieldType::Reference(name.clone())
                        };
                        Some((field_type, true, false))
                    },
                    None => None,
                }
            },
        }
    }

    /// Normalizes a field of the type `owner`.
    pub fn parse_field(&self, owner: &str, field: &Field) -> (parsed: Result<
        ParsedField,
        SchemaError,
    >)
        ensures
            agrees(parsed, normalize_field(owner@, field@)),
    {
        match self.parse_type_ref(&field.type_) {
            Some((field_type, is_nullable, is_list)) => Ok(
                ParsedField {
                    name: field.name.clone(),
                    field_type,
                    description: field.description.clone(),
                    is_nullable,
                    is_list,
                },
            ),
            None => Err(
                SchemaError::UnresolvedFieldType {
                    owner: String::from_str(owner),
                    field: field.name.clone(),
                },
            ),
        }
    }

    /// Normalizes the fields of the type `owner`, stopping at the first that
    /// cannot be resolved.
    fn parse_fields(&self, owner: &str, fields: &Option<Vec<Field>>) -> (parsed: Result<
        Vec<ParsedField>,
        SchemaError,
    >)
        ensures
            agrees(parsed, normalize_fields(owner@, or_empty(fields.deep_view()))),
    {
        let mut parsed: Vec<ParsedField> = Vec::new();
        match fields {
            Some(list) => {
                let n: usize = list.len();
                let mut i: usize = 0;
                assert(list.deep_view().take(0) =~= Seq::<FieldView>::empty());
                assert(parsed.deep_view() =~= Seq::<ParsedFieldView>::empty());
                while i < n
                    invariant
                        i <= n,
                        n == list@.len(),
                        or_empty(fields.deep_view()) == list.deep_view(),
                        normalize_fields(owner@, list.deep_view().take(i as int)) == Ok::<
                            Seq<ParsedFieldView>,
                            SchemaErrorView,
                        >(parsed.deep_view()),
                    decreases n - i,
                {
                    proof {
                        let all = list.deep_view();
                        assert(all.take(i + 1).drop_last() =~= all.take(i as int));
                        assert(all.take(i + 1).last() == list@[i as int]@);
                    }
                    let ghost before = parsed.deep_view();
                    match self.parse_field(owner, &list[i]) {
                        Ok(field) => {
                            parsed.push(field);
                            assert(parsed.deep_view() =~= before.push(field@));
                        },
                        Err(error) => {
                            proof {
                                let all = list.deep_view();
                                lemma_field_error_stays(owner@, all, i as nat, n as nat);
                                assert(all.take(n as int) =~= all);
                            }
                            return Err(error);
                        },
                    }
                    i = i + 1;
                }
                assert(list.deep_view().take(n as int) =~= list.deep_view());
                Ok(parsed)
            },
            None => {
                assert(parsed.deep_view() =~= Seq::<ParsedFieldView>::empty());
                Ok(parsed)
            },
        }
    }

    /// Normalizes an object called `name`.
    pub fn parse_object_type(&self, name: &str, type_def: &Type) -> (parsed: Result<
        ParsedType,
        SchemaError,
    >)
        ensures
            agrees(parsed, normalize_composite(name@, TypeKind::Object, type_def@)),
    {
        match self.parse_fields(name, &type_def.fields) {
            Ok(fields) => Ok(
                ParsedType {
                    name: String::from_str(name),
                    kind: TypeKind::Object,
                    fields,
                    description: type_def.description.clone(),
                    interfaces: collect_reference_names(&type_def.interfaces),
                    union_members: empty_names(),
                },
            ),
            Err(error) => Err(error),
        }
    }

    /// Normalizes an interface called `name`.
    pub fn parse_interface_type(&self, name: &str, type_def: &Type) -> (parsed: Result<
        ParsedType,
        SchemaError,
    >)
        ensures
            agrees(parsed, normalize_composite(name@, TypeKind::Interface, type_def@)),
    {
        match self.parse_fields(name, &type_def.fields) {
            Ok(fields) => Ok(
                ParsedType {
                    name: String::from_str(name),
                    kind: TypeKind::Interface,
                    fields,
                    description: type_def.description.clone(),
                    interfaces: collect_reference_names(&type_def.interfaces),
                    union_members: empty_names(),
                },
            ),
            Err(error) => Err(error),
        }
    }

    /// Normalizes a union called `name`.
    pub fn parse_union_type(&self, name: &str, type_def: &Type) -> (parsed: ParsedType)
        ensures
            parsed@ == normalize_union(name@, type_def@),
    {
        let fields: Vec<ParsedField> = Vec::new();
        assert(fields.deep_view() =~= Seq::<ParsedFieldView>::empty());
        ParsedType {
            name: String::from_str(name),
            kind: TypeKind::Union,
            fields,
            description: type_def.description.clone(),
            interfaces: empty_names(),
            union_members: collect_reference_names(&type_def.possible_types),
        }
    }

    /// Normalizes an enum called `name`.
    pub fn parse_enum_type(&self, name: &str, type_def: &Type) -> (parsed: ParsedEnum)
        ensures
            parsed@ == normalize_enum(name@, type_def@),
    {
        let mut values: Vec<String> = Vec::new();
        match &type_def.enum_values {
            Some(enum_values) => {
                let n: usize = enum_values.len();
                let mut i: usize = 0;
                while i < n
                    invariant
                        i <= n,
                        n == enum_values@.len(),
                        values.deep_view() == Seq::new(
                            i as nat,
                            |k: int| enum_values.deep_view()[k].name,
                        ),
                    decreases n - i,
                {
                    let ghost before = values.deep_view();
                    let value = enum_values[i].name.clone();
                    values.push(value);
                    assert(values.deep_view() =~= before.push(value@));
                    i = i + 1;
                }
            },
            None => {},
        }
        assert(values.deep_view() =~= normalize_enum(name@, type_def@).values);
        ParsedEnum {
            name: String::from_str(name),
            values,
            description: type_def.description.clone(),
        }
    }

    /// Normalizes an introspection result. Introspection types and
    /// built-in scalars are left out, input objects are dropped, and a field
    /// whose type cannot be resolved ends the run with an error that names it.
    pub fn parse_schema(&self, schema: Schema) -> (parsed: Result<ParsedSchema, SchemaError>)
        ensures
            agrees(parsed, normalize(schema@)),
    {
        let mut types: NameMap<ParsedType> = NameMap::new();
        let mut enums: NameMap<ParsedEnum> = NameMap::new();
        let mut scalars: Vec<String> = Vec::new();
        assert(scalars.deep_view() =~= Seq::<Seq<char>>::empty());
        let n: usize = schema.types.len();
        let mut i: usize = 0;
        while i < n
            invariant
                i <= n,
                n == schema.types@.len(),
                normalize_types(schema@.types, i as nat) == Ok::<
                    ParsedSchemaView,
                    SchemaErrorView,
                >(
                    ParsedSchemaView {
                        types: types@,
                        enums: enums@,
                        scalars: scalars.deep_view(),
                    },
                ),
            decreases n - i,
        {
            let type_def = &schema.types[i];
            assert(schema@.types[i as int] == type_def@);
            if let Some(name) = &type_def.name {
                let meta = starts_with(name.as_str(), "__");
                if meta || is_builtin_name(name.as_str()) {
                    if matches!(type_def.kind, crate::introspection::TypeKind::Scalar) && !meta {
                        push_scalar(&mut scalars, name.as_str());
                    }
                } else {
                    match type_def.kind {
                        crate::introspection::TypeKind::Object => {
                            match self.parse_object_type(name.as_str(), type_def) {
                                Ok(parsed_type) => {
                                    types.insert(name.clone(), parsed_type);
                                },
                                Err(error) => {
                                    proof {
                                        lemma_type_error_stays(schema@.types, i as nat, n as nat);
                                    }
                                    return Err(error);
                                },
                            }
                        },
                        crate::introspection::TypeKind::Interface => {
                            match self.parse_interface_type(name.as_str(), type_def) {
                                Ok(parsed_type) => {
                                    types.insert(name.clone(), parsed_type);
                                },
                                Err(error) => {
                                    proof {
                                        lemma_type_error_stays(schema@.types, i as nat, n as nat);
                                    }
                                    return Err(error);
                                },
                            }
                        },
                        crate::introspection::TypeKind::Union => {
                            let parsed_type = self.parse_union_type(name.as_str(), type_def);
                            types.insert(name.clone(), parsed_type);
                        },
                        crate::introspection::TypeKind::Enum => {
                            let parsed_enum = self.parse_enum_type(name.as_str(), type_def);
                            enums.insert(name.clone(), parsed_enum);
                        },
                        crate::introspection::TypeKind::Scalar => {
                            push_scalar(&mut scalars, name.as_str());
                        },
                        _ => {},
                    }
                }
            }
            i = i + 1;
        }
        Ok(ParsedSchema { types, enums, scalars })
    }
}

/// Normalizing keeps the fields of a type in their order: the normalized
/// list is as long as the introspected one, and each field is the normalized
/// form of the field at its place.
pub proof fn lemma_normalize_keeps_field_order(owner: Seq<char>, fields: Seq<FieldView>)
    ensures
        normalize_fields(owner, fields) matches Ok(parsed) ==> {
            &&& parsed.len() == fields.len()
            &&& forall|i: int|
                0 <= i < fields.len() ==> normalize_field(owner, fields[i]) == Ok::<
                    ParsedFieldView,
                    SchemaErrorView,
                >(#[trigger] parsed[i])
        },
    decreases fields.len(),
{
    if fields.len() > 0 {
        lemma_normalize_keeps_field_order(owner, fields.drop_last());
        if let Ok(parsed) = normalize_fields(owner, fields) {
            let done = normalize_fields(owner, fields.drop_last())->Ok_0;
            assert forall|i: int| 0 <= i < fields.len() implies normalize_field(owner, fields[i])
                == Ok::<ParsedFieldView, SchemaErrorView>(#[trigger] parsed[i]) by {
                if i < fields.len() - 1 {
                    assert(fields.drop_last()[i] == fields[i]);
                    assert(parsed[i] == done[i]);
                }
            }
        }
    }
}

/// Normalizing keeps the values of an enum in their order.
pub proof fn lemma_normalize_keeps_value_order(name: Seq<char>, raw: TypeView)
    ensures
        normalize_enum(name, raw).values.len() == or_empty(raw.enum_values).len(),
        forall|i: int|
            0 <= i < or_empty(raw.enum_values).len() ==> (#[trigger] normalize_enum(
                name,
                raw,
            ).values[i]) == or_empty(raw.enum_values)[i].name,
{
}

/// Normalizing is a function of the introspected types alone: two results
/// with the same types normalize to the same schema, whatever else they hold.
pub proof fn lemma_normalize_is_deterministic(first: SchemaView, second: SchemaView)
    requires
        first.types == second.types,
    ensures
        normalize(first) == normalize(second),
{
}

/// Whether a type has the shape of its kind: a union has members and no
/// fields or interfaces, the others have no members.
pub open spec fn has_shape_of_kind(parsed: ParsedTypeView) -> bool {
    if parsed.kind == TypeKind::Union {
        parsed.fields.len() == 0 && parsed.interfaces.len() == 0
    } else {
        parsed.union_members.len() == 0
    }
}

/// Whether a schema is in normal form: no two types and no two enums share
/// a name, every type and enum stands under its own name, every type has the
/// shape of its kind, and no scalar is named twice.
pub open spec fn is_normal(schema: ParsedSchemaView) -> bool {
    &&& names_distinct(schema.types)
    &&& names_distinct(schema.enums)
    &&& forall|i: int|
        0 <= i < schema.types.len() ==> (#[trigger] schema.types[i]).0 == schema.types[i].1.name
            && has_shape_of_kind(schema.types[i].1)
    &&& forall|i: int|
        0 <= i < schema.enums.len() ==> (#[trigger] schema.enums[i]).0 == schema.enums[i].1.name
    &&& schema.scalars.no_duplicates()
}

/// Binding a type under its own name keeps a schema in normal form.
pub proof fn lemma_type_keeps_normal(schema: ParsedSchemaView, parsed: ParsedTypeView)
    requires
        is_normal(schema),
        has_shape_of_kind(parsed),
    ensures
        is_normal(ParsedSchemaView { types: upsert(schema.types, parsed.name, parsed), ..schema }),
{
    lemma_upsert_distinct(schema.types, parsed.name, parsed);
    lemma_position_of(schema.types, parsed.name);
}

/// Binding an enum under its own name keeps a schema in normal form.
pub proof fn lemma_enum_keeps_normal(schema: ParsedSchemaView, parsed: ParsedEnumView)
    requires
        is_normal(schema),
    ensures
        is_normal(ParsedSchemaView { enums: upsert(schema.enums, parsed.name, parsed), ..schema }),
{
    lemma_upsert_distinct(schema.enums, parsed.name, parsed);
    lemma_position_of(schema.enums, parsed.name);
}

/// Adding a scalar keeps a schema in normal form.
pub proof fn lemma_scalar_keeps_normal(schema: ParsedSchemaView, name: Seq<char>)
    requires
        is_normal(schema),
    ensures
        is_normal(ParsedSchemaView { scalars: with_scalar(schema.scalars, name), ..schema }),
{
    if !schema.scalars.contains(name) {
        let after = schema.scalars.push(name);
        assert forall|i: int, j: int| 0 <= i < after.len() && 0 <= j < after.len() && i
            != j implies after[i] != after[j] by {
            if i < schema.scalars.len() && j < schema.scalars.len() {
                assert(schema.scalars[i] != schema.scalars[j]);
            } else if i < schema.scalars.len() {
                assert(schema.scalars.contains(schema.scalars[i]));
            } else {
                assert(schema.scalars.contains(schema.scalars[j]));
            }
        }
    }
}

/// Every schema that the normalizer yields is in normal form.
pub proof fn lemma_normalized_schema_is_normal(types: Seq<TypeView>, n: nat)
    requires
        n <= types.len(),
    ensures
        normalize_types(types, n) matches Ok(schema) ==> is_normal(schema),
    decreases n,
{
    if n > 0 {
        lemma_normalized_schema_is_normal(types, (n - 1) as nat);
        if let Ok(before) = normalize_types(types, (n - 1) as nat) {
            let raw = types[n - 1];
            if let Some(name) = raw.name {
                lemma_scalar_keeps_normal(before, name);
                lemma_enum_keeps_normal(before, normalize_enum(name, raw));
                lemma_type_keeps_normal(before, normalize_union(name, raw));
                if let Ok(parsed) = normalize_composite(name, TypeKind::Object, raw) {
                    lemma_type_keeps_normal(before, parsed);
                }
                if let Ok(parsed) = normalize_composite(name, TypeKind::Interface, raw) {
                    lemma_type_keeps_normal(before, parsed);
                }
            }
        }
    }
}

/// A field after its reference is held against the enums: a reference to an
/// enum becomes an enum, everything else stays.
pub open spec fn reclassify_field(
    field: ParsedFieldView,
    enums: Entries<ParsedEnumView>,
) -> ParsedFieldView {
    match field.field_type {
        FieldTypeView::Reference(name) => if has_name(enums, name) {
            ParsedFieldView { field_type: FieldTypeView::Enum(name), ..field }
        } else {
            field
        },
        _ => field,
    }
}

/// A type after the references of its fields are held against the enums.
pub open spec fn reclassify_type(
    parsed: ParsedTypeView,
    enums: Entries<ParsedEnumView>,
) -> ParsedTypeView {
    ParsedTypeView {
        fields: Seq::new(parsed.fields.len(), |i: int| reclassify_field(parsed.fields[i], enums)),
        ..parsed
    }
}

/// A schema after every reference to one of its enums has become an enum.
pub open spec fn reclassify(schema: ParsedSchemaView) -> ParsedSchemaView {
    ParsedSchemaView {
        types: Seq::new(
            schema.types.len(),
            |i: int| (schema.types[i].0, reclassify_type(schema.types[i].1, schema.enums)),
        ),
        ..schema
    }
}

impl GraphQLParser {
    /// Holds the reference of a field against the enums.
    fn reclassify_field(&self, field: &ParsedField, enums: &NameMap<ParsedEnum>) -> (reclassified:
        ParsedField)
        ensures
            reclassified@ == reclassify_field(field@, enums@),
    {
        let field_type = match &field.field_type {
            FieldType::Scalar(name) => FieldType::Scalar(name.clone()),
            FieldType::Reference(name) => {
                if enums.contains_key(name.as_str()) {
                    FieldType::Enum(name.clone())
                } else {
                    FieldType::Reference(name.clone())
                }
            },
            FieldType::Enum(name) => FieldType::Enum(name.clone()),
        };
        ParsedField {
            name: field.name.clone(),
            field_type,
            description: field.description.clone(),
            is_nullable: field.is_nullable,
            is_list: field.is_list,
        }
    }

    /// Holds the references of the fields of a type against the enums.
    fn reclassify_type(&self, parsed: &ParsedType, enums: &NameMap<ParsedEnum>) -> (reclassified:
        ParsedType)
        ensures
            reclassified@ == reclassify_type(parsed@, enums@),
    {
        let mut fields: Vec<ParsedField> = Vec::new();
        let n: usize = parsed.fields.len();
        let mut i: usize = 0;
        while i < n
            invariant
                i <= n,
                n == parsed.fields@.len(),
                fields.deep_view() == Seq::new(
                    i as nat,
                    |k: int| reclassify_field(parsed.fields.deep_view()[k], enums@),
                ),
            decreases n - i,
        {
            let ghost before = fields.deep_view();
            let field = self.reclassify_field(&parsed.fields[i], enums);
            fields.push(field);
            assert(fields.deep_view() =~= before.push(field@));
            i = i + 1;
        }
        assert(fields.deep_view() =~= reclassify_type(parsed@, enums@).fields);
        ParsedType {
            name: parsed.name.clone(),
            kind: parsed.kind,
            fields,
            description: parsed.description.clone(),
            interfaces: clone_strings(&parsed.interfaces),
            union_members: clone_strings(&parsed.union_members),
        }
    }

    /// Turns every reference to an enum of the schema into an enum. The
    /// normalizer leaves such references as they are, since an enum may be
    /// introspected after the types that refer to it.
    pub fn reclassify_enums(&self, schema: ParsedSchema) -> (reclassified: ParsedSchema)
        ensures
            reclassified@ == reclassify(schema@),
    {
        let mut types: NameMap<ParsedType> = NameMap::new();
        let n: usize = schema.types.len();
        let mut i: usize = 0;
        while i < n
            invariant
                i <= n,
                n == schema.types@.len(),
                types@ == Seq::new(
                    i as nat,
                    |k: int|
                        (schema.types@[k].0, reclassify_type(schema.types@[k].1, schema.enums@)),
                ),
            decreases n - i,
        {
            let name = schema.types.name_at(i);
            let parsed = self.reclassify_type(schema.types.value_at(i), &schema.enums);
            schema.types.names_are_distinct();
            proof {
                let before = types@;
                lemma_position_of(before, name@);
                if has_name(before, name@) {
                    let k = position_of(before, name@) as int;
                    assert(before[k].0 == schema.types@[k].0);
                    assert(schema.types@[k].0 != schema.types@[i as int].0);
                }
            }
            let ghost before = types@;
            types.insert(name.clone(), parsed);
            assert(types@ =~= before.push((name@, parsed@)));
            assert(types@ =~= Seq::new(
                (i + 1) as nat,
                |k: int| (schema.types@[k].0, reclassify_type(schema.types@[k].1, schema.enums@)),
            ));
            i = i + 1;
        }
        assert(types@ =~= reclassify(schema@).types);
        ParsedSchema { types, enums: schema.enums, scalars: schema.scalars }
    }
}

/// An empty list of names.
fn empty_names() -> (names: Vec<String>)
    ensures
        names.deep_view() == Seq::<Seq<char>>::empty(),
{
    let names: Vec<String> = Vec::new();
    assert(names.deep_view() =~= Seq::<Seq<char>>::empty());
    names
}

/// Adds `name` to `scalars` unless it is there already.
pub fn push_scalar(scalars: &mut Vec<String>, name: &str)
    ensures
        final(scalars).deep_view() == with_scalar(old(scalars).deep_view(), name@),
{
    let n: usize = scalars.len();
    let mut i: usize = 0;
    while i < n
        invariant
            i <= n,
            n == scalars@.len(),
            scalars == old(scalars),
            forall|k: int| 0 <= k < i ==> (#[trigger] scalars.deep_view()[k]) != name@,
        decreases n - i,
    {
        if str_eq(scalars[i].as_str(), name) {
            assert(scalars.deep_view()[i as int] == name@);
            return ;
        }
        i = i + 1;
    }
    let ghost before = scalars.deep_view();
    scalars.push(String::from_str(name));
    assert(scalars.deep_view() =~= before.push(name@));
}

/// Once a field has an error, the fields after it do not change it.
proof fn lemma_field_error_stays(owner: Seq<char>, fields: Seq<FieldView>, i: nat, n: nat)
    requires
        i < n <= fields.len(),
        normalize_fields(owner, fields.take(i as int)) is Ok,
        normalize_field(owner, fields[i as int]) is Err,
    ensures
        normalize_fields(owner, fields.take(n as int)) == Err::<
            Seq<ParsedFieldView>,
            SchemaErrorView,
        >(normalize_field(owner, fields[i as int])->Err_0),
    decreases n - i,
{
    assert(fields.take(n as int).drop_last() =~= fields.take(n - 1));
    assert(fields.take(n as int).last() == fields[n - 1]);
    if n > i + 1 {
        lemma_field_error_stays(owner, fields, i, (n - 1) as nat);
    }
}

/// Once a type has an error, the types after it do not change it.
proof fn lemma_type_error_stays(types: Seq<TypeView>, i: nat, n: nat)
    requires
        i < n <= types.len(),
        normalize_types(types, i + 1) is Err,
    ensures
        normalize_types(types, n) == normalize_types(types, i + 1),
    decreases n - i,
{
    if n > i + 1 {
        lemma_type_error_stays(types, i, (n - 1) as nat);
    }
}

/// Tells whether `name` is one of the five built-in scalars.
pub fn is_builtin_name(name: &str) -> (builtin: bool)
    ensures
        builtin == is_builtin_scalar(name@),
{
    str_eq(name, "ID") || str_eq(name, "String") || str_eq(name, "Int") || str_eq(name, "Float")
        || str_eq(name, "Boolean")
}

} // verus!
