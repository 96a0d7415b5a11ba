//! The introspection result as a GraphQL endpoint describes itself, and its
//! rendering as schema definition language.

use vstd::prelude::*;
use crate::text::{decimal, join, join_strings, starts_with, unsigned_decimal};

verus! {

/// The kind of an introspected type or of a link in a type reference.
#[derive(Clone, Copy, Debug, PartialEq, Eq, Structural)]
pub enum TypeKind {
    Scalar,
    Object,
    Interface,
    Union,
    Enum,
    InputObject,
    List,
    NonNull,
}

/// A reference to a type as a field carries it: a chain of `NonNull` and
/// `List` wrappers that ends in a named type.
#[derive(Debug)]
pub struct TypeRef {
    pub name: Option<String>,
    pub kind: Option<TypeKind>,
    pub of_type: Option<Box<TypeRef>>,
}

/// Model of a `TypeRef`.
pub struct TypeRefView {
    pub name: Option<Seq<char>>,
    pub kind: Option<TypeKind>,
    pub of_type: Option<Box<TypeRefView>>,
}

/// The model of a type reference, link by link.
pub open spec fn type_ref_view(type_ref: TypeRef) -> TypeRefView
    decreases type_ref,
{
    TypeRefView {
        name: type_ref.name.deep_view(),
        kind: type_ref.kind,
        of_type: match type_ref.of_type {
            Some(inner) => Some(Box::new(type_ref_view(*inner))),
            None => None,
        },
    }
}

impl DeepView for TypeRef {
    type V = TypeRefView;

    open spec fn deep_view(&self) -> TypeRefView {
        type_ref_view(*self)
    }
}

impl View for TypeRef {
    type V = TypeRefView;

    open spec fn view(&self) -> TypeRefView {
        self.deep_view()
    }
}

/// An argument of a field or directive, or a field of an input object.
#[derive(Debug)]
pub struct InputValue {
    pub name: String,
    pub description: Option<String>,
    pub type_: TypeRef,
    pub default_value: Option<String>,
}

/// Model of an `InputValue`.
pub struct InputValueView {
    pub name: Seq<char>,
    pub description: Option<Seq<char>>,
    pub type_: TypeRefView,
    pub default_value: Option<Seq<char>>,
}

impl DeepView for InputValue {
    type V = InputValueView;

    open spec fn deep_view(&self) -> InputValueView {
        InputValueView {
            name: self.name@,
            description: self.description.deep_view(),
            type_: self.type_@,
            default_value: self.default_value.deep_view(),
        }
    }
}

impl View for InputValue {
    type V = InputValueView;

    open spec fn view(&self) -> InputValueView {
        self.deep_view()
    }
}

/// A field of an introspected object or interface.
#[derive(Debug)]
pub struct Field {
    pub name: String,
    pub description: Option<String>,
    pub args: Vec<InputValue>,
    pub type_: TypeRef,
    pub is_deprecated: bool,
    pub deprecation_reason: Option<String>,
}

/// Model of a `Field`.
pub struct FieldView {
    pub name: Seq<char>,
    pub description: Option<Seq<char>>,
    pub args: Seq<InputValueView>,
    pub type_: TypeRefView,
    pub is_deprecated: bool,
    pub deprecation_reason: Option<Seq<char>>,
}

impl DeepView for Field {
    type V = FieldView;

    open spec fn deep_view(&self) -> FieldView {
        FieldView {
            name: self.name@,
            description: self.description.deep_view(),
            args: self.args.deep_view(),
            type_: self.type_@,
            is_deprecated: self.is_deprecated,
            deprecation_reason: self.deprecation_reason.deep_view(),
        }
    }
}

impl View for Field {
    type V = FieldView;

    open spec fn view(&self) -> FieldView {
        self.deep_view()
    }
}

/// A value of an introspected enum.
#[derive(Debug)]
pub struct EnumValue {
    pub name: String,
    pub description: Option<String>,
    pub is_deprecated: bool,
    pub deprecation_reason: Option<String>,
}

/// Model of an `EnumValue`.
pub struct EnumValueView {
    pub name: Seq<char>,
    pub description: Option<Seq<char>>,
    pub is_deprecated: bool,
    pub deprecation_reason: Option<Seq<char>>,
}

impl DeepView for EnumValue {
    type V = EnumValueView;

    open spec fn deep_view(&self) -> EnumValueView {
        EnumValueView {
            name: self.name@,
            description: self.description.deep_view(),
            is_deprecated: self.is_deprecated,
            deprecation_reason: self.deprecation_reason.deep_view(),
        }
    }
}

impl View for EnumValue {
    type V = EnumValueView;

    open spec fn view(&self) -> EnumValueView {
        self.deep_view()
    }
}

/// Where a directive may stand.
#[derive(Clone, Copy, Debug, PartialEq, Eq, Structural)]
pub enum DirectiveLocation {
    Query,
    Mutation,
    Subscription,
    Field,
    FragmentDefinition,
    FragmentSpread,
    InlineFragment,
    VariableDefinition,
    Schema,
    Scalar,
    Object,
    FieldDefinition,
    ArgumentDefinition,
    Interface,
    Union,
    Enum,
    EnumValue,
    InputObject,
    InputFieldDefinition,
}

/// An introspected directive.
#[derive(Debug)]
pub struct Directive {
    pub name: String,
    pub description: Option<String>,
    pub locations: Vec<DirectiveLocation>,
    pub args: Vec<InputValue>,
}

/// Model of a `Directive`.
pub struct DirectiveView {
    pub name: Seq<char>,
    pub description: Option<Seq<char>>,
    pub locations: Seq<DirectiveLocation>,
    pub args: Seq<InputValueView>,
}

impl DeepView for Directive {
    type V = DirectiveView;

    open spec fn deep_view(&self) -> DirectiveView {
        DirectiveView {
            name: self.name@,
            description: self.description.deep_view(),
            locations: self.locations@,
            args: self.args.deep_view(),
        }
    }
}

impl View for Directive {
    type V = DirectiveView;

    open spec fn view(&self) -> DirectiveView {
        self.deep_view()
    }
}

/// An introspected type. Which of the lists are present depends on the kind.
#[derive(Debug)]
pub struct Type {
    pub name: Option<String>,
    pub kind: TypeKind,
    pub description: Option<String>,
    pub fields: Option<Vec<Field>>,
    pub interfaces: Option<Vec<TypeRef>>,
    pub possible_types: Option<Vec<TypeRef>>,
    pub enum_values: Option<Vec<EnumValue>>,
    pub input_fields: Option<Vec<InputValue>>,
    pub of_type: Option<Box<TypeRef>>,
}

/// Model of a `Type`.
pub struct TypeView {
    pub name: Option<Seq<char>>,
    pub kind: TypeKind,
    pub description: Option<Seq<char>>,
    pub fields: Option<Seq<FieldView>>,
    pub interfaces: Option<Seq<TypeRefView>>,
    pub possible_types: Option<Seq<TypeRefView>>,
    pub enum_values: Option<Seq<EnumValueView>>,
    pub input_fields: Option<Seq<InputValueView>>,
    pub of_type: Option<TypeRefView>,
}

impl DeepView for Type {
    type V = TypeView;

    open spec fn deep_view(&self) -> TypeView {
        TypeView {
            name: self.name.deep_view(),
            kind: self.kind,
            description: self.description.deep_view(),
            fields: self.fields.deep_view(),
            interfaces: self.interfaces.deep_view(),
            possible_types: self.possible_types.deep_view(),
            enum_values: self.enum_values.deep_view(),
            input_fields: self.input_fields.deep_view(),
            of_type: self.of_type.deep_view(),
        }
    }
}

impl View for Type {
    type V = TypeView;

    open spec fn view(&self) -> TypeView {
        self.deep_view()
    }
}

/// The introspection result: the root operation types, every type, and the
/// directives.
#[derive(Debug)]
pub struct Schema {
    pub query_type: Option<TypeRef>,
    pub mutation_type: Option<TypeRef>,
    pub subscription_type: Option<TypeRef>,
    pub types: Vec<Type>,
    pub directives: Vec<Directive>,
}

/// Model of a `Schema`.
pub struct SchemaView {
    pub query_type: Option<TypeRefView>,
    pub mutation_type: Option<TypeRefView>,
    pub subscription_type: Option<TypeRefView>,
    pub types: Seq<TypeView>,
    pub directives: Seq<DirectiveView>,
}

impl DeepView for Schema {
    type V = SchemaView;

    open spec fn deep_view(&self) -> SchemaView {
        SchemaView {
            query_type: self.query_type.deep_view(),
            mutation_type: self.mutation_type.deep_view(),
            subscription_type: self.subscription_type.deep_view(),
            types: self.types.deep_view(),
            directives: self.directives.deep_view(),
        }
    }
}

impl View for Schema {
    type V = SchemaView;

    open spec fn view(&self) -> SchemaView {
        self.deep_view()
    }
}

/// The names of the named references among `refs`, in order.
pub open spec fn reference_names(refs: Seq<TypeRefView>) -> Seq<Seq<char>>
    decreases refs.len(),
{
    if refs.len() == 0 {
        Seq::empty()
    } else {
        match refs.last().name {
            Some(name) => reference_names(refs.drop_last()).push(name),
            None => reference_names(refs.drop_last()),
        }
    }
}

/// The list behind an optional list: empty if there is none.
pub open spec fn or_empty<T>(list: Option<Seq<T>>) -> Seq<T> {
    match list {
        Some(items) => items,
        None => Seq::empty(),
    }
}

/// The description of a type as a block string, or nothing.
pub open spec fn description_block(description: Option<Seq<char>>) -> Seq<char> {
    match description {
        Some(text) => "\"\"\"\n"@ + text + "\n\"\"\"\n"@,
        None => Seq::empty(),
    }
}

/// The description of a member of a type as an indented block string, or
/// nothing.
pub open spec fn member_description(description: Option<Seq<char>>) -> Seq<char> {
    match description {
        Some(text) => "  \"\"\"\n  "@ + text + "\n  \"\"\"\n"@,
        None => Seq::empty(),
    }
}

/// A type reference in schema definition language: `!` after what is not
/// null, brackets around what is listed. A wrapper without an inner type, and
/// an end without a name, is rendered as nothing.
pub open spec fn type_ref_sdl(type_ref: TypeRefView) -> Seq<char>
    decreases type_ref,
{
    match type_ref.kind {
        Some(TypeKind::NonNull) => match type_ref.of_type {
            Some(inner) => type_ref_sdl(*inner) + "!"@,
            None => Seq::empty(),
        },
        Some(TypeKind::List) => match type_ref.of_type {
            Some(inner) => "["@ + type_ref_sdl(*inner) + "]"@,
            None => Seq::empty(),
        },
        _ => match type_ref.name {
            Some(name) => name,
            None => Seq::empty(),
        },
    }
}

/// The line of a field, after its description.
pub open spec fn field_sdl(field: FieldView) -> Seq<char> {
    member_description(field.description) + "  "@ + field.name + ": "@ + type_ref_sdl(
        field.type_,
    ) + "\n"@
}

/// The lines of a list of fields, in order.
pub open spec fn fields_sdl(fields: Seq<FieldView>) -> Seq<char>
    decreases fields.len(),
{
    if fields.len() == 0 {
        Seq::empty()
    } else {
        fields_sdl(fields.drop_last()) + field_sdl(fields.last())
    }
}

/// The clause that names the interfaces of an object, or nothing if the
/// list is absent or empty.
pub open spec fn implements_clause(interfaces: Option<Seq<TypeRefView>>) -> Seq<char> {
    if or_empty(interfaces).len() > 0 {
        "implements "@ + join(reference_names(or_empty(interfaces)), " & "@) + " "@
    } else {
        Seq::empty()
    }
}

/// The definition of the object `name`.
pub open spec fn object_sdl(name: Seq<char>, type_def: TypeView) -> Seq<char> {
    description_block(type_def.description) + "type "@ + name + " "@ + implements_clause(
        type_def.interfaces,
    ) + "{\n"@ + fields_sdl(or_empty(type_def.fields)) + "}\n\n"@
}

/// The definition of the interface `name`.
pub open spec fn interface_sdl(name: Seq<char>, type_def: TypeView) -> Seq<char> {
    description_block(type_def.description) + "interface "@ + name + " {\n"@ + fields_sdl(
        or_empty(type_def.fields),
    ) + "}\n\n"@
}

/// The lines of a list of enum values, each after its description.
pub open spec fn enum_values_sdl(values: Seq<EnumValueView>) -> Seq<char>
    decreases values.len(),
{
    if values.len() == 0 {
        Seq::empty()
    } else {
        enum_values_sdl(values.drop_last()) + member_description(values.last().description)
            + "  "@ + values.last().name + "\n"@
    }
}

/// The definition of the enum `name`.
pub open spec fn enum_sdl(name: Seq<char>, type_def: TypeView) -> Seq<char> {
    description_block(type_def.description) + "enum "@ + name + " {\n"@ + enum_values_sdl(
        or_empty(type_def.enum_values),
    ) + "}\n\n"@
}

/// The default value of an input field as it is written after the type, or
/// nothing.
pub open spec fn default_value_sdl(default_value: Option<Seq<char>>) -> Seq<char> {
    match default_value {
        Some(value) => " = "@ + value,
        None => Seq::empty(),
    }
}

/// The line of an input field, after its description.
pub open spec fn input_field_sdl(field: InputValueView) -> Seq<char> {
    member_description(field.description) + "  "@ + field.name + ": "@ + type_ref_sdl(
        field.type_,
    ) + default_value_sdl(field.default_value) + "\n"@
}

/// The lines of a list of input fields, in order.
pub open spec fn input_fields_sdl(fields: Seq<InputValueView>) -> Seq<char>
    decreases fields.len(),
{
    if fields.len() == 0 {
        Seq::empty()
    } else {
        input_fields_sdl(fields.drop_last()) + input_field_sdl(fields.last())
    }
}

/// The definition of the input object `name`.
pub open spec fn input_object_sdl(name: Seq<char>, type_def: TypeView) -> Seq<char> {
    description_block(type_def.description) + "input "@ + name + " {\n"@ + input_fields_sdl(
        or_empty(type_def.input_fields),
    ) + "}\n\n"@
}

/// The definition of the scalar `name`.
pub open spec fn scalar_sdl(name: Seq<char>, type_def: TypeView) -> Seq<char> {
    description_block(type_def.description) + "scalar "@ + name + "\n\n"@
}

/// The definition of the union `name`.
pub open spec fn union_sdl(name: Seq<char>, type_def: TypeView) -> Seq<char> {
    description_block(type_def.description) + "union "@ + name + " = "@ + join(
        reference_names(or_empty(type_def.possible_types)),
        " | "@,
    ) + "\n\n"@
}

/// The line that names a root operation type, or nothing if there is none
/// or it has no name.
pub open spec fn root_sdl(label: Seq<char>, root: Option<TypeRefView>) -> Seq<char> {
    match root {
        Some(type_ref) => match type_ref.name {
            Some(name) => "  "@ + label + ": "@ + name + "\n"@,
            None => Seq::empty(),
        },
        None => Seq::empty(),
    }
}

/// The definition of a type, or nothing for a type without a name, an
/// introspection type, and a wrapper.
pub open spec fn type_sdl(type_def: TypeView) -> Seq<char> {
    match type_def.name {
        None => Seq::empty(),
        Some(name) => if "__"@.is_prefix_of(name) {
            Seq::empty()
        } else {
            match type_def.kind {
                TypeKind::Object => object_sdl(name, type_def),
                TypeKind::Interface => interface_sdl(name, type_def),
                TypeKind::Enum => enum_sdl(name, type_def),
                TypeKind::InputObject => input_object_sdl(name, type_def),
                TypeKind::Scalar => scalar_sdl(name, type_def),
                TypeKind::Union => union_sdl(name, type_def),
                _ => Seq::empty(),
            }
        },
    }
}

/// The definitions of a list of types, in order.
pub open spec fn types_sdl(types: Seq<TypeView>) -> Seq<char>
    decreases types.len(),
{
    if types.len() == 0 {
        Seq::empty()
    } else {
        types_sdl(types.drop_last()) + type_sdl(types.last())
    }
}

/// An introspection result in schema definition language: the schema
/// definition with its root operation types, then every type.
pub open spec fn schema_sdl(schema: SchemaView) -> Seq<char> {
    "schema {\n"@ + root_sdl("query"@, schema.query_type) + root_sdl(
        "mutation"@,
        schema.mutation_type,
    ) + root_sdl("subscription"@, schema.subscription_type) + "}\n\n"@ + types_sdl(schema.types)
}

/// Writes the description of a type as a block string.
fn describe(description: &Option<String>) -> (sdl: String)
    ensures
        sdl@ == description_block(description.deep_view()),
{
    match description {
        Some(text) => {
            let mut sdl = String::from_str("\"\"\"\n");
            sdl.append(text.as_str());
            sdl.append("\n\"\"\"\n");
            sdl
        },
        None => String::new(),
    }
}

/// Writes the description of a member as an indented block string.
fn describe_member(description: &Option<String>) -> (sdl: String)
    ensures
        sdl@ == member_description(description.deep_view()),
{
    match description {
        Some(text) => {
            let mut sdl = String::from_str("  \"\"\"\n  ");
            sdl.append(text.as_str());
            sdl.append("\n  \"\"\"\n");
            sdl
        },
        None => String::new(),
    }
}

/// Writes the default value of an input field as it stands after the type.
fn write_default_value(default_value: &Option<String>) -> (sdl: String)
    ensures
        sdl@ == default_value_sdl(default_value.deep_view()),
{
    match default_value {
        Some(value) => {
            let mut sdl = String::from_str(" = ");
            sdl.append(value.as_str());
            sdl
        },
        None => String::new(),
    }
}

/// Collects the names of the named references of a list.
pub fn collect_reference_names(refs: &Option<Vec<TypeRef>>) -> (names: Vec<String>)
    ensures
        names.deep_view() == reference_names(or_empty(refs.deep_view())),
{
    let mut names: Vec<String> = Vec::new();
    assert(names.deep_view() =~= Seq::<Seq<char>>::empty());
    match refs {
        Some(list) => {
            let n: usize = list.len();
            let mut i: usize = 0;
            assert(list.deep_view().take(0) =~= Seq::<TypeRefView>::empty());
            while i < n
                invariant
                    i <= n,
                    n == list@.len(),
                    names.deep_view() == reference_names(list.deep_view().take(i as int)),
                decreases n - i,
            {
                proof {
                    let all = list.deep_view();
                    assert(all.take(i + 1).drop_last() =~= all.take(i as int));
                    assert(all.take(i + 1).last() == list@[i as int]@);
                }
                let ghost before = names.deep_view();
                match &list[i].name {
                    Some(name) => {
                        names.push(name.clone());
                        assert(names.deep_view() =~= before.push(name@));
                    },
                    None => {},
                }
                i = i + 1;
            }
            assert(list.deep_view().take(n as int) =~= list.deep_view());
        },
        None => {},
    }
    names
}

/// Knows the introspection protocol: renders results as schema definition
/// language and judges the answers of an endpoint.
#[derive(Clone, Copy, Debug)]
pub struct Introspector;

impl Default for Introspector {
    fn default() -> Self {
        Introspector::new()
    }
}

impl Introspector {
    /// Makes the introspector.
    pub fn new() -> Self {
        Introspector
    }

    /// Writes a type reference.
    pub fn type_ref_to_sdl(&self, type_ref: &TypeRef) -> (sdl: String)
        ensures
            sdl@ == type_ref_sdl(type_ref@),
        decreases type_ref,
    {
        match type_ref.kind {
            Some(TypeKind::NonNull) => match &type_ref.of_type {
                Some(of_type) => {
                    let mut result = self.type_ref_to_sdl(of_type);
                    result.append("!");
                    result
                },
                None => String::new(),
            },
            Some(TypeKind::List) => match &type_ref.of_type {
                Some(of_type) => {
                    let inner = self.type_ref_to_sdl(of_type);
                    let mut result = String::from_str("[");
                    result.append(inner.as_str());
                    result.append("]");
                    result
                },
                None => String::new(),
            },
            _ => match &type_ref.name {
                Some(name) => name.clone(),
                None => String::new(),
            },
        }
    }

    /// Writes the lines of the fields of an object or interface.
    fn fields_to_sdl(&self, fields: &Option<Vec<Field>>) -> (sdl: String)
        ensures
            sdl@ == fields_sdl(or_empty(fields.deep_view())),
    {
        let mut sdl = String::new();
        match fields {
            Some(list) => {
                let n: usize = list.len();
                let mut i: usize = 0;
                assert(list.deep_view().take(0) =~= Seq::<FieldView>::empty());
                assert(sdl@ =~= fields_sdl(list.deep_view().take(0)));
                while i < n
                    invariant
                        i <= n,
                        n == list@.len(),
                        sdl@ == fields_sdl(list.deep_view().take(i as int)),
                    decreases n - i,
                {
                    let field = &list[i];
                    proof {
                        let all = list.deep_view();
                        assert(all.take(i + 1).drop_last() =~= all.take(i as int));
                        assert(all.take(i + 1).last() == field@);
                    }
                    let mut line = describe_member(&field.description);
                    line.append("  ");
                    line.append(field.name.as_str());
                    line.append(": ");
                    line.append(self.type_ref_to_sdl(&field.type_).as_str());
                    line.append("\n");
                    sdl.append(line.as_str());
                    i = i + 1;
                }
                assert(list.deep_view().take(n as int) =~= list.deep_view());
            },
            None => {
                assert(sdl@ =~= Seq::<char>::empty());
            },
        }
        sdl
    }

    /// Writes the definition of the object `name`.
    pub fn object_type_to_sdl(&self, name: &str, type_def: &Type) -> (sdl: String)
        ensures
            sdl@ == object_sdl(name@, type_def@),
    {
        let mut sdl = describe(&type_def.description);
        sdl.append("type ");
        sdl.append(name);
        sdl.append(" ");
        let has_interfaces = match &type_def.interfaces {
            Some(interfaces) => interfaces.len() > 0,
            None => false,
        };
        let clause = if has_interfaces {
            let interface_names = collect_reference_names(&type_def.interfaces);
            let mut clause = String::from_str("implements ");
            clause.append(join_strings(&interface_names, " & ").as_str());
            clause.append(" ");
            clause
        } else {
            String::new()
        };
        sdl.append(clause.as_str());
        sdl.append("{\n");
        sdl.append(self.fields_to_sdl(&type_def.fields).as_str());
        sdl.append("}\n\n");
        sdl
    }

    /// Writes the definition of the interface `name`.
    pub fn interface_type_to_sdl(&self, name: &str, type_def: &Type) -> (sdl: String)
        ensures
            sdl@ == interface_sdl(name@, type_def@),
    {
        let mut sdl = describe(&type_def.description);
        sdl.append("interface ");
        sdl.append(name);
        sdl.append(" {\n");
        sdl.append(self.fields_to_sdl(&type_def.fields).as_str());
        sdl.append("}\n\n");
        sdl
    }

    /// Writes the definition of the enum `name`.
    pub fn enum_type_to_sdl(&self, name: &str, type_def: &Type) -> (sdl: String)
        ensures
            sdl@ == enum_sdl(name@, type_def@),
    {
        let mut sdl = describe(&type_def.description);
        sdl.append("enum ");
        sdl.append(name);
        sdl.append(" {\n");
        let ghost head = sdl@;
        match &type_def.enum_values {
            Some(values) => {
                let n: usize = values.len();
                let mut i: usize = 0;
                assert(values.deep_view().take(0) =~= Seq::<EnumValueView>::empty());
                assert(sdl@ =~= head + enum_values_sdl(values.deep_view().take(0)));
                while i < n
                    invariant
                        i <= n,
                        n == values@.len(),
                        sdl@ == head + enum_values_sdl(values.deep_view().take(i as int)),
                    decreases n - i,
                {
                    let value = &values[i];
                    proof {
                        let all = values.deep_view();
                        assert(all.take(i + 1).drop_last() =~= all.take(i as int));
                        assert(all.take(i + 1).last() == value@);
                    }
                    let mut line = describe_member(&value.description);
                    line.append("  ");
                    line.append(value.name.as_str());
                    line.append("\n");
                    sdl.append(line.as_str());
                    assert(sdl@ =~= head + (enum_values_sdl(values.deep_view().take(i as int))
                        + member_description(value@.description) + "  "@ + value@.name + "\n"@));
                    i = i + 1;
                }
                assert(values.deep_view().take(n as int) =~= values.deep_view());
            },
            None => {
                assert(sdl@ =~= head + enum_values_sdl(Seq::empty()));
            },
        }
        sdl.append("}\n\n");
        sdl
    }

    /// Writes the definition of the input object `name`.
    pub fn input_object_type_to_sdl(&self, name: &str, type_def: &Type) -> (sdl: String)
        ensures
            sdl@ == input_object_sdl(name@, type_def@),
    {
        let mut sdl = describe(&type_def.description);
        sdl.append("input ");
        sdl.append(name);
        sdl.append(" {\n");
        let ghost head = sdl@;
        match &type_def.input_fields {
            Some(fields) => {
                let n: usize = fields.len();
                let mut i: usize = 0;
                assert(fields.deep_view().take(0) =~= Seq::<InputValueView>::empty());
                assert(sdl@ =~= head + input_fields_sdl(fields.deep_view().take(0)));
                while i < n
                    invariant
                        i <= n,
                        n == fields@.len(),
                        sdl@ == head + input_fields_sdl(fields.deep_view().take(i as int)),
                    decreases n - i,
                {
                    let field = &fields[i];
                    proof {
                        let all = fields.deep_view();
                        assert(all.take(i + 1).drop_last() =~= all.take(i as int));
                        assert(all.take(i + 1).last() == field@);
                    }
                    let ghost before = sdl@;
                    let mut line = describe_member(&field.description);
                    line.append("  ");
                    line.append(field.name.as_str());
                    line.append(": ");
                    line.append(self.type_ref_to_sdl(&field.type_).as_str());
                    line.append(write_default_value(&field.default_value).as_str());
                    line.append("\n");
                    sdl.append(line.as_str());
                    assert(sdl@ =~= before + input_field_sdl(field@));
                    i = i + 1;
                }
                assert(fields.deep_view().take(n as int) =~= fields.deep_view());
            },
            None => {
                assert(sdl@ =~= head + input_fields_sdl(Seq::empty()));
            },
        }
        sdl.append("}\n\n");
        sdl
    }

    /// Writes the definition of the scalar `name`.
    pub fn scalar_type_to_sdl(&self, name: &str, type_def: &Type) -> (sdl: String)
        ensures
            sdl@ == scalar_sdl(name@, type_def@),
    {
        let mut sdl = describe(&type_def.description);
        sdl.append("scalar ");
        sdl.append(name);
        sdl.append("\n\n");
        sdl
    }

    /// Writes the definition of the union `name`.
    pub fn union_type_to_sdl(&self, name: &str, type_def: &Type) -> (sdl: String)
        ensures
            sdl@ == union_sdl(name@, type_def@),
    {
        let mut sdl = describe(&type_def.description);
        sdl.append("union ");
        sdl.append(name);
        sdl.append(" = ");
        let member_names = collect_reference_names(&type_def.possible_types);
        sdl.append(join_strings(&member_names, " | ").as_str());
        sdl.append("\n\n");
        sdl
    }

    /// Writes the line that names a root operation type.
    fn root_to_sdl(&self, label: &str, root: &Option<TypeRef>) -> (sdl: String)
        ensures
            sdl@ == root_sdl(label@, root.deep_view()),
    {
        match root {
            Some(type_ref) => match &type_ref.name {
                Some(name) => {
                    let mut sdl = String::from_str("  ");
                    sdl.append(label);
                    sdl.append(": ");
                    sdl.append(name.as_str());
                    sdl.append("\n");
                    sdl
                },
                None => String::new(),
            },
            None => String::new(),
        }
    }

    /// Writes the definition of a type.
    fn type_to_sdl(&self, type_def: &Type) -> (sdl: String)
        ensures
            sdl@ == type_sdl(type_def@),
    {
        match &type_def.name {
            None => String::new(),
            Some(name) => {
                if starts_with(name.as_str(), "__") {
                    return String::new();
                }
                match type_def.kind {
                    TypeKind::Object => self.object_type_to_sdl(name.as_str(), type_def),
                    TypeKind::Interface => self.interface_type_to_sdl(name.as_str(), type_def),
                    TypeKind::Enum => self.enum_type_to_sdl(name.as_str(), type_def),
                    TypeKind::InputObject => self.input_object_type_to_sdl(
                        name.as_str(),
                        type_def,
                    ),
                    TypeKind::Scalar => self.scalar_type_to_sdl(name.as_str(), type_def),
                    TypeKind::Union => self.union_type_to_sdl(name.as_str(), type_def),
                    _ => String::new(),
                }
            },
        }
    }

    /// Converts an introspection result to schema definition language.
    pub fn schema_to_sdl(&self, schema: &Schema) -> (sdl: String)
        ensures
            sdl@ == schema_sdl(schema@),
    {
        let mut sdl = String::from_str("schema {\n");
        sdl.append(self.root_to_sdl("query", &schema.query_type).as_str());
        sdl.append(self.root_to_sdl("mutation", &schema.mutation_type).as_str());
        sdl.append(self.root_to_sdl("subscription", &schema.subscription_type).as_str());
        sdl.append("}\n\n");
        let ghost head = sdl@;
        let n: usize = schema.types.len();
        let mut i: usize = 0;
        assert(schema.types.deep_view().take(0) =~= Seq::<TypeView>::empty());
        assert(sdl@ =~= head + types_sdl(schema.types.deep_view().take(0)));
        while i < n
            invariant
                i <= n,
                n == schema.types@.len(),
                sdl@ == head + types_sdl(schema.types.deep_view().take(i as int)),
            decreases n - i,
        {
            let type_def = &schema.types[i];
            proof {
                let all = schema.types.deep_view();
                assert(all.take(i + 1).drop_last() =~= all.take(i as int));
                assert(all.take(i + 1).last() == type_def@);
            }
            let ghost before = sdl@;
            sdl.append(self.type_to_sdl(type_def).as_str());
            assert(sdl@ =~= before + type_sdl(type_def@));
            i = i + 1;
        }
        assert(schema.types.deep_view().take(n as int) =~= schema.types.deep_view());
        sdl
    }
}

/// Why an introspection request did not yield a schema.
#[derive(Debug)]
pub enum IntrospectionError {
    /// The endpoint answered with a status that is no success.
    Http { status: u16, url: String },
    /// The endpoint answered with errors of its own.
    GraphQl { messages: Vec<String> },
    /// The endpoint answered with neither errors nor data.
    NoData,
}

/// Model of an `IntrospectionError`.
pub enum IntrospectionErrorView {
    Http { status: u16, url: Seq<char> },
    GraphQl { messages: Seq<Seq<char>> },
    NoData,
}

impl DeepView for IntrospectionError {
    type V = IntrospectionErrorView;

    open spec fn deep_view(&self) -> IntrospectionErrorView {
        match self {
            IntrospectionError::Http { status, url } => IntrospectionErrorView::Http {
                status: *status,
                url: url@,
            },
            IntrospectionError::GraphQl { messages } => IntrospectionErrorView::GraphQl {
                messages: messages.deep_view(),
            },
            IntrospectionError::NoData => IntrospectionErrorView::NoData,
        }
    }
}

impl View for IntrospectionError {
    type V = IntrospectionErrorView;

    open spec fn view(&self) -> IntrospectionErrorView {
        self.deep_view()
    }
}

/// Whether a status is a success: from 200 up to 299.
pub open spec fn is_success(status: u16) -> bool {
    200 <= status <= 299
}

/// What a status that is no success most likely means.
pub open spec fn status_hint(status: u16) -> Seq<char> {
    if status == 400 {
        "Bad Request - The GraphQL query may be malformed"@
    } else if status == 401 {
        "Unauthorized - Authentication required. Check your headers"@
    } else if status == 403 {
        "Forbidden - Access denied. Verify your credentials and permissions"@
    } else if status == 404 {
        "Not Found - GraphQL endpoint not found at the specified URL"@
    } else if status == 500 {
        "Internal Server Error - The GraphQL server encountered an error"@
    } else {
        "HTTP request failed"@
    }
}

/// The numbered lines of a list of messages, counted from one.
pub open spec fn numbered_lines(messages: Seq<Seq<char>>) -> Seq<char>
    decreases messages.len(),
{
    if messages.len() == 0 {
        Seq::empty()
    } else {
        numbered_lines(messages.drop_last()) + decimal(messages.len() as int) + ". "@
            + messages.last() + "\n"@
    }
}

/// The text of an `IntrospectionError`.
pub open spec fn introspection_error_message(error: IntrospectionErrorView) -> Seq<char> {
    match error {
        IntrospectionErrorView::Http { status, url } => {
            "GraphQL introspection failed with HTTP "@ + decimal(status as int) + ": "@
                + status_hint(status) + "\nURL: "@ + url
                + "\n\nTroubleshooting:\n- Verify the URL is correct and accessible\n- Check authentication headers if required\n- Ensure the server supports GraphQL introspection"@
        },
        IntrospectionErrorView::GraphQl { messages } => {
            "GraphQL introspection failed with "@ + decimal(messages.len() as int) + (
            if messages.len() == 1 {
                " error"@
            } else {
                " errors"@
            }) + ":\n"@ + numbered_lines(messages) + "\nCommon causes:\n"@
                + "- Introspection is disabled on the GraphQL server\n"@
                + "- Authentication or authorization issues\n"@
                + "- Server-side GraphQL schema errors\n"@ + "- Network connectivity problems\n"@
        },
        IntrospectionErrorView::NoData => {
            "No data returned from GraphQL introspection\n\nThis typically indicates:\n- The GraphQL endpoint returned an empty response\n- The server may not support the introspection query\n- Network issues prevented a complete response\n\nTry:\n- Checking if the endpoint supports GraphQL introspection\n- Verifying network connectivity\n- Testing with a simple GraphQL query first"@
        },
    }
}

/// Says what a status that is no success most likely means.
fn hint_for(status: u16) -> (hint: &'static str)
    ensures
        hint@ == status_hint(status),
{
    if status == 400 {
        "Bad Request - The GraphQL query may be malformed"
    } else if status == 401 {
        "Unauthorized - Authentication required. Check your headers"
    } else if status == 403 {
        "Forbidden - Access denied. Verify your credentials and permissions"
    } else if status == 404 {
        "Not Found - GraphQL endpoint not found at the specified URL"
    } else if status == 500 {
        "Internal Server Error - The GraphQL server encountered an error"
    } else {
        "HTTP request failed"
    }
}

impl IntrospectionError {
    /// The text of the error.
    pub fn message(&self) -> (text: String)
        ensures
            text@ == introspection_error_message(self@),
    {
        match self {
            IntrospectionError::Http { status, url } => {
                let mut text = String::from_str("GraphQL introspection failed with HTTP ");
                text.append(unsigned_decimal(*status as u64).as_str());
                text.append(": ");
                text.append(hint_for(*status));
                text.append("\nURL: ");
                text.append(url.as_str());
                text.append(
                    "\n\nTroubleshooting:\n- Verify the URL is correct and accessible\n- Check authentication headers if required\n- Ensure the server supports GraphQL introspection",
                );
                text
            },
            IntrospectionError::GraphQl { messages } => {
                let n: usize = messages.len();
                let mut text = String::from_str("GraphQL introspection failed with ");
                text.append(unsigned_decimal(n as u64).as_str());
                if n == 1 {
                    text.append(" error");
                } else {
                    text.append(" errors");
                }
                text.append(":\n");
                let ghost head = text@;
                let mut i: usize = 0;
                assert(messages.deep_view().take(0) =~= Seq::<Seq<char>>::empty());
                assert(text@ =~= head + numbered_lines(messages.deep_view().take(0)));
                while i < n
                    invariant
                        i <= n,
                        n == messages@.len(),
                        text@ == head + numbered_lines(messages.deep_view().take(i as int)),
                    decreases n - i,
                {
                    proof {
                        let all = messages.deep_view();
                        assert(all.take(i + 1).drop_last() =~= all.take(i as int));
                        assert(all.take(i + 1).last() == messages@[i as int]@);
                    }
                    let mut line = unsigned_decimal((i + 1) as u64);
                    line.append(". ");
                    line.append(messages[i].as_str());
                    line.append("\n");
                    text.append(line.as_str());
                    assert(text@ =~= head + (numbered_lines(messages.deep_view().take(i as int))
                        + decimal(i + 1) + ". "@ + messages@[i as int]@ + "\n"@));
                    i = i + 1;
                }
                assert(messages.deep_view().take(n as int) =~= messages.deep_view());
                text.append("\nCommon causes:\n");
                text.append("- Introspection is disabled on the GraphQL server\n");
                text.append("- Authentication or authorization issues\n");
                text.append("- Server-side GraphQL schema errors\n");
                text.append("- Network connectivity problems\n");
                text
            },
            IntrospectionError::NoData => String::from_str(
                "No data returned from GraphQL introspection\n\nThis typically indicates:\n- The GraphQL endpoint returned an empty response\n- The server may not support the introspection query\n- Network issues prevented a complete response\n\nTry:\n- Checking if the endpoint supports GraphQL introspection\n- Verifying network connectivity\n- Testing with a simple GraphQL query first",
            ),
        }
    }
}

impl Introspector {
    /// Judges the status of an answer, before its body is read: a status
    /// from 200 up to 299 passes, any other is an error that carries it.
    pub fn check_status(&self, status: u16, url: &str) -> (checked: Result<
        (),
        IntrospectionError,
    >)
        ensures
            match checked {
                Ok(_) => is_success(status),
                Err(error) => !is_success(status) && error@ == (IntrospectionErrorView::Http {
                    status,
                    url: url@,
                }),
            },
    {
        if 200 <= status && status <= 299 {
            Ok(())
        } else {
            Err(IntrospectionError::Http { status, url: String::from_str(url) })
        }
    }

    /// Judges the body of an answer: errors, even none of them, come before
    /// data, and an answer without either is an error too.
    pub fn check_body<T>(&self, errors: Option<Vec<String>>, data: Option<T>) -> (checked:
        Result<T, IntrospectionError>)
        ensures
            match checked {
                Ok(schema) => errors.is_none() && data == Some(schema),
                Err(error) => match errors {
                    Some(messages) => error@ == (IntrospectionErrorView::GraphQl {
                        messages: messages.deep_view(),
                    }),
                    None => data.is_none() && error@ == IntrospectionErrorView::NoData,
                },
            },
    {
        match errors {
            Some(messages) => Err(IntrospectionError::GraphQl { messages }),
            None => match data {
                Some(schema) => Ok(schema),
                None => Err(IntrospectionError::NoData),
            },
        }
    }
}

} // verus!
