//! What every backend shares: naming, the three type mappings, relationship
//! inference, and the interface that a backend implements.

pub mod diesel;
pub mod migration;
pub mod sea_orm;

use vstd::prelude::*;
use crate::cli::{DatabaseType, OrmType};
use crate::config::{Config, ConfigView, TableNamingConvention};
use crate::name_map::{has_name, lemma_position_of, lookup, position_of, Entries, NameMap};
use crate::parser::{
    FieldType, FieldTypeView, ParsedField, ParsedFieldView, ParsedSchema, ParsedSchemaView,
    ParsedType, ParsedTypeView, TypeKind,
};
use crate::text::{
    char_is_uppercase, char_lowercase_head, char_uppercase_text, ends_with, letters, push_char,
    spell, spelled, str_eq, uppercase_text, Letter,
};

verus! {

/// Whether an underscore goes before the letter at `i`: it is uppercase,
/// not the first, and either follows a lowercase letter or ends a run of
/// uppercase letters (the next one is lowercase).
pub open spec fn needs_underscore(letters: Seq<Letter>, i: int) -> bool {
    &&& 0 < i < letters.len()
    &&& letters[i].is_uppercase
    &&& (letters[i - 1].is_lowercase || (letters[i - 1].is_uppercase && i + 1 < letters.len()
        && letters[i + 1].is_lowercase))
}

/// What the letter at `i` contributes to the snake-case form: its lowercase
/// form, after an underscore where one goes, if it is uppercase; else itself.
pub open spec fn snake_piece(letters: Seq<Letter>, i: int) -> Seq<char> {
    if letters[i].is_uppercase {
        if needs_underscore(letters, i) {
            seq!['_', letters[i].lowercase]
        } else {
            seq![letters[i].lowercase]
        }
    } else {
        seq![letters[i].ch]
    }
}

/// The contributions of the first `n` letters.
pub open spec fn snake_prefix(letters: Seq<Letter>, n: nat) -> Seq<char>
    decreases n,
{
    if n == 0 {
        Seq::empty()
    } else {
        snake_prefix(letters, (n - 1) as nat) + snake_piece(letters, n - 1)
    }
}

/// The snake-case form of what the letters spell.
pub open spec fn snake_letters(letters: Seq<Letter>) -> Seq<char> {
    snake_prefix(letters, letters.len())
}

/// The snake-case form of an identifier.
pub open spec fn snake_case(s: Seq<char>) -> Seq<char> {
    snake_letters(letters(s))
}

/// Writes the snake-case form of what the letters spell.
pub fn snake_case_of(letters: &Vec<Letter>) -> (result: String)
    ensures
        result@ == snake_letters(letters@),
{
    let n: usize = letters.len();
    let mut result = String::new();
    let mut i: usize = 0;
    while i < n
        invariant
            i <= n,
            n == letters@.len(),
            result@ == snake_prefix(letters@, i as nat),
        decreases n - i,
    {
        let current = letters[i];
        let ghost before = result@;
        if current.is_uppercase {
            if i > 0 {
                let previous = letters[i - 1];
                let should_add_underscore = if previous.is_lowercase {
                    true
                } else if previous.is_uppercase {
                    i + 1 < n && letters[i + 1].is_lowercase
                } else {
                    false
                };
                if should_add_underscore {
                    push_char(&mut result, '_');
                }
            }
            push_char(&mut result, current.lowercase);
        } else {
            push_char(&mut result, current.ch);
        }
        assert(result@ =~= before + snake_piece(letters@, i as int));
        i = i + 1;
    }
    result
}

/// Converts an identifier to snake case: `XMLHttpRequest` becomes
/// `xml_http_request`.
pub fn to_snake_case(s: &str) -> (result: String)
    ensures
        result@ == snake_case(s@),
{
    snake_case_of(&spell(s))
}

/// What the letter at `i` becomes where no underscore is put in: its
/// lowercase form if it is uppercase, else itself.
pub open spec fn lowered(letters: Seq<Letter>, i: int) -> char {
    if letters[i].is_uppercase {
        letters[i].lowercase
    } else {
        letters[i].ch
    }
}

/// Whether letters are settled: each uppercase letter among them is its own
/// lowercase form and takes no underscore.
pub open spec fn is_settled(letters: Seq<Letter>) -> bool {
    forall|i: int|
        0 <= i < letters.len() && (#[trigger] letters[i]).is_uppercase ==> letters[i].lowercase
            == letters[i].ch && !needs_underscore(letters, i)
}

/// Whether lowering settles every uppercase character of `s`: the first
/// character of its lowercase mapping is not uppercase again.
pub open spec fn lowering_settles(s: Seq<char>) -> bool {
    forall|i: int|
        0 <= i < s.len() && char_is_uppercase(#[trigger] s[i]) ==> !char_is_uppercase(
            char_lowercase_head(s[i]),
        )
}

/// The snake-case form is at least as long as the text, longer where an
/// underscore is put in, and made of the lowered letters where none is.
proof fn lemma_snake_prefix_shape(letters: Seq<Letter>, n: nat)
    requires
        n <= letters.len(),
    ensures
        snake_prefix(letters, n).len() >= n,
        (exists|i: int| 0 <= i < n && #[trigger] needs_underscore(letters, i)) ==> snake_prefix(
            letters,
            n,
        ).len() > n,
        (forall|i: int| 0 <= i < n ==> !#[trigger] needs_underscore(letters, i)) ==> snake_prefix(
            letters,
            n,
        ).len() == n && forall|i: int|
            0 <= i < n ==> #[trigger] snake_prefix(letters, n)[i] == lowered(letters, i),
    decreases n,
{
    if n > 0 {
        lemma_snake_prefix_shape(letters, (n - 1) as nat);
        let head = snake_prefix(letters, (n - 1) as nat);
        let whole = snake_prefix(letters, n);
        if exists|i: int| 0 <= i < n && #[trigger] needs_underscore(letters, i) {
            let i = choose|i: int| 0 <= i < n && #[trigger] needs_underscore(letters, i);
            if i < n - 1 {
                assert(head.len() > n - 1);
            }
        }
        if forall|i: int| 0 <= i < n ==> !#[trigger] needs_underscore(letters, i) {
            assert(!needs_underscore(letters, n - 1));
            assert forall|i: int| 0 <= i < n implies #[trigger] whole[i] == lowered(letters, i) by {
                if i < n - 1 {
                    assert(!needs_underscore(letters, i));
                    assert(whole[i] == head[i]);
                }
            }
        }
    }
}

/// The letters that spell their own snake-case form are exactly the settled
/// ones, however the letters are classified.
pub proof fn lemma_snake_case_fixed_points(letters: Seq<Letter>)
    ensures
        snake_letters(letters) == spelled(letters) <==> is_settled(letters),
{
    lemma_snake_prefix_shape(letters, letters.len());
    if is_settled(letters) {
        assert forall|i: int| 0 <= i < letters.len() implies !#[trigger] needs_underscore(
            letters,
            i,
        ) by {
            if letters[i].is_uppercase {
            }
        }
        assert(snake_letters(letters) =~= spelled(letters));
    }
    if snake_letters(letters) == spelled(letters) {
        assert forall|i: int| 0 <= i < letters.len() implies !#[trigger] needs_underscore(
            letters,
            i,
        ) by {
            if needs_underscore(letters, i) {
                assert(snake_prefix(letters, letters.len()).len() > letters.len());
            }
        }
        assert forall|i: int|
            0 <= i < letters.len() && (#[trigger] letters[i]).is_uppercase implies letters[i].lowercase
            == letters[i].ch && !needs_underscore(letters, i) by {
            assert(!needs_underscore(letters, i));
            assert(snake_prefix(letters, letters.len())[i] == lowered(letters, i));
            assert(spelled(letters)[i] == letters[i].ch);
        }
    }
}

/// Converting to snake case twice gives what converting once gives, for
/// every identifier whose snake-case form is settled.
pub proof fn lemma_snake_case_idempotent(s: Seq<char>)
    requires
        is_settled(letters(snake_case(s))),
    ensures
        snake_case(snake_case(s)) == snake_case(s),
{
    lemma_snake_case_fixed_points(letters(snake_case(s)));
    assert(spelled(letters(snake_case(s))) =~= snake_case(s));
}

/// Converting to snake case twice differs from converting once for every
/// identifier whose snake-case form is not settled.
pub proof fn lemma_snake_case_changes_the_unsettled(s: Seq<char>)
    requires
        !is_settled(letters(snake_case(s))),
    ensures
        snake_case(snake_case(s)) != snake_case(s),
{
    lemma_snake_case_fixed_points(letters(snake_case(s)));
    assert(spelled(letters(snake_case(s))) =~= snake_case(s));
}

/// The snake-case form of the first `n` characters has no uppercase
/// character where lowering settles the text.
proof fn lemma_snake_prefix_has_no_uppercase(s: Seq<char>, n: nat)
    requires
        !char_is_uppercase('_'),
        lowering_settles(s),
        n <= s.len(),
    ensures
        forall|i: int|
            0 <= i < snake_prefix(letters(s), n).len() ==> !char_is_uppercase(
                #[trigger] snake_prefix(letters(s), n)[i],
            ),
    decreases n,
{
    if n > 0 {
        lemma_snake_prefix_has_no_uppercase(s, (n - 1) as nat);
        let head = snake_prefix(letters(s), (n - 1) as nat);
        let piece = snake_piece(letters(s), n - 1);
        let whole = snake_prefix(letters(s), n);
        assert(char_is_uppercase(s[n - 1]) ==> !char_is_uppercase(char_lowercase_head(s[n - 1])));
        assert forall|k: int| 0 <= k < piece.len() implies !char_is_uppercase(
            #[trigger] piece[k],
        ) by {}
        assert forall|i: int| 0 <= i < whole.len() implies !char_is_uppercase(
            #[trigger] whole[i],
        ) by {
            if i < head.len() {
                assert(whole[i] == head[i]);
            } else {
                assert(whole[i] == piece[i - head.len()]);
            }
        }
    }
}

/// The snake-case form is settled, and so converting is idempotent, for
/// every identifier whose uppercase characters lowering settles, if the
/// underscore is not an uppercase character.
pub proof fn lemma_lowering_settles_snake_case(s: Seq<char>)
    requires
        !char_is_uppercase('_'),
        lowering_settles(s),
    ensures
        is_settled(letters(snake_case(s))),
        snake_case(snake_case(s)) == snake_case(s),
{
    lemma_snake_prefix_has_no_uppercase(s, s.len());
    lemma_snake_case_idempotent(s);
}

/// Tells whether the letters spell their own snake-case form.
pub fn is_settled_of(letters: &Vec<Letter>) -> (settled: bool)
    ensures
        settled == is_settled(letters@),
        settled == (snake_letters(letters@) == spelled(letters@)),
{
    proof {
        lemma_snake_case_fixed_points(letters@);
    }
    let n: usize = letters.len();
    let mut i: usize = 0;
    while i < n
        invariant
            i <= n,
            n == letters@.len(),
            snake_letters(letters@) == spelled(letters@) <==> is_settled(letters@),
            forall|k: int|
                0 <= k < i && (#[trigger] letters@[k]).is_uppercase ==> letters@[k].lowercase
                    == letters@[k].ch && !needs_underscore(letters@, k),
        decreases n - i,
    {
        let current = letters[i];
        if current.is_uppercase {
            if current.lowercase != current.ch {
                return false;
            }
            if i > 0 {
                let previous = letters[i - 1];
                let takes_underscore = if previous.is_lowercase {
                    true
                } else if previous.is_uppercase {
                    i + 1 < n && letters[i + 1].is_lowercase
                } else {
                    false
                };
                if takes_underscore {
                    assert(needs_underscore(letters@, i as int));
                    return false;
                }
            }
        }
        i = i + 1;
    }
    true
}

/// Tells whether an identifier is its own snake-case form. Converting such
/// an identifier changes nothing, and converting any identifier twice gives
/// what converting it once gives exactly when its snake-case form is one.
pub fn is_snake_case(s: &str) -> (settled: bool)
    ensures
        settled == is_settled(letters(s@)),
        settled == (snake_case(s@) == s@),
{
    assert(spelled(letters(s@)) =~= s@);
    is_settled_of(&spell(s))
}

/// The name of the table of the type `name`: its snake-case form, or the
/// name as it is where the settings keep type names.
pub open spec fn table_name(convention: TableNamingConvention, name: Seq<char>) -> Seq<char> {
    match convention {
        TableNamingConvention::SnakeCase => snake_case(name),
        TableNamingConvention::PascalCase => name,
    }
}

/// Names the table of the type `name`.
pub fn table_name_for(config: &Config, name: &str) -> (table: String)
    ensures
        table@ == table_name(config@.table_naming, name@),
{
    match config.table_naming {
        TableNamingConvention::SnakeCase => to_snake_case(name),
        TableNamingConvention::PascalCase => String::from_str(name),
    }
}

/// Whether `name` is one of the five scalars that GraphQL builds in.
pub open spec fn is_builtin_scalar(name: Seq<char>) -> bool {
    name == "ID"@ || name == "String"@ || name == "Int"@ || name == "Float"@ || name
        == "Boolean"@
}

/// The overriding type of a scalar that is not built in, or `fallback`.
pub open spec fn override_or(
    overrides: Entries<Seq<char>>,
    name: Seq<char>,
    fallback: Seq<char>,
) -> Seq<char> {
    match lookup(overrides, name) {
        Some(mapped) => mapped,
        None => fallback,
    }
}

/// The host-language type of an identifier column.
pub open spec fn id_rust_type(db: DatabaseType) -> Seq<char> {
    match db {
        DatabaseType::Sqlite => "i32"@,
        DatabaseType::Postgres => "uuid::Uuid"@,
        DatabaseType::Mysql => "u32"@,
    }
}

/// The host-language type of a field.
pub open spec fn rust_type(
    field: ParsedFieldView,
    db: DatabaseType,
    overrides: Entries<Seq<char>>,
) -> Seq<char> {
    match field.field_type {
        FieldTypeView::Scalar(name) => if name == "ID"@ {
            id_rust_type(db)
        } else if name == "String"@ {
            "String"@
        } else if name == "Int"@ {
            "i32"@
        } else if name == "Float"@ {
            "f64"@
        } else if name == "Boolean"@ {
            "bool"@
        } else {
            override_or(overrides, name, "String"@)
        },
        FieldTypeView::Reference(_) => id_rust_type(db),
        FieldTypeView::Enum(name) => name,
    }
}

/// The column type of an identifier column, in the table declaration's vocabulary.
pub open spec fn id_column_type(db: DatabaseType) -> Seq<char> {
    match db {
        DatabaseType::Sqlite => "Integer"@,
        DatabaseType::Postgres => "Uuid"@,
        DatabaseType::Mysql => "Unsigned<Integer>"@,
    }
}

/// The column type of a field, in the table declaration's vocabulary.
pub open spec fn diesel_column_type(
    field: ParsedFieldView,
    db: DatabaseType,
    overrides: Entries<Seq<char>>,
) -> Seq<char> {
    match field.field_type {
        FieldTypeView::Scalar(name) => if name == "ID"@ {
            id_column_type(db)
        } else if name == "String"@ {
            "Text"@
        } else if name == "Int"@ {
            "Integer"@
        } else if name == "Float"@ {
            "Double"@
        } else if name == "Boolean"@ {
            "Bool"@
        } else {
            override_or(overrides, name, "Text"@)
        },
        FieldTypeView::Reference(_) => id_column_type(db),
        FieldTypeView::Enum(_) => "Text"@,
    }
}

/// The DDL type of an identifier column.
pub open spec fn id_sql_type(db: DatabaseType) -> Seq<char> {
    match db {
        DatabaseType::Sqlite => "INTEGER"@,
        DatabaseType::Postgres => "UUID"@,
        DatabaseType::Mysql => "INT UNSIGNED"@,
    }
}

/// The DDL type of a boolean column: native where the engine has one, a
/// number otherwise.
pub open spec fn boolean_sql_type(db: DatabaseType) -> Seq<char> {
    match db {
        DatabaseType::Sqlite => "INTEGER"@,
        DatabaseType::Postgres => "BOOLEAN"@,
        DatabaseType::Mysql => "TINYINT(1)"@,
    }
}

/// The DDL type of a field.
pub open spec fn sql_type(
    field: ParsedFieldView,
    db: DatabaseType,
    overrides: Entries<Seq<char>>,
) -> Seq<char> {
    match field.field_type {
        FieldTypeView::Scalar(name) => if name == "ID"@ {
            id_sql_type(db)
        } else if name == "String"@ {
            "TEXT"@
        } else if name == "Int"@ {
            "INTEGER"@
        } else if name == "Float"@ {
            "REAL"@
        } else if name == "Boolean"@ {
            boolean_sql_type(db)
        } else {
            override_or(overrides, name, "TEXT"@)
        },
        FieldTypeView::Reference(_) => id_sql_type(db),
        FieldTypeView::Enum(_) => "TEXT"@,
    }
}

/// The host-language type of an identifier column.
pub fn id_rust_type_name(db: &DatabaseType) -> (name: &'static str)
    ensures
        name@ == id_rust_type(*db),
{
    match db {
        DatabaseType::Sqlite => "i32",
        DatabaseType::Postgres => "uuid::Uuid",
        DatabaseType::Mysql => "u32",
    }
}

/// The overriding type of a scalar that is not built in, or `fallback`.
fn mapped_or(overrides: &NameMap<String>, name: &str, fallback: &str) -> (mapped: String)
    ensures
        mapped@ == override_or(overrides@, name@, fallback@),
{
    match overrides.get(name) {
        Some(mapped) => mapped.clone(),
        None => String::from_str(fallback),
    }
}

/// Maps a field to its host-language type.
pub fn rust_type_for_field(
    field: &ParsedField,
    db_type: &DatabaseType,
    scalar_mappings: &NameMap<String>,
) -> (mapped: String)
    ensures
        mapped@ == rust_type(field@, *db_type, scalar_mappings@),
{
    match &field.field_type {
        FieldType::Scalar(scalar_type) => {
            let name = scalar_type.as_str();
            if str_eq(name, "ID") {
                String::from_str(id_rust_type_name(db_type))
            } else if str_eq(name, "String") {
                String::from_str("String")
            } else if str_eq(name, "Int") {
                String::from_str("i32")
            } else if str_eq(name, "Float") {
                String::from_str("f64")
            } else if str_eq(name, "Boolean") {
                String::from_str("bool")
            } else {
                mapped_or(scalar_mappings, name, "String")
            }
        },
        FieldType::Reference(_) => String::from_str(id_rust_type_name(db_type)),
        FieldType::Enum(enum_name) => enum_name.clone(),
    }
}

/// The column type of an identifier column.
fn id_column_type_name(db: &DatabaseType) -> (name: &'static str)
    ensures
        name@ == id_column_type(*db),
{
    match db {
        DatabaseType::Sqlite => "Integer",
        DatabaseType::Postgres => "Uuid",
        DatabaseType::Mysql => "Unsigned<Integer>",
    }
}

/// Maps a field to its column type in the table declaration's vocabulary.
pub fn diesel_column_type_for_field(
    field: &ParsedField,
    db_type: &DatabaseType,
    scalar_mappings: &NameMap<String>,
) -> (mapped: String)
    ensures
        mapped@ == diesel_column_type(field@, *db_type, scalar_mappings@),
{
    match &field.field_type {
        FieldType::Scalar(scalar_type) => {
            let name = scalar_type.as_str();
            if str_eq(name, "ID") {
                String::from_str(id_column_type_name(db_type))
            } else if str_eq(name, "String") {
                String::from_str("Text")
            } else if str_eq(name, "Int") {
                String::from_str("Integer")
            } else if str_eq(name, "Float") {
                String::from_str("Double")
            } else if str_eq(name, "Boolean") {
                String::from_str("Bool")
            } else {
                mapped_or(scalar_mappings, name, "Text")
            }
        },
        FieldType::Reference(_) => String::from_str(id_column_type_name(db_type)),
        FieldType::Enum(_) => String::from_str("Text"),
    }
}

/// The DDL type of an identifier column.
fn id_sql_type_name(db: &DatabaseType) -> (name: &'static str)
    ensures
        name@ == id_sql_type(*db),
{
    match db {
        DatabaseType::Sqlite => "INTEGER",
        DatabaseType::Postgres => "UUID",
        DatabaseType::Mysql => "INT UNSIGNED",
    }
}

/// The DDL type of a boolean column.
fn boolean_sql_type_name(db: &DatabaseType) -> (name: &'static str)
    ensures
        name@ == boolean_sql_type(*db),
{
    match db {
        DatabaseType::Sqlite => "INTEGER",
        DatabaseType::Postgres => "BOOLEAN",
        DatabaseType::Mysql => "TINYINT(1)",
    }
}

/// Maps a field to its DDL type.
pub fn sql_type_for_field(
    field: &ParsedField,
    db_type: &DatabaseType,
    scalar_mappings: &NameMap<String>,
) -> (mapped: String)
    ensures
        mapped@ == sql_type(field@, *db_type, scalar_mappings@),
{
    match &field.field_type {
        FieldType::Scalar(scalar_type) => {
            let name = scalar_type.as_str();
            if str_eq(name, "ID") {
                String::from_str(id_sql_type_name(db_type))
            } else if str_eq(name, "String") {
                String::from_str("TEXT")
            } else if str_eq(name, "Int") {
                String::from_str("INTEGER")
            } else if str_eq(name, "Float") {
                String::from_str("REAL")
            } else if str_eq(name, "Boolean") {
                String::from_str(boolean_sql_type_name(db_type))
            } else {
                mapped_or(scalar_mappings, name, "TEXT")
            }
        },
        FieldType::Reference(_) => String::from_str(id_sql_type_name(db_type)),
        FieldType::Enum(_) => String::from_str("TEXT"),
    }
}

/// The three mappings move in lock-step: for every built-in scalar and
/// every engine each of them has an entry of its own, which no override
/// replaces and which is not empty. The same holds of references.
pub proof fn lemma_mappings_cover_builtin_scalars(
    field: ParsedFieldView,
    db: DatabaseType,
    overrides: Entries<Seq<char>>,
)
    requires
        match field.field_type {
            FieldTypeView::Scalar(name) => is_builtin_scalar(name),
            FieldTypeView::Reference(_) => true,
            FieldTypeView::Enum(_) => false,
        },
    ensures
        rust_type(field, db, overrides) == rust_type(field, db, Seq::empty()),
        diesel_column_type(field, db, overrides) == diesel_column_type(field, db, Seq::empty()),
        sql_type(field, db, overrides) == sql_type(field, db, Seq::empty()),
        rust_type(field, db, overrides).len() > 0,
        diesel_column_type(field, db, overrides).len() > 0,
        sql_type(field, db, overrides).len() > 0,
{
    reveal_strlit("i32");
    reveal_strlit("uuid::Uuid");
    reveal_strlit("u32");
    reveal_strlit("String");
    reveal_strlit("f64");
    reveal_strlit("bool");
    reveal_strlit("Integer");
    reveal_strlit("Uuid");
    reveal_strlit("Unsigned<Integer>");
    reveal_strlit("Text");
    reveal_strlit("Double");
    reveal_strlit("Bool");
    reveal_strlit("INTEGER");
    reveal_strlit("UUID");
    reveal_strlit("INT UNSIGNED");
    reveal_strlit("TEXT");
    reveal_strlit("REAL");
    reveal_strlit("BOOLEAN");
    reveal_strlit("TINYINT(1)");
}

/// The kind of a relationship between two types.
#[derive(Clone, Copy, Debug, PartialEq, Eq, Structural)]
pub enum RelationshipType {
    /// The owning type holds the key of the related type.
    BelongsTo,
    /// Reserved: never inferred.
    HasMany,
    /// Reserved: never inferred.
    HasOne,
}

/// A relationship inferred from a field's name.
#[derive(Debug, Clone)]
pub struct Relationship {
    /// The field that holds the key.
    pub field_name: String,
    /// The type that the key points to.
    pub related_type: String,
    pub relationship_type: RelationshipType,
    /// Whether the field is a foreign key.
    pub foreign_key: bool,
}

/// Model of a `Relationship`.
pub struct RelationshipView {
    pub field_name: Seq<char>,
    pub related_type: Seq<char>,
    pub relationship_type: RelationshipType,
    pub foreign_key: bool,
}

impl DeepView for Relationship {
    type V = RelationshipView;

    open spec fn deep_view(&self) -> RelationshipView {
        RelationshipView {
            field_name: self.field_name@,
            related_type: self.related_type@,
            relationship_type: self.relationship_type,
            foreign_key: self.foreign_key,
        }
    }
}

impl View for Relationship {
    type V = RelationshipView;

    open spec fn view(&self) -> RelationshipView {
        self.deep_view()
    }
}

/// Whether a name has the shape of a foreign key: it ends in `Id` and has
/// something before that.
pub open spec fn has_foreign_key_shape(name: Seq<char>) -> bool {
    "Id"@.is_suffix_of(name) && name.len() > 2
}

/// Tells whether a name has the shape of a foreign key.
pub fn is_foreign_key_name(name: &str) -> (shaped: bool)
    ensures
        shaped == has_foreign_key_shape(name@),
{
    ends_with(name, "Id") && name.unicode_len() > 2
}

/// The type that a field of this name points to, if the name has the shape
/// of a foreign key. The type's name is what stands before `Id`, with
/// `capital` in place of its first character.
pub open spec fn related_type(name: Seq<char>, capital: Seq<char>) -> Option<Seq<char>> {
    if has_foreign_key_shape(name) {
        Some(capital + name.subrange(1, name.len() - 2))
    } else {
        None
    }
}

/// The type that a field of this name points to, if the name has the shape
/// of a foreign key: what stands before `Id`, its first character in
/// uppercase.
pub open spec fn foreign_key_target(name: Seq<char>) -> Option<Seq<char>> {
    if name.len() == 0 {
        None
    } else {
        related_type(name, char_uppercase_text(name[0]))
    }
}

/// Names the type that a field of this name points to, given the uppercase
/// form of the name's first character.
pub fn related_type_of(name: &str, capital: &str) -> (target: Option<String>)
    ensures
        target.deep_view() == related_type(name@, capital@),
{
    let n: usize = name.unicode_len();
    if is_foreign_key_name(name) {
        let mut related = String::from_str(capital);
        related.append(name.substring_char(1, n - 2));
        Some(related)
    } else {
        None
    }
}

/// Tells whether a field looks like a foreign key, and names the type it
/// would point to.
pub fn is_foreign_key_field(field: &ParsedField) -> (target: Option<String>)
    ensures
        target.deep_view() == foreign_key_target(field@.name),
{
    let name = field.name.as_str();
    if name.unicode_len() == 0 {
        None
    } else {
        let capital = uppercase_text(name.get_char(0));
        related_type_of(name, capital.as_str())
    }
}

/// The names that point to a type are exactly those with the shape of a
/// foreign key.
pub proof fn lemma_foreign_key_shape(name: Seq<char>)
    ensures
        foreign_key_target(name) is Some <==> has_foreign_key_shape(name),
{
}

/// A field called `id` is never taken for a foreign key, and gives rise to
/// no relationship, whatever the types of the schema.
pub proof fn lemma_id_is_no_foreign_key(field: ParsedFieldView, types: Entries<ParsedTypeView>)
    requires
        field.name == "id"@,
    ensures
        !has_foreign_key_shape(field.name),
        foreign_key_target(field.name).is_none(),
        relationship_of(field, types).is_none(),
{
    reveal_strlit("id");
}

/// The relationship that `field` gives rise to among `types`: one to the type
/// its name points to, if that type exists.
pub open spec fn relationship_of(
    field: ParsedFieldView,
    types: Entries<ParsedTypeView>,
) -> Option<RelationshipView> {
    match foreign_key_target(field.name) {
        Some(target) => if has_name(types, target) {
            Some(
                RelationshipView {
                    field_name: field.name,
                    related_type: target,
                    relationship_type: RelationshipType::BelongsTo,
                    foreign_key: true,
                },
            )
        } else {
            None
        },
        None => None,
    }
}

/// The relationships of a list of fields, in field order.
pub open spec fn relationships_of(
    fields: Seq<ParsedFieldView>,
    types: Entries<ParsedTypeView>,
) -> Seq<RelationshipView>
    decreases fields.len(),
{
    if fields.len() == 0 {
        Seq::empty()
    } else {
        match relationship_of(fields.last(), types) {
            Some(relationship) => relationships_of(fields.drop_last(), types).push(relationship),
            None => relationships_of(fields.drop_last(), types),
        }
    }
}

/// The relationships found in the first `n` types: one entry for each object
/// that has any, in the order of the types.
pub open spec fn relationships_among(
    types: Entries<ParsedTypeView>,
    n: nat,
) -> Entries<Seq<RelationshipView>>
    decreases n,
{
    if n == 0 {
        Seq::empty()
    } else {
        let before = relationships_among(types, (n - 1) as nat);
        let found = relationships_of(types[n - 1].1.fields, types);
        if types[n - 1].1.kind == TypeKind::Object && found.len() > 0 {
            before.push((types[n - 1].0, found))
        } else {
            before
        }
    }
}

/// The relationships of a schema.
pub open spec fn schema_relationships(types: Entries<ParsedTypeView>) -> Entries<
    Seq<RelationshipView>,
> {
    relationships_among(types, types.len())
}

/// Every entry of `relationships_among` carries the name of one of the first
/// `n` types, has at least one relationship, and holds only inbound foreign
/// keys.
pub proof fn lemma_relationships_among(types: Entries<ParsedTypeView>, n: nat)
    requires
        n <= types.len(),
    ensures
        forall|k: int|
            0 <= k < relationships_among(types, n).len() ==> {
                &&& exists|j: int|
                    0 <= j < n && (#[trigger] types[j]).0 == relationships_among(types, n)[k].0
                &&& (#[trigger] relationships_among(types, n)[k]).1.len() > 0
            },
    decreases n,
{
    if n > 0 {
        lemma_relationships_among(types, (n - 1) as nat);
        let before = relationships_among(types, (n - 1) as nat);
        let after = relationships_among(types, n);
        assert forall|k: int| 0 <= k < after.len() implies {
            &&& exists|j: int| 0 <= j < n && (#[trigger] types[j]).0 == after[k].0
            &&& (#[trigger] after[k]).1.len() > 0
        } by {
            if k < before.len() {
                assert(after[k] == before[k]);
                let j = choose|j: int| 0 <= j < n - 1 && (#[trigger] types[j]).0 == before[k].0;
                assert(0 <= j < n && types[j].0 == after[k].0);
            } else {
                assert(types[n - 1].0 == after[k].0);
            }
        }
    }
}

/// Every inferred relationship is an inbound foreign key.
pub proof fn lemma_relationships_are_inbound(
    fields: Seq<ParsedFieldView>,
    types: Entries<ParsedTypeView>,
)
    ensures
        forall|k: int|
            0 <= k < relationships_of(fields, types).len() ==> {
                &&& (#[trigger] relationships_of(fields, types)[k]).relationship_type
                    == RelationshipType::BelongsTo
                &&& relationships_of(fields, types)[k].foreign_key
                &&& has_name(types, relationships_of(fields, types)[k].related_type)
            },
    decreases fields.len(),
{
    if fields.len() > 0 {
        lemma_relationships_are_inbound(fields.drop_last(), types);
    }
}

/// Collects the relationships of one type's fields.
fn relationships_for(fields: &Vec<ParsedField>, types: &NameMap<ParsedType>) -> (found: Vec<
    Relationship,
>)
    ensures
        found.deep_view() == relationships_of(fields.deep_view(), types@),
{
    let mut found: Vec<Relationship> = Vec::new();
    let n: usize = fields.len();
    let mut i: usize = 0;
    assert(found.deep_view() =~= relationships_of(fields.deep_view().take(0), types@));
    while i < n
        invariant
            i <= n,
            n == fields@.len(),
            found.deep_view() == relationships_of(fields.deep_view().take(i as int), types@),
        decreases n - i,
    {
        let field = &fields[i];
        proof {
            let all = fields.deep_view();
            assert(all.take(i + 1).drop_last() =~= all.take(i as int));
            assert(all.take(i + 1).last() == field@);
        }
        let ghost before = found.deep_view();
        if let Some(related_type) = is_foreign_key_field(field) {
            if types.contains_key(related_type.as_str()) {
                let relationship = Relationship {
                    field_name: field.name.clone(),
                    related_type,
                    relationship_type: RelationshipType::BelongsTo,
                    foreign_key: true,
                };
                found.push(relationship);
                assert(found.deep_view() =~= before.push(relationship@));
            }
        }
        i = i + 1;
    }
    assert(fields.deep_view().take(n as int) =~= fields.deep_view());
    found
}

/// Infers the relationships between the types of a schema from the names of
/// their fields. Only objects are examined, and a type without relationships
/// gets no entry.
pub fn detect_relationships(schema: &ParsedSchema) -> (relationships: NameMap<Vec<Relationship>>)
    ensures
        relationships@ == schema_relationships(schema@.types),
{
    let mut relationships: NameMap<Vec<Relationship>> = NameMap::new();
    let n: usize = schema.types.len();
    let mut i: usize = 0;
    while i < n
        invariant
            i <= n,
            n == schema.types@.len(),
            relationships@ == relationships_among(schema.types@, i as nat),
        decreases n - i,
    {
        let owner = schema.types.name_at(i);
        let parsed_type = schema.types.value_at(i);
        match parsed_type.kind {
            TypeKind::Object => {
                let found = relationships_for(&parsed_type.fields, &schema.types);
                if found.len() > 0 {
                    schema.types.names_are_distinct();
                    proof {
                        let types = schema.types@;
                        let before = relationships@;
                        lemma_relationships_among(types, i as nat);
                        lemma_position_of(before, owner@);
                        if has_name(before, owner@) {
                            let k = position_of(before, owner@) as int;
                            let j = choose|j: int|
                                0 <= j < i && (#[trigger] types[j]).0 == before[k].0;
                            assert(types[j].0 != types[i as int].0);
                        }
                    }
                    relationships.insert(owner.clone(), found);
                }
            },
            _ => {},
        }
        i = i + 1;
    }
    relationships
}

/// One migration: its name, and the SQL that applies and reverts it.
#[derive(Debug)]
pub struct MigrationFile {
    pub name: String,
    pub up_sql: String,
    pub down_sql: String,
}

/// Model of a `MigrationFile`.
pub struct MigrationFileView {
    pub name: Seq<char>,
    pub up_sql: Seq<char>,
    pub down_sql: Seq<char>,
}

impl DeepView for MigrationFile {
    type V = MigrationFileView;

    open spec fn deep_view(&self) -> MigrationFileView {
        MigrationFileView { name: self.name@, up_sql: self.up_sql@, down_sql: self.down_sql@ }
    }
}

impl View for MigrationFile {
    type V = MigrationFileView;

    open spec fn view(&self) -> MigrationFileView {
        self.deep_view()
    }
}

/// The schema file that backend `orm` emits.
pub open spec fn schema_text(orm: OrmType, schema: ParsedSchemaView, config: ConfigView) -> Seq<
    char,
> {
    match orm {
        OrmType::Diesel => diesel::schema_text(schema, config),
        OrmType::SeaOrm => sea_orm::module_index(schema),
    }
}

/// The entity files that backend `orm` emits: file name to file text.
pub open spec fn entity_files(
    orm: OrmType,
    schema: ParsedSchemaView,
    config: ConfigView,
) -> Entries<Seq<char>> {
    match orm {
        OrmType::Diesel => diesel::entity_files(schema, config),
        OrmType::SeaOrm => sea_orm::entity_files(schema, config),
    }
}

/// The migrations that backend `orm` emits in a run at the time
/// `timestamp`. The entity-model backend stamps the names of its migrations
/// with the time; the table-declaration backend has no use for it.
pub open spec fn migration_files(
    orm: OrmType,
    schema: ParsedSchemaView,
    config: ConfigView,
    timestamp: int,
) -> Seq<MigrationFileView> {
    match orm {
        OrmType::Diesel => diesel::migrations(schema, config),
        OrmType::SeaOrm => sea_orm::migrations(schema, config, timestamp),
    }
}

/// What a backend emits from a schema. There are two backends, and each
/// says which one it is.
pub trait CodeGenerator {
    /// The backend that this generator emits for.
    spec fn backend(&self) -> OrmType;

    /// Writes the schema file.
    fn generate_schema(&self, schema: &ParsedSchema, config: &Config) -> (text: String)
        ensures
            text@ == schema_text(self.backend(), schema@, config@),
    ;

    /// Writes the entity files, by file name.
    fn generate_entities(&self, schema: &ParsedSchema, config: &Config) -> (files: NameMap<
        String,
    >)
        ensures
            files@ == entity_files(self.backend(), schema@, config@),
    ;

    /// Writes the migrations, in the order of the types, for a run at the
    /// time `timestamp`, in seconds since 1970.
    fn generate_migrations(&self, schema: &ParsedSchema, config: &Config, timestamp: i64) -> (migrations:
        Vec<MigrationFile>)
        ensures
            migrations.deep_view() == migration_files(
                self.backend(),
                schema@,
                config@,
                timestamp as int,
            ),
    ;
}

/// The two backends behind one interface.
#[derive(Clone, Copy, Debug)]
pub enum Backend {
    Diesel(diesel::DieselGenerator),
    SeaOrm(sea_orm::SeaOrmGenerator),
}

impl CodeGenerator for Backend {
    open spec fn backend(&self) -> OrmType {
        match self {
            Backend::Diesel(generator) => generator.backend(),
            Backend::SeaOrm(generator) => generator.backend(),
        }
    }

    fn generate_schema(&self, schema: &ParsedSchema, config: &Config) -> (text: String) {
        match self {
            Backend::Diesel(generator) => generator.generate_schema(schema, config),
            Backend::SeaOrm(generator) => generator.generate_schema(schema, config),
        }
    }

    fn generate_entities(&self, schema: &ParsedSchema, config: &Config) -> (files: NameMap<
        String,
    >) {
        match self {
            Backend::Diesel(generator) => generator.generate_entities(schema, config),
            Backend::SeaOrm(generator) => generator.generate_entities(schema, config),
        }
    }

    fn generate_migrations(&self, schema: &ParsedSchema, config: &Config, timestamp: i64) -> (migrations:
        Vec<MigrationFile>) {
        match self {
            Backend::Diesel(generator) => generator.generate_migrations(schema, config, timestamp),
            Backend::SeaOrm(generator) => generator.generate_migrations(schema, config, timestamp),
        }
    }
}

/// Makes the generator of the backend `orm`.
pub fn create_generator(orm: &OrmType) -> (generator: Backend)
    ensures
        generator.backend() == *orm,
{
    match orm {
        OrmType::Diesel => Backend::Diesel(diesel::DieselGenerator::new()),
        OrmType::SeaOrm => Backend::SeaOrm(sea_orm::SeaOrmGenerator::new()),
    }
}

/// A schema without types and enums yields no entity file and no migration,
/// whatever the backend, the settings and the time.
pub proof fn lemma_empty_schema_emits_nothing(
    orm: OrmType,
    schema: ParsedSchemaView,
    config: ConfigView,
    timestamp: int,
)
    requires
        schema.types.len() == 0,
        schema.enums.len() == 0,
    ensures
        entity_files(orm, schema, config).len() == 0,
        migration_files(orm, schema, config, timestamp).len() == 0,
{
}

} // verus!
