use vstd::prelude::*;
use crate::model::TypeRef;

verus! {

/// The built-in GraphQL scalars that a variable may have.
#[derive(PartialEq, Eq, Structural, Clone, Copy, Debug)]
pub enum ScalarKind {
    Int,
    Str,
    Bool,
    Float,
}

/// The generated type of a variable: its scalar and whether a value is required.
#[derive(PartialEq, Eq, Structural, Clone, Copy, Debug)]
pub struct TargetType {
    pub kind: ScalarKind,
    pub required: bool,
}

/// The alias that a custom scalar of the schema is given.
#[derive(PartialEq, Eq, Structural, Clone, Copy, Debug)]
pub enum ScalarAlias {
    /// `Vec<String>`
    StringList,
    /// `String`
    Str,
}

/// The built-in scalar that a GraphQL type name denotes, if any.
pub open spec fn builtin_kind(name: Seq<char>) -> Option<ScalarKind> {
    if name == "Int"@ {
        Some(ScalarKind::Int)
    } else if name == "String"@ || name == "ID"@ {
        Some(ScalarKind::Str)
    } else if name == "Boolean"@ {
        Some(ScalarKind::Bool)
    } else if name == "Float"@ {
        Some(ScalarKind::Float)
    } else {
        None
    }
}

/// The target type of a variable type: a named built-in scalar is optional,
/// a non-null named built-in scalar is required; lists, custom scalars and
/// deeper nesting have none.
pub open spec fn target_of(t: TypeRef) -> Option<TargetType> {
    match t {
        TypeRef::Named(n) => match builtin_kind(n@) {
            Some(k) => Some(TargetType { kind: k, required: false }),
            None => None,
        },
        TypeRef::NonNull(inner) => match *inner {
            TypeRef::Named(n) => match builtin_kind(n@) {
                Some(k) => Some(TargetType { kind: k, required: true }),
                None => None,
            },
            _ => None,
        },
        TypeRef::List(_) => None,
    }
}

/// Whether a type reference is a list, nullable or not.
pub open spec fn is_list_type(t: TypeRef) -> bool {
    match t {
        TypeRef::List(_) => true,
        TypeRef::NonNull(inner) => *inner is List,
        TypeRef::Named(_) => false,
    }
}

/// The alias of a custom scalar: `JSON` is a list of strings, any other name a string.
pub open spec fn alias_of(name: Seq<char>) -> ScalarAlias {
    if name == "JSON"@ {
        ScalarAlias::StringList
    } else {
        ScalarAlias::Str
    }
}

/// Whether two strings hold the same characters.
pub fn same_text(a: &str, b: &str) -> (r: bool)
    ensures
        r == (a@ == b@),
{
    let n = a.unicode_len();
    if n != b.unicode_len() {
        return false;
    }
    let mut i: usize = 0;
    while i < n
        invariant
            n == a@.len(),
            n == b@.len(),
            i <= n,
            a@.subrange(0, i as int) == b@.subrange(0, i as int),
        decreases n - i,
    {
        if a.get_char(i) != b.get_char(i) {
            assert(a@[i as int] != b@[i as int]);
            return false;
        }
        assert(a@.subrange(0, i + 1) == a@.subrange(0, i as int).push(a@[i as int]));
        assert(b@.subrange(0, i + 1) == b@.subrange(0, i as int).push(b@[i as int]));
        i = i + 1;
    }
    assert(a@ == a@.subrange(0, n as int));
    assert(b@ == b@.subrange(0, n as int));
    true
}

/// The built-in scalar named `name`, if it is one.
pub fn builtin_scalar(name: &str) -> (r: Option<ScalarKind>)
    ensures
        r == builtin_kind(name@),
{
    if same_text(name, "Int") {
        Some(ScalarKind::Int)
    } else if same_text(name, "String") || same_text(name, "ID") {
        Some(ScalarKind::Str)
    } else if same_text(name, "Boolean") {
        Some(ScalarKind::Bool)
    } else if same_text(name, "Float") {
        Some(ScalarKind::Float)
    } else {
        None
    }
}

/// Maps the type of a variable to its target type. The mapping looks through
/// one non-null wrapper only; a list, nullable or not, is unsupported.
pub fn map_variable_type(t: &TypeRef) -> (r: Option<TargetType>)
    ensures
        r == target_of(*t),
        is_list_type(*t) ==> r is None,
{
    match t {
        TypeRef::Named(n) => match builtin_scalar(n.as_str()) {
            Some(k) => Some(TargetType { kind: k, required: false }),
            None => None,
        },
        TypeRef::NonNull(inner) => match &**inner {
            TypeRef::Named(n) => match builtin_scalar(n.as_str()) {
                Some(k) => Some(TargetType { kind: k, required: true }),
                None => None,
            },
            _ => None,
        },
        TypeRef::List(_) => None,
    }
}

/// Maps a custom scalar of the schema to its alias.
pub fn map_scalar(name: &str) -> (r: ScalarAlias)
    ensures
        r == alias_of(name@),
        name@ == "JSON"@ ==> r == ScalarAlias::StringList,
        name@ != "JSON"@ ==> r == ScalarAlias::Str,
{
    if same_text(name, "JSON") {
        ScalarAlias::StringList
    } else {
        ScalarAlias::Str
    }
}

} // verus!
