use vstd::prelude::*;

verus! {

/// A GraphQL type reference as written in a variable definition.
pub enum TypeRef {
    /// A named type such as `Int` or `Cursor`.
    Named(String),
    /// A list type `[T]`.
    List(Box<TypeRef>),
    /// A non-null type `T!`.
    NonNull(Box<TypeRef>),
}

/// One variable of an operation, as declared: `$name: ty`.
pub struct VariableDef {
    pub name: String,
    pub ty: TypeRef,
}

/// The definitions of a schema or operation document that the generator reads.
#[allow(inconsistent_fields)]
pub enum Definition {
    /// `scalar Name`
    Scalar { name: String },
    /// A query or mutation; `name` is `None` for an anonymous operation.
    Operation { name: Option<String>, variables: Vec<VariableDef> },
    /// Every other construct (object types, fragments, ...), which is ignored.
    Other,
}

} // verus!
