use vstd::prelude::*;

verus! {

/// A path as it stands in an attribute, such as `repr` or `::core::prelude`.
pub struct MetaPath {
    /// Whether the path starts with `::`.
    pub leading_colon: bool,
    pub segments: Vec<String>,
}

/// One argument inside the parentheses of a list attribute.
///
/// A nested list keeps only its path: nothing inside it is ever read.
pub enum NestedMeta {
    /// A bare path, as `u8` in `repr(u8)`.
    Path(MetaPath),
    /// A list, as `allow(dead_code)` in `cfg_attr(test, allow(dead_code))`.
    List(MetaPath),
    /// A `path = literal` pair.
    NameValue(MetaPath),
    /// A literal.
    Lit,
}

/// The structured form of an attribute.
pub enum Meta {
    /// `#[path]`
    Path(MetaPath),
    /// `#[path(arguments, ...)]`
    List(MetaPath, Vec<NestedMeta>),
    /// `#[path = literal]`
    NameValue(MetaPath),
}

/// An attribute attached to the enum; `meta` is `None` when it has no structured form.
pub struct Attribute {
    pub meta: Option<Meta>,
}

/// An explicit discriminant written on a variant.
pub enum Discriminant {
    /// An integer literal, given by its decimal digits (no sign, separators or suffix).
    Int(String),
    /// Any other expression or literal.
    Other,
}

/// One variant of the enum, in declaration order.
pub struct Variant {
    pub name: String,
    pub discriminant: Option<Discriminant>,
}

/// The shape of the type under derivation.
pub enum Data {
    Enum(Vec<Variant>),
    Struct,
    Union,
}

/// The type that the derive is applied to.
pub struct DeriveInput {
    pub name: String,
    pub attrs: Vec<Attribute>,
    pub data: Data,
}

/// The path is the single identifier `word`.
pub open spec fn is_ident(p: MetaPath, word: Seq<char>) -> bool {
    !p.leading_colon && p.segments@.len() == 1 && p.segments@[0]@ == word
}

} // verus!
