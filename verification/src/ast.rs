//! The type declarations that a translation reads: a parsed module, reduced to
//! the shapes that matter here.

use vstd::prelude::*;

verus! {

/// A keyword type.
#[derive(Debug, Clone, Copy, PartialEq, Eq, Structural)]
pub enum Keyword {
    Str,
    Number,
    Boolean,
    Null,
    Undefined,
    /// Any other keyword, such as `any` or `bigint`.
    Other,
}

/// A type expression.
#[derive(Debug)]
pub enum TypeExpr {
    /// `string`, `number`, `null` and the like.
    Keyword(Keyword),
    /// `T[]`.
    Array(Box<TypeExpr>),
    /// `Name` or `Name<Params>`. The name is `None` where it is not a plain
    /// identifier.
    Reference { name: Option<String>, type_params: Option<Vec<TypeExpr>> },
    /// `{ a: T; b?: U }`.
    Literal(Vec<Member>),
    /// `(params) => Ret`. A parameter is `None` where it is not an identifier
    /// with a type.
    Function { params: Vec<Option<TypeExpr>>, ret: Box<TypeExpr> },
    /// `A | B`.
    Union(Vec<TypeExpr>),
    /// Any other type expression, such as an intersection.
    Other,
}

/// A property of an object literal.
#[derive(Debug)]
pub struct Property {
    /// The property's name; `None` where the key is not a plain identifier.
    pub key: Option<String>,
    /// The property's type; `None` where none is written.
    pub ty: Option<TypeExpr>,
    /// Whether the property is marked with `?`.
    pub optional: bool,
}

/// A member of an object literal.
#[derive(Debug)]
pub enum Member {
    Property(Property),
    /// Any other member, such as a method or an index signature.
    Other,
}

/// A top-level item of a module.
#[derive(Debug)]
pub enum Item {
    /// `type Name = T`.
    TypeAlias { name: String, ty: TypeExpr },
    /// An import or export, which a translation skips.
    ModuleDecl,
    /// Any other statement.
    Other,
}

/// A parsed module: its items in source order.
#[derive(Debug)]
pub struct Module {
    pub body: Vec<Item>,
}

} // verus!
