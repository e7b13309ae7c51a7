//! What a translation yields, as a function of the module and the manifest.
//!
//! A translation walks each declared type, left to right and depth first. It
//! yields the definitions in the order in which they are completed: a type
//! synthesized for a field comes before the definition that holds the field.
//! The first failure met on the walk is the translation's result.

use crate::ast::{Item, Keyword, Member, Module, Property, TypeExpr};
use crate::encoder::{
    definitions_text, DefinitionModel, FieldModel, InputObjectDefModel, InputValueModel,
    ObjectDefModel, TypeModel,
};
use crate::error::{ErrorKind, ErrorModel};
use crate::manifest::{classify, GraphQLKind};
use crate::naming::{input_type_name, output_type_name};
use crate::parsed::{FieldKind, ParsedFieldModel};
use vstd::prelude::*;

verus! {

/// Where a type expression stands.
#[derive(Debug, Clone, Copy, PartialEq, Eq, Structural)]
pub enum Position {
    /// The type of a property, outside any function type.
    Field,
    /// Inside the parameter of a function type: the type of an argument.
    Input,
    /// Inside the return type of a function type.
    Output,
}

/// A resolved type expression: the GraphQL type, the arguments where the
/// expression is a function type, and the definitions synthesized on the way.
pub struct Resolved {
    pub ty: TypeModel,
    pub args: Option<Seq<InputValueModel>>,
    pub defs: Seq<DefinitionModel>,
}

/// The fields of one definition, and the definitions synthesized for them.
pub struct ResolvedFields {
    pub fields: Seq<ParsedFieldModel>,
    pub defs: Seq<DefinitionModel>,
}

/// One field, and the definitions synthesized for it.
pub struct ResolvedField {
    pub field: ParsedFieldModel,
    pub defs: Seq<DefinitionModel>,
}

/// The arguments of one field, and the definitions synthesized for them.
pub struct ResolvedArguments {
    pub args: Seq<InputValueModel>,
    pub defs: Seq<DefinitionModel>,
}

/// One argument, and the definitions synthesized for it.
pub struct ResolvedArgument {
    pub arg: InputValueModel,
    pub defs: Seq<DefinitionModel>,
}

/// The failure of the given kind at `context`.
pub open spec fn failure<T>(kind: ErrorKind, context: Seq<char>) -> Result<T, ErrorModel> {
    Err(ErrorModel { kind, context })
}

/// The scalar that a keyword stands for: `string` is `String`, `number` is
/// `Int`, `boolean` is `Boolean`. No other keyword stands for one.
pub open spec fn scalar_name(keyword: Keyword) -> Option<Seq<char>> {
    match keyword {
        Keyword::Str => Some("String"@),
        Keyword::Number => Some("Int"@),
        Keyword::Boolean => Some("Boolean"@),
        _ => None,
    }
}

/// `ty` itself where the value may be absent, `ty` wrapped in non-null where
/// it may not.
pub open spec fn finalize(ty: TypeModel, optional: bool) -> TypeModel {
    if optional {
        ty
    } else {
        TypeModel::NonNull(Box::new(ty))
    }
}

/// Whether a type expression admits no value: `null`, `undefined`, or a union
/// with a member that does.
pub open spec fn nullable(ty: TypeExpr) -> bool
    decreases ty,
{
    match ty {
        TypeExpr::Union(types) => exists|i: int|
            0 <= i < types@.len() && nullable(#[trigger] types@[i]),
        TypeExpr::Keyword(keyword) => keyword == Keyword::Null || keyword == Keyword::Undefined,
        _ => false,
    }
}

/// Whether `types[i]` is not nullable while every other member is.
pub open spec fn sole_non_nullable(types: Seq<TypeExpr>, i: int) -> bool {
    &&& 0 <= i < types.len()
    &&& !nullable(types[i])
    &&& forall|j: int| 0 <= j < types.len() && j != i ==> nullable(#[trigger] types[j])
}

/// The index of the one member of a union that is not nullable. A union
/// stands for a type that may be absent: it has one member that is not
/// nullable and at least one that is. Any other union is malformed.
pub open spec fn unwrap_union(types: Seq<TypeExpr>, context: Seq<char>) -> Result<int, ErrorModel> {
    if types.len() >= 2 && exists|i: int| sole_non_nullable(types, i) {
        Ok(choose|i: int| sole_non_nullable(types, i))
    } else {
        failure(ErrorKind::MalformedUnion, context)
    }
}

/// The definition of the given kind with the given name and fields.
pub open spec fn definition(
    kind: FieldKind,
    name: Seq<char>,
    fields: Seq<ParsedFieldModel>,
) -> DefinitionModel {
    match kind {
        FieldKind::Input => DefinitionModel::Input(
            InputObjectDefModel {
                name,
                fields: Seq::new(fields.len(), |i: int| fields[i]->Input_0),
            },
        ),
        FieldKind::Object => DefinitionModel::Object(
            ObjectDefModel { name, fields: Seq::new(fields.len(), |i: int| fields[i]->Object_0) },
        ),
    }
}

/// The type of a field named `field_name` whose declared type is `ty`.
///
/// - A keyword gives its scalar.
/// - `T[]` gives a list of `T` resolved as optional. In a return type, an
///   object literal `T` first becomes an object type named after the field.
/// - A name is looked up; `Promise<T>` is unwrapped.
/// - A function type gives the type of what it returns, resolved as
///   optional, and one argument for each member of its one parameter.
/// - A union gives its member that is not nullable, resolved as optional.
///
/// A keyword, a list or a name is wrapped in non-null unless `optional`
/// holds; a promise, a function type or a union decides for itself.
pub open spec fn resolve_type(
    manifest: Map<Seq<char>, GraphQLKind>,
    pos: Position,
    field_name: Seq<char>,
    ty: TypeExpr,
    optional: bool,
) -> Result<Resolved, ErrorModel>
    decreases ty, 1nat,
{
    match ty {
        TypeExpr::Keyword(keyword) => match scalar_name(keyword) {
            Some(name) => Ok(
                Resolved {
                    ty: finalize(TypeModel::Named(name), optional),
                    args: None,
                    defs: Seq::empty(),
                },
            ),
            None => failure(ErrorKind::UnsupportedShape, field_name),
        },
        TypeExpr::Array(elem) => if pos == Position::Output && *elem is Literal {
            let name = output_type_name(field_name);
            match synthesize(manifest, pos, FieldKind::Object, name, *elem) {
                Ok(defs) => Ok(
                    Resolved {
                        ty: finalize(
                            TypeModel::List(Box::new(TypeModel::Named(name))),
                            optional,
                        ),
                        args: None,
                        defs,
                    },
                ),
                Err(e) => Err(e),
            }
        } else {
            match resolve_type(manifest, pos, field_name, *elem, true) {
                Ok(inner) => Ok(
                    Resolved {
                        ty: finalize(TypeModel::List(Box::new(inner.ty)), optional),
                        args: None,
                        defs: inner.defs,
                    },
                ),
                Err(e) => Err(e),
            }
        },
        TypeExpr::Reference { name, type_params } => resolve_reference(
            manifest,
            pos,
            field_name,
            name,
            type_params,
            optional,
        ),
        TypeExpr::Function { .. } => resolve_function(manifest, field_name, ty),
        TypeExpr::Union(types) => match unwrap_union(types@, field_name) {
            Ok(i) => resolve_type(manifest, pos, field_name, types@[i], true),
            Err(e) => Err(e),
        },
        TypeExpr::Literal(_) => failure(ErrorKind::UnsupportedShape, field_name),
        TypeExpr::Other => failure(ErrorKind::UnsupportedShape, field_name),
    }
}

/// The type and the arguments of a field whose declared type is the function
/// type `ty`. The function takes one parameter, an object literal; each of
/// its members gives one argument, resolved in input position. What the
/// function returns gives the type, resolved as optional in output position.
/// The definitions synthesized for the arguments come before those
/// synthesized for the type.
pub open spec fn resolve_function(
    manifest: Map<Seq<char>, GraphQLKind>,
    field_name: Seq<char>,
    ty: TypeExpr,
) -> Result<Resolved, ErrorModel>
    decreases ty, 0nat,
{
    match ty {
        TypeExpr::Function { params, ret } => if params@.len() != 1 {
            failure(ErrorKind::StructuralViolation, field_name)
        } else {
            match params@[0] {
                Some(TypeExpr::Literal(members)) => match resolve_arguments(
                    manifest,
                    field_name,
                    members@,
                    members@.len(),
                ) {
                    Ok(arguments) => match resolve_type(
                        manifest,
                        Position::Output,
                        field_name,
                        *ret,
                        true,
                    ) {
                        Ok(returned) => Ok(
                            Resolved {
                                ty: returned.ty,
                                args: Some(arguments.args),
                                defs: arguments.defs + returned.defs,
                            },
                        ),
                        Err(e) => Err(e),
                    },
                    Err(e) => Err(e),
                },
                _ => failure(ErrorKind::StructuralViolation, field_name),
            }
        },
        _ => failure(ErrorKind::UnsupportedShape, field_name),
    }
}

/// The type that a name with its type parameters stands for.
///
/// A name other than `Promise` must be in the manifest. An object type may
/// not be named in an argument, nor an input type anywhere else.
///
/// `Promise` takes one parameter and stands for it. A union there is resolved
/// as optional, anything else as required; an object literal first becomes an
/// object type named after the field. `optional` does not count for a
/// promise.
pub open spec fn resolve_reference(
    manifest: Map<Seq<char>, GraphQLKind>,
    pos: Position,
    field_name: Seq<char>,
    name: Option<String>,
    type_params: Option<Vec<TypeExpr>>,
    optional: bool,
) -> Result<Resolved, ErrorModel>
    decreases type_params, 0nat,
{
    match name {
        None => failure(ErrorKind::UnsupportedShape, field_name),
        Some(ident) => if ident@ != "Promise"@ {
            match classify(manifest, ident@) {
                None => failure(ErrorKind::UndefinedReference, ident@),
                Some(kind) => if kind == GraphQLKind::Object && pos == Position::Input {
                    failure(ErrorKind::PositionalViolation, ident@)
                } else if kind == GraphQLKind::Input && pos != Position::Input {
                    failure(ErrorKind::PositionalViolation, ident@)
                } else {
                    Ok(
                        Resolved {
                            ty: finalize(TypeModel::Named(ident@), optional),
                            args: None,
                            defs: Seq::empty(),
                        },
                    )
                },
            }
        } else {
            match type_params {
                None => failure(ErrorKind::UnsupportedShape, field_name),
                Some(params) => if params@.len() != 1 {
                    failure(ErrorKind::UnsupportedShape, field_name)
                } else {
                    match params@[0] {
                        TypeExpr::Union(types) => match unwrap_union(types@, field_name) {
                            Ok(i) => if types@[i] is Literal {
                                let name = output_type_name(field_name);
                                match synthesize(
                                    manifest,
                                    pos,
                                    FieldKind::Object,
                                    name,
                                    types@[i],
                                ) {
                                    Ok(defs) => Ok(
                                        Resolved { ty: TypeModel::Named(name), args: None, defs },
                                    ),
                                    Err(e) => Err(e),
                                }
                            } else {
                                resolve_type(manifest, pos, field_name, types@[i], true)
                            },
                            Err(e) => Err(e),
                        },
                        TypeExpr::Literal(_) => {
                            let name = output_type_name(field_name);
                            match synthesize(manifest, pos, FieldKind::Object, name, params@[0]) {
                                Ok(defs) => Ok(
                                    Resolved {
                                        ty: TypeModel::NonNull(
                                            Box::new(TypeModel::Named(name)),
                                        ),
                                        args: None,
                                        defs,
                                    },
                                ),
                                Err(e) => Err(e),
                            }
                        },
                        _ => resolve_type(manifest, pos, field_name, params@[0], false),
                    }
                },
            }
        },
    }
}

/// The argument that one member of a function's parameter stands for. The
/// argument keeps the member's name.
///
/// An object literal becomes an input type, named after the field and, unless
/// it is the only member, after the member too. A union must be one type
/// that may be absent. Anything else is resolved as a type in input position
/// under the member's name.
pub open spec fn resolve_argument(
    manifest: Map<Seq<char>, GraphQLKind>,
    field_name: Seq<char>,
    member: Member,
    member_count: nat,
) -> Result<ResolvedArgument, ErrorModel>
    decreases member, 0nat,
{
    match member {
        Member::Other => failure(ErrorKind::UnsupportedShape, field_name),
        Member::Property(prop) => match prop.key {
            None => failure(ErrorKind::UnsupportedShape, field_name),
            Some(key) => match prop.ty {
                None => failure(ErrorKind::UnsupportedShape, key@),
                Some(TypeExpr::Literal(_)) => {
                    let name = input_type_name(field_name, key@, member_count);
                    match synthesize(
                        manifest,
                        Position::Input,
                        FieldKind::Input,
                        name,
                        prop.ty->0,
                    ) {
                        Ok(defs) => Ok(
                            ResolvedArgument {
                                arg: InputValueModel {
                                    name: key@,
                                    ty: finalize(TypeModel::Named(name), prop.optional),
                                },
                                defs,
                            },
                        ),
                        Err(e) => Err(e),
                    }
                },
                Some(TypeExpr::Union(types)) => match unwrap_union(types@, key@) {
                    Ok(i) => if types@[i] is Literal {
                        let name = input_type_name(field_name, key@, member_count);
                        match synthesize(
                            manifest,
                            Position::Input,
                            FieldKind::Input,
                            name,
                            types@[i],
                        ) {
                            Ok(defs) => Ok(
                                ResolvedArgument {
                                    arg: InputValueModel { name: key@, ty: TypeModel::Named(name) },
                                    defs,
                                },
                            ),
                            Err(e) => Err(e),
                        }
                    } else {
                        match resolve_type(manifest, Position::Input, key@, types@[i], true) {
                            Ok(inner) => Ok(
                                ResolvedArgument {
                                    arg: InputValueModel { name: key@, ty: inner.ty },
                                    defs: inner.defs,
                                },
                            ),
                            Err(e) => Err(e),
                        }
                    },
                    Err(e) => Err(e),
                },
                Some(other) => match resolve_type(
                    manifest,
                    Position::Input,
                    key@,
                    other,
                    prop.optional,
                ) {
                    Ok(inner) => Ok(
                        ResolvedArgument {
                            arg: InputValueModel { name: key@, ty: inner.ty },
                            defs: inner.defs,
                        },
                    ),
                    Err(e) => Err(e),
                },
            },
        },
    }
}

/// The arguments that the first `n` of `members` stand for, in order.
pub open spec fn resolve_arguments(
    manifest: Map<Seq<char>, GraphQLKind>,
    field_name: Seq<char>,
    members: Seq<Member>,
    n: nat,
) -> Result<ResolvedArguments, ErrorModel>
    decreases members, n,
{
    if n == 0 || n > members.len() {
        Ok(ResolvedArguments { args: Seq::empty(), defs: Seq::empty() })
    } else {
        match resolve_arguments(manifest, field_name, members, (n - 1) as nat) {
            Err(e) => Err(e),
            Ok(before) => match resolve_argument(
                manifest,
                field_name,
                members[n - 1],
                members.len(),
            ) {
                Err(e) => Err(e),
                Ok(last) => Ok(
                    ResolvedArguments {
                        args: before.args.push(last.arg),
                        defs: before.defs + last.defs,
                    },
                ),
            },
        }
    }
}

/// The definitions that an object literal gives under the name `name`: those
/// synthesized for its fields, then the definition of the given kind that
/// holds the fields.
pub open spec fn synthesize(
    manifest: Map<Seq<char>, GraphQLKind>,
    pos: Position,
    kind: FieldKind,
    name: Seq<char>,
    ty: TypeExpr,
) -> Result<Seq<DefinitionModel>, ErrorModel>
    decreases ty, 2nat,
{
    match resolve_fields(manifest, pos, kind, name, ty) {
        Ok(resolved) => Ok(resolved.defs.push(definition(kind, name, resolved.fields))),
        Err(e) => Err(e),
    }
}

/// The fields that the members of an object literal stand for. Only an object
/// literal has fields.
pub open spec fn resolve_fields(
    manifest: Map<Seq<char>, GraphQLKind>,
    pos: Position,
    kind: FieldKind,
    owner: Seq<char>,
    ty: TypeExpr,
) -> Result<ResolvedFields, ErrorModel>
    decreases ty, 1nat,
{
    match ty {
        TypeExpr::Literal(members) => resolve_members(
            manifest,
            pos,
            kind,
            owner,
            members@,
            members@.len(),
        ),
        _ => failure(ErrorKind::UnsupportedShape, owner),
    }
}

/// The fields that the first `n` of `members` stand for, in order. Every
/// member must be a property.
pub open spec fn resolve_members(
    manifest: Map<Seq<char>, GraphQLKind>,
    pos: Position,
    kind: FieldKind,
    owner: Seq<char>,
    members: Seq<Member>,
    n: nat,
) -> Result<ResolvedFields, ErrorModel>
    decreases members, n,
{
    if n == 0 || n > members.len() {
        Ok(ResolvedFields { fields: Seq::empty(), defs: Seq::empty() })
    } else {
        match resolve_members(manifest, pos, kind, owner, members, (n - 1) as nat) {
            Err(e) => Err(e),
            Ok(before) => match resolve_member(manifest, pos, kind, owner, members[n - 1]) {
                Err(e) => Err(e),
                Ok(last) => Ok(
                    ResolvedFields {
                        fields: before.fields.push(last.field),
                        defs: before.defs + last.defs,
                    },
                ),
            },
        }
    }
}

/// The one field that a member of the definition `owner` stands for. The
/// member must be a property.
pub open spec fn resolve_member(
    manifest: Map<Seq<char>, GraphQLKind>,
    pos: Position,
    kind: FieldKind,
    owner: Seq<char>,
    member: Member,
) -> Result<ResolvedField, ErrorModel>
    decreases member, 1nat,
{
    match member {
        Member::Other => failure(ErrorKind::UnsupportedShape, owner),
        Member::Property(prop) => resolve_field(manifest, pos, kind, owner, prop),
    }
}

/// The one field that a property of the definition `owner` stands for. The
/// field keeps the property's name. Only a field of an object type can have
/// arguments.
pub open spec fn resolve_field(
    manifest: Map<Seq<char>, GraphQLKind>,
    pos: Position,
    kind: FieldKind,
    owner: Seq<char>,
    prop: Property,
) -> Result<ResolvedField, ErrorModel>
    decreases prop, 0nat,
{
    match prop.key {
        None => failure(ErrorKind::UnsupportedShape, owner),
        Some(key) => match prop.ty {
            None => failure(ErrorKind::UnsupportedShape, key@),
            Some(ty) => match resolve_type(manifest, pos, key@, ty, prop.optional) {
                Err(e) => Err(e),
                Ok(resolved) => match resolved.args {
                    None => Ok(
                        ResolvedField {
                            field: ParsedFieldModel::plain(kind, key@, resolved.ty),
                            defs: resolved.defs,
                        },
                    ),
                    Some(args) => if kind == FieldKind::Object {
                        Ok(
                            ResolvedField {
                                field: ParsedFieldModel::Object(
                                    FieldModel { name: key@, ty: resolved.ty, args },
                                ),
                                defs: resolved.defs,
                            },
                        )
                    } else {
                        failure(ErrorKind::StructuralViolation, key@)
                    },
                },
            },
        },
    }
}

/// The definitions that one item of a module gives. A type alias whose name
/// the manifest holds gives a definition of its kind, an input type for
/// `Input` and an object type for any other kind, after those synthesized for
/// its fields. A type alias that the manifest does not hold gives nothing,
/// and neither does an import or export. Any other statement is a failure.
pub open spec fn translate_item(manifest: Map<Seq<char>, GraphQLKind>, item: Item) -> Result<
    Seq<DefinitionModel>,
    ErrorModel,
> {
    match item {
        Item::TypeAlias { name, ty } => match classify(manifest, name@) {
            Some(GraphQLKind::Input) => synthesize(
                manifest,
                Position::Field,
                FieldKind::Input,
                name@,
                ty,
            ),
            Some(_) => synthesize(manifest, Position::Field, FieldKind::Object, name@, ty),
            None => Ok(Seq::empty()),
        },
        Item::ModuleDecl => Ok(Seq::empty()),
        Item::Other => failure(ErrorKind::UnsupportedShape, ""@),
    }
}

/// The definitions that the first `n` of `items` give, in order.
pub open spec fn translate_items(
    manifest: Map<Seq<char>, GraphQLKind>,
    items: Seq<Item>,
    n: nat,
) -> Result<Seq<DefinitionModel>, ErrorModel>
    decreases n,
{
    if n == 0 || n > items.len() {
        Ok(Seq::empty())
    } else {
        match translate_items(manifest, items, (n - 1) as nat) {
            Err(e) => Err(e),
            Ok(before) => match translate_item(manifest, items[n - 1]) {
                Err(e) => Err(e),
                Ok(last) => Ok(before + last),
            },
        }
    }
}

/// The definitions that a module gives under a manifest.
pub open spec fn translate(manifest: Map<Seq<char>, GraphQLKind>, module: Module) -> Result<
    Seq<DefinitionModel>,
    ErrorModel,
> {
    translate_items(manifest, module.body@, module.body@.len())
}

/// The schema text that a module gives under a manifest: its definitions,
/// printed in order.
pub open spec fn schema_of(manifest: Map<Seq<char>, GraphQLKind>, module: Module) -> Result<
    Seq<char>,
    ErrorModel,
> {
    match translate(manifest, module) {
        Ok(defs) => Ok(definitions_text(defs)),
        Err(e) => Err(e),
    }
}

/// Once the walk over the items has failed, it stays failed.
pub proof fn lemma_translate_items_fails(
    manifest: Map<Seq<char>, GraphQLKind>,
    items: Seq<Item>,
    k: nat,
    n: nat,
)
    requires
        k <= n <= items.len(),
        translate_items(manifest, items, k) is Err,
    ensures
        translate_items(manifest, items, n) == translate_items(manifest, items, k),
    decreases n - k,
{
    if k < n {
        lemma_translate_items_fails(manifest, items, k, (n - 1) as nat);
    }
}

/// Once the walk over the members has failed, it stays failed.
pub proof fn lemma_resolve_members_fails(
    manifest: Map<Seq<char>, GraphQLKind>,
    pos: Position,
    kind: FieldKind,
    owner: Seq<char>,
    members: Seq<Member>,
    k: nat,
    n: nat,
)
    requires
        k <= n <= members.len(),
        resolve_members(manifest, pos, kind, owner, members, k) is Err,
    ensures
        resolve_members(manifest, pos, kind, owner, members, n) == resolve_members(
            manifest,
            pos,
            kind,
            owner,
            members,
            k,
        ),
    decreases n - k,
{
    if k < n {
        lemma_resolve_members_fails(manifest, pos, kind, owner, members, k, (n - 1) as nat);
    }
}

/// Once the walk over the arguments has failed, it stays failed.
pub proof fn lemma_resolve_arguments_fails(
    manifest: Map<Seq<char>, GraphQLKind>,
    field_name: Seq<char>,
    members: Seq<Member>,
    k: nat,
    n: nat,
)
    requires
        k <= n <= members.len(),
        resolve_arguments(manifest, field_name, members, k) is Err,
    ensures
        resolve_arguments(manifest, field_name, members, n) == resolve_arguments(
            manifest,
            field_name,
            members,
            k,
        ),
    decreases n - k,
{
    if k < n {
        lemma_resolve_arguments_fails(manifest, field_name, members, k, (n - 1) as nat);
    }
}

} // verus!
