//! What holds of every translation.

use crate::ast::{Item, Keyword, Member, Module, Property, TypeExpr};
use crate::codegen::outcome;
use crate::encoder::{type_text, DefinitionModel, TypeModel};
use crate::error::{Error, ErrorKind, ErrorModel};
use crate::invariants::{
    definition_name, extends, lemma_extends_concat, lemma_extends_transitive,
};
use crate::manifest::{classify, GraphQLKind, Manifest};
use crate::naming::spec_upper_camel_case;
use crate::parsed::{FieldKind, ParsedFieldModel};
use crate::resolve::{
    failure, finalize, lemma_resolve_arguments_fails, lemma_resolve_members_fails,
    lemma_translate_items_fails, nullable, resolve_argument, resolve_arguments, resolve_field,
    resolve_fields, resolve_function, resolve_member, resolve_members, resolve_reference,
    resolve_type, scalar_name, schema_of,
    sole_non_nullable, synthesize, translate, translate_item, translate_items, unwrap_union,
    Position, Resolved, ResolvedField,
};
use vstd::prelude::*;

verus! {

/// `!` behind a type that may not be absent, nothing behind one that may.
pub open spec fn bang(optional: bool) -> Seq<char> {
    if optional {
        Seq::empty()
    } else {
        "!"@
    }
}

/// A property of a primitive type becomes a field of the scalar type. The
/// field prints with `!` behind its type where the property is required, and
/// without where it is optional.
pub proof fn law_primitive_nullability(
    manifest: Map<Seq<char>, GraphQLKind>,
    pos: Position,
    kind: FieldKind,
    owner: Seq<char>,
    prop: Property,
)
    requires
        prop.key is Some,
        prop.ty matches Some(TypeExpr::Keyword(keyword)) && scalar_name(keyword) is Some,
    ensures
        ({
            let scalar = scalar_name(prop.ty->0->Keyword_0)->0;
            let key = prop.key->0@;
            &&& resolve_field(manifest, pos, kind, owner, prop) == Ok::<ResolvedField, ErrorModel>(
                ResolvedField {
                    field: ParsedFieldModel::plain(
                        kind,
                        key,
                        finalize(TypeModel::Named(scalar), prop.optional),
                    ),
                    defs: Seq::empty(),
                },
            )
            &&& type_text(finalize(TypeModel::Named(scalar), prop.optional)) == scalar + bang(
                prop.optional,
            )
            &&& ParsedFieldModel::plain(
                kind,
                key,
                finalize(TypeModel::Named(scalar), prop.optional),
            ).text() == "  "@ + key + ": "@ + scalar + bang(prop.optional)
        }),
{
    let scalar = scalar_name(prop.ty->0->Keyword_0)->0;
    assert(type_text(TypeModel::Named(scalar)) == scalar);
    assert(scalar + Seq::<char>::empty() == scalar);
    let key = prop.key->0@;
    let field = ParsedFieldModel::plain(
        kind,
        key,
        finalize(TypeModel::Named(scalar), prop.optional),
    );
    let head = "  "@ + key + ": "@;
    assert(head + (scalar + bang(prop.optional)) == head + scalar + bang(prop.optional));
    if kind == FieldKind::Object {
        assert("  "@ + key + Seq::<char>::empty() == "  "@ + key);
    }
}

/// A list type is the list of its element resolved as optional. Whether the
/// list itself is optional decides nothing but the `!` behind the closing
/// bracket: the elements, the definitions and a failure are the same either
/// way.
pub proof fn law_array_nullability(
    manifest: Map<Seq<char>, GraphQLKind>,
    pos: Position,
    field_name: Seq<char>,
    elem: TypeExpr,
    optional: bool,
)
    ensures
        match resolve_type(manifest, pos, field_name, TypeExpr::Array(Box::new(elem)), true) {
            Ok(list) => {
                &&& list.ty is List
                &&& !(pos == Position::Output && elem is Literal) ==> (resolve_type(
                    manifest,
                    pos,
                    field_name,
                    elem,
                    true,
                ) matches Ok(inner) && *list.ty->List_0 == inner.ty)
                &&& resolve_type(
                    manifest,
                    pos,
                    field_name,
                    TypeExpr::Array(Box::new(elem)),
                    optional,
                ) == Ok::<Resolved, ErrorModel>(
                    Resolved { ty: finalize(list.ty, optional), ..list },
                )
                &&& type_text(finalize(list.ty, optional)) == "["@ + type_text(*list.ty->List_0)
                    + "]"@ + bang(optional)
            },
            Err(e) => resolve_type(
                manifest,
                pos,
                field_name,
                TypeExpr::Array(Box::new(elem)),
                optional,
            ) == Err::<Resolved, ErrorModel>(e),
        },
{
    let array = TypeExpr::Array(Box::new(elem));
    match resolve_type(manifest, pos, field_name, array, true) {
        Ok(list) => {
            let text = "["@ + type_text(*list.ty->List_0) + "]"@;
            assert(type_text(list.ty) == text);
            assert(text + Seq::<char>::empty() == text);
        },
        Err(e) => {},
    }
}

/// A list of lists prints with two pairs of brackets around the element.
pub proof fn law_nested_array(
    manifest: Map<Seq<char>, GraphQLKind>,
    pos: Position,
    field_name: Seq<char>,
    elem: TypeExpr,
    optional: bool,
)
    requires
        !(pos == Position::Output && elem is Literal),
    ensures
        match resolve_type(manifest, pos, field_name, elem, true) {
            Ok(inner) => resolve_type(
                manifest,
                pos,
                field_name,
                TypeExpr::Array(Box::new(TypeExpr::Array(Box::new(elem)))),
                optional,
            ) matches Ok(nested) && type_text(nested.ty) == "[["@ + type_text(inner.ty) + "]]"@
                + bang(optional),
            Err(e) => resolve_type(
                manifest,
                pos,
                field_name,
                TypeExpr::Array(Box::new(TypeExpr::Array(Box::new(elem)))),
                optional,
            ) == Err::<Resolved, ErrorModel>(e),
        },
{
    reveal_strlit("[[");
    reveal_strlit("]]");
    reveal_strlit("[");
    reveal_strlit("]");
    let array = TypeExpr::Array(Box::new(elem));
    law_array_nullability(manifest, pos, field_name, elem, true);
    law_array_nullability(manifest, pos, field_name, array, optional);
    match resolve_type(manifest, pos, field_name, elem, true) {
        Ok(inner) => {
            let t = type_text(inner.ty);
            assert("["@ + ("["@ + t + "]"@ + Seq::<char>::empty()) + "]"@ == "[["@ + t + "]]"@);
            assert(bang(true) == Seq::<char>::empty());
        },
        Err(e) => {},
    }
}

/// Translating the same module under the same manifest gives the same
/// result: the same text, character for character, or the same failure.
pub proof fn law_translation_repeats(
    manifest: Manifest,
    again: Manifest,
    module: Module,
    first: Result<String, Error>,
    second: Result<String, Error>,
)
    requires
        manifest@ == again@,
        outcome(first) == schema_of(manifest@, module),
        outcome(second) == schema_of(again@, module),
    ensures
        outcome(first) == outcome(second),
{
}

/// Whether `ty` is an object literal, and if not, whether it is a well-formed
/// union around one.
pub open spec fn inline_object(ty: TypeExpr, context: Seq<char>) -> bool {
    ty is Literal || (ty matches TypeExpr::Union(types) && (unwrap_union(types@, context)
        matches Ok(i) && types@[i] is Literal))
}

/// An object literal in an argument becomes an input type, and so does a
/// union of an object literal with `null` or `undefined`. The name of the
/// type is the field's name in upper camel case and `Input`, followed, unless
/// the argument is the only one, by the argument's name in upper camel case.
/// The definition of the type is the last that the argument gives. The
/// argument keeps its own name and refers to the new type; it may be absent
/// where the property is optional or a union.
pub proof fn law_input_type_name(
    manifest: Map<Seq<char>, GraphQLKind>,
    field_name: Seq<char>,
    member: Member,
    member_count: nat,
)
    requires
        member matches Member::Property(prop) && prop.key is Some && (prop.ty matches Some(ty)
            && inline_object(ty, prop.key->0@)),
        resolve_argument(manifest, field_name, member, member_count) is Ok,
    ensures
        ({
            let prop = member->Property_0;
            let key = prop.key->0@;
            let resolved = resolve_argument(manifest, field_name, member, member_count)->Ok_0;
            let name = if member_count == 1 {
                spec_upper_camel_case(field_name) + "Input"@
            } else {
                spec_upper_camel_case(field_name) + "Input"@ + spec_upper_camel_case(key)
            };
            &&& resolved.arg.name == key
            &&& resolved.arg.ty == finalize(
                TypeModel::Named(name),
                prop.optional || prop.ty->0 is Union,
            )
            &&& resolved.defs.len() > 0
            &&& resolved.defs.last() matches DefinitionModel::Input(def) && def.name == name
        }),
{
}

/// The arguments of a field follow the members of the function's parameter,
/// one for one and in order. What an argument defines, the field defines.
pub proof fn law_arguments_follow_members(
    manifest: Map<Seq<char>, GraphQLKind>,
    pos: Position,
    field_name: Seq<char>,
    ty: TypeExpr,
    optional: bool,
    i: int,
)
    requires
        ty matches TypeExpr::Function { params, .. } && params@.len() == 1 && (
        params@[0] matches Some(TypeExpr::Literal(members)) && 0 <= i < members@.len()),
        resolve_type(manifest, pos, field_name, ty, optional) is Ok,
    ensures
        ({
            let members = ty->Function_params@[0]->0->Literal_0@;
            let resolved = resolve_type(manifest, pos, field_name, ty, optional)->Ok_0;
            let argument = resolve_argument(manifest, field_name, members[i], members.len());
            &&& argument is Ok
            &&& resolved.args matches Some(args) && args.len() == members.len() && args[i]
                == argument->Ok_0.arg
            &&& extends(resolved.defs, argument->Ok_0.defs)
        }),
{
    let members = ty->Function_params@[0]->0->Literal_0@;
    let arguments = resolve_arguments(manifest, field_name, members, members.len());
    let returned = resolve_type(manifest, Position::Output, field_name, *ty->Function_ret, true);
    assert(resolve_type(manifest, pos, field_name, ty, optional) == resolve_function(
        manifest,
        field_name,
        ty,
    ));
    assert(arguments is Ok && returned is Ok);
    lemma_arguments_follow_members(manifest, field_name, members, members.len(), i);
    lemma_extends_concat(arguments->Ok_0.defs, returned->Ok_0.defs);
    lemma_extends_transitive(
        arguments->Ok_0.defs + returned->Ok_0.defs,
        arguments->Ok_0.defs,
        resolve_argument(manifest, field_name, members[i], members.len())->Ok_0.defs,
    );
}

/// Of the first `n` members, member `i` gives argument `i`, and what it
/// defines is defined by the whole.
proof fn lemma_arguments_follow_members(
    manifest: Map<Seq<char>, GraphQLKind>,
    field_name: Seq<char>,
    members: Seq<Member>,
    n: nat,
    i: int,
)
    requires
        0 <= i < n <= members.len(),
        resolve_arguments(manifest, field_name, members, n) is Ok,
    ensures
        ({
            let resolved = resolve_arguments(manifest, field_name, members, n)->Ok_0;
            let argument = resolve_argument(manifest, field_name, members[i], members.len());
            &&& argument is Ok
            &&& resolved.args.len() == n
            &&& resolved.args[i] == argument->Ok_0.arg
            &&& extends(resolved.defs, argument->Ok_0.defs)
        }),
    decreases n,
{
    let before = resolve_arguments(manifest, field_name, members, (n - 1) as nat)->Ok_0;
    let last = resolve_argument(manifest, field_name, members[n - 1], members.len())->Ok_0;
    lemma_arguments_count(manifest, field_name, members, (n - 1) as nat);
    lemma_extends_concat(before.defs, last.defs);
    if i < n - 1 {
        lemma_arguments_follow_members(manifest, field_name, members, (n - 1) as nat, i);
        lemma_extends_transitive(
            before.defs + last.defs,
            before.defs,
            resolve_argument(manifest, field_name, members[i], members.len())->Ok_0.defs,
        );
    }
}

/// The first `n` members give `n` arguments.
proof fn lemma_arguments_count(
    manifest: Map<Seq<char>, GraphQLKind>,
    field_name: Seq<char>,
    members: Seq<Member>,
    n: nat,
)
    requires
        n <= members.len(),
    ensures
        resolve_arguments(manifest, field_name, members, n) matches Ok(r) ==> r.args.len() == n,
    decreases n,
{
    if n > 0 {
        lemma_arguments_count(manifest, field_name, members, (n - 1) as nat);
    }
}

/// What an object literal gives ends in the definition that holds its
/// fields, under the name and of the kind that were asked for; the
/// definitions synthesized for its fields come before.
pub proof fn law_definition_comes_last(
    manifest: Map<Seq<char>, GraphQLKind>,
    pos: Position,
    kind: FieldKind,
    name: Seq<char>,
    ty: TypeExpr,
)
    ensures
        synthesize(manifest, pos, kind, name, ty) matches Ok(defs) ==> defs.len() > 0
            && definition_name(defs.last()) == name && (defs.last() is Input <==> kind
            == FieldKind::Input),
{
}

/// A name that the manifest holds as an input type fails wherever it stands
/// outside of an argument.
pub proof fn law_input_type_outside_arguments(
    manifest: Map<Seq<char>, GraphQLKind>,
    pos: Position,
    field_name: Seq<char>,
    ty: TypeExpr,
    optional: bool,
)
    requires
        pos != Position::Input,
        ty matches TypeExpr::Reference { name: Some(ident), .. } && ident@ != "Promise"@
            && classify(manifest, ident@) == Some(GraphQLKind::Input),
    ensures
        resolve_type(manifest, pos, field_name, ty, optional) == failure::<Resolved>(
            ErrorKind::PositionalViolation,
            ty->Reference_name->0@,
        ),
{
    assert(resolve_reference(
        manifest,
        pos,
        field_name,
        ty->Reference_name,
        ty->Reference_type_params,
        optional,
    ) is Err);
}

/// A name that the manifest holds as an object type fails wherever it stands
/// in an argument.
pub proof fn law_object_type_in_arguments(
    manifest: Map<Seq<char>, GraphQLKind>,
    field_name: Seq<char>,
    ty: TypeExpr,
    optional: bool,
)
    requires
        ty matches TypeExpr::Reference { name: Some(ident), .. } && ident@ != "Promise"@
            && classify(manifest, ident@) == Some(GraphQLKind::Object),
    ensures
        resolve_type(manifest, Position::Input, field_name, ty, optional) == failure::<Resolved>(
            ErrorKind::PositionalViolation,
            ty->Reference_name->0@,
        ),
{
    assert(resolve_reference(
        manifest,
        Position::Input,
        field_name,
        ty->Reference_name,
        ty->Reference_type_params,
        optional,
    ) is Err);
}

/// Whether `ty` names a type other than `Promise` that the manifest holds
/// with the given kind.
pub open spec fn refers_to(
    manifest: Map<Seq<char>, GraphQLKind>,
    ty: TypeExpr,
    kind: GraphQLKind,
) -> bool {
    ty matches TypeExpr::Reference { name: Some(ident), .. } && ident@ != "Promise"@ && classify(
        manifest,
        ident@,
    ) == Some(kind)
}

/// Whether item `i` of the module is a type alias that the manifest holds,
/// and member `j` of its object literal is the property `prop`.
pub open spec fn declares(
    manifest: Map<Seq<char>, GraphQLKind>,
    module: Module,
    i: int,
    j: int,
    prop: Property,
) -> bool {
    &&& 0 <= i < module.body@.len()
    &&& module.body@[i] matches Item::TypeAlias { name, ty }
    &&& classify(manifest, name@) is Some
    &&& ty matches TypeExpr::Literal(members)
    &&& 0 <= j < members@.len()
    &&& members@[j] == Member::Property(prop)
}

/// A module in which a declared type has a property whose type is an input
/// type of the manifest does not translate.
pub proof fn law_input_type_as_field_fails(
    manifest: Map<Seq<char>, GraphQLKind>,
    module: Module,
    i: int,
    j: int,
    prop: Property,
)
    requires
        declares(manifest, module, i, j, prop),
        prop.key is Some,
        prop.ty matches Some(ty) && refers_to(manifest, ty, GraphQLKind::Input),
    ensures
        translate(manifest, module) is Err,
        schema_of(manifest, module) is Err,
{
    let name = module.body@[i]->TypeAlias_name@;
    let kind = if classify(manifest, name) == Some(GraphQLKind::Input) {
        FieldKind::Input
    } else {
        FieldKind::Object
    };
    law_input_type_outside_arguments(
        manifest,
        Position::Field,
        prop.key->0@,
        prop.ty->0,
        prop.optional,
    );
    lemma_property_fails(manifest, module, i, j, prop, kind);
}

/// A module in which a declared type has a function-typed property with an
/// argument whose type is an object type of the manifest does not translate.
pub proof fn law_object_type_as_argument_fails(
    manifest: Map<Seq<char>, GraphQLKind>,
    module: Module,
    i: int,
    j: int,
    prop: Property,
    k: int,
    arg: Property,
)
    requires
        declares(manifest, module, i, j, prop),
        prop.key is Some,
        prop.ty matches Some(TypeExpr::Function { params, .. }) && params@.len() == 1 && (
        params@[0] matches Some(TypeExpr::Literal(args)) && 0 <= k < args@.len() && args@[k]
            == Member::Property(arg)),
        arg.key is Some,
        arg.ty matches Some(ty) && refers_to(manifest, ty, GraphQLKind::Object),
    ensures
        translate(manifest, module) is Err,
        schema_of(manifest, module) is Err,
{
    let name = module.body@[i]->TypeAlias_name@;
    let kind = if classify(manifest, name) == Some(GraphQLKind::Input) {
        FieldKind::Input
    } else {
        FieldKind::Object
    };
    let key = prop.key->0@;
    let args = prop.ty->0->Function_params@[0]->0->Literal_0@;
    law_object_type_in_arguments(manifest, arg.key->0@, arg.ty->0, arg.optional);
    assert(resolve_type(manifest, Position::Field, key, prop.ty->0, prop.optional)
        == resolve_function(manifest, key, prop.ty->0));
    assert(resolve_argument(manifest, key, args[k], args.len()) is Err);
    assert(resolve_arguments(manifest, key, args, (k + 1) as nat) is Err);
    lemma_resolve_arguments_fails(manifest, key, args, (k + 1) as nat, args.len());
    assert(resolve_type(manifest, Position::Field, key, prop.ty->0, prop.optional) is Err);
    lemma_property_fails(manifest, module, i, j, prop, kind);
}

/// A property that does not resolve fails the translation of its module.
proof fn lemma_property_fails(
    manifest: Map<Seq<char>, GraphQLKind>,
    module: Module,
    i: int,
    j: int,
    prop: Property,
    kind: FieldKind,
)
    requires
        declares(manifest, module, i, j, prop),
        kind == if classify(manifest, module.body@[i]->TypeAlias_name@) == Some(
            GraphQLKind::Input,
        ) {
            FieldKind::Input
        } else {
            FieldKind::Object
        },
        resolve_field(
            manifest,
            Position::Field,
            kind,
            module.body@[i]->TypeAlias_name@,
            prop,
        ) is Err,
    ensures
        translate(manifest, module) is Err,
        schema_of(manifest, module) is Err,
{
    let items = module.body@;
    let name = items[i]->TypeAlias_name@;
    let ty = items[i]->TypeAlias_ty;
    let members = ty->Literal_0@;
    assert(resolve_member(manifest, Position::Field, kind, name, members[j]) is Err);
    assert(resolve_members(manifest, Position::Field, kind, name, members, (j + 1) as nat) is Err);
    lemma_resolve_members_fails(
        manifest,
        Position::Field,
        kind,
        name,
        members,
        (j + 1) as nat,
        members.len(),
    );
    assert(resolve_fields(manifest, Position::Field, kind, name, ty) is Err);
    assert(synthesize(manifest, Position::Field, kind, name, ty) is Err);
    assert(translate_item(manifest, items[i]) is Err);
    assert(translate_items(manifest, items, (i + 1) as nat) is Err);
    lemma_translate_items_fails(manifest, items, (i + 1) as nat, items.len());
}

/// Whether `ty` is the plain name `ident`.
pub open spec fn names(ty: TypeExpr, ident: Seq<char>) -> bool {
    ty matches TypeExpr::Reference { name: Some(inner), .. } && inner@ == ident
}

/// Whether `ty` is the union of the plain name `ident` and `null` or
/// `undefined`.
pub open spec fn names_or_null(ty: TypeExpr, ident: Seq<char>) -> bool {
    &&& ty matches TypeExpr::Union(types)
    &&& types@.len() == 2
    &&& names(types@[0], ident)
    &&& types@[1] == TypeExpr::Keyword(Keyword::Null) || types@[1] == TypeExpr::Keyword(
        Keyword::Undefined,
    )
}

/// A promise around a name and `null` or `undefined` resolves to the named
/// type, which may be absent and prints without `!`. A promise around the
/// name alone resolves to the named type wrapped in non-null, which prints
/// with `!`. Whether the property is optional does not count.
pub proof fn law_promise_nullability(
    manifest: Map<Seq<char>, GraphQLKind>,
    pos: Position,
    field_name: Seq<char>,
    promise: TypeExpr,
    ident: Seq<char>,
    optional: bool,
)
    requires
        promise matches TypeExpr::Reference { name: Some(wrapper), type_params: Some(params) }
            && wrapper@ == "Promise"@ && params@.len() == 1,
        ident != "Promise"@,
        classify(manifest, ident) matches Some(kind) && (kind == GraphQLKind::Object ==> pos
            != Position::Input) && (kind == GraphQLKind::Input ==> pos == Position::Input),
    ensures
        type_text(TypeModel::Named(ident)) == ident,
        type_text(TypeModel::NonNull(Box::new(TypeModel::Named(ident)))) == ident + "!"@,
        names(promise->Reference_type_params->0@[0], ident) ==> resolve_type(
            manifest,
            pos,
            field_name,
            promise,
            optional,
        ) == Ok::<Resolved, ErrorModel>(
            Resolved {
                ty: TypeModel::NonNull(Box::new(TypeModel::Named(ident))),
                args: None,
                defs: Seq::empty(),
            },
        ),
        names_or_null(promise->Reference_type_params->0@[0], ident) ==> resolve_type(
            manifest,
            pos,
            field_name,
            promise,
            optional,
        ) == Ok::<Resolved, ErrorModel>(
            Resolved { ty: TypeModel::Named(ident), args: None, defs: Seq::empty() },
        ),
{
    let param = promise->Reference_type_params->0@[0];
    assert(type_text(TypeModel::Named(ident)) == ident);
    let unwrapped = resolve_reference(
        manifest,
        pos,
        field_name,
        promise->Reference_name,
        promise->Reference_type_params,
        optional,
    );
    assert(resolve_type(manifest, pos, field_name, promise, optional) == unwrapped);
    if names(param, ident) {
        let inner = resolve_reference(
            manifest,
            pos,
            field_name,
            param->Reference_name,
            param->Reference_type_params,
            false,
        );
        assert(inner is Ok);
        assert(resolve_type(manifest, pos, field_name, param, false) == inner);
    }
    if names_or_null(param, ident) {
        let types = param->Union_0@;
        assert(nullable(types[1]));
        assert(!nullable(types[0]));
        assert(sole_non_nullable(types, 0));
        let chosen = choose|c: int| sole_non_nullable(types, c);
        assert(chosen == 0);
        assert(unwrap_union(types, field_name) == Ok::<int, ErrorModel>(0));
        let inner = resolve_reference(
            manifest,
            pos,
            field_name,
            types[0]->Reference_name,
            types[0]->Reference_type_params,
            true,
        );
        assert(inner is Ok);
        assert(resolve_type(manifest, pos, field_name, types[0], true) == inner);
    }
}

} // verus!
