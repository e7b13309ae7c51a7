//! What holds of every schema that a translation yields: its types are well
//! formed, and every name in them is known.

use crate::ast::{Item, Member, Module, Property, TypeExpr};
use crate::encoder::{DefinitionModel, FieldModel, InputValueModel, TypeModel};
use crate::manifest::GraphQLKind;
use crate::naming::{input_type_name, output_type_name};
use crate::parsed::{FieldKind, ParsedFieldModel};
use crate::resolve::{
    definition, finalize, resolve_argument, resolve_arguments, resolve_field, resolve_fields,
    resolve_function, resolve_member, resolve_members, resolve_reference, resolve_type,
    scalar_name, synthesize,
    translate, translate_item, translate_items, unwrap_union, Position, Resolved,
};
use vstd::prelude::*;

verus! {

/// Whether no non-null type wraps a non-null type directly, anywhere in `t`.
pub open spec fn well_formed(t: TypeModel) -> bool
    decreases t,
{
    match t {
        TypeModel::Named(_) => true,
        TypeModel::List(inner) => well_formed(*inner),
        TypeModel::NonNull(inner) => !(*inner is NonNull) && well_formed(*inner),
    }
}

/// The name at the core of a type, inside its lists and non-null wrappers.
pub open spec fn base_name(t: TypeModel) -> Seq<char>
    decreases t,
{
    match t {
        TypeModel::Named(name) => name,
        TypeModel::List(inner) => base_name(*inner),
        TypeModel::NonNull(inner) => base_name(*inner),
    }
}

/// Whether `name` is one of the built-in scalars that a keyword stands for.
pub open spec fn is_scalar(name: Seq<char>) -> bool {
    name == "String"@ || name == "Int"@ || name == "Boolean"@
}

/// The name of a definition.
pub open spec fn definition_name(d: DefinitionModel) -> Seq<char> {
    match d {
        DefinitionModel::Object(o) => o.name,
        DefinitionModel::Input(i) => i.name,
    }
}

/// Whether one of `defs` has the name `name`.
pub open spec fn defines(defs: Seq<DefinitionModel>, name: Seq<char>) -> bool {
    exists|i: int| 0 <= i < defs.len() && definition_name(#[trigger] defs[i]) == name
}

/// Whether `name` is a built-in scalar, a name of the manifest, or the name
/// of one of `defs`.
pub open spec fn known(
    manifest: Map<Seq<char>, GraphQLKind>,
    defs: Seq<DefinitionModel>,
    name: Seq<char>,
) -> bool {
    is_scalar(name) || manifest.contains_key(name) || defines(defs, name)
}

/// Whether a type is well formed and its name is known.
pub open spec fn sound_type(
    manifest: Map<Seq<char>, GraphQLKind>,
    defs: Seq<DefinitionModel>,
    t: TypeModel,
) -> bool {
    well_formed(t) && known(manifest, defs, base_name(t))
}

/// Whether the type of every argument is sound.
#[verifier::opaque]
pub open spec fn sound_arguments(
    manifest: Map<Seq<char>, GraphQLKind>,
    defs: Seq<DefinitionModel>,
    args: Seq<InputValueModel>,
) -> bool {
    forall|i: int| 0 <= i < args.len() ==> sound_type(manifest, defs, (#[trigger] args[i]).ty)
}

/// Whether the type of a field and the types of its arguments are sound.
pub open spec fn sound_field(
    manifest: Map<Seq<char>, GraphQLKind>,
    defs: Seq<DefinitionModel>,
    field: ParsedFieldModel,
) -> bool {
    match field {
        ParsedFieldModel::Input(f) => sound_type(manifest, defs, f.ty),
        ParsedFieldModel::Object(f) => sound_type(manifest, defs, f.ty) && sound_arguments(
            manifest,
            defs,
            f.args,
        ),
    }
}

/// Whether every field of a definition is sound.
#[verifier::opaque]
pub open spec fn sound_definition(
    manifest: Map<Seq<char>, GraphQLKind>,
    defs: Seq<DefinitionModel>,
    d: DefinitionModel,
) -> bool {
    match d {
        DefinitionModel::Object(o) => forall|i: int|
            0 <= i < o.fields.len() ==> sound_field(
                manifest,
                defs,
                ParsedFieldModel::Object(#[trigger] o.fields[i]),
            ),
        DefinitionModel::Input(o) => forall|i: int|
            0 <= i < o.fields.len() ==> sound_field(
                manifest,
                defs,
                ParsedFieldModel::Input(#[trigger] o.fields[i]),
            ),
    }
}

/// Whether every one of `defs` is sound, where the names of `all` are known.
#[verifier::opaque]
pub open spec fn sound_definitions(
    manifest: Map<Seq<char>, GraphQLKind>,
    all: Seq<DefinitionModel>,
    defs: Seq<DefinitionModel>,
) -> bool {
    forall|i: int| 0 <= i < defs.len() ==> sound_definition(manifest, all, #[trigger] defs[i])
}

/// Every schema that a translation yields is sound. No non-null type in it
/// wraps a non-null type. Every name in the type of a field or of an
/// argument is a built-in scalar, a name of the manifest, or the name of a
/// definition of the schema itself.
pub proof fn law_schema_is_sound(manifest: Map<Seq<char>, GraphQLKind>, module: Module)
    ensures
        translate(manifest, module) matches Ok(defs) ==> sound_definitions(manifest, defs, defs),
{
    lemma_items_sound(manifest, module.body@, module.body@.len());
}

/// Whether every name that `defs` define is defined by `all` too.
#[verifier::opaque]
pub open spec fn extends(all: Seq<DefinitionModel>, defs: Seq<DefinitionModel>) -> bool {
    forall|name: Seq<char>| #[trigger] defines(defs, name) ==> defines(all, name)
}

/// Whether every field is sound and of the given kind.
#[verifier::opaque]
spec fn sound_fields(
    manifest: Map<Seq<char>, GraphQLKind>,
    defs: Seq<DefinitionModel>,
    fields: Seq<ParsedFieldModel>,
    kind: FieldKind,
) -> bool {
    forall|i: int|
        0 <= i < fields.len() ==> (#[trigger] fields[i]).kind() == kind && sound_field(
            manifest,
            defs,
            fields[i],
        )
}

/// Whether what a type expression resolved to is sound, the definitions
/// synthesized on the way being all that is needed.
spec fn sound_resolved(manifest: Map<Seq<char>, GraphQLKind>, r: Resolved) -> bool {
    &&& sound_type(manifest, r.defs, r.ty)
    &&& r.args matches Some(args) ==> sound_arguments(manifest, r.defs, args)
    &&& sound_definitions(manifest, r.defs, r.defs)
}

/// Whether `defs` are sound and end in the definition named `name`.
spec fn sound_synthesized(
    manifest: Map<Seq<char>, GraphQLKind>,
    defs: Seq<DefinitionModel>,
    name: Seq<char>,
) -> bool {
    &&& defs.len() > 0
    &&& definition_name(defs.last()) == name
    &&& sound_definitions(manifest, defs, defs)
}

/// Definitions put together define what each run of them defines.
pub proof fn lemma_extends_concat(a: Seq<DefinitionModel>, b: Seq<DefinitionModel>)
    ensures
        extends(a + b, a),
        extends(a + b, b),
{
    reveal(extends);
    assert forall|name: Seq<char>| defines(a, name) implies defines(a + b, name) by {
        let i = choose|i: int| 0 <= i < a.len() && definition_name(#[trigger] a[i]) == name;
        assert((a + b)[i] == a[i]);
    }
    assert forall|name: Seq<char>| defines(b, name) implies defines(a + b, name) by {
        let i = choose|i: int| 0 <= i < b.len() && definition_name(#[trigger] b[i]) == name;
        assert((a + b)[a.len() + i] == b[i]);
    }
}

/// What extends an extension of definitions extends the definitions.
pub proof fn lemma_extends_transitive(
    a: Seq<DefinitionModel>,
    b: Seq<DefinitionModel>,
    c: Seq<DefinitionModel>,
)
    requires
        extends(a, b),
        extends(b, c),
    ensures
        extends(a, c),
{
    reveal(extends);
}

/// Definitions with one more define what they did, and the name of the one.
proof fn lemma_extends_push(a: Seq<DefinitionModel>, d: DefinitionModel)
    ensures
        extends(a.push(d), a),
        defines(a.push(d), definition_name(d)),
{
    reveal(extends);
    assert forall|name: Seq<char>| defines(a, name) implies defines(a.push(d), name) by {
        let i = choose|i: int| 0 <= i < a.len() && definition_name(#[trigger] a[i]) == name;
        assert(a.push(d)[i] == a[i]);
    }
    assert(a.push(d)[a.len() as int] == d);
}

/// A sound type stays sound where more is defined.
proof fn lemma_type_extends(
    manifest: Map<Seq<char>, GraphQLKind>,
    all: Seq<DefinitionModel>,
    defs: Seq<DefinitionModel>,
    t: TypeModel,
)
    requires
        extends(all, defs),
        sound_type(manifest, defs, t),
    ensures
        sound_type(manifest, all, t),
{
    reveal(extends);
}

/// Sound arguments stay sound where more is defined.
proof fn lemma_arguments_extend(
    manifest: Map<Seq<char>, GraphQLKind>,
    all: Seq<DefinitionModel>,
    defs: Seq<DefinitionModel>,
    args: Seq<InputValueModel>,
)
    requires
        extends(all, defs),
        sound_arguments(manifest, defs, args),
    ensures
        sound_arguments(manifest, all, args),
{
    reveal(sound_arguments);
    assert forall|i: int| 0 <= i < args.len() implies sound_type(
        manifest,
        all,
        (#[trigger] args[i]).ty,
    ) by {
        lemma_type_extends(manifest, all, defs, args[i].ty);
    }
}

/// A sound field stays sound where more is defined.
proof fn lemma_field_extends(
    manifest: Map<Seq<char>, GraphQLKind>,
    all: Seq<DefinitionModel>,
    defs: Seq<DefinitionModel>,
    field: ParsedFieldModel,
)
    requires
        extends(all, defs),
        sound_field(manifest, defs, field),
    ensures
        sound_field(manifest, all, field),
{
    match field {
        ParsedFieldModel::Input(f) => {
            lemma_type_extends(manifest, all, defs, f.ty);
        },
        ParsedFieldModel::Object(f) => {
            lemma_type_extends(manifest, all, defs, f.ty);
            lemma_arguments_extend(manifest, all, defs, f.args);
        },
    }
}

/// Sound fields stay sound where more is defined.
proof fn lemma_fields_extend(
    manifest: Map<Seq<char>, GraphQLKind>,
    all: Seq<DefinitionModel>,
    defs: Seq<DefinitionModel>,
    fields: Seq<ParsedFieldModel>,
    kind: FieldKind,
)
    requires
        extends(all, defs),
        sound_fields(manifest, defs, fields, kind),
    ensures
        sound_fields(manifest, all, fields, kind),
{
    reveal(sound_fields);
    assert forall|i: int| 0 <= i < fields.len() implies (#[trigger] fields[i]).kind() == kind
        && sound_field(manifest, all, fields[i]) by {
        lemma_field_extends(manifest, all, defs, fields[i]);
    }
}

/// A sound definition stays sound where more is defined.
proof fn lemma_definition_extends(
    manifest: Map<Seq<char>, GraphQLKind>,
    all: Seq<DefinitionModel>,
    defs: Seq<DefinitionModel>,
    d: DefinitionModel,
)
    requires
        extends(all, defs),
        sound_definition(manifest, defs, d),
    ensures
        sound_definition(manifest, all, d),
{
    reveal(sound_definition);
    match d {
        DefinitionModel::Object(o) => {
            assert forall|i: int| 0 <= i < o.fields.len() implies sound_field(
                manifest,
                all,
                ParsedFieldModel::Object(#[trigger] o.fields[i]),
            ) by {
                lemma_field_extends(manifest, all, defs, ParsedFieldModel::Object(o.fields[i]));
            }
        },
        DefinitionModel::Input(o) => {
            assert forall|i: int| 0 <= i < o.fields.len() implies sound_field(
                manifest,
                all,
                ParsedFieldModel::Input(#[trigger] o.fields[i]),
            ) by {
                lemma_field_extends(manifest, all, defs, ParsedFieldModel::Input(o.fields[i]));
            }
        },
    }
}

/// Sound definitions stay sound where more is defined.
proof fn lemma_definitions_extend(
    manifest: Map<Seq<char>, GraphQLKind>,
    all: Seq<DefinitionModel>,
    context: Seq<DefinitionModel>,
    defs: Seq<DefinitionModel>,
)
    requires
        extends(all, context),
        sound_definitions(manifest, context, defs),
    ensures
        sound_definitions(manifest, all, defs),
{
    reveal(sound_definitions);
    assert forall|i: int| 0 <= i < defs.len() implies sound_definition(
        manifest,
        all,
        #[trigger] defs[i],
    ) by {
        lemma_definition_extends(manifest, all, context, defs[i]);
    }
}

/// Two runs of sound definitions, one after the other, are sound.
proof fn lemma_definitions_concat(
    manifest: Map<Seq<char>, GraphQLKind>,
    a: Seq<DefinitionModel>,
    b: Seq<DefinitionModel>,
)
    requires
        sound_definitions(manifest, a, a),
        sound_definitions(manifest, b, b),
    ensures
        sound_definitions(manifest, a + b, a + b),
        extends(a + b, a),
        extends(a + b, b),
{
    reveal(sound_definitions);
    lemma_extends_concat(a, b);
    lemma_definitions_extend(manifest, a + b, a, a);
    lemma_definitions_extend(manifest, a + b, b, b);
    assert forall|i: int| 0 <= i < (a + b).len() implies sound_definition(
        manifest,
        a + b,
        #[trigger] (a + b)[i],
    ) by {
        if i < a.len() {
            assert((a + b)[i] == a[i]);
        } else {
            assert((a + b)[i] == b[i - a.len()]);
        }
    }
}

/// Sound fields of one kind make a sound definition.
proof fn lemma_definition_sound(
    manifest: Map<Seq<char>, GraphQLKind>,
    defs: Seq<DefinitionModel>,
    kind: FieldKind,
    name: Seq<char>,
    fields: Seq<ParsedFieldModel>,
)
    requires
        sound_fields(manifest, defs, fields, kind),
    ensures
        sound_definition(manifest, defs, definition(kind, name, fields)),
        definition_name(definition(kind, name, fields)) == name,
{
    reveal(sound_definition);
    reveal(sound_fields);
    match definition(kind, name, fields) {
        DefinitionModel::Object(o) => {
            assert forall|i: int| 0 <= i < o.fields.len() implies sound_field(
                manifest,
                defs,
                ParsedFieldModel::Object(#[trigger] o.fields[i]),
            ) by {
                assert(fields[i].kind() == kind);
                assert(ParsedFieldModel::Object(o.fields[i]) == fields[i]);
            }
        },
        DefinitionModel::Input(o) => {
            assert forall|i: int| 0 <= i < o.fields.len() implies sound_field(
                manifest,
                defs,
                ParsedFieldModel::Input(#[trigger] o.fields[i]),
            ) by {
                assert(fields[i].kind() == kind);
                assert(ParsedFieldModel::Input(o.fields[i]) == fields[i]);
            }
        },
    }
}

/// Where there is nothing, all of it is sound.
proof fn lemma_nothing_sound(
    manifest: Map<Seq<char>, GraphQLKind>,
    all: Seq<DefinitionModel>,
    kind: FieldKind,
)
    ensures
        sound_definitions(manifest, all, Seq::empty()),
        sound_arguments(manifest, all, Seq::empty()),
        sound_fields(manifest, all, Seq::empty(), kind),
{
    reveal(sound_definitions);
    reveal(sound_arguments);
    reveal(sound_fields);
}

/// Sound arguments with one more of them are sound.
proof fn lemma_arguments_push(
    manifest: Map<Seq<char>, GraphQLKind>,
    defs: Seq<DefinitionModel>,
    args: Seq<InputValueModel>,
    arg: InputValueModel,
)
    requires
        sound_arguments(manifest, defs, args),
        sound_type(manifest, defs, arg.ty),
    ensures
        sound_arguments(manifest, defs, args.push(arg)),
{
    reveal(sound_arguments);
    assert forall|i: int| 0 <= i < args.push(arg).len() implies sound_type(
        manifest,
        defs,
        (#[trigger] args.push(arg)[i]).ty,
    ) by {
        if i < args.len() {
            assert(args.push(arg)[i] == args[i]);
        }
    }
}

/// Sound fields of one kind with one more of them are sound.
proof fn lemma_fields_push(
    manifest: Map<Seq<char>, GraphQLKind>,
    defs: Seq<DefinitionModel>,
    fields: Seq<ParsedFieldModel>,
    field: ParsedFieldModel,
    kind: FieldKind,
)
    requires
        sound_fields(manifest, defs, fields, kind),
        field.kind() == kind,
        sound_field(manifest, defs, field),
    ensures
        sound_fields(manifest, defs, fields.push(field), kind),
{
    reveal(sound_fields);
    assert forall|i: int| 0 <= i < fields.push(field).len() implies (#[trigger] fields.push(
        field,
    )[i]).kind() == kind && sound_field(manifest, defs, fields.push(field)[i]) by {
        if i < fields.len() {
            assert(fields.push(field)[i] == fields[i]);
        }
    }
}

/// Sound definitions with one more of them are sound.
proof fn lemma_definitions_push(
    manifest: Map<Seq<char>, GraphQLKind>,
    all: Seq<DefinitionModel>,
    defs: Seq<DefinitionModel>,
    d: DefinitionModel,
)
    requires
        sound_definitions(manifest, all, defs),
        sound_definition(manifest, all, d),
    ensures
        sound_definitions(manifest, all, defs.push(d)),
{
    reveal(sound_definitions);
    assert forall|i: int| 0 <= i < defs.push(d).len() implies sound_definition(
        manifest,
        all,
        #[trigger] defs.push(d)[i],
    ) by {
        if i < defs.len() {
            assert(defs.push(d)[i] == defs[i]);
        }
    }
}

/// A known name is a sound type, with or without a non-null wrapper.
proof fn lemma_named_sound(
    manifest: Map<Seq<char>, GraphQLKind>,
    defs: Seq<DefinitionModel>,
    name: Seq<char>,
    optional: bool,
)
    requires
        is_scalar(name) || manifest.contains_key(name) || (defs.len() > 0 && definition_name(
            defs.last(),
        ) == name),
    ensures
        sound_type(manifest, defs, TypeModel::Named(name)),
        sound_type(manifest, defs, finalize(TypeModel::Named(name), optional)),
{
    assert(well_formed(TypeModel::Named(name)));
    assert(base_name(TypeModel::Named(name)) == name);
    if defs.len() > 0 && definition_name(defs.last()) == name {
        assert(definition_name(defs[defs.len() - 1]) == name);
    }
}

/// The list of a sound type is a sound type, with or without a non-null
/// wrapper.
proof fn lemma_list_sound(
    manifest: Map<Seq<char>, GraphQLKind>,
    defs: Seq<DefinitionModel>,
    t: TypeModel,
    optional: bool,
)
    requires
        sound_type(manifest, defs, t),
    ensures
        sound_type(manifest, defs, finalize(TypeModel::List(Box::new(t)), optional)),
{
    let list = TypeModel::List(Box::new(t));
    assert(well_formed(list));
    assert(base_name(list) == base_name(t));
}

/// What a type expression resolves to is sound.
proof fn lemma_type_sound(
    manifest: Map<Seq<char>, GraphQLKind>,
    pos: Position,
    field_name: Seq<char>,
    ty: TypeExpr,
    optional: bool,
)
    ensures
        resolve_type(manifest, pos, field_name, ty, optional) matches Ok(r) ==> sound_resolved(
            manifest,
            r,
        ),
    decreases ty, 0nat,
{
    match ty {
        TypeExpr::Keyword(keyword) => {
            match scalar_name(keyword) {
                Some(name) => {
                    lemma_named_sound(manifest, Seq::empty(), name, optional);
                    lemma_nothing_sound(manifest, Seq::empty(), FieldKind::Object);
                },
                None => {},
            }
        },
        TypeExpr::Array(elem) => {
            if pos == Position::Output && *elem is Literal {
                let name = output_type_name(field_name);
                lemma_synthesize_sound(manifest, pos, FieldKind::Object, name, *elem);
                match synthesize(manifest, pos, FieldKind::Object, name, *elem) {
                    Ok(defs) => {
                        lemma_named_sound(manifest, defs, name, true);
                        lemma_list_sound(manifest, defs, TypeModel::Named(name), optional);
                    },
                    Err(_) => {},
                }
            } else {
                lemma_type_sound(manifest, pos, field_name, *elem, true);
                match resolve_type(manifest, pos, field_name, *elem, true) {
                    Ok(inner) => {
                        lemma_list_sound(manifest, inner.defs, inner.ty, optional);
                    },
                    Err(_) => {},
                }
            }
        },
        TypeExpr::Reference { name, type_params } => {
            lemma_reference_sound(manifest, pos, field_name, name, type_params, optional);
        },
        TypeExpr::Function { params, ret } => {
            assert(resolve_type(manifest, pos, field_name, ty, optional) == resolve_function(
                manifest,
                field_name,
                ty,
            ));
            if params@.len() == 1 {
                match params@[0] {
                    Some(TypeExpr::Literal(members)) => {
                        lemma_arguments_sound(manifest, field_name, members@, members@.len());
                        lemma_type_sound(manifest, Position::Output, field_name, *ret, true);
                        let arguments = resolve_arguments(
                            manifest,
                            field_name,
                            members@,
                            members@.len(),
                        );
                        let returned = resolve_type(
                            manifest,
                            Position::Output,
                            field_name,
                            *ret,
                            true,
                        );
                        if arguments is Ok && returned is Ok {
                            let a = arguments->Ok_0;
                            let r = returned->Ok_0;
                            lemma_definitions_concat(manifest, a.defs, r.defs);
                            lemma_type_extends(manifest, a.defs + r.defs, r.defs, r.ty);
                            lemma_arguments_extend(manifest, a.defs + r.defs, a.defs, a.args);
                        }
                    },
                    _ => {},
                }
            }
        },
        TypeExpr::Union(types) => {
            match unwrap_union(types@, field_name) {
                Ok(i) => {
                    lemma_type_sound(manifest, pos, field_name, types@[i], true);
                },
                Err(_) => {},
            }
        },
        TypeExpr::Literal(_) => {},
        TypeExpr::Other => {},
    }
}

/// What a name with its type parameters resolves to is sound.
proof fn lemma_reference_sound(
    manifest: Map<Seq<char>, GraphQLKind>,
    pos: Position,
    field_name: Seq<char>,
    name: Option<String>,
    type_params: Option<Vec<TypeExpr>>,
    optional: bool,
)
    ensures
        resolve_reference(manifest, pos, field_name, name, type_params, optional) matches Ok(r)
            ==> sound_resolved(manifest, r),
    decreases type_params, 0nat,
{
    match name {
        None => {},
        Some(ident) => {
            if ident@ != "Promise"@ {
                if manifest.contains_key(ident@) {
                    lemma_named_sound(manifest, Seq::empty(), ident@, optional);
                    lemma_nothing_sound(manifest, Seq::empty(), FieldKind::Object);
                }
            } else {
                match type_params {
                    None => {},
                    Some(params) => {
                        if params@.len() == 1 {
                            match params@[0] {
                                TypeExpr::Union(types) => {
                                    match unwrap_union(types@, field_name) {
                                        Ok(i) => {
                                            if types@[i] is Literal {
                                                let name = output_type_name(field_name);
                                                lemma_synthesize_sound(
                                                    manifest,
                                                    pos,
                                                    FieldKind::Object,
                                                    name,
                                                    types@[i],
                                                );
                                                match synthesize(
                                                    manifest,
                                                    pos,
                                                    FieldKind::Object,
                                                    name,
                                                    types@[i],
                                                ) {
                                                    Ok(defs) => {
                                                        lemma_named_sound(
                                                            manifest,
                                                            defs,
                                                            name,
                                                            true,
                                                        );
                                                    },
                                                    Err(_) => {},
                                                }
                                            } else {
                                                lemma_type_sound(
                                                    manifest,
                                                    pos,
                                                    field_name,
                                                    types@[i],
                                                    true,
                                                );
                                            }
                                        },
                                        Err(_) => {},
                                    }
                                },
                                TypeExpr::Literal(_) => {
                                    let name = output_type_name(field_name);
                                    lemma_synthesize_sound(
                                        manifest,
                                        pos,
                                        FieldKind::Object,
                                        name,
                                        params@[0],
                                    );
                                    match synthesize(
                                        manifest,
                                        pos,
                                        FieldKind::Object,
                                        name,
                                        params@[0],
                                    ) {
                                        Ok(defs) => {
                                            lemma_named_sound(manifest, defs, name, false);
                                        },
                                        Err(_) => {},
                                    }
                                },
                                _ => {
                                    lemma_type_sound(
                                        manifest,
                                        pos,
                                        field_name,
                                        params@[0],
                                        false,
                                    );
                                },
                            }
                        }
                    },
                }
            }
        },
    }
}

/// The argument that a member gives is sound.
proof fn lemma_argument_sound(
    manifest: Map<Seq<char>, GraphQLKind>,
    field_name: Seq<char>,
    member: Member,
    member_count: nat,
)
    ensures
        resolve_argument(manifest, field_name, member, member_count) matches Ok(r) ==> sound_type(
            manifest,
            r.defs,
            r.arg.ty,
        ) && sound_definitions(manifest, r.defs, r.defs),
    decreases member, 0nat,
{
    match member {
        Member::Other => {},
        Member::Property(prop) => match prop.key {
            None => {},
            Some(key) => match prop.ty {
                None => {},
                Some(TypeExpr::Literal(_)) => {
                    let name = input_type_name(field_name, key@, member_count);
                    lemma_synthesize_sound(
                        manifest,
                        Position::Input,
                        FieldKind::Input,
                        name,
                        prop.ty->0,
                    );
                    match synthesize(
                        manifest,
                        Position::Input,
                        FieldKind::Input,
                        name,
                        prop.ty->0,
                    ) {
                        Ok(defs) => {
                            lemma_named_sound(manifest, defs, name, prop.optional);
                        },
                        Err(_) => {},
                    }
                },
                Some(TypeExpr::Union(types)) => match unwrap_union(types@, key@) {
                    Ok(i) => {
                        if types@[i] is Literal {
                            let name = input_type_name(field_name, key@, member_count);
                            lemma_synthesize_sound(
                                manifest,
                                Position::Input,
                                FieldKind::Input,
                                name,
                                types@[i],
                            );
                            match synthesize(
                                manifest,
                                Position::Input,
                                FieldKind::Input,
                                name,
                                types@[i],
                            ) {
                                Ok(defs) => {
                                    lemma_named_sound(manifest, defs, name, true);
                                },
                                Err(_) => {},
                            }
                        } else {
                            lemma_type_sound(manifest, Position::Input, key@, types@[i], true);
                        }
                    },
                    Err(_) => {},
                },
                Some(other) => {
                    lemma_type_sound(manifest, Position::Input, key@, other, prop.optional);
                },
            },
        },
    }
}

/// The arguments that the first `n` members give are sound.
proof fn lemma_arguments_sound(
    manifest: Map<Seq<char>, GraphQLKind>,
    field_name: Seq<char>,
    members: Seq<Member>,
    n: nat,
)
    ensures
        resolve_arguments(manifest, field_name, members, n) matches Ok(r) ==> sound_arguments(
            manifest,
            r.defs,
            r.args,
        ) && sound_definitions(manifest, r.defs, r.defs),
    decreases members, n,
{
    if n == 0 || n > members.len() {
        lemma_nothing_sound(manifest, Seq::empty(), FieldKind::Input);
    } else {
        lemma_arguments_sound(manifest, field_name, members, (n - 1) as nat);
        lemma_argument_sound(manifest, field_name, members[n - 1], members.len());
        let before = resolve_arguments(manifest, field_name, members, (n - 1) as nat);
        let last = resolve_argument(manifest, field_name, members[n - 1], members.len());
        if before is Ok && last is Ok {
            let b = before->Ok_0;
            let l = last->Ok_0;
            let all = b.defs + l.defs;
            lemma_definitions_concat(manifest, b.defs, l.defs);
            lemma_arguments_extend(manifest, all, b.defs, b.args);
            lemma_type_extends(manifest, all, l.defs, l.arg.ty);
            lemma_arguments_push(manifest, all, b.args, l.arg);
        }
    }
}

/// The definitions that an object literal gives are sound, and end in the
/// definition asked for.
proof fn lemma_synthesize_sound(
    manifest: Map<Seq<char>, GraphQLKind>,
    pos: Position,
    kind: FieldKind,
    name: Seq<char>,
    ty: TypeExpr,
)
    ensures
        synthesize(manifest, pos, kind, name, ty) matches Ok(defs) ==> sound_synthesized(
            manifest,
            defs,
            name,
        ),
    decreases ty, 2nat,
{
    lemma_fields_sound(manifest, pos, kind, name, ty);
    match resolve_fields(manifest, pos, kind, name, ty) {
        Ok(resolved) => {
            let def = definition(kind, name, resolved.fields);
            let all = resolved.defs.push(def);
            lemma_extends_push(resolved.defs, def);
            lemma_fields_extend(manifest, all, resolved.defs, resolved.fields, kind);
            lemma_definition_sound(manifest, all, kind, name, resolved.fields);
            lemma_definitions_extend(manifest, all, resolved.defs, resolved.defs);
            lemma_definitions_push(manifest, all, resolved.defs, def);
        },
        Err(_) => {},
    }
}

/// The fields that an object literal gives are sound.
proof fn lemma_fields_sound(
    manifest: Map<Seq<char>, GraphQLKind>,
    pos: Position,
    kind: FieldKind,
    owner: Seq<char>,
    ty: TypeExpr,
)
    ensures
        resolve_fields(manifest, pos, kind, owner, ty) matches Ok(r) ==> sound_fields(
            manifest,
            r.defs,
            r.fields,
            kind,
        ) && sound_definitions(manifest, r.defs, r.defs),
    decreases ty, 1nat,
{
    match ty {
        TypeExpr::Literal(members) => {
            lemma_members_sound(manifest, pos, kind, owner, members@, members@.len());
        },
        _ => {},
    }
}

/// The fields that the first `n` members give are sound.
proof fn lemma_members_sound(
    manifest: Map<Seq<char>, GraphQLKind>,
    pos: Position,
    kind: FieldKind,
    owner: Seq<char>,
    members: Seq<Member>,
    n: nat,
)
    ensures
        resolve_members(manifest, pos, kind, owner, members, n) matches Ok(r) ==> sound_fields(
            manifest,
            r.defs,
            r.fields,
            kind,
        ) && sound_definitions(manifest, r.defs, r.defs),
    decreases members, n,
{
    if n == 0 || n > members.len() {
        lemma_nothing_sound(manifest, Seq::empty(), kind);
    } else {
        lemma_members_sound(manifest, pos, kind, owner, members, (n - 1) as nat);
        let before = resolve_members(manifest, pos, kind, owner, members, (n - 1) as nat);
        match members[n - 1] {
            Member::Other => {},
            Member::Property(prop) => {
                if prop.key is Some && prop.ty is Some {
                    lemma_type_sound(manifest, pos, prop.key->0@, prop.ty->0, prop.optional);
                    lemma_field_sound(manifest, pos, kind, owner, prop);
                }
                let last = resolve_member(manifest, pos, kind, owner, members[n - 1]);
                if before is Ok && last is Ok {
                    let b = before->Ok_0;
                    let l = last->Ok_0;
                    let all = b.defs + l.defs;
                    lemma_definitions_concat(manifest, b.defs, l.defs);
                    lemma_fields_extend(manifest, all, b.defs, b.fields, kind);
                    lemma_field_extends(manifest, all, l.defs, l.field);
                    lemma_fields_push(manifest, all, b.fields, l.field, kind);
                }
            },
        }
    }
}

/// A property whose type resolved soundly makes a sound field of its kind.
proof fn lemma_field_sound(
    manifest: Map<Seq<char>, GraphQLKind>,
    pos: Position,
    kind: FieldKind,
    owner: Seq<char>,
    prop: Property,
)
    requires
        prop.key is Some,
        prop.ty is Some,
        resolve_type(manifest, pos, prop.key->0@, prop.ty->0, prop.optional) matches Ok(r)
            ==> sound_resolved(manifest, r),
    ensures
        resolve_field(manifest, pos, kind, owner, prop) matches Ok(r) ==> r.field.kind() == kind
            && sound_field(manifest, r.defs, r.field) && sound_definitions(
            manifest,
            r.defs,
            r.defs,
        ),
{
    match resolve_type(manifest, pos, prop.key->0@, prop.ty->0, prop.optional) {
        Ok(resolved) => {
            lemma_resolved_field_sound(manifest, kind, prop.key->0@, resolved);
        },
        Err(_) => {},
    }
}

/// A sound type with sound arguments makes a sound field.
proof fn lemma_resolved_field_sound(
    manifest: Map<Seq<char>, GraphQLKind>,
    kind: FieldKind,
    key: Seq<char>,
    resolved: Resolved,
)
    requires
        sound_resolved(manifest, resolved),
    ensures
        ParsedFieldModel::plain(kind, key, resolved.ty).kind() == kind,
        sound_field(manifest, resolved.defs, ParsedFieldModel::plain(kind, key, resolved.ty)),
        resolved.args matches Some(args) ==> sound_field(
            manifest,
            resolved.defs,
            ParsedFieldModel::Object(FieldModel { name: key, ty: resolved.ty, args }),
        ),
{
    reveal(sound_arguments);
}

/// The definitions that an item gives are sound.
proof fn lemma_item_sound(manifest: Map<Seq<char>, GraphQLKind>, item: Item)
    ensures
        translate_item(manifest, item) matches Ok(defs) ==> sound_definitions(
            manifest,
            defs,
            defs,
        ),
{
    lemma_nothing_sound(manifest, Seq::empty(), FieldKind::Object);
    match item {
        Item::TypeAlias { name, ty } => {
            lemma_synthesize_sound(manifest, Position::Field, FieldKind::Input, name@, ty);
            lemma_synthesize_sound(manifest, Position::Field, FieldKind::Object, name@, ty);
        },
        _ => {},
    }
}

/// The definitions that the first `n` items give are sound.
proof fn lemma_items_sound(manifest: Map<Seq<char>, GraphQLKind>, items: Seq<Item>, n: nat)
    ensures
        translate_items(manifest, items, n) matches Ok(defs) ==> sound_definitions(
            manifest,
            defs,
            defs,
        ),
    decreases n,
{
    if n == 0 || n > items.len() {
        lemma_nothing_sound(manifest, Seq::empty(), FieldKind::Object);
    } else {
        lemma_items_sound(manifest, items, (n - 1) as nat);
        lemma_item_sound(manifest, items[n - 1]);
        let before = translate_items(manifest, items, (n - 1) as nat);
        let last = translate_item(manifest, items[n - 1]);
        if before is Ok && last is Ok {
            lemma_definitions_concat(manifest, before->Ok_0, last->Ok_0);
        }
    }
}

} // verus!
