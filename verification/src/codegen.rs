//! The translation: from a parsed module and a manifest to schema text.

use crate::ast::{Item, Keyword, Member, Module, Property, TypeExpr};
use crate::encoder::{
    definition_text, definitions_text, input_object_def_model, input_value_model,
    object_def_model, schema_text, type_model, DefinitionModel, FieldModel, InputFieldModel,
    InputObjectDefModel, InputValueModel, ObjectDefModel, TypeModel,
};
use crate::error::{Error, ErrorKind, ErrorModel};
use crate::manifest::{GraphQLKind, Manifest};
use crate::naming::{compute_new_name, ComputeNameKind};
use crate::parsed::{input_value_models, FieldKind, ParsedField, ParsedFieldModel};
use crate::resolve;
use crate::resolve::{
    Position, Resolved, ResolvedArgument, ResolvedArguments, ResolvedField, ResolvedFields,
};
use vstd::prelude::*;
use vstd::string::StringExecFns;

verus! {

/// Translates the type aliases of a module into GraphQL schema text.
///
/// Each alias that the manifest holds becomes a definition: an input type
/// where its kind is `Input`, an object type where it is `Object` or `Enum`.
/// An alias that the manifest does not hold is skipped, and so is an import
/// or export. Types synthesized for a field are printed before the definition
/// that holds the field. Two definitions of one name are both printed: names
/// are not changed to tell them apart.
///
/// The result is `resolve::schema_of` of the module and the manifest: the
/// text, or the first failure met. No text is handed out on a failure.
pub fn generate_schema(prog: Module, manifest: Manifest) -> (result: Result<String, Error>)
    ensures
        outcome(result) == resolve::schema_of(manifest@, prog),
{
    let mut ctx = CodeGenCtx::new(manifest);
    match ctx.parse(prog) {
        Ok(()) => Ok(ctx.finish()),
        Err(e) => Err(e),
    }
}

/// A result as contracts see it: the characters of the text, or the failure.
pub open spec fn outcome(result: Result<String, Error>) -> Result<Seq<char>, ErrorModel> {
    match result {
        Ok(text) => Ok(text@),
        Err(e) => Err(e@),
    }
}

/// A translation in progress: the schema text so far, and the manifest.
struct CodeGenCtx {
    schema: apollo_encoder::Schema,
    manifest: Manifest,
}

/// Whether `fields` hold `models`, one for one.
#[verifier::opaque]
spec fn fields_hold(fields: Seq<ParsedField>, models: Seq<ParsedFieldModel>) -> bool {
    &&& fields.len() == models.len()
    &&& forall|i: int| 0 <= i < fields.len() ==> (#[trigger] fields[i]).model() == Some(models[i])
}

/// What `fields` hold, one for one.
spec fn models_of(fields: Seq<ParsedField>) -> Seq<ParsedFieldModel> {
    Seq::new(fields.len(), |i: int| fields[i].model()->0)
}

/// Whether every one of `models` is of the given kind.
#[verifier::opaque]
spec fn all_of_kind(models: Seq<ParsedFieldModel>, kind: FieldKind) -> bool {
    forall|i: int| 0 <= i < models.len() ==> (#[trigger] models[i]).kind() == kind
}

/// Whether `args` hold `models`: none for none, else one for one.
spec fn args_hold(
    args: Option<Vec<apollo_encoder::InputValue>>,
    models: Option<Seq<InputValueModel>>,
) -> bool {
    match args {
        Some(values) => models is Some && input_value_models(values@) == models,
        None => models is None,
    }
}

impl CodeGenCtx {
    /// Whether the schema text grew from `before` to `self` by what `defs`
    /// print as, with the manifest as it was.
    spec fn grew(self, before: CodeGenCtx, defs: Seq<DefinitionModel>) -> bool {
        &&& self.manifest@ == before.manifest@
        &&& schema_text(self.schema) == schema_text(before.schema) + definitions_text(defs)
    }

    /// Whether a call that was to yield `expected` yielded `result`, and left
    /// `self` for `before`.
    spec fn resolved(
        self,
        before: CodeGenCtx,
        expected: Result<Resolved, ErrorModel>,
        result: Result<(apollo_encoder::Type_, Option<Vec<apollo_encoder::InputValue>>), Error>,
    ) -> bool {
        &&& self.manifest@ == before.manifest@
        &&& match result {
            Ok((ty, args)) => {
                &&& expected matches Ok(r)
                &&& type_model(ty) == r.ty
                &&& args_hold(args, r.args)
                &&& self.grew(before, r.defs)
            },
            Err(e) => expected == Err::<Resolved, ErrorModel>(e@),
        }
    }

    /// Whether a call that was to yield the definitions `expected` added them
    /// to the schema, or failed as `expected` does.
    spec fn defined(
        self,
        before: CodeGenCtx,
        expected: Result<Seq<DefinitionModel>, ErrorModel>,
        result: Result<(), Error>,
    ) -> bool {
        &&& self.manifest@ == before.manifest@
        &&& match result {
            Ok(()) => expected matches Ok(defs) && self.grew(before, defs),
            Err(e) => expected == Err::<Seq<DefinitionModel>, ErrorModel>(e@),
        }
    }

    /// Whether a call that was to yield the field `expected` yielded `result`,
    /// of the given kind, and left `self` for `before`.
    spec fn fielded(
        self,
        before: CodeGenCtx,
        kind: FieldKind,
        expected: Result<ResolvedField, ErrorModel>,
        result: Result<ParsedField, Error>,
    ) -> bool {
        &&& self.manifest@ == before.manifest@
        &&& match result {
            Ok(field) => {
                &&& expected matches Ok(r)
                &&& field.model() == Some(r.field)
                &&& r.field.kind() == kind
                &&& self.grew(before, r.defs)
            },
            Err(e) => expected == Err::<ResolvedField, ErrorModel>(e@),
        }
    }

    /// Whether a call that was to yield the fields `expected` yielded
    /// `result`, all of the given kind, and left `self` for `before`.
    spec fn listed(
        self,
        before: CodeGenCtx,
        kind: FieldKind,
        expected: Result<ResolvedFields, ErrorModel>,
        result: Result<Vec<ParsedField>, Error>,
    ) -> bool {
        &&& self.manifest@ == before.manifest@
        &&& match result {
            Ok(fields) => {
                &&& expected matches Ok(r)
                &&& fields_hold(fields@, r.fields)
                &&& all_of_kind(r.fields, kind)
                &&& self.grew(before, r.defs)
            },
            Err(e) => expected == Err::<ResolvedFields, ErrorModel>(e@),
        }
    }

    /// A translation that has yet to begin.
    fn new(manifest: Manifest) -> (ctx: Self)
        ensures
            ctx.manifest@ == manifest@,
            schema_text(ctx.schema) == Seq::<char>::empty(),
    {
        let schema = apollo_encoder::Schema::new();
        CodeGenCtx { schema, manifest }
    }

    /// Translates the items of a module in order.
    #[verifier::loop_isolation(false)]
    fn parse(&mut self, prog: Module) -> (result: Result<(), Error>)
        ensures
            final(self).defined(*old(self), resolve::translate(old(self).manifest@, prog), result),
    {
        let ghost manifest = self.manifest@;
        let ghost items = prog.body@;
        let mut i: usize = 0;
        while i < prog.body.len()
            invariant
                i <= prog.body.len(),
                self.defined(
                    *old(self),
                    resolve::translate_items(manifest, items, i as nat),
                    Ok::<(), Error>(()),
                ),
            decreases prog.body.len() - i,
        {
            let ghost before = *self;
            let ghost done = resolve::translate_items(manifest, items, i as nat)->Ok_0;
            match self.parse_statement(&prog.body[i]) {
                Ok(()) => {
                    proof {
                        let last = resolve::translate_item(manifest, items[i as int])->Ok_0;
                        lemma_grew_twice(*old(self), before, *self, done, last);
                    }
                },
                Err(e) => {
                    proof {
                        resolve::lemma_translate_items_fails(
                            manifest,
                            items,
                            (i + 1) as nat,
                            items.len(),
                        );
                    }
                    return Err(e);
                },
            }
            i += 1;
        }
        Ok(())
    }

    /// Translates one item: a type alias that the manifest holds becomes a
    /// definition of its kind.
    fn parse_statement(&mut self, item: &Item) -> (result: Result<(), Error>)
        ensures
            final(self).defined(
                *old(self),
                resolve::translate_item(old(self).manifest@, *item),
                result,
            ),
    {
        match item {
            Item::TypeAlias { name, ty } => {
                match self.manifest.classify(name.as_str()) {
                    Some(GraphQLKind::Input) => self.parse_type_literal(
                        Position::Field,
                        FieldKind::Input,
                        name.as_str(),
                        ty,
                    ),
                    Some(_) => self.parse_type_literal(
                        Position::Field,
                        FieldKind::Object,
                        name.as_str(),
                        ty,
                    ),
                    None => {
                        proof {
                            lemma_definitions_text_empty(schema_text(self.schema));
                        }
                        Ok(())
                    },
                }
            },
            Item::ModuleDecl => {
                proof {
                    lemma_definitions_text_empty(schema_text(self.schema));
                }
                Ok(())
            },
            Item::Other => Err(Error::new(ErrorKind::UnsupportedShape, "")),
        }
    }

    /// Resolves the members of an object literal into fields of the given
    /// kind, in order.
    fn parse_typed_fields(
        &mut self,
        pos: Position,
        field_kind: FieldKind,
        owner: &str,
        type_ann: &TypeExpr,
    ) -> (result: Result<Vec<ParsedField>, Error>)
        ensures
            final(self).listed(
                *old(self),
                field_kind,
                resolve::resolve_fields(old(self).manifest@, pos, field_kind, owner@, *type_ann),
                result,
            ),
        decreases type_ann, 1nat,
    {
        match type_ann {
            TypeExpr::Literal(members) => self.parse_members(pos, field_kind, owner, members),
            _ => Err(Error::new(ErrorKind::UnsupportedShape, owner)),
        }
    }

    /// Resolves members into fields of the given kind, in order. Every member
    /// must be a property.
    fn parse_members(
        &mut self,
        pos: Position,
        field_kind: FieldKind,
        owner: &str,
        members: &Vec<Member>,
    ) -> (result: Result<Vec<ParsedField>, Error>)
        ensures
            final(self).listed(
                *old(self),
                field_kind,
                resolve::resolve_members(
                    old(self).manifest@,
                    pos,
                    field_kind,
                    owner@,
                    members@,
                    members@.len(),
                ),
                result,
            ),
        decreases members, 0nat,
    {
        let ghost manifest = self.manifest@;
        let ghost start = *self;
        let mut fields: Vec<ParsedField> = Vec::new();
        let mut i: usize = 0;
        proof {
            lemma_definitions_text_empty(schema_text(self.schema));
            lemma_no_fields_hold(fields@, field_kind);
        }
        while i < members.len()
            invariant
                i <= members.len(),
                start == *old(self),
                manifest == start.manifest@,
                self.manifest@ == manifest,
                resolve::resolve_members(
                    manifest,
                    pos,
                    field_kind,
                    owner@,
                    members@,
                    i as nat,
                ) matches Ok(r) && fields_hold(fields@, r.fields) && all_of_kind(
                    r.fields,
                    field_kind,
                ) && self.grew(start, r.defs),
            decreases members.len() - i,
        {
            let ghost before = *self;
            let ghost done = resolve::resolve_members(
                manifest,
                pos,
                field_kind,
                owner@,
                members@,
                i as nat,
            )->Ok_0;
            match self.parse_member(pos, field_kind, owner, &members[i]) {
                Ok(field) => {
                    proof {
                        let last = resolve::resolve_member(
                            manifest,
                            pos,
                            field_kind,
                            owner@,
                            members@[i as int],
                        )->Ok_0;
                        lemma_grew_twice(start, before, *self, done.defs, last.defs);
                        lemma_fields_hold_push(
                            fields@,
                            done.fields,
                            field,
                            last.field,
                            field_kind,
                        );
                    }
                    fields.push(field);
                },
                Err(e) => {
                    proof {
                        resolve::lemma_resolve_members_fails(
                            manifest,
                            pos,
                            field_kind,
                            owner@,
                            members@,
                            (i + 1) as nat,
                            members@.len(),
                        );
                    }
                    return Err(e);
                },
            }
            i += 1;
        }
        Ok(fields)
    }

    /// Resolves one member into a field of the given kind.
    fn parse_member(
        &mut self,
        pos: Position,
        kind: FieldKind,
        owner: &str,
        member: &Member,
    ) -> (result: Result<ParsedField, Error>)
        ensures
            final(self).fielded(
                *old(self),
                kind,
                resolve::resolve_member(old(self).manifest@, pos, kind, owner@, *member),
                result,
            ),
        decreases member, 1nat,
    {
        match member {
            Member::Property(prop) => self.parse_field(pos, kind, owner, prop),
            Member::Other => Err(Error::new(ErrorKind::UnsupportedShape, owner)),
        }
    }

    /// Resolves one property into a field of the given kind.
    fn parse_field(
        &mut self,
        pos: Position,
        kind: FieldKind,
        owner: &str,
        prop: &Property,
    ) -> (result: Result<ParsedField, Error>)
        ensures
            final(self).fielded(
                *old(self),
                kind,
                resolve::resolve_field(old(self).manifest@, pos, kind, owner@, *prop),
                result,
            ),
        decreases prop, 0nat,
    {
        let key = match &prop.key {
            Some(key) => key,
            None => {
                return Err(Error::new(ErrorKind::UnsupportedShape, owner));
            },
        };
        let type_ann = match &prop.ty {
            Some(type_ann) => type_ann,
            None => {
                return Err(Error::new(ErrorKind::UnsupportedShape, key.as_str()));
            },
        };
        match self.parse_type(pos, key.as_str(), type_ann, prop.optional) {
            Err(e) => Err(e),
            Ok((ty, None)) => Ok(ParsedField::new(kind, key.clone(), ty)),
            Ok((ty, Some(args))) => match ParsedField::with_args(kind, key.clone(), ty, args) {
                None => Err(Error::new(ErrorKind::StructuralViolation, key.as_str())),
                Some(field) => Ok(field),
            },
        }
    }

    /// Resolves a type expression into the type of the field `field_name`,
    /// with the field's arguments where the expression is a function type.
    /// Definitions synthesized on the way are added to the schema.
    fn parse_type(
        &mut self,
        pos: Position,
        field_name: &str,
        type_ann: &TypeExpr,
        optional: bool,
    ) -> (result: Result<(apollo_encoder::Type_, Option<Vec<apollo_encoder::InputValue>>), Error>)
        ensures
            final(self).resolved(
                *old(self),
                resolve::resolve_type(old(self).manifest@, pos, field_name@, *type_ann, optional),
                result,
            ),
        decreases type_ann, 0nat,
    {
        let ghost manifest = self.manifest@;
        proof {
            lemma_definitions_text_empty(schema_text(self.schema));
        }
        match type_ann {
            TypeExpr::Keyword(kind) => {
                match Self::parse_keyword_type(kind, field_name) {
                    Ok(ty) => Ok((finalize(ty, optional), None)),
                    Err(e) => Err(e),
                }
            },
            TypeExpr::Array(elem_type) => {
                let synthesized = match (pos, &**elem_type) {
                    (Position::Output, TypeExpr::Literal(_)) => true,
                    _ => false,
                };
                if synthesized {
                    let name = compute_new_name(ComputeNameKind::Output, field_name);
                    match self.parse_type_literal(
                        pos,
                        FieldKind::Object,
                        name.as_str(),
                        elem_type,
                    ) {
                        Ok(()) => {
                            Ok((finalize(list_of(named(name)), optional), None))
                        },
                        Err(e) => Err(e),
                    }
                } else {
                    match self.parse_type(pos, field_name, elem_type, true) {
                        Ok((inner, _)) => {
                            Ok((finalize(list_of(inner), optional), None))
                        },
                        Err(e) => Err(e),
                    }
                }
            },
            TypeExpr::Reference { name, type_params } => self.parse_type_ref(
                pos,
                field_name,
                name,
                type_params,
                optional,
            ),
            TypeExpr::Function { params, ret } => {
                assert(resolve::resolve_type(manifest, pos, field_name@, *type_ann, optional)
                    == resolve::resolve_function(manifest, field_name@, *type_ann));
                if params.len() != 1 {
                    return Err(Error::new(ErrorKind::StructuralViolation, field_name));
                }
                let members = match &params[0] {
                    Some(TypeExpr::Literal(members)) => members,
                    _ => {
                        return Err(Error::new(ErrorKind::StructuralViolation, field_name));
                    },
                };
                let ghost start = *self;
                let args = match self.parse_arg_members(field_name, members) {
                    Ok(args) => args,
                    Err(e) => {
                        return Err(e);
                    },
                };
                let ghost before = *self;
                let ghost arguments = resolve::resolve_arguments(
                    manifest,
                    field_name@,
                    members@,
                    members@.len(),
                )->Ok_0;
                match self.parse_type(Position::Output, field_name, ret, true) {
                    Ok((ret_ty, _)) => {
                        proof {
                            let returned = resolve::resolve_type(
                                manifest,
                                Position::Output,
                                field_name@,
                                **ret,
                                true,
                            )->Ok_0;
                            lemma_grew_twice(
                                start,
                                before,
                                *self,
                                arguments.defs,
                                returned.defs,
                            );
                        }
                        Ok((ret_ty, Some(args)))
                    },
                    Err(e) => Err(e),
                }
            },
            TypeExpr::Union(types) => {
                match Self::unwrap_union(types, field_name) {
                    Ok(typ) => self.parse_type(pos, field_name, typ, true),
                    Err(e) => Err(e),
                }
            },
            TypeExpr::Literal(_) => Err(Error::new(ErrorKind::UnsupportedShape, field_name)),
            TypeExpr::Other => Err(Error::new(ErrorKind::UnsupportedShape, field_name)),
        }
    }

    /// Resolves a name with its type parameters: a name of the manifest, or
    /// `Promise` around the type that counts.
    fn parse_type_ref(
        &mut self,
        pos: Position,
        field_name: &str,
        entity_name: &Option<String>,
        type_params: &Option<Vec<TypeExpr>>,
        optional: bool,
    ) -> (result: Result<(apollo_encoder::Type_, Option<Vec<apollo_encoder::InputValue>>), Error>)
        ensures
            final(self).resolved(
                *old(self),
                resolve::resolve_reference(
                    old(self).manifest@,
                    pos,
                    field_name@,
                    *entity_name,
                    *type_params,
                    optional,
                ),
                result,
            ),
        decreases type_params, 0nat,
    {
        proof {
            lemma_definitions_text_empty(schema_text(self.schema));
        }
        let ident = match entity_name {
            Some(ident) => ident,
            None => {
                return Err(Error::new(ErrorKind::UnsupportedShape, field_name));
            },
        };
        if *ident != String::from_str("Promise") {
            match self.manifest.classify(ident.as_str()) {
                Some(GraphQLKind::Object) if pos == Position::Input => Err(
                    Error::new(ErrorKind::PositionalViolation, ident.as_str()),
                ),
                Some(GraphQLKind::Input) if pos != Position::Input => Err(
                    Error::new(ErrorKind::PositionalViolation, ident.as_str()),
                ),
                Some(_) => {
                    Ok((finalize(named(ident.clone()), optional), None))
                },
                None => Err(Error::new(ErrorKind::UndefinedReference, ident.as_str())),
            }
        } else {
            let params = match type_params {
                Some(params) => params,
                None => {
                    return Err(Error::new(ErrorKind::UnsupportedShape, field_name));
                },
            };
            if params.len() != 1 {
                return Err(Error::new(ErrorKind::UnsupportedShape, field_name));
            }
            let typ = &params[0];
            match typ {
                TypeExpr::Union(types) => {
                    let non_null = match Self::unwrap_union(types, field_name) {
                        Ok(non_null) => non_null,
                        Err(e) => {
                            return Err(e);
                        },
                    };
                    match non_null {
                        TypeExpr::Literal(_) => {
                            let name = compute_new_name(ComputeNameKind::Output, field_name);
                            match self.parse_type_literal(
                                pos,
                                FieldKind::Object,
                                name.as_str(),
                                non_null,
                            ) {
                                Ok(()) => Ok((named(name), None)),
                                Err(e) => Err(e),
                            }
                        },
                        _ => self.parse_type(pos, field_name, non_null, true),
                    }
                },
                TypeExpr::Literal(_) => {
                    let name = compute_new_name(ComputeNameKind::Output, field_name);
                    match self.parse_type_literal(pos, FieldKind::Object, name.as_str(), typ) {
                        Ok(()) => Ok((finalize(named(name), false), None)),
                        Err(e) => Err(e),
                    }
                },
                _ => self.parse_type(pos, field_name, typ, false),
            }
        }
    }

    /// Resolves the members of a function's parameter into arguments, in
    /// order.
    fn parse_arg_members(&mut self, field_name: &str, members: &Vec<Member>) -> (result: Result<
        Vec<apollo_encoder::InputValue>,
        Error,
    >)
        ensures
            final(self).manifest@ == old(self).manifest@,
            match result {
                Ok(args) => {
                    &&& resolve::resolve_arguments(
                        old(self).manifest@,
                        field_name@,
                        members@,
                        members@.len(),
                    ) matches Ok(r)
                    &&& input_value_models(args@) == Some(r.args)
                    &&& final(self).grew(*old(self), r.defs)
                },
                Err(e) => resolve::resolve_arguments(
                    old(self).manifest@,
                    field_name@,
                    members@,
                    members@.len(),
                ) == Err::<ResolvedArguments, ErrorModel>(e@),
            },
        decreases members, 0nat,
    {
        let ghost manifest = self.manifest@;
        let ghost start = *self;
        let member_count = members.len();
        let mut args: Vec<apollo_encoder::InputValue> = Vec::new();
        let mut i: usize = 0;
        proof {
            lemma_definitions_text_empty(schema_text(self.schema));
        }
        while i < member_count
            invariant
                i <= member_count,
                member_count == members.len(),
                start == *old(self),
                manifest == start.manifest@,
                self.manifest@ == manifest,
                resolve::resolve_arguments(manifest, field_name@, members@, i as nat) matches Ok(r)
                    && input_value_models(args@) == Some(r.args) && self.grew(start, r.defs),
            decreases member_count - i,
        {
            let ghost before = *self;
            let ghost done = resolve::resolve_arguments(
                manifest,
                field_name@,
                members@,
                i as nat,
            )->Ok_0;
            match self.parse_arg_member(field_name, &members[i], member_count) {
                Ok(arg) => {
                    proof {
                        let last = resolve::resolve_argument(
                            manifest,
                            field_name@,
                            members@[i as int],
                            members@.len(),
                        )->Ok_0;
                        lemma_grew_twice(start, before, *self, done.defs, last.defs);
                        assert(args@.push(arg).drop_last() == args@);
                    }
                    args.push(arg);
                },
                Err(e) => {
                    proof {
                        resolve::lemma_resolve_arguments_fails(
                            manifest,
                            field_name@,
                            members@,
                            (i + 1) as nat,
                            members@.len(),
                        );
                    }
                    return Err(e);
                },
            }
            i += 1;
        }
        Ok(args)
    }

    /// Resolves one member of a function's parameter into an argument.
    fn parse_arg_member(
        &mut self,
        field_name: &str,
        member: &Member,
        member_count: usize,
    ) -> (result: Result<apollo_encoder::InputValue, Error>)
        ensures
            final(self).manifest@ == old(self).manifest@,
            match result {
                Ok(arg) => {
                    &&& resolve::resolve_argument(
                        old(self).manifest@,
                        field_name@,
                        *member,
                        member_count as nat,
                    ) matches Ok(r)
                    &&& input_value_model(arg) == Some(r.arg)
                    &&& final(self).grew(*old(self), r.defs)
                },
                Err(e) => resolve::resolve_argument(
                    old(self).manifest@,
                    field_name@,
                    *member,
                    member_count as nat,
                ) == Err::<ResolvedArgument, ErrorModel>(e@),
            },
        decreases member, 0nat,
    {
        let prop = match member {
            Member::Property(prop) => prop,
            Member::Other => {
                return Err(Error::new(ErrorKind::UnsupportedShape, field_name));
            },
        };
        let ident = match &prop.key {
            Some(ident) => ident,
            None => {
                return Err(Error::new(ErrorKind::UnsupportedShape, field_name));
            },
        };
        let type_ann = match &prop.ty {
            Some(type_ann) => type_ann,
            None => {
                return Err(Error::new(ErrorKind::UnsupportedShape, ident.as_str()));
            },
        };
        let name = ident.as_str();
        let type_ = match type_ann {
            TypeExpr::Literal(_) => {
                let input_name = compute_new_name(
                    ComputeNameKind::Input(name, member_count),
                    field_name,
                );
                match self.parse_arg_type_literal(input_name.as_str(), type_ann, prop.optional) {
                    Ok(ty) => ty,
                    Err(e) => {
                        return Err(e);
                    },
                }
            },
            TypeExpr::Union(types) => {
                let unwrapped = match Self::unwrap_union(types, name) {
                    Ok(unwrapped) => unwrapped,
                    Err(e) => {
                        return Err(e);
                    },
                };
                match unwrapped {
                    TypeExpr::Literal(_) => {
                        let input_name = compute_new_name(
                            ComputeNameKind::Input(name, member_count),
                            field_name,
                        );
                        match self.parse_arg_type_literal(input_name.as_str(), unwrapped, true) {
                            Ok(ty) => ty,
                            Err(e) => {
                                return Err(e);
                            },
                        }
                    },
                    _ => match self.parse_type(Position::Input, name, unwrapped, true) {
                        Ok((ty, _)) => ty,
                        Err(e) => {
                            return Err(e);
                        },
                    },
                }
            },
            ty => match self.parse_type(Position::Input, name, ty, prop.optional) {
                Ok((ty, _)) => ty,
                Err(e) => {
                    return Err(e);
                },
            },
        };
        Ok(apollo_encoder::InputValue::new(ident.clone(), type_))
    }

    /// Turns an object literal in an argument into an input type named
    /// `name`, and gives the type that refers to it.
    fn parse_arg_type_literal(&mut self, name: &str, ty: &TypeExpr, optional: bool) -> (result:
        Result<apollo_encoder::Type_, Error>)
        ensures
            final(self).manifest@ == old(self).manifest@,
            match result {
                Ok(named) => {
                    &&& resolve::synthesize(
                        old(self).manifest@,
                        Position::Input,
                        FieldKind::Input,
                        name@,
                        *ty,
                    ) matches Ok(defs)
                    &&& type_model(named) == resolve::finalize(TypeModel::Named(name@), optional)
                    &&& final(self).grew(*old(self), defs)
                },
                Err(e) => resolve::synthesize(
                    old(self).manifest@,
                    Position::Input,
                    FieldKind::Input,
                    name@,
                    *ty,
                ) == Err::<Seq<DefinitionModel>, ErrorModel>(e@),
            },
        decreases ty, 3nat,
    {
        match self.parse_type_literal(Position::Input, FieldKind::Input, name, ty) {
            Ok(()) => {
                Ok(finalize(named(String::from_str(name)), optional))
            },
            Err(e) => Err(e),
        }
    }

    /// Turns an object literal into a definition of the given kind named
    /// `new_name` and adds it to the schema, behind the definitions
    /// synthesized for its fields.
    fn parse_type_literal(
        &mut self,
        pos: Position,
        kind: FieldKind,
        new_name: &str,
        ty: &TypeExpr,
    ) -> (result: Result<(), Error>)
        ensures
            final(self).defined(
                *old(self),
                resolve::synthesize(old(self).manifest@, pos, kind, new_name@, *ty),
                result,
            ),
        decreases ty, 2nat,
    {
        let ghost manifest = self.manifest@;
        let fields = match self.parse_typed_fields(pos, kind, new_name, ty) {
            Ok(fields) => fields,
            Err(e) => {
                return Err(e);
            },
        };
        let ghost resolved = resolve::resolve_fields(manifest, pos, kind, new_name@, *ty)->Ok_0;
        let ghost before = *self;
        proof {
            lemma_fields_hold_models(fields@, resolved.fields);
        }
        match kind {
            FieldKind::Input => {
                let input_def = input_object_def(new_name, fields);
                self.schema.input(input_def);
            },
            FieldKind::Object => {
                let object_def = object_def(new_name, fields);
                self.schema.object(object_def);
            },
        }
        proof {
            let def = resolve::definition(kind, new_name@, resolved.fields);
            assert(resolved.defs.push(def).drop_last() == resolved.defs);
            assert(schema_text(before.schema) + definition_text(def) == schema_text(
                old(self).schema,
            ) + (definitions_text(resolved.defs) + definition_text(def)));
        }
        Ok(())
    }

    /// The schema text of the definitions added.
    fn finish(self) -> (text: String)
        ensures
            text@ == schema_text(self.schema),
    {
        self.schema.finish()
    }

    /// Whether a type expression admits no value.
    fn is_nullable(ty: &TypeExpr) -> (result: bool)
        ensures
            result == resolve::nullable(*ty),
        decreases ty, 1nat,
    {
        match ty {
            TypeExpr::Union(_) => Self::is_nullable_union(ty),
            TypeExpr::Keyword(kind) => match kind {
                Keyword::Null => true,
                Keyword::Undefined => true,
                _ => false,
            },
            _ => false,
        }
    }

    /// Whether a type expression is a union with a nullable member, such as
    /// `T | null` or `T | undefined`.
    #[verifier::loop_isolation(false)]
    fn is_nullable_union(ty: &TypeExpr) -> (result: bool)
        ensures
            result == (*ty is Union && resolve::nullable(*ty)),
        decreases ty, 0nat,
    {
        match ty {
            TypeExpr::Union(types) => {
                let mut i: usize = 0;
                while i < types.len()
                    invariant
                        i <= types.len(),
                        forall|j: int| 0 <= j < i ==> !resolve::nullable(#[trigger] types@[j]),
                    decreases types.len() - i,
                {
                    if Self::is_nullable(&types[i]) {
                        return true;
                    }
                    i += 1;
                }
                false
            },
            _ => false,
        }
    }

    /// The one member of a union that is not nullable. Fails unless the union
    /// has one such member and at least one nullable member beside it.
    #[verifier::loop_isolation(false)]
    fn unwrap_union<'a>(types: &'a Vec<TypeExpr>, context: &str) -> (result: Result<
        &'a TypeExpr,
        Error,
    >)
        ensures
            match result {
                Ok(member) => resolve::unwrap_union(types@, context@) matches Ok(i) && 0 <= i
                    < types@.len() && *member == types@[i],
                Err(e) => resolve::unwrap_union(types@, context@) == Err::<int, ErrorModel>(e@),
            },
    {
        let mut found: Option<usize> = None;
        let mut i: usize = 0;
        while i < types.len()
            invariant
                i <= types.len(),
                match found {
                    Some(k) => k < i && !resolve::nullable(types@[k as int]) && forall|j: int|
                        0 <= j < i && j != k ==> resolve::nullable(#[trigger] types@[j]),
                    None => forall|j: int| 0 <= j < i ==> resolve::nullable(#[trigger] types@[j]),
                },
            decreases types.len() - i,
        {
            if !Self::is_nullable(&types[i]) {
                if found.is_some() {
                    assert(forall|c: int| !resolve::sole_non_nullable(types@, c));
                    return Err(Error::new(ErrorKind::MalformedUnion, context));
                }
                found = Some(i);
            }
            i += 1;
        }
        match found {
            Some(k) => {
                if types.len() >= 2 {
                    assert(resolve::sole_non_nullable(types@, k as int));
                    Ok(&types[k])
                } else {
                    Err(Error::new(ErrorKind::MalformedUnion, context))
                }
            },
            None => {
                assert(forall|c: int| !resolve::sole_non_nullable(types@, c));
                Err(Error::new(ErrorKind::MalformedUnion, context))
            },
        }
    }

    /// The scalar type that a keyword stands for.
    fn parse_keyword_type(kind: &Keyword, context: &str) -> (result: Result<
        apollo_encoder::Type_,
        Error,
    >)
        ensures
            match result {
                Ok(ty) => resolve::scalar_name(*kind) matches Some(name) && type_model(ty)
                    == TypeModel::Named(name),
                Err(e) => resolve::scalar_name(*kind) is None && e@ == (ErrorModel {
                    kind: ErrorKind::UnsupportedShape,
                    context: context@,
                }),
            },
    {
        match kind {
            Keyword::Number => Ok(named(String::from_str("Int"))),
            Keyword::Str => Ok(named(String::from_str("String"))),
            Keyword::Boolean => Ok(named(String::from_str("Boolean"))),
            _ => Err(Error::new(ErrorKind::UnsupportedShape, context)),
        }
    }
}

/// The input type named `name` with the given fields, in order.
fn input_object_def(name: &str, fields: Vec<ParsedField>) -> (def: apollo_encoder::InputObjectDef)
    requires
        all_of_kind(models_of(fields@), FieldKind::Input),
        fields_hold(fields@, models_of(fields@)),
    ensures
        input_object_def_model(def) matches Some(d) && DefinitionModel::Input(d)
            == resolve::definition(FieldKind::Input, name@, models_of(fields@)),
{
    let ghost models = models_of(fields@);
    let mut def = apollo_encoder::InputObjectDef::new(String::from_str(name));
    assert(Seq::new(0, |i: int| models[i]->Input_0) == Seq::<InputFieldModel>::empty());
    for field in it: fields
        invariant
            models == models_of(it.seq()),
            fields_hold(it.seq(), models),
            all_of_kind(models, FieldKind::Input),
            input_object_def_model(def) == Some(
                InputObjectDefModel {
                    name: name@,
                    fields: Seq::new(it.index() as nat, |i: int| models[i]->Input_0),
                },
            ),
    {
        let ghost k = it.index();
        proof {
            reveal(fields_hold);
            reveal(all_of_kind);
        }
        assert(it.seq()[k].model() == Some(models[k]));
        assert(models[k].kind() == FieldKind::Input);
        assert(Seq::new(k as nat, |i: int| models[i]->Input_0).push(models[k]->Input_0)
            == Seq::new((k + 1) as nat, |i: int| models[i]->Input_0));
        match field.input() {
            Some(input) => {
                def.field(input);
            },
            None => {},
        }
    }
    def
}

/// The object type named `name` with the given fields, in order.
fn object_def(name: &str, fields: Vec<ParsedField>) -> (def: apollo_encoder::ObjectDef)
    requires
        all_of_kind(models_of(fields@), FieldKind::Object),
        fields_hold(fields@, models_of(fields@)),
    ensures
        object_def_model(def) matches Some(d) && DefinitionModel::Object(d) == resolve::definition(
            FieldKind::Object,
            name@,
            models_of(fields@),
        ),
{
    let ghost models = models_of(fields@);
    let mut def = apollo_encoder::ObjectDef::new(String::from_str(name));
    assert(Seq::new(0, |i: int| models[i]->Object_0) == Seq::<FieldModel>::empty());
    for field in it: fields
        invariant
            models == models_of(it.seq()),
            fields_hold(it.seq(), models),
            all_of_kind(models, FieldKind::Object),
            object_def_model(def) == Some(
                ObjectDefModel {
                    name: name@,
                    fields: Seq::new(it.index() as nat, |i: int| models[i]->Object_0),
                },
            ),
    {
        let ghost k = it.index();
        proof {
            reveal(fields_hold);
            reveal(all_of_kind);
        }
        assert(it.seq()[k].model() == Some(models[k]));
        assert(models[k].kind() == FieldKind::Object);
        assert(Seq::new(k as nat, |i: int| models[i]->Object_0).push(models[k]->Object_0)
            == Seq::new((k + 1) as nat, |i: int| models[i]->Object_0));
        match field.object() {
            Some(object) => {
                def.field(object);
            },
            None => {},
        }
    }
    def
}

/// The type with the given name.
fn named(name: String) -> (result: apollo_encoder::Type_)
    ensures
        type_model(result) == TypeModel::Named(name@),
{
    apollo_encoder::Type_::NamedType { name }
}

/// The list of the given type.
fn list_of(ty: apollo_encoder::Type_) -> (result: apollo_encoder::Type_)
    ensures
        type_model(result) == TypeModel::List(Box::new(type_model(ty))),
{
    apollo_encoder::Type_::List { ty: Box::new(ty) }
}

/// Wraps a type in non-null unless the value may be absent.
fn finalize(ty: apollo_encoder::Type_, optional: bool) -> (result: apollo_encoder::Type_)
    ensures
        type_model(result) == resolve::finalize(type_model(ty), optional),
{
    if !optional {
        apollo_encoder::Type_::NonNull { ty: Box::new(ty) }
    } else {
        ty
    }
}

/// Fields that hold models of one kind still do with one more of them.
proof fn lemma_fields_hold_push(
    fields: Seq<ParsedField>,
    models: Seq<ParsedFieldModel>,
    field: ParsedField,
    model: ParsedFieldModel,
    kind: FieldKind,
)
    requires
        fields_hold(fields, models),
        all_of_kind(models, kind),
        field.model() == Some(model),
        model.kind() == kind,
    ensures
        fields_hold(fields.push(field), models.push(model)),
        all_of_kind(models.push(model), kind),
{
    reveal(fields_hold);
    reveal(all_of_kind);
}

/// No fields hold no models, of whatever kind.
proof fn lemma_no_fields_hold(fields: Seq<ParsedField>, kind: FieldKind)
    requires
        fields.len() == 0,
    ensures
        fields_hold(fields, Seq::empty()),
        all_of_kind(Seq::empty(), kind),
{
    reveal(fields_hold);
    reveal(all_of_kind);
}

/// Fields that hold models hold the models that they hold.
proof fn lemma_fields_hold_models(fields: Seq<ParsedField>, models: Seq<ParsedFieldModel>)
    requires
        fields_hold(fields, models),
    ensures
        models_of(fields) == models,
{
    reveal(fields_hold);
}

/// No definitions print as nothing.
proof fn lemma_definitions_text_empty(text: Seq<char>)
    ensures
        text + definitions_text(Seq::empty()) == text,
{
}

/// A schema that grew by `first` and then by `second` grew by both.
proof fn lemma_grew_twice(
    start: CodeGenCtx,
    middle: CodeGenCtx,
    end: CodeGenCtx,
    first: Seq<DefinitionModel>,
    second: Seq<DefinitionModel>,
)
    requires
        middle.grew(start, first),
        end.grew(middle, second),
    ensures
        end.grew(start, first + second),
{
    lemma_definitions_text_concat(first, second);
    assert(schema_text(middle.schema) + definitions_text(second) == schema_text(start.schema) + (
    definitions_text(first) + definitions_text(second)));
}

/// Definitions print one after the other, however they are grouped.
proof fn lemma_definitions_text_concat(a: Seq<DefinitionModel>, b: Seq<DefinitionModel>)
    ensures
        definitions_text(a + b) == definitions_text(a) + definitions_text(b),
    decreases b.len(),
{
    if b.len() == 0 {
        assert(a + b == a);
    } else {
        lemma_definitions_text_concat(a, b.drop_last());
        assert((a + b).drop_last() == a + b.drop_last());
    }
}

} // verus!
