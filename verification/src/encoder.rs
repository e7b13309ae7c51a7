//! The `apollo_encoder` types this library builds, and what is assumed of them.
//!
//! `Type_` is a public enum and is used as it is. The builder types keep their
//! fields private, so each gets a model: a spec function that names what the
//! value holds. The specifications of the builder methods are assumed, not
//! proved; each one restates what the method's source does to the fields.

use vstd::prelude::*;

verus! {

/// `apollo_encoder::Type_`: `NamedType { name }`, `List { ty }`, `NonNull { ty }`.
#[verifier::external_type_specification]
pub struct ExType(apollo_encoder::Type_);

/// `apollo_encoder::InputValue`, an argument of a field.
#[verifier::external_type_specification]
#[verifier::external_body]
pub struct ExInputValue(apollo_encoder::InputValue);

/// `apollo_encoder::Field`, a field of an object type.
#[verifier::external_type_specification]
#[verifier::external_body]
pub struct ExField(apollo_encoder::Field);

/// `apollo_encoder::InputField`, a field of an input type.
#[verifier::external_type_specification]
#[verifier::external_body]
pub struct ExInputField(apollo_encoder::InputField);

/// `apollo_encoder::ObjectDef`, an object type definition.
#[verifier::external_type_specification]
#[verifier::external_body]
pub struct ExObjectDef(apollo_encoder::ObjectDef);

/// `apollo_encoder::InputObjectDef`, an input type definition.
#[verifier::external_type_specification]
#[verifier::external_body]
pub struct ExInputObjectDef(apollo_encoder::InputObjectDef);

/// `apollo_encoder::Schema`, the text of the definitions added so far.
#[verifier::external_type_specification]
#[verifier::external_body]
pub struct ExSchema(apollo_encoder::Schema);

/// A GraphQL type: a named type, a list of a type, or a type that is never
/// null.
pub enum TypeModel {
    Named(Seq<char>),
    List(Box<TypeModel>),
    NonNull(Box<TypeModel>),
}

/// An argument: its name and its type.
pub struct InputValueModel {
    pub name: Seq<char>,
    pub ty: TypeModel,
}

/// A field of an object type: its name, its type and its arguments in order.
pub struct FieldModel {
    pub name: Seq<char>,
    pub ty: TypeModel,
    pub args: Seq<InputValueModel>,
}

/// A field of an input type: its name and its type.
pub struct InputFieldModel {
    pub name: Seq<char>,
    pub ty: TypeModel,
}

/// An object type definition: its name and its fields in order.
pub struct ObjectDefModel {
    pub name: Seq<char>,
    pub fields: Seq<FieldModel>,
}

/// An input type definition: its name and its fields in order.
pub struct InputObjectDefModel {
    pub name: Seq<char>,
    pub fields: Seq<InputFieldModel>,
}

/// A definition of either kind.
pub enum DefinitionModel {
    Object(ObjectDefModel),
    Input(InputObjectDefModel),
}

/// The name and type of an `InputValue` that has no description, no default
/// value and no deprecation; `None` for one that has any of them.
pub uninterp spec fn input_value_model(v: apollo_encoder::InputValue) -> Option<InputValueModel>;

/// The name, type and arguments of a `Field` that has no description and no
/// deprecation and whose arguments all have a model; `None` for any other.
pub uninterp spec fn field_model(f: apollo_encoder::Field) -> Option<FieldModel>;

/// The name and type of an `InputField` that has no description and no default
/// value; `None` for one that has either.
pub uninterp spec fn input_field_model(f: apollo_encoder::InputField) -> Option<InputFieldModel>;

/// The name and fields of an `ObjectDef` that has no description and no
/// interfaces and whose fields all have a model; `None` for any other.
pub uninterp spec fn object_def_model(d: apollo_encoder::ObjectDef) -> Option<ObjectDefModel>;

/// The name and fields of an `InputObjectDef` that has no description and whose
/// fields all have a model; `None` for any other.
pub uninterp spec fn input_object_def_model(d: apollo_encoder::InputObjectDef) -> Option<
    InputObjectDefModel,
>;

/// The text that a `Schema` has collected.
pub uninterp spec fn schema_text(s: apollo_encoder::Schema) -> Seq<char>;

/// The type that a `Type_` stands for.
pub open spec fn type_model(t: apollo_encoder::Type_) -> TypeModel
    decreases t,
{
    match t {
        apollo_encoder::Type_::NamedType { name } => TypeModel::Named(name@),
        apollo_encoder::Type_::List { ty } => TypeModel::List(Box::new(type_model(*ty))),
        apollo_encoder::Type_::NonNull { ty } => TypeModel::NonNull(Box::new(type_model(*ty))),
    }
}

/// What a type prints as: a name as it is, a list in square brackets, a
/// non-null type with `!` behind it.
pub open spec fn type_text(t: TypeModel) -> Seq<char>
    decreases t,
{
    match t {
        TypeModel::Named(name) => name,
        TypeModel::List(ty) => "["@ + type_text(*ty) + "]"@,
        TypeModel::NonNull(ty) => type_text(*ty) + "!"@,
    }
}

/// An argument prints as `name: Type`.
pub open spec fn input_value_text(v: InputValueModel) -> Seq<char> {
    v.name + ": "@ + type_text(v.ty)
}

/// Arguments print in order, with `, ` between two of them.
pub open spec fn arguments_text(args: Seq<InputValueModel>) -> Seq<char>
    decreases args.len(),
{
    if args.len() == 0 {
        Seq::empty()
    } else if args.len() == 1 {
        input_value_text(args[0])
    } else {
        arguments_text(args.drop_last()) + ", "@ + input_value_text(args.last())
    }
}

/// A field prints as two spaces, its name, its arguments in round brackets
/// where it has any, then `: Type`.
pub open spec fn field_text(f: FieldModel) -> Seq<char> {
    let args = if f.args.len() == 0 {
        Seq::empty()
    } else {
        "("@ + arguments_text(f.args) + ")"@
    };
    "  "@ + f.name + args + ": "@ + type_text(f.ty)
}

/// An input field prints as two spaces, then `name: Type`.
pub open spec fn input_field_text(f: InputFieldModel) -> Seq<char> {
    "  "@ + f.name + ": "@ + type_text(f.ty)
}

/// The fields of an object type, each on a line of its own.
pub open spec fn fields_text(fields: Seq<FieldModel>) -> Seq<char>
    decreases fields.len(),
{
    if fields.len() == 0 {
        Seq::empty()
    } else {
        fields_text(fields.drop_last()) + "\n"@ + field_text(fields.last())
    }
}

/// The fields of an input type, each on a line of its own.
pub open spec fn input_fields_text(fields: Seq<InputFieldModel>) -> Seq<char>
    decreases fields.len(),
{
    if fields.len() == 0 {
        Seq::empty()
    } else {
        input_fields_text(fields.drop_last()) + "\n"@ + input_field_text(fields.last())
    }
}

/// An object type prints as `type Name {`, its fields, and `}` on a line of
/// its own, with a line feed at the end.
pub open spec fn object_def_text(d: ObjectDefModel) -> Seq<char> {
    "type "@ + d.name + " {"@ + fields_text(d.fields) + "\n}\n"@
}

/// An input type prints as `input Name {`, its fields, and `}` on a line of
/// its own, with a line feed at the end.
pub open spec fn input_object_def_text(d: InputObjectDefModel) -> Seq<char> {
    "input "@ + d.name + " {"@ + input_fields_text(d.fields) + "\n}\n"@
}

/// What a definition prints as.
pub open spec fn definition_text(d: DefinitionModel) -> Seq<char> {
    match d {
        DefinitionModel::Object(o) => object_def_text(o),
        DefinitionModel::Input(i) => input_object_def_text(i),
    }
}

/// Definitions print one after the other, in order.
pub open spec fn definitions_text(defs: Seq<DefinitionModel>) -> Seq<char>
    decreases defs.len(),
{
    if defs.len() == 0 {
        Seq::empty()
    } else {
        definitions_text(defs.drop_last()) + definition_text(defs.last())
    }
}

/// `InputValue::new` stores the name and the type, and sets no description,
/// default value or deprecation.
pub assume_specification[ apollo_encoder::InputValue::new ](
    name: String,
    type_: apollo_encoder::Type_,
) -> (v: apollo_encoder::InputValue)
    ensures
        input_value_model(v) == Some(InputValueModel { name: name@, ty: type_model(type_) }),
;

/// `Field::new` stores the name and the type, with no arguments, and sets no
/// description or deprecation.
pub assume_specification[ apollo_encoder::Field::new ](
    name: String,
    type_: apollo_encoder::Type_,
) -> (f: apollo_encoder::Field)
    ensures
        field_model(f) == Some(
            FieldModel { name: name@, ty: type_model(type_), args: Seq::empty() },
        ),
;

/// `Field::arg` pushes the argument behind those the field has, and changes
/// nothing else.
pub assume_specification[ apollo_encoder::Field::arg ](
    field: &mut apollo_encoder::Field,
    arg: apollo_encoder::InputValue,
)
    ensures
        field_model(*final(field)) == match (field_model(*old(field)), input_value_model(arg)) {
            (Some(f), Some(a)) => Some(FieldModel { args: f.args.push(a), ..f }),
            _ => None,
        },
;

/// `InputField::new` stores the name and the type, and sets no description or
/// default value.
pub assume_specification[ apollo_encoder::InputField::new ](
    name: String,
    type_: apollo_encoder::Type_,
) -> (f: apollo_encoder::InputField)
    ensures
        input_field_model(f) == Some(InputFieldModel { name: name@, ty: type_model(type_) }),
;

/// `ObjectDef::new` stores the name, with no fields, and sets no description
/// or interface.
pub assume_specification[ apollo_encoder::ObjectDef::new ](name: String) -> (d:
    apollo_encoder::ObjectDef)
    ensures
        object_def_model(d) == Some(ObjectDefModel { name: name@, fields: Seq::empty() }),
;

/// `ObjectDef::field` pushes the field behind those the definition has, and
/// changes nothing else.
pub assume_specification[ apollo_encoder::ObjectDef::field ](
    def: &mut apollo_encoder::ObjectDef,
    field: apollo_encoder::Field,
)
    ensures
        object_def_model(*final(def)) == match (object_def_model(*old(def)), field_model(field)) {
            (Some(d), Some(f)) => Some(ObjectDefModel { fields: d.fields.push(f), ..d }),
            _ => None,
        },
;

/// `InputObjectDef::new` stores the name, with no fields, and sets no
/// description.
pub assume_specification[ apollo_encoder::InputObjectDef::new ](name: String) -> (d:
    apollo_encoder::InputObjectDef)
    ensures
        input_object_def_model(d) == Some(
            InputObjectDefModel { name: name@, fields: Seq::empty() },
        ),
;

/// `InputObjectDef::field` pushes the field behind those the definition has,
/// and changes nothing else.
pub assume_specification[ apollo_encoder::InputObjectDef::field ](
    def: &mut apollo_encoder::InputObjectDef,
    field: apollo_encoder::InputField,
)
    ensures
        input_object_def_model(*final(def)) == match (
            input_object_def_model(*old(def)),
            input_field_model(field),
        ) {
            (Some(d), Some(f)) => Some(InputObjectDefModel { fields: d.fields.push(f), ..d }),
            _ => None,
        },
;

/// `Schema::new` starts with no text.
pub assume_specification[ apollo_encoder::Schema::new ]() -> (s: apollo_encoder::Schema)
    ensures
        schema_text(s) == Seq::<char>::empty(),
;

/// `Schema::object` appends what the definition prints as. For a definition
/// that has a model, that is `object_def_text` of the model.
pub assume_specification[ apollo_encoder::Schema::object ](
    schema: &mut apollo_encoder::Schema,
    object: apollo_encoder::ObjectDef,
)
    ensures
        object_def_model(object) matches Some(d) ==> schema_text(*final(schema)) == schema_text(
            *old(schema),
        ) + object_def_text(d),
;

/// `Schema::input` appends what the definition prints as. For a definition
/// that has a model, that is `input_object_def_text` of the model.
pub assume_specification[ apollo_encoder::Schema::input ](
    schema: &mut apollo_encoder::Schema,
    input: apollo_encoder::InputObjectDef,
)
    ensures
        input_object_def_model(input) matches Some(d) ==> schema_text(*final(schema))
            == schema_text(*old(schema)) + input_object_def_text(d),
;

/// `Schema::finish` hands out the collected text.
pub assume_specification[ apollo_encoder::Schema::finish ](schema: apollo_encoder::Schema) -> (text:
    String)
    ensures
        text@ == schema_text(schema),
;

} // verus!
