//! Fields and definitions of either kind.

use crate::encoder::{
    field_model, field_text, input_field_model, input_field_text, input_object_def_model,
    input_value_model, object_def_model, type_model, DefinitionModel, FieldModel, InputFieldModel,
    InputValueModel, TypeModel,
};
use vstd::prelude::*;
use vstd::string::StringExecFns;

verus! {

/// Whether a field belongs to an input type or to an object type.
#[derive(Debug, Clone, Copy, PartialEq, Eq, Structural)]
pub enum FieldKind {
    Input,
    Object,
}

impl FieldKind {
    /// The kind's name.
    pub open spec fn spec_name(self) -> Seq<char> {
        match self {
            FieldKind::Input => "Input"@,
            FieldKind::Object => "Object"@,
        }
    }

    /// The kind's name: `Input` or `Object`.
    pub fn name(&self) -> (name: String)
        ensures
            name@ == self.spec_name(),
    {
        match self {
            FieldKind::Input => String::from_str("Input"),
            FieldKind::Object => String::from_str("Object"),
        }
    }
}

/// A field of either kind, as contracts see it.
pub enum ParsedFieldModel {
    Input(InputFieldModel),
    Object(FieldModel),
}

impl ParsedFieldModel {
    /// The kind of type that the field belongs to.
    pub open spec fn kind(self) -> FieldKind {
        match self {
            ParsedFieldModel::Input(_) => FieldKind::Input,
            ParsedFieldModel::Object(_) => FieldKind::Object,
        }
    }

    /// The field's name.
    pub open spec fn name(self) -> Seq<char> {
        match self {
            ParsedFieldModel::Input(f) => f.name,
            ParsedFieldModel::Object(f) => f.name,
        }
    }

    /// The field's type.
    pub open spec fn ty(self) -> TypeModel {
        match self {
            ParsedFieldModel::Input(f) => f.ty,
            ParsedFieldModel::Object(f) => f.ty,
        }
    }

    /// What the field prints as.
    pub open spec fn text(self) -> Seq<char> {
        match self {
            ParsedFieldModel::Input(f) => input_field_text(f),
            ParsedFieldModel::Object(f) => field_text(f),
        }
    }

    /// The field of the given kind with the given name and type, and no
    /// arguments.
    pub open spec fn plain(kind: FieldKind, name: Seq<char>, ty: TypeModel) -> ParsedFieldModel {
        match kind {
            FieldKind::Input => ParsedFieldModel::Input(InputFieldModel { name, ty }),
            FieldKind::Object => ParsedFieldModel::Object(
                FieldModel { name, ty, args: Seq::empty() },
            ),
        }
    }
}

/// A field of an input type or of an object type.
#[derive(Debug)]
pub enum ParsedField {
    Input(apollo_encoder::InputField),
    Object(apollo_encoder::Field),
}

/// The models of the arguments `args`, in order; `None` where one of them has
/// none.
pub open spec fn input_value_models(args: Seq<apollo_encoder::InputValue>) -> Option<
    Seq<InputValueModel>,
>
    decreases args.len(),
{
    if args.len() == 0 {
        Some(Seq::empty())
    } else {
        match (input_value_models(args.drop_last()), input_value_model(args.last())) {
            (Some(models), Some(model)) => Some(models.push(model)),
            _ => None,
        }
    }
}

impl ParsedField {
    /// What the field holds; `None` where the field inside has no model.
    pub open spec fn model(self) -> Option<ParsedFieldModel> {
        match self {
            ParsedField::Input(f) => match input_field_model(f) {
                Some(m) => Some(ParsedFieldModel::Input(m)),
                None => None,
            },
            ParsedField::Object(f) => match field_model(f) {
                Some(m) => Some(ParsedFieldModel::Object(m)),
                None => None,
            },
        }
    }

    /// The field of an input type, if it is one.
    pub fn input(self) -> (field: Option<apollo_encoder::InputField>)
        ensures
            field == match self {
                ParsedField::Input(f) => Some(f),
                ParsedField::Object(_) => None,
            },
    {
        match self {
            ParsedField::Input(input) => Some(input),
            ParsedField::Object(_) => None,
        }
    }

    /// The field of an object type, if it is one.
    pub fn object(self) -> (field: Option<apollo_encoder::Field>)
        ensures
            field == match self {
                ParsedField::Input(_) => None,
                ParsedField::Object(f) => Some(f),
            },
    {
        match self {
            ParsedField::Input(_) => None,
            ParsedField::Object(f) => Some(f),
        }
    }

    /// A field of the given kind, without arguments.
    pub fn new(kind: FieldKind, name: String, type_: apollo_encoder::Type_) -> (field: Self)
        ensures
            field.model() == Some(ParsedFieldModel::plain(kind, name@, type_model(type_))),
    {
        match kind {
            FieldKind::Input => ParsedField::Input(apollo_encoder::InputField::new(name, type_)),
            FieldKind::Object => ParsedField::Object(apollo_encoder::Field::new(name, type_)),
        }
    }

    /// A field of an object type with the given arguments, in their order;
    /// `None` for a field of an input type, which takes no arguments.
    pub fn with_args(
        kind: FieldKind,
        name: String,
        type_: apollo_encoder::Type_,
        args: Vec<apollo_encoder::InputValue>,
    ) -> (field: Option<Self>)
        ensures
            match kind {
                FieldKind::Input => field is None,
                FieldKind::Object => field matches Some(f) && f.model() == match input_value_models(
                    args@,
                ) {
                    Some(models) => Some(
                        ParsedFieldModel::Object(
                            FieldModel { name: name@, ty: type_model(type_), args: models },
                        ),
                    ),
                    None => None,
                },
            },
    {
        match kind {
            FieldKind::Input => None,
            FieldKind::Object => {
                let mut field = apollo_encoder::Field::new(name, type_);
                let ghost all = args@;
                for arg in it: args
                    invariant
                        it.seq() == all,
                        field_model(field) == match input_value_models(all.take(it.index())) {
                            Some(models) => Some(
                                FieldModel { name: name@, ty: type_model(type_), args: models },
                            ),
                            None => None,
                        },
                {
                    assert(all.take(it.index() + 1).drop_last() == all.take(it.index()));
                    field.arg(arg);
                }
                assert(all.take(all.len() as int) == all);
                Some(ParsedField::Object(field))
            },
        }
    }
}

/// A definition of an object type or of an input type.
#[derive(Debug)]
pub enum KeyedGraphQLKind {
    Object(apollo_encoder::ObjectDef),
    Input(apollo_encoder::InputObjectDef),
}

impl KeyedGraphQLKind {
    /// What the definition holds; `None` where the definition inside has no
    /// model.
    pub open spec fn model(self) -> Option<DefinitionModel> {
        match self {
            KeyedGraphQLKind::Object(d) => match object_def_model(d) {
                Some(m) => Some(DefinitionModel::Object(m)),
                None => None,
            },
            KeyedGraphQLKind::Input(d) => match input_object_def_model(d) {
                Some(m) => Some(DefinitionModel::Input(m)),
                None => None,
            },
        }
    }
}

} // verus!
