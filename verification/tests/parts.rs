use apollo_encoder::{InputValue, Type_};
use tsgql::{
    compute_new_name, upper_camel_case, ComputeNameKind, Error, ErrorKind, FieldKind, GraphQLKind,
    Manifest, ParsedField,
};

fn named(name: &str) -> Type_ {
    Type_::NamedType { name: name.to_string() }
}

#[test]
fn kinds_are_read_from_their_tags() {
    assert_eq!(GraphQLKind::from_u8(0), Some(GraphQLKind::Object));
    assert_eq!(GraphQLKind::from_u8(1), Some(GraphQLKind::Input));
    assert_eq!(GraphQLKind::from_u8(2), Some(GraphQLKind::Enum));
    assert_eq!(GraphQLKind::from_u8(3), None);
    assert_eq!(GraphQLKind::from_u8(255), None);
}

#[test]
fn field_kinds_have_names() {
    assert_eq!(FieldKind::Input.name(), "Input");
    assert_eq!(FieldKind::Object.name(), "Object");
}

#[test]
fn upper_camel_case_raises_the_first_letter_only() {
    assert_eq!(upper_camel_case("findUser"), "FindUser");
    assert_eq!(upper_camel_case("a"), "A");
    assert_eq!(upper_camel_case("z"), "Z");
    assert_eq!(upper_camel_case("user_name"), "User_name");
    assert_eq!(upper_camel_case("aBC"), "ABC");
}

#[test]
fn upper_camel_case_keeps_what_is_no_small_ascii_letter() {
    assert_eq!(upper_camel_case(""), "");
    assert_eq!(upper_camel_case("Already"), "Already");
    assert_eq!(upper_camel_case("_x"), "_x");
    assert_eq!(upper_camel_case("9lives"), "9lives");
    assert_eq!(upper_camel_case("\u{e9}t\u{e9}"), "\u{e9}t\u{e9}");
    assert_eq!(upper_camel_case("`a"), "`a");
    assert_eq!(upper_camel_case("{a"), "{a");
}

#[test]
fn output_types_are_named_after_the_field() {
    assert_eq!(compute_new_name(ComputeNameKind::Output, "findUser"), "FindUserOutput");
    assert_eq!(compute_new_name(ComputeNameKind::Output, ""), "Output");
}

#[test]
fn input_types_are_named_after_the_field_and_the_argument() {
    assert_eq!(compute_new_name(ComputeNameKind::Input("user", 1), "findUser"), "FindUserInput");
    assert_eq!(
        compute_new_name(ComputeNameKind::Input("user", 2), "findUser"),
        "FindUserInputUser"
    );
    assert_eq!(
        compute_new_name(ComputeNameKind::Input("other", 2), "findUser"),
        "FindUserInputOther"
    );
    assert_eq!(compute_new_name(ComputeNameKind::Input("user", 0), "find"), "FindInputUser");
    assert_eq!(compute_new_name(ComputeNameKind::Input("", 3), "find"), "FindInput");
}

#[test]
fn a_manifest_tells_absent_names_from_kinds() {
    let mut manifest = Manifest::new();
    assert_eq!(manifest.classify("User"), None);
    manifest.insert("User".to_string(), GraphQLKind::Object);
    manifest.insert("Filter".to_string(), GraphQLKind::Input);
    manifest.insert("Color".to_string(), GraphQLKind::Enum);
    assert_eq!(manifest.classify("User"), Some(GraphQLKind::Object));
    assert_eq!(manifest.classify("Filter"), Some(GraphQLKind::Input));
    assert_eq!(manifest.classify("Color"), Some(GraphQLKind::Enum));
    assert_eq!(manifest.classify("user"), None);
    assert_eq!(manifest.classify(""), None);
}

#[test]
fn a_manifest_keeps_the_last_kind_given() {
    let mut manifest = Manifest::new();
    manifest.insert("User".to_string(), GraphQLKind::Object);
    manifest.insert("User".to_string(), GraphQLKind::Input);
    assert_eq!(manifest.classify("User"), Some(GraphQLKind::Input));
}

#[test]
fn a_new_field_is_of_its_kind() {
    let object = ParsedField::new(FieldKind::Object, "id".to_string(), named("String"));
    assert!(matches!(object, ParsedField::Object(_)));
    assert_eq!(object.object().map(|f| f.to_string()), Some("  id: String".to_string()));

    let input = ParsedField::new(FieldKind::Input, "id".to_string(), named("Int"));
    assert!(matches!(input, ParsedField::Input(_)));
    assert_eq!(input.input().map(|f| f.to_string()), Some("  id: Int".to_string()));
}

#[test]
fn a_field_is_handed_out_as_what_it_is() {
    let object = ParsedField::new(FieldKind::Object, "id".to_string(), named("String"));
    assert!(object.input().is_none());
    let input = ParsedField::new(FieldKind::Input, "id".to_string(), named("String"));
    assert!(input.object().is_none());
}

#[test]
fn arguments_are_kept_in_order() {
    let args = vec![
        InputValue::new("id".to_string(), named("String")),
        InputValue::new(
            "tags".to_string(),
            Type_::NonNull { ty: Box::new(Type_::List { ty: Box::new(named("String")) }) },
        ),
    ];
    let field = ParsedField::with_args(FieldKind::Object, "find".to_string(), named("User"), args);
    let text = field.and_then(|f| f.object()).map(|f| f.to_string());
    assert_eq!(text, Some("  find(id: String, tags: [String]!): User".to_string()));
}

#[test]
fn no_arguments_print_no_brackets() {
    let field =
        ParsedField::with_args(FieldKind::Object, "find".to_string(), named("User"), Vec::new());
    let text = field.and_then(|f| f.object()).map(|f| f.to_string());
    assert_eq!(text, Some("  find: User".to_string()));
}

#[test]
fn an_input_field_takes_no_arguments() {
    let args = vec![InputValue::new("id".to_string(), named("String"))];
    assert!(
        ParsedField::with_args(FieldKind::Input, "find".to_string(), named("User"), args).is_none()
    );
    assert!(ParsedField::with_args(
        FieldKind::Input,
        "find".to_string(),
        named("User"),
        Vec::new()
    )
    .is_none());
}

#[test]
fn a_failure_reads_as_kind_and_context() {
    assert_eq!(
        Error::new(ErrorKind::UnsupportedShape, "field").message(),
        "unsupported shape: field"
    );
    assert_eq!(Error::new(ErrorKind::MalformedUnion, "x").message(), "malformed union: x");
    assert_eq!(
        Error::new(ErrorKind::PositionalViolation, "AnInput").message(),
        "positional violation: AnInput"
    );
    assert_eq!(
        Error::new(ErrorKind::UndefinedReference, "Ghost").message(),
        "undefined reference: Ghost"
    );
    assert_eq!(
        Error::new(ErrorKind::StructuralViolation, "").message(),
        "structural violation: "
    );
}

#[test]
fn a_failure_keeps_its_kind_and_context() {
    let error = Error::new(ErrorKind::UndefinedReference, "Ghost");
    assert_eq!(error.kind, ErrorKind::UndefinedReference);
    assert_eq!(error.context, "Ghost");
}
