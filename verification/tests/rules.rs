use tsgql::ast::{Item, Keyword, Member, Module, Property, TypeExpr};
use tsgql::{generate_schema, Error, ErrorKind, GraphQLKind, Manifest};

fn string() -> TypeExpr {
    TypeExpr::Keyword(Keyword::Str)
}

fn number() -> TypeExpr {
    TypeExpr::Keyword(Keyword::Number)
}

fn boolean() -> TypeExpr {
    TypeExpr::Keyword(Keyword::Boolean)
}

fn null() -> TypeExpr {
    TypeExpr::Keyword(Keyword::Null)
}

fn undefined() -> TypeExpr {
    TypeExpr::Keyword(Keyword::Undefined)
}

fn named(name: &str) -> TypeExpr {
    TypeExpr::Reference { name: Some(name.to_string()), type_params: None }
}

fn promise(inner: TypeExpr) -> TypeExpr {
    TypeExpr::Reference { name: Some("Promise".to_string()), type_params: Some(vec![inner]) }
}

fn array(elem: TypeExpr) -> TypeExpr {
    TypeExpr::Array(Box::new(elem))
}

fn literal(members: Vec<Member>) -> TypeExpr {
    TypeExpr::Literal(members)
}

fn union(types: Vec<TypeExpr>) -> TypeExpr {
    TypeExpr::Union(types)
}

fn function(args: Vec<Member>, ret: TypeExpr) -> TypeExpr {
    TypeExpr::Function { params: vec![Some(literal(args))], ret: Box::new(ret) }
}

fn required(key: &str, ty: TypeExpr) -> Member {
    Member::Property(Property { key: Some(key.to_string()), ty: Some(ty), optional: false })
}

fn optional(key: &str, ty: TypeExpr) -> Member {
    Member::Property(Property { key: Some(key.to_string()), ty: Some(ty), optional: true })
}

fn alias(name: &str, members: Vec<Member>) -> Item {
    Item::TypeAlias { name: name.to_string(), ty: literal(members) }
}

fn translate(body: Vec<Item>, entries: Vec<(&str, GraphQLKind)>) -> Result<String, Error> {
    let mut manifest = Manifest::new();
    for (name, kind) in entries {
        manifest.insert(name.to_string(), kind);
    }
    generate_schema(Module { body }, manifest)
}

fn gives(body: Vec<Item>, entries: Vec<(&str, GraphQLKind)>, expected: &str) {
    match translate(body, entries) {
        Ok(out) => assert_eq!(out, expected),
        Err(e) => panic!("unexpected failure: {}", e.message()),
    }
}

fn fails(body: Vec<Item>, entries: Vec<(&str, GraphQLKind)>, kind: ErrorKind, context: &str) {
    match translate(body, entries) {
        Err(e) => {
            assert_eq!(e.kind, kind);
            assert_eq!(e.context, context);
        }
        Ok(out) => panic!("expected a failure, got: {}", out),
    }
}

/// The manifest of most tests: `User` and `Query` are object types, `Filter`
/// is an input type, `Color` is an enum.
fn usual() -> Vec<(&'static str, GraphQLKind)> {
    vec![
        ("User", GraphQLKind::Object),
        ("Query", GraphQLKind::Object),
        ("Filter", GraphQLKind::Input),
        ("Color", GraphQLKind::Enum),
    ]
}

/// `type Query = { <field> }`
fn query(field: Member) -> Vec<Item> {
    vec![alias("Query", vec![field])]
}

#[test]
fn required_primitives_print_with_a_bang() {
    gives(
        query(required("a", string())),
        usual(),
        "type Query {\n  a: String!\n}\n",
    );
    gives(query(required("a", number())), usual(), "type Query {\n  a: Int!\n}\n");
    gives(
        query(required("a", boolean())),
        usual(),
        "type Query {\n  a: Boolean!\n}\n",
    );
}

#[test]
fn optional_primitives_print_without_a_bang() {
    gives(query(optional("a", string())), usual(), "type Query {\n  a: String\n}\n");
    gives(query(optional("a", number())), usual(), "type Query {\n  a: Int\n}\n");
    gives(
        query(optional("a", boolean())),
        usual(),
        "type Query {\n  a: Boolean\n}\n",
    );
}

#[test]
fn primitives_in_an_input_type_print_alike() {
    gives(
        vec![alias("Filter", vec![required("a", string()), optional("b", number())])],
        usual(),
        "input Filter {\n  a: String!\n  b: Int\n}\n",
    );
}

#[test]
fn a_list_carries_the_bang_and_its_elements_do_not() {
    gives(
        query(required("a", array(string()))),
        usual(),
        "type Query {\n  a: [String]!\n}\n",
    );
    gives(
        query(optional("a", array(string()))),
        usual(),
        "type Query {\n  a: [String]\n}\n",
    );
    gives(
        query(required("a", array(named("User")))),
        usual(),
        "type Query {\n  a: [User]!\n}\n",
    );
}

#[test]
fn a_list_of_lists_prints_two_pairs_of_brackets() {
    gives(
        query(required("a", array(array(number())))),
        usual(),
        "type Query {\n  a: [[Int]]!\n}\n",
    );
    gives(
        query(optional("a", array(array(named("User"))))),
        usual(),
        "type Query {\n  a: [[User]]\n}\n",
    );
    gives(
        query(optional("a", array(array(array(boolean()))))),
        usual(),
        "type Query {\n  a: [[[Boolean]]]\n}\n",
    );
}

#[test]
fn a_list_of_promises_keeps_the_bang_of_the_promise() {
    gives(
        query(optional("a", array(promise(string())))),
        usual(),
        "type Query {\n  a: [String!]\n}\n",
    );
}

fn example() -> Vec<Item> {
    vec![
        alias("User", vec![required("id", string()), required("name", string())]),
        alias(
            "Query",
            vec![required(
                "findUser",
                function(vec![optional("id", string())], promise(named("User"))),
            )],
        ),
    ]
}

#[test]
fn the_same_module_translates_to_the_same_text() {
    let first = translate(example(), usual());
    let second = translate(example(), usual());
    assert!(first.is_ok());
    assert_eq!(first.ok(), second.ok());
}

#[test]
fn the_same_module_fails_alike() {
    let body = || query(required("a", named("Ghost")));
    let first = translate(body(), usual()).err().map(|e| (e.kind, e.context));
    let second = translate(body(), usual()).err().map(|e| (e.kind, e.context));
    assert_eq!(first, Some((ErrorKind::UndefinedReference, "Ghost".to_string())));
    assert_eq!(first, second);
}

#[test]
fn a_single_inline_argument_names_its_type_after_the_field() {
    gives(
        query(required(
            "name",
            function(vec![required("only", literal(vec![required("id", string())]))], string()),
        )),
        usual(),
        "input NameInput {\n  id: String!\n}\n\
         type Query {\n  name(only: NameInput!): String\n}\n",
    );
}

#[test]
fn two_inline_arguments_name_their_types_after_themselves_too() {
    gives(
        query(required(
            "name",
            function(
                vec![
                    required("user", literal(vec![required("id", string())])),
                    required("other", literal(vec![optional("flag", boolean())])),
                ],
                string(),
            ),
        )),
        usual(),
        "input NameInputUser {\n  id: String!\n}\n\
         input NameInputOther {\n  flag: Boolean\n}\n\
         type Query {\n  name(user: NameInputUser!, other: NameInputOther!): String\n}\n",
    );
}

#[test]
fn an_inline_argument_beside_a_plain_one_is_named_after_itself_too() {
    gives(
        query(required(
            "find",
            function(
                vec![
                    optional("limit", number()),
                    optional("by", literal(vec![required("id", string())])),
                ],
                string(),
            ),
        )),
        usual(),
        "input FindInputBy {\n  id: String!\n}\n\
         type Query {\n  find(limit: Int, by: FindInputBy): String\n}\n",
    );
}

#[test]
fn an_input_type_as_the_type_of_a_field_fails() {
    fails(
        query(required("a", named("Filter"))),
        usual(),
        ErrorKind::PositionalViolation,
        "Filter",
    );
    fails(
        query(optional("a", array(named("Filter")))),
        usual(),
        ErrorKind::PositionalViolation,
        "Filter",
    );
}

#[test]
fn an_input_type_as_what_a_function_returns_fails() {
    fails(
        query(required("a", function(vec![], named("Filter")))),
        usual(),
        ErrorKind::PositionalViolation,
        "Filter",
    );
    fails(
        query(required("a", function(vec![], promise(union(vec![named("Filter"), null()]))))),
        usual(),
        ErrorKind::PositionalViolation,
        "Filter",
    );
}

#[test]
fn an_input_type_in_a_declared_input_type_fails() {
    fails(
        vec![alias("Filter", vec![required("inner", named("Filter"))])],
        usual(),
        ErrorKind::PositionalViolation,
        "Filter",
    );
}

#[test]
fn an_object_type_in_an_argument_fails() {
    fails(
        query(required("a", function(vec![required("who", named("User"))], string()))),
        usual(),
        ErrorKind::PositionalViolation,
        "User",
    );
    fails(
        query(required(
            "a",
            function(vec![optional("who", union(vec![named("User"), null()]))], string()),
        )),
        usual(),
        ErrorKind::PositionalViolation,
        "User",
    );
}

#[test]
fn an_object_type_inside_an_inline_argument_fails() {
    fails(
        query(required(
            "a",
            function(
                vec![required("filter", literal(vec![required("who", named("User"))]))],
                string(),
            ),
        )),
        usual(),
        ErrorKind::PositionalViolation,
        "User",
    );
}

#[test]
fn an_object_type_after_a_function_typed_argument_still_fails() {
    fails(
        query(required(
            "a",
            function(
                vec![
                    required("callback", function(vec![required("x", string())], string())),
                    required("who", named("User")),
                ],
                string(),
            ),
        )),
        usual(),
        ErrorKind::PositionalViolation,
        "User",
    );
}

#[test]
fn an_input_type_in_an_argument_is_accepted() {
    gives(
        query(required(
            "a",
            function(
                vec![
                    required("filter", named("Filter")),
                    required("nested", literal(vec![optional("filter", named("Filter"))])),
                ],
                string(),
            ),
        )),
        usual(),
        "input AInputNested {\n  filter: Filter\n}\n\
         type Query {\n  a(filter: Filter!, nested: AInputNested!): String\n}\n",
    );
}

#[test]
fn an_enum_is_accepted_everywhere() {
    gives(
        query(required(
            "a",
            function(vec![required("color", named("Color"))], promise(named("Color"))),
        )),
        usual(),
        "type Query {\n  a(color: Color!): Color!\n}\n",
    );
    gives(
        query(optional("color", named("Color"))),
        usual(),
        "type Query {\n  color: Color\n}\n",
    );
}

#[test]
fn a_promise_of_a_type_or_null_may_be_absent() {
    gives(
        query(required("a", function(vec![], promise(union(vec![named("User"), null()]))))),
        usual(),
        "type Query {\n  a: User\n}\n",
    );
    gives(
        query(required(
            "a",
            function(vec![], promise(union(vec![undefined(), named("User")]))),
        )),
        usual(),
        "type Query {\n  a: User\n}\n",
    );
    gives(
        query(required(
            "a",
            function(vec![], promise(union(vec![named("User"), null(), undefined()]))),
        )),
        usual(),
        "type Query {\n  a: User\n}\n",
    );
}

#[test]
fn a_promise_of_a_type_may_not_be_absent() {
    gives(
        query(required("a", function(vec![], promise(named("User"))))),
        usual(),
        "type Query {\n  a: User!\n}\n",
    );
}

#[test]
fn a_promise_decides_whatever_the_property_says() {
    gives(
        query(required("a", promise(string()))),
        usual(),
        "type Query {\n  a: String!\n}\n",
    );
    gives(
        query(optional("a", promise(string()))),
        usual(),
        "type Query {\n  a: String!\n}\n",
    );
    gives(
        query(required("a", promise(union(vec![string(), null()])))),
        usual(),
        "type Query {\n  a: String\n}\n",
    );
}

#[test]
fn a_function_that_returns_no_promise_may_return_nothing() {
    gives(
        query(required("a", function(vec![required("id", string())], string()))),
        usual(),
        "type Query {\n  a(id: String!): String\n}\n",
    );
    gives(
        query(required("a", function(vec![required("id", string())], array(number())))),
        usual(),
        "type Query {\n  a(id: String!): [Int]\n}\n",
    );
}

#[test]
fn a_union_with_null_may_be_absent_whatever_the_property_says() {
    gives(
        query(required("a", union(vec![string(), null()]))),
        usual(),
        "type Query {\n  a: String\n}\n",
    );
    gives(
        query(required("a", union(vec![undefined(), array(number())]))),
        usual(),
        "type Query {\n  a: [Int]\n}\n",
    );
}

#[test]
fn the_example_translates() {
    gives(
        example(),
        vec![("User", GraphQLKind::Object), ("Query", GraphQLKind::Object)],
        "type User {\n  id: String!\n  name: String!\n}\n\
         type Query {\n  findUser(id: String): User!\n}\n",
    );
}

#[test]
fn the_example_of_an_input_as_a_field_fails() {
    fails(
        vec![
            alias("AnInput", vec![required("dummy", string())]),
            alias("Player", vec![required("woops", named("AnInput"))]),
        ],
        vec![("AnInput", GraphQLKind::Input), ("Player", GraphQLKind::Object)],
        ErrorKind::PositionalViolation,
        "AnInput",
    );
}

#[test]
fn an_unknown_keyword_is_unsupported() {
    fails(
        query(required("a", TypeExpr::Keyword(Keyword::Other))),
        usual(),
        ErrorKind::UnsupportedShape,
        "a",
    );
    fails(query(required("a", null())), usual(), ErrorKind::UnsupportedShape, "a");
    fails(
        query(required("a", array(undefined()))),
        usual(),
        ErrorKind::UnsupportedShape,
        "a",
    );
}

#[test]
fn an_object_literal_without_a_name_is_unsupported() {
    fails(
        query(required("a", literal(vec![required("b", string())]))),
        usual(),
        ErrorKind::UnsupportedShape,
        "a",
    );
    fails(
        query(required("a", array(literal(vec![required("b", string())])))),
        usual(),
        ErrorKind::UnsupportedShape,
        "a",
    );
}

#[test]
fn any_other_type_expression_is_unsupported() {
    fails(query(required("a", TypeExpr::Other)), usual(), ErrorKind::UnsupportedShape, "a");
    fails(
        query(required("a", TypeExpr::Reference { name: None, type_params: None })),
        usual(),
        ErrorKind::UnsupportedShape,
        "a",
    );
}

#[test]
fn a_promise_takes_one_parameter() {
    fails(
        query(required("a", named("Promise"))),
        usual(),
        ErrorKind::UnsupportedShape,
        "a",
    );
    fails(
        query(required(
            "a",
            TypeExpr::Reference { name: Some("Promise".to_string()), type_params: Some(vec![]) },
        )),
        usual(),
        ErrorKind::UnsupportedShape,
        "a",
    );
    fails(
        query(required(
            "a",
            TypeExpr::Reference {
                name: Some("Promise".to_string()),
                type_params: Some(vec![string(), number()]),
            },
        )),
        usual(),
        ErrorKind::UnsupportedShape,
        "a",
    );
}

#[test]
fn a_member_that_is_no_property_is_unsupported() {
    fails(
        vec![alias("Query", vec![required("a", string()), Member::Other])],
        usual(),
        ErrorKind::UnsupportedShape,
        "Query",
    );
    fails(
        query(required("find", function(vec![Member::Other], string()))),
        usual(),
        ErrorKind::UnsupportedShape,
        "find",
    );
}

#[test]
fn a_property_needs_a_name_and_a_type() {
    let nameless = Member::Property(Property { key: None, ty: Some(string()), optional: false });
    fails(vec![alias("Query", vec![nameless])], usual(), ErrorKind::UnsupportedShape, "Query");
    let untyped =
        Member::Property(Property { key: Some("a".to_string()), ty: None, optional: false });
    fails(vec![alias("Query", vec![untyped])], usual(), ErrorKind::UnsupportedShape, "a");
}

#[test]
fn an_argument_needs_a_name_and_a_type() {
    let nameless = Member::Property(Property { key: None, ty: Some(string()), optional: false });
    fails(
        query(required("find", function(vec![nameless], string()))),
        usual(),
        ErrorKind::UnsupportedShape,
        "find",
    );
    let untyped =
        Member::Property(Property { key: Some("x".to_string()), ty: None, optional: false });
    fails(
        query(required("find", function(vec![untyped], string()))),
        usual(),
        ErrorKind::UnsupportedShape,
        "x",
    );
}

#[test]
fn a_statement_that_is_no_type_alias_is_unsupported() {
    fails(vec![Item::Other], usual(), ErrorKind::UnsupportedShape, "");
    fails(
        vec![alias("User", vec![required("id", string())]), Item::Other],
        usual(),
        ErrorKind::UnsupportedShape,
        "",
    );
}

#[test]
fn a_declared_type_must_be_an_object_literal() {
    fails(
        vec![Item::TypeAlias { name: "User".to_string(), ty: string() }],
        usual(),
        ErrorKind::UnsupportedShape,
        "User",
    );
    fails(
        vec![Item::TypeAlias { name: "Filter".to_string(), ty: array(string()) }],
        usual(),
        ErrorKind::UnsupportedShape,
        "Filter",
    );
}

#[test]
fn a_union_of_two_types_is_malformed() {
    fails(
        query(required("a", union(vec![named("User"), string()]))),
        usual(),
        ErrorKind::MalformedUnion,
        "a",
    );
    fails(
        query(required("a", union(vec![named("User"), string(), null()]))),
        usual(),
        ErrorKind::MalformedUnion,
        "a",
    );
}

#[test]
fn a_union_without_a_type_is_malformed() {
    fails(
        query(required("a", union(vec![null(), undefined()]))),
        usual(),
        ErrorKind::MalformedUnion,
        "a",
    );
    fails(query(required("a", union(vec![]))), usual(), ErrorKind::MalformedUnion, "a");
}

#[test]
fn a_union_without_null_is_malformed() {
    fails(
        query(required("a", union(vec![string()]))),
        usual(),
        ErrorKind::MalformedUnion,
        "a",
    );
}

#[test]
fn a_union_in_a_union_counts_as_nullable_where_it_holds_null() {
    gives(
        query(required("a", union(vec![string(), union(vec![number(), null()])]))),
        usual(),
        "type Query {\n  a: String\n}\n",
    );
    fails(
        query(required("a", union(vec![union(vec![string(), null()]), null()]))),
        usual(),
        ErrorKind::MalformedUnion,
        "a",
    );
}

#[test]
fn a_malformed_union_in_an_argument_is_named_after_the_argument() {
    fails(
        query(required(
            "find",
            function(vec![required("who", union(vec![string(), number()]))], string()),
        )),
        usual(),
        ErrorKind::MalformedUnion,
        "who",
    );
}

#[test]
fn a_malformed_union_in_a_promise_is_named_after_the_field() {
    fails(
        query(required("find", function(vec![], promise(union(vec![string(), number()]))))),
        usual(),
        ErrorKind::MalformedUnion,
        "find",
    );
}

#[test]
fn a_name_outside_the_manifest_is_undefined() {
    fails(
        query(required("a", named("Ghost"))),
        usual(),
        ErrorKind::UndefinedReference,
        "Ghost",
    );
    fails(
        query(required("a", function(vec![required("b", named("Ghost"))], string()))),
        usual(),
        ErrorKind::UndefinedReference,
        "Ghost",
    );
    fails(
        query(required("a", named("promise"))),
        usual(),
        ErrorKind::UndefinedReference,
        "promise",
    );
}

#[test]
fn a_function_takes_one_parameter() {
    fails(
        query(required("find", TypeExpr::Function { params: vec![], ret: Box::new(string()) })),
        usual(),
        ErrorKind::StructuralViolation,
        "find",
    );
    fails(
        query(required(
            "find",
            TypeExpr::Function {
                params: vec![Some(literal(vec![])), Some(literal(vec![]))],
                ret: Box::new(string()),
            },
        )),
        usual(),
        ErrorKind::StructuralViolation,
        "find",
    );
}

#[test]
fn the_parameter_of_a_function_is_an_object_literal() {
    fails(
        query(required(
            "find",
            TypeExpr::Function { params: vec![Some(string())], ret: Box::new(string()) },
        )),
        usual(),
        ErrorKind::StructuralViolation,
        "find",
    );
    fails(
        query(required(
            "find",
            TypeExpr::Function { params: vec![Some(named("Filter"))], ret: Box::new(string()) },
        )),
        usual(),
        ErrorKind::StructuralViolation,
        "find",
    );
    fails(
        query(required(
            "find",
            TypeExpr::Function { params: vec![None], ret: Box::new(string()) },
        )),
        usual(),
        ErrorKind::StructuralViolation,
        "find",
    );
}

#[test]
fn a_field_of_an_input_type_takes_no_arguments() {
    fails(
        vec![alias(
            "Filter",
            vec![required("find", function(vec![required("id", string())], string()))],
        )],
        usual(),
        ErrorKind::StructuralViolation,
        "find",
    );
    fails(
        vec![alias("Filter", vec![required("find", function(vec![], string()))])],
        usual(),
        ErrorKind::StructuralViolation,
        "find",
    );
}

#[test]
fn the_first_failure_is_reported() {
    fails(
        vec![
            alias("User", vec![required("a", named("Ghost")), required("b", named("Filter"))]),
            Item::Other,
        ],
        usual(),
        ErrorKind::UndefinedReference,
        "Ghost",
    );
    fails(
        query(required(
            "find",
            function(vec![required("who", named("User"))], named("Ghost")),
        )),
        usual(),
        ErrorKind::PositionalViolation,
        "User",
    );
}

#[test]
fn an_empty_module_gives_no_text() {
    gives(vec![], usual(), "");
    gives(vec![], vec![], "");
}

#[test]
fn imports_and_exports_are_skipped() {
    gives(
        vec![Item::ModuleDecl, alias("User", vec![required("id", string())]), Item::ModuleDecl],
        usual(),
        "type User {\n  id: String!\n}\n",
    );
}

#[test]
fn a_type_outside_the_manifest_is_skipped() {
    gives(
        vec![
            alias("Hidden", vec![required("a", named("Ghost"))]),
            alias("User", vec![required("id", string())]),
            Item::TypeAlias { name: "Id".to_string(), ty: string() },
        ],
        usual(),
        "type User {\n  id: String!\n}\n",
    );
}

#[test]
fn an_enum_of_the_manifest_is_declared_as_an_object_type() {
    gives(
        vec![alias("Color", vec![required("red", boolean())])],
        usual(),
        "type Color {\n  red: Boolean!\n}\n",
    );
}

#[test]
fn a_type_without_members_has_no_fields() {
    gives(vec![alias("User", vec![])], usual(), "type User {\n}\n");
    gives(vec![alias("Filter", vec![])], usual(), "input Filter {\n}\n");
}

#[test]
fn a_function_without_arguments_prints_no_brackets() {
    gives(
        query(required("now", function(vec![], promise(string())))),
        usual(),
        "type Query {\n  now: String!\n}\n",
    );
}

#[test]
fn a_list_of_object_literals_is_named_in_a_return_type_only() {
    gives(
        query(required(
            "find",
            function(
                vec![],
                promise(union(vec![array(literal(vec![required("id", string())])), null()])),
            ),
        )),
        usual(),
        "type FindOutput {\n  id: String!\n}\n\
         type Query {\n  find: [FindOutput]\n}\n",
    );
    gives(
        query(required("find", function(vec![], array(literal(vec![optional("id", number())]))))),
        usual(),
        "type FindOutput {\n  id: Int\n}\n\
         type Query {\n  find: [FindOutput]\n}\n",
    );
    fails(
        query(required(
            "find",
            function(
                vec![required("ids", array(literal(vec![required("id", string())])))],
                string(),
            ),
        )),
        usual(),
        ErrorKind::UnsupportedShape,
        "ids",
    );
}

#[test]
fn a_promised_list_of_object_literals_is_named_after_the_field() {
    gives(
        query(required(
            "find",
            function(vec![], promise(array(literal(vec![required("id", string())])))),
        )),
        usual(),
        "type FindOutput {\n  id: String!\n}\n\
         type Query {\n  find: [FindOutput]!\n}\n",
    );
    fails(
        query(required("find", function(vec![], promise(TypeExpr::Other)))),
        usual(),
        ErrorKind::UnsupportedShape,
        "find",
    );
}

#[test]
fn a_promised_object_literal_becomes_an_object_type() {
    gives(
        query(required("me", promise(literal(vec![required("user", named("User"))])))),
        usual(),
        "type MeOutput {\n  user: User!\n}\n\
         type Query {\n  me: MeOutput!\n}\n",
    );
    gives(
        query(optional(
            "me",
            promise(union(vec![null(), literal(vec![optional("id", string())])])),
        )),
        usual(),
        "type MeOutput {\n  id: String\n}\n\
         type Query {\n  me: MeOutput\n}\n",
    );
}

#[test]
fn synthesized_types_come_before_the_type_that_uses_them() {
    gives(
        vec![
            alias("User", vec![required("id", string())]),
            alias(
                "Query",
                vec![
                    required("first", number()),
                    required(
                        "find",
                        function(
                            vec![required("by", literal(vec![required("id", string())]))],
                            promise(literal(vec![
                                required("user", named("User")),
                                required(
                                    "friends",
                                    array(literal(vec![required("name", string())])),
                                ),
                            ])),
                        ),
                    ),
                    required("last", boolean()),
                ],
            ),
        ],
        usual(),
        "type User {\n  id: String!\n}\n\
         input FindInput {\n  id: String!\n}\n\
         type FriendsOutput {\n  name: String!\n}\n\
         type FindOutput {\n  user: User!\n  friends: [FriendsOutput]!\n}\n\
         type Query {\n  first: Int!\n  find(by: FindInput!): FindOutput!\n  last: Boolean!\n}\n",
    );
}

#[test]
fn an_object_literal_inside_an_inline_argument_is_unsupported() {
    fails(
        query(required(
            "find",
            function(
                vec![required(
                    "filter",
                    literal(vec![required("range", literal(vec![optional("low", number())]))]),
                )],
                string(),
            ),
        )),
        usual(),
        ErrorKind::UnsupportedShape,
        "range",
    );
}

#[test]
fn types_of_the_same_name_are_both_printed() {
    gives(
        vec![
            alias(
                "Query",
                vec![required(
                    "find",
                    function(
                        vec![required("by", literal(vec![required("id", string())]))],
                        string(),
                    ),
                )],
            ),
            alias(
                "User",
                vec![required(
                    "find",
                    function(
                        vec![required("by", literal(vec![required("n", number())]))],
                        string(),
                    ),
                )],
            ),
        ],
        usual(),
        "input FindInput {\n  id: String!\n}\n\
         type Query {\n  find(by: FindInput!): String\n}\n\
         input FindInput {\n  n: Int!\n}\n\
         type User {\n  find(by: FindInput!): String\n}\n",
    );
}
