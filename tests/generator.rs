use enum_visitor::{
    derive_visit_enum, dispatch_name, to_snake_case, Declaration, FieldShape, GenError, ItemData,
    Variant,
};

fn variant(name: &str, fields: FieldShape) -> Variant {
    Variant { name: name.to_string(), fields }
}

fn enum_of(name: &str, variants: Vec<Variant>) -> Declaration {
    Declaration { name: name.to_string(), data: ItemData::Enum(variants) }
}

fn shape_violation(decl: &Declaration) -> String {
    match derive_visit_enum(decl) {
        Err(GenError::ShapeViolation { variant }) => variant,
        _ => panic!("expected a shape violation"),
    }
}

#[test]
fn snake_case_of_camel_names() {
    assert_eq!(to_snake_case("Shape"), "shape");
    assert_eq!(to_snake_case("FooBar"), "foo_bar");
    assert_eq!(to_snake_case("HttpRequestKind"), "http_request_kind");
    assert_eq!(to_snake_case("V"), "v");
    assert_eq!(to_snake_case(""), "");
}

#[test]
fn snake_case_keeps_other_characters() {
    assert_eq!(to_snake_case("Shape2D"), "shape2_d");
    assert_eq!(to_snake_case("already_snake"), "already_snake");
    assert_eq!(to_snake_case("Ärger"), "ärger");
    assert_eq!(to_snake_case("GroßÜbung"), "groß_übung");
}

#[test]
fn snake_case_puts_one_separator_per_uppercase_letter() {
    assert_eq!(to_snake_case("HTTP"), "h_t_t_p");
    assert_eq!(to_snake_case("ABc"), "a_bc");
}

#[test]
fn distinct_camel_names_mangle_apart() {
    assert_ne!(to_snake_case("FooBar"), to_snake_case("Foobar"));
    assert_ne!(dispatch_name("AB"), dispatch_name("Ab"));
    assert_eq!(dispatch_name("FooBar"), dispatch_name("FooBar"));
}

#[test]
fn dispatch_name_has_prefix() {
    assert_eq!(dispatch_name("Shape"), "visit_shape");
    assert_eq!(dispatch_name("HttpRequest"), "visit_http_request");
}

#[test]
fn full_expansion_of_two_variants() {
    let decl = enum_of(
        "V",
        vec![variant("A", FieldShape::Unnamed(1)), variant("B", FieldShape::Unnamed(1))],
    );
    let expected = [
        "#[allow(non_snake_case, unused_macros)]\n",
        "macro_rules! visit_v {\n",
        "    ($expr:expr, |$v:pat_param| $body:expr $(,)?) => {{\n",
        "        match $expr {\n",
        "            V::A($v) => { $body }, V::B($v) => { $body }\n",
        "        }\n",
        "    }};\n",
        "    ($expr:expr, |$v:pat_param| { $($tt:tt)* } $(,)?) => {{\n",
        "        match $expr {\n",
        "            V::A($v) => { $($tt)* }, V::B($v) => { $($tt)* }\n",
        "        }\n",
        "    }};\n",
        "}\n",
        "#[allow(unused_macros)]\n",
        "macro_rules! visit {\n",
        "    ($expr:expr, |$v:pat_param| $body:expr $(,)?) => { visit_v!($expr, |$v| $body) };\n",
        "    ($expr:expr, |$v:pat_param| { $($tt:tt)* } $(,)?) => { visit_v!($expr, |$v| { $($tt)* }) };\n",
        "}\n",
    ]
    .concat();
    assert_eq!(derive_visit_enum(&decl).unwrap(), expected);
}

#[test]
fn single_variant_has_single_branch() {
    let decl = enum_of("OnlyOne", vec![variant("Item", FieldShape::Unnamed(1))]);
    let text = derive_visit_enum(&decl).unwrap();
    assert!(text.contains("macro_rules! visit_only_one {"));
    assert!(text.contains("            OnlyOne::Item($v) => { $body }\n"));
    assert!(text.contains("            OnlyOne::Item($v) => { $($tt)* }\n"));
    assert!(text.contains("=> { visit_only_one!($expr, |$v| $body) };"));
}

#[test]
fn empty_enum_has_no_branches() {
    let text = derive_visit_enum(&enum_of("Never", vec![])).unwrap();
    assert!(text.contains("match $expr {\n            \n        }"));
}

#[test]
fn unit_variant_is_rejected() {
    let decl = enum_of(
        "E",
        vec![variant("Good", FieldShape::Unnamed(1)), variant("Empty", FieldShape::Unit)],
    );
    assert_eq!(shape_violation(&decl), "Empty");
}

#[test]
fn two_field_variant_is_rejected() {
    let decl = enum_of(
        "E",
        vec![variant("Pair", FieldShape::Unnamed(2)), variant("Good", FieldShape::Unnamed(1))],
    );
    assert_eq!(shape_violation(&decl), "Pair");
}

#[test]
fn zero_field_tuple_variant_is_rejected() {
    let decl = enum_of("E", vec![variant("Nothing", FieldShape::Unnamed(0))]);
    assert_eq!(shape_violation(&decl), "Nothing");
}

#[test]
fn named_field_variant_is_rejected() {
    let decl = enum_of("E", vec![variant("Point", FieldShape::Named(1))]);
    assert_eq!(shape_violation(&decl), "Point");
}

#[test]
fn first_bad_variant_is_reported() {
    let decl = enum_of(
        "E",
        vec![
            variant("Ok1", FieldShape::Unnamed(1)),
            variant("Bad1", FieldShape::Named(2)),
            variant("Bad2", FieldShape::Unit),
        ],
    );
    let err = derive_visit_enum(&decl).unwrap_err();
    assert_eq!(err.subject(), "Bad1");
    assert_eq!(err.message(), "VisitEnum only supports tuple variants with exactly 1 field");
}

#[test]
fn non_enum_is_rejected() {
    let decl = Declaration { name: "Point".to_string(), data: ItemData::Other };
    let err = derive_visit_enum(&decl).unwrap_err();
    assert!(matches!(&err, GenError::NotAnEnum { name } if name == "Point"));
    assert_eq!(err.subject(), "Point");
    assert_eq!(err.message(), "VisitEnum can only be derived for enums");
}
