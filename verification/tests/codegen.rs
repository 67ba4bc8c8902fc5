use cronback::codegen::{
    extract_inner_type_from_container, Container, Direction, FromProtoFieldInfo, GenericArgument,
    IntoProtoFieldInfo, PathArguments, PathSegment, ProtoFieldInfo, SynType,
};
use cronback::text::{to_pascal_case, to_snake_case};

fn tokens(text: &str) -> String {
    text.parse::<proc_macro2::TokenStream>().unwrap().to_string()
}

fn plain(name: &str) -> SynType {
    SynType::Path {
        qself: false,
        segments: vec![PathSegment { ident: name.to_string(), arguments: PathArguments::Bare }],
    }
}

fn generic(path: &[&str], inner: SynType) -> SynType {
    let mut segments: Vec<PathSegment> = path
        .iter()
        .map(|p| PathSegment { ident: p.to_string(), arguments: PathArguments::Bare })
        .collect();
    let last = segments.len() - 1;
    segments[last].arguments = PathArguments::AngleBracketed(vec![GenericArgument::Type(inner)]);
    SynType::Path { qself: false, segments }
}

struct Attrs {
    name: &'static str,
    public: bool,
    ty: fn() -> SynType,
    skip: bool,
    rename: Option<&'static str>,
    required: bool,
    from_map: Option<(&'static str, bool)>,
    into_map: Option<(&'static str, bool)>,
    always_none: bool,
}

fn u32_ty() -> SynType {
    plain("u32")
}
fn string_ty() -> SynType {
    plain("String")
}
fn option_u32() -> SynType {
    generic(&["Option"], plain("u32"))
}
fn vec_u32() -> SynType {
    generic(&["Vec"], plain("u32"))
}

fn field(a: &Attrs) -> ProtoFieldInfo {
    ProtoFieldInfo {
        ident: Some(a.name.to_string()),
        is_visible: a.public,
        ty: (a.ty)(),
        skip: a.skip,
        name: a.rename.map(|s| s.to_string()),
        required: a.required,
    }
}

fn gen_into(a: &Attrs) -> String {
    let info = IntoProtoFieldInfo {
        map: a.into_map.map(|(p, _)| p.to_string()),
        map_by_ref: a.into_map.map(|(_, r)| r).unwrap_or(false),
    };
    field(a).gen_tokens(Direction::IntoProto(info)).to_text()
}

fn gen_from(a: &Attrs) -> String {
    let info = FromProtoFieldInfo {
        always_none: a.always_none,
        map: a.from_map.map(|(p, _)| p.to_string()),
        map_by_ref: a.from_map.map(|(_, r)| r).unwrap_or(false),
    };
    field(a).gen_tokens(Direction::FromProto(info)).to_text()
}

fn attrs(name: &'static str, ty: fn() -> SynType) -> Attrs {
    Attrs {
        name,
        public: true,
        ty,
        skip: false,
        rename: None,
        required: false,
        from_map: None,
        into_map: None,
        always_none: false,
    }
}

fn check_into(a: &Attrs, expected: &str) {
    assert_eq!(tokens(&gen_into(a)), tokens(expected));
}

fn check_from(a: &Attrs, expected: &str) {
    assert_eq!(tokens(&gen_from(a)), tokens(expected));
}

#[test]
fn gen_tokens_skipped() {
    // non-pub
    let a = Attrs { public: false, ..attrs("foo", u32_ty) };
    check_into(&a, "");
    check_from(&a, "foo: ::std::default::Default::default(),");
    // public but starts with _
    let a = attrs("_foo", u32_ty);
    check_into(&a, "");
    check_from(&a, "_foo: ::std::default::Default::default(),");
    // public but explicitly skipped
    let a = Attrs { skip: true, ..attrs("foo", u32_ty) };
    check_into(&a, "");
    check_from(&a, "foo: ::std::default::Default::default(),");
}

#[test]
fn gen_tokens_bare() {
    let a = attrs("foo", u32_ty);
    check_into(&a, "foo: value.foo.into(),");
    check_from(&a, "foo: value.foo.into(),");

    let a = Attrs { required: true, ..attrs("foo", u32_ty) };
    check_into(&a, "foo: Some(value.foo.into()),");
    check_from(&a, "foo: value.foo.unwrap().into(),");

    let a = Attrs { from_map: Some(("String::from", false)), ..attrs("foo", string_ty) };
    check_into(&a, "foo: value.foo.into(),");
    check_from(&a, "foo: String::from(value.foo).into(),");

    let a = Attrs { from_map: Some(("String::from", true)), ..attrs("foo", string_ty) };
    check_from(&a, "foo: String::from(&value.foo).into(),");

    let a = Attrs { into_map: Some(("String::from", false)), ..attrs("foo", u32_ty) };
    check_from(&a, "foo: value.foo.into(),");
    check_into(&a, "foo: String::from(value.foo).into(),");

    let a = Attrs { into_map: Some(("String::from", true)), ..attrs("foo", string_ty) };
    check_into(&a, "foo: String::from(&value.foo).into(),");

    let a = Attrs { rename: Some("bar"), into_map: Some(("String::from", false)), ..attrs("foo", u32_ty) };
    check_from(&a, "foo: value.bar.into(),");
    check_into(&a, "bar: String::from(value.foo).into(),");
}

#[test]
fn gen_tokens_option() {
    let a = attrs("foo", option_u32);
    check_into(&a, "foo: value.foo.map(Into::into),");
    check_from(&a, "foo: value.foo.map(Into::into),");

    let a = Attrs { required: true, ..attrs("foo", option_u32) };
    check_into(&a, "foo: value.foo.map(Into::into).unwrap(),");
    check_from(&a, "foo: Some(value.foo).map(Into::into),");

    let a = Attrs { always_none: true, ..attrs("foo", option_u32) };
    check_into(&a, "foo: value.foo.map(Into::into),");
    check_from(&a, "foo: None,");
}

#[test]
fn gen_tokens_mapped_option() {
    let a = Attrs { into_map: Some(("String::from", false)), ..attrs("foo", option_u32) };
    check_into(&a, "foo: value.foo.map(|v| String::from(v)),");
    check_from(&a, "foo: value.foo.map(Into::into),");

    let a = Attrs { from_map: Some(("String::from", false)), ..attrs("foo", option_u32) };
    check_into(&a, "foo: value.foo.map(Into::into),");
    check_from(&a, "foo: value.foo.map(|v| String::from(v)),");

    let a = Attrs { from_map: Some(("String::from", true)), ..attrs("foo", option_u32) };
    check_from(&a, "foo: value.foo.map(|v| String::from(&v)),");

    let a = Attrs {
        required: true,
        from_map: Some(("String::from", true)),
        into_map: Some(("AnotherType::from", true)),
        ..attrs("foo", option_u32)
    };
    check_into(&a, "foo: value.foo.map(|v| AnotherType::from(&v)).unwrap(),");
    check_from(&a, "foo: Some(value.foo).map(|v| String::from(&v)),");
}

#[test]
fn gen_tokens_vec() {
    let a = attrs("foo", vec_u32);
    check_into(&a, "foo: value.foo.into_iter().map(Into::into).collect::<::std::vec::Vec<_>>(),");
    check_from(&a, "foo: value.foo.into_iter().map(Into::into).collect::<::std::vec::Vec<_>>(),");

    let a = Attrs { required: true, ..attrs("foo", vec_u32) };
    check_into(&a, "foo: value.foo.into_iter().map(Into::into).collect::<::std::vec::Vec<_>>(),");
    check_from(&a, "foo: value.foo.unwrap().into_iter().map(Into::into).collect::<::std::vec::Vec<_>>(),");
}

#[test]
fn gen_tokens_mapped_vec() {
    let a = Attrs {
        from_map: Some(("String::from", false)),
        into_map: Some(("AnotherType::from", false)),
        ..attrs("foo", vec_u32)
    };
    check_into(&a, "foo: value.foo.into_iter().map(|v| AnotherType::from(v)).collect::<::std::vec::Vec<_>>(),");
    check_from(&a, "foo: value.foo.into_iter().map(|v| String::from(v)).collect::<::std::vec::Vec<_>>(),");

    let a = Attrs {
        required: true,
        from_map: Some(("String::from", true)),
        into_map: Some(("AnotherType::from", false)),
        ..attrs("foo", vec_u32)
    };
    check_into(&a, "foo: value.foo.into_iter().map(|v| AnotherType::from(v)).collect::<::std::vec::Vec<_>>(),");
    check_from(
        &a,
        "foo: value.foo.unwrap().into_iter().map(|v| String::from(&v)).collect::<::std::vec::Vec<_>>(),",
    );
}

#[test]
fn container_detection() {
    assert!(extract_inner_type_from_container(&option_u32(), Container::Option).is_some());
    assert!(extract_inner_type_from_container(&generic(&["std", "option", "Option"], plain("u8")), Container::Option).is_some());
    assert!(extract_inner_type_from_container(&generic(&["core", "option", "Option"], plain("u8")), Container::Option).is_some());
    assert!(extract_inner_type_from_container(&generic(&["my", "Option"], plain("u8")), Container::Option).is_none());
    assert!(extract_inner_type_from_container(&option_u32(), Container::Vec).is_none());
    assert!(extract_inner_type_from_container(&generic(&["alloc", "vec", "Vec"], plain("u8")), Container::Vec).is_some());
    assert!(extract_inner_type_from_container(&generic(&["HashMap"], plain("u8")), Container::HashMap).is_some());
    assert!(extract_inner_type_from_container(&plain("Option"), Container::Option).is_none());
    assert!(extract_inner_type_from_container(&SynType::Other, Container::Option).is_none());
    match extract_inner_type_from_container(&option_u32(), Container::Option) {
        Some(SynType::Path { segments, .. }) => assert_eq!(segments[0].ident, "u32"),
        _ => panic!("inner type not found"),
    }
}

#[test]
fn snake_and_pascal_case() {
    assert_eq!(to_snake_case("FooBar"), "foo_bar");
    assert_eq!(to_snake_case("fooBarBaz"), "foo_bar_baz");
    assert_eq!(to_snake_case("Foo"), "foo");
    assert_eq!(to_snake_case(""), "");
    assert_eq!(to_snake_case("HTTP"), "h_t_t_p");
    assert_eq!(to_pascal_case("foo_bar"), "FooBar");
    assert_eq!(to_pascal_case("_foo__bar_"), "FooBar");
    assert_eq!(to_pascal_case("foo"), "Foo");
    assert_eq!(to_pascal_case(""), "");
    assert_eq!(to_pascal_case(&to_snake_case("FooBarBaz")), "FooBarBaz");
}

#[test]
fn direction_kinds() {
    let d: Direction<u8, u16> = Direction::IntoProto(1);
    assert!(d.is_into() && !d.is_from());
    assert_eq!(d.to_text(), "IntoProto");
    let d: Direction<u8, u16> = Direction::FromProto(1);
    assert!(d.is_from() && !d.is_into());
    assert_eq!(d.to_text(), "FromProto");
}

#[test]
fn pascal_case_round_trips() {
    for name in ["A", "Scheduled", "OnDemand", "QuotaExceeded", "HTTPMethod", "V1Api"] {
        assert_eq!(to_pascal_case(&to_snake_case(name)), name);
    }
}

#[test]
fn snake_case_round_trips() {
    for name in ["foo", "foo_bar", "foo_bar2_baz", "a_b_c", "x9"] {
        assert_eq!(to_snake_case(&to_pascal_case(name)), name);
    }
    assert_eq!(to_pascal_case("foo_bar2_baz"), "FooBar2Baz");
    // An underscore before a digit does not survive the trip.
    assert_eq!(to_snake_case(&to_pascal_case("foo_2")), "foo2");
}
