use derive_try_from_primitive::conversion::Conversion;
use derive_try_from_primitive::discriminant::parse_u64;
use derive_try_from_primitive::input::{
    Attribute, Data, DeriveInput, Discriminant, Meta, MetaPath, NestedMeta, Variant,
};
use derive_try_from_primitive::lints::collect_parent_lint_attrs;
use derive_try_from_primitive::repr::{narrow_to, repr_from_ident, resolve_repr, DeriveError, Repr};
use derive_try_from_primitive::text::text_is;

fn path(segments: &[&str]) -> MetaPath {
    MetaPath {
        leading_colon: false,
        segments: segments.iter().map(|s| s.to_string()).collect(),
    }
}

fn list_attr(name: &str, nested: Vec<NestedMeta>) -> Attribute {
    Attribute {
        meta: Some(Meta::List(path(&[name]), nested)),
    }
}

fn repr_attr(ty: &str) -> Attribute {
    list_attr("repr", vec![NestedMeta::Path(path(&[ty]))])
}

fn variant(name: &str, discriminant: Option<&str>) -> Variant {
    Variant {
        name: name.to_string(),
        discriminant: discriminant.map(|d| Discriminant::Int(d.to_string())),
    }
}

fn enum_input(attrs: Vec<Attribute>, variants: Vec<Variant>) -> DeriveInput {
    DeriveInput {
        name: "Foo".to_string(),
        attrs,
        data: Data::Enum(variants),
    }
}

fn foo() -> DeriveInput {
    enum_input(
        vec![repr_attr("u16")],
        vec![
            variant("A", None),
            variant("B", Some("100")),
            variant("C", Some("200")),
            variant("D", None),
            variant("E", None),
        ],
    )
}

fn variant_name(input: &DeriveInput, r: Result<usize, i128>) -> Option<String> {
    match (&input.data, r) {
        (Data::Enum(vs), Ok(i)) => Some(vs[i].name.clone()),
        _ => None,
    }
}

fn conversion(input: &DeriveInput) -> Conversion {
    match derive_try_from_primitive::conversion::derive(input) {
        Ok(c) => c,
        Err(e) => panic!("derive failed: {:?}", e),
    }
}

#[test]
fn generated_impl() {
    let input = foo();
    let conv = conversion(&input);
    let a = conv.try_from_value(0);
    let b = conv.try_from_value(100);
    let c = conv.try_from_value(200);
    let d = conv.try_from_value(201);
    let e = conv.try_from_value(202);
    let bad = conv.try_from_value(300);
    assert_eq!(variant_name(&input, a).unwrap(), "A");
    assert_eq!(variant_name(&input, b).unwrap(), "B");
    assert_eq!(variant_name(&input, c).unwrap(), "C");
    assert_eq!(variant_name(&input, d).unwrap(), "D");
    assert_eq!(variant_name(&input, e).unwrap(), "E");
    if let Err(value) = bad {
        assert_eq!(value, 300, "Input is returned for convenience");
    }
}

#[test]
fn implicit_sequencing_values() {
    let conv = conversion(&foo());
    assert_eq!(conv.repr, Repr::U16);
    assert_eq!(conv.values, vec![0, 100, 200, 201, 202]);
    assert_eq!(conv.try_from_value(300), Err(300));
    assert_eq!(conv.try_from_value(1), Err(1));
}

#[test]
fn single_implicit_variant_is_zero() {
    let conv = conversion(&enum_input(vec![], vec![variant("Only", None)]));
    assert_eq!(conv.values, vec![0]);
    assert_eq!(conv.try_from_value(0), Ok(0));
    assert_eq!(conv.try_from_value(1), Err(1));
}

#[test]
fn missing_repr_defaults_to_usize() {
    let conv = conversion(&enum_input(vec![], vec![variant("A", Some("7")), variant("B", None)]));
    assert_eq!(conv.repr, Repr::Usize);
    assert_eq!(conv.values, vec![7, 8]);
}

#[test]
fn lint_attrs_carried_over() {
    let attrs = vec![
        Attribute {
            meta: Some(Meta::NameValue(path(&["doc"]))),
        },
        list_attr("allow", vec![NestedMeta::Path(path(&["dead_code"]))]),
        repr_attr("u8"),
        list_attr(
            "cfg_attr",
            vec![NestedMeta::Path(path(&["test"])), NestedMeta::List(path(&["deny"]))],
        ),
        list_attr(
            "cfg_attr",
            vec![NestedMeta::Path(path(&["test"])), NestedMeta::List(path(&["derive"]))],
        ),
        Attribute { meta: None },
        list_attr("warn", vec![]),
        Attribute {
            meta: Some(Meta::Path(path(&["allow"]))),
        },
        Attribute {
            meta: Some(Meta::List(
                MetaPath {
                    leading_colon: true,
                    segments: vec!["forbid".to_string()],
                },
                vec![],
            )),
        },
        list_attr("forbid", vec![NestedMeta::Path(path(&["unsafe_code"]))]),
    ];
    assert_eq!(collect_parent_lint_attrs(&attrs), vec![1, 3, 6, 9]);
    let conv = conversion(&enum_input(attrs, vec![variant("A", None)]));
    assert_eq!(conv.lint_attrs, vec![1, 3, 6, 9]);
    assert_eq!(conv.repr, Repr::U8);
}

#[test]
fn doc_attr_is_not_carried_over() {
    let attrs = vec![Attribute {
        meta: Some(Meta::NameValue(path(&["doc"]))),
    }];
    assert_eq!(collect_parent_lint_attrs(&attrs), Vec::<usize>::new());
}

#[test]
fn zero_variants_rejected() {
    let input = enum_input(vec![repr_attr("u8")], vec![]);
    assert!(matches!(derive_try_from_primitive::conversion::derive(&input), Err(DeriveError::NoVariants)));
}

#[test]
fn struct_rejected() {
    let input = DeriveInput {
        name: "S".to_string(),
        attrs: vec![],
        data: Data::Struct,
    };
    assert!(matches!(derive_try_from_primitive::conversion::derive(&input), Err(DeriveError::StructNotSupported)));
}

#[test]
fn union_rejected() {
    let input = DeriveInput {
        name: "U".to_string(),
        attrs: vec![],
        data: Data::Union,
    };
    assert!(matches!(derive_try_from_primitive::conversion::derive(&input), Err(DeriveError::UnionNotSupported)));
}

#[test]
fn u8_discriminant_wraps() {
    let input = enum_input(vec![repr_attr("u8")], vec![variant("A", Some("300")), variant("B", None)]);
    let conv = conversion(&input);
    assert_eq!(conv.values, vec![44, 45]);
    assert_eq!(conv.try_from_value(44), Ok(0));
    assert_eq!(conv.try_from_value(45), Ok(1));
    assert_eq!(conv.try_from_value(300), Err(300));
}

#[test]
fn signed_discriminant_wraps() {
    let input = enum_input(vec![repr_attr("i8")], vec![variant("A", Some("200")), variant("B", Some("127"))]);
    let conv = conversion(&input);
    assert_eq!(conv.repr, Repr::I8);
    assert_eq!(conv.values, vec![-56, 127]);
    assert_eq!(conv.try_from_value(-56), Ok(0));
}

#[test]
fn narrowing_exact_values() {
    assert_eq!(narrow_to(0x1_0001, Repr::U16), 1);
    assert_eq!(narrow_to(0xFFFF_FFFF, Repr::I32), -1);
    assert_eq!(narrow_to(0x8000, Repr::I16), -32768);
    assert_eq!(narrow_to(u64::MAX, Repr::I64), -1);
    assert_eq!(narrow_to(u64::MAX, Repr::Isize), -1);
    assert_eq!(narrow_to(u64::MAX, Repr::U64), u64::MAX as i128);
    assert_eq!(narrow_to(u64::MAX, Repr::Usize), u64::MAX as i128);
    assert_eq!(narrow_to(0x1_2345_6789, Repr::U32), 0x2345_6789);
    assert_eq!(narrow_to(255, Repr::U8), 255);
}

#[test]
fn duplicate_discriminant_takes_first() {
    let input = enum_input(vec![repr_attr("u8")], vec![variant("A", Some("3")), variant("B", Some("3"))]);
    let conv = conversion(&input);
    assert_eq!(conv.try_from_value(3), Ok(0));
}

#[test]
fn last_repr_wins() {
    let attrs = vec![repr_attr("u8"), repr_attr("i64")];
    assert_eq!(resolve_repr(&attrs), Ok(Repr::I64));
}

#[test]
fn repr_with_path_argument_is_malformed() {
    let attrs = vec![list_attr("repr", vec![NestedMeta::Path(path(&["core", "u8"]))])];
    assert_eq!(resolve_repr(&attrs), Err(DeriveError::MalformedRepr(0)));
    let global = vec![list_attr(
        "repr",
        vec![NestedMeta::Path(MetaPath {
            leading_colon: true,
            segments: vec!["u8".to_string()],
        })],
    )];
    assert_eq!(resolve_repr(&global), Err(DeriveError::MalformedRepr(0)));
    let input = enum_input(attrs, vec![variant("A", None)]);
    assert!(matches!(
        derive_try_from_primitive::conversion::derive(&input),
        Err(DeriveError::MalformedRepr(0))
    ));
}

#[test]
fn cfg_attr_with_more_arguments_carried_over() {
    let attrs = vec![
        list_attr(
            "cfg_attr",
            vec![
                NestedMeta::Path(path(&["test"])),
                NestedMeta::List(path(&["allow"])),
                NestedMeta::List(path(&["deny"])),
            ],
        ),
        list_attr(
            "cfg_attr",
            vec![
                NestedMeta::Path(path(&["test"])),
                NestedMeta::Path(path(&["allow"])),
                NestedMeta::List(path(&["deny"])),
            ],
        ),
        list_attr("cfg_attr", vec![NestedMeta::List(path(&["allow"]))]),
    ];
    assert_eq!(collect_parent_lint_attrs(&attrs), vec![0]);
}

#[test]
fn empty_repr_is_malformed() {
    let attrs = vec![list_attr("allow", vec![]), list_attr("repr", vec![])];
    assert_eq!(resolve_repr(&attrs), Err(DeriveError::MalformedRepr(1)));
    let input = enum_input(attrs, vec![variant("A", None)]);
    assert!(matches!(derive_try_from_primitive::conversion::derive(&input), Err(DeriveError::MalformedRepr(1))));
}

#[test]
fn literal_repr_is_malformed() {
    let attrs = vec![list_attr("repr", vec![NestedMeta::Lit])];
    assert_eq!(resolve_repr(&attrs), Err(DeriveError::MalformedRepr(0)));
}

#[test]
fn non_integer_repr_unsupported() {
    let attrs = vec![repr_attr("C")];
    assert_eq!(resolve_repr(&attrs), Err(DeriveError::UnsupportedRepr(0)));
    let input = enum_input(vec![repr_attr("u8"), repr_attr("C")], vec![variant("A", None)]);
    assert!(matches!(derive_try_from_primitive::conversion::derive(&input), Err(DeriveError::UnsupportedRepr(1))));
}

#[test]
fn non_integer_discriminant_rejected() {
    let input = enum_input(
        vec![],
        vec![
            variant("A", None),
            Variant {
                name: "B".to_string(),
                discriminant: Some(Discriminant::Other),
            },
        ],
    );
    assert!(matches!(derive_try_from_primitive::conversion::derive(&input), Err(DeriveError::NonIntegerDiscriminant(1))));
}

#[test]
fn oversized_discriminant_rejected() {
    let input = enum_input(vec![], vec![variant("A", Some("18446744073709551616"))]);
    assert!(matches!(derive_try_from_primitive::conversion::derive(&input), Err(DeriveError::UnparsableDiscriminant(0))));
}

#[test]
fn implicit_discriminant_overflow_rejected() {
    let input = enum_input(
        vec![repr_attr("u64")],
        vec![variant("A", Some("18446744073709551615")), variant("B", None)],
    );
    assert!(matches!(derive_try_from_primitive::conversion::derive(&input), Err(DeriveError::DiscriminantOverflow(1))));
}

#[test]
fn largest_discriminant_accepted() {
    let input = enum_input(vec![repr_attr("u64")], vec![variant("A", Some("18446744073709551615"))]);
    let conv = conversion(&input);
    assert_eq!(conv.values, vec![u64::MAX as i128]);
}

#[test]
fn decimal_parsing() {
    assert_eq!(parse_u64(&"0".to_string()), Some(0));
    assert_eq!(parse_u64(&"00042".to_string()), Some(42));
    assert_eq!(parse_u64(&"18446744073709551615".to_string()), Some(u64::MAX));
    assert_eq!(parse_u64(&"18446744073709551616".to_string()), None);
    assert_eq!(parse_u64(&"".to_string()), None);
    assert_eq!(parse_u64(&"12a".to_string()), None);
    assert_eq!(parse_u64(&"-1".to_string()), None);
}

#[test]
fn repr_names() {
    assert_eq!(repr_from_ident(&"u8".to_string()), Some(Repr::U8));
    assert_eq!(repr_from_ident(&"isize".to_string()), Some(Repr::Isize));
    assert_eq!(repr_from_ident(&"i32".to_string()), Some(Repr::I32));
    assert_eq!(repr_from_ident(&"u128".to_string()), None);
    assert_eq!(repr_from_ident(&"U8".to_string()), None);
}

#[test]
fn text_comparison() {
    assert!(text_is(&"repr".to_string(), "repr"));
    assert!(!text_is(&"rep".to_string(), "repr"));
    assert!(!text_is(&"repx".to_string(), "repr"));
    assert!(text_is(&"".to_string(), ""));
}
