use xsd_codegen::error::Error;
use xsd_codegen::primitives::{
    split_raw_str, BaseType, Character, DateTime, Numeric, PrefixedParse, PrefixedString,
    Primitive,
};

#[test]
fn split_no_ns() {
    let input = "bloop";
    let got = split_raw_str(input);
    let want = ("", "bloop");
    assert_eq!(got, want);
}

#[test]
fn split_with_ns() {
    let input = "x:bloop";
    let got = split_raw_str(input);
    let want = ("x", "bloop");
    assert_eq!(got, want);
}

#[test]
fn split_trailing_colon() {
    let input = "bloop:";
    let got = split_raw_str(input);
    let want = ("", "bloop");
    assert_eq!(got, want);
}

#[test]
fn numeric_parse_prefixed() {
    let input = "xs:decimal";
    let got = Numeric::parse_prefixed(input, "xs").unwrap();
    let want = Numeric::Decimal;
    assert_eq!(got, want);
}

#[test]
fn numeric_parse_bad_prefix() {
    let input = "foo:decimal";
    let result = Numeric::parse_prefixed(input, "bar");
    assert!(result.is_err());
}

#[test]
fn numeric_parse_bad_value() {
    let input = "xs:decimate";
    let result = Numeric::parse_prefixed(input, "xs");
    assert!(result.is_err());
}

#[test]
fn parse_primitive_xs_datetime() {
    let input = "xs:dateTime";
    let got = Primitive::parse_prefixed(input, "xs").unwrap();
    let want = Primitive::DateTime(DateTime::DateTime);
    assert_eq!(got, want);
}

#[test]
fn parse_primitive_xs_string() {
    let input = "xs:string";
    let got = Primitive::parse_prefixed(input, "xs").unwrap();
    let want = Primitive::Character(Character::String);
    assert_eq!(got, want);
}

#[test]
fn parse_primitive_xs_byte() {
    let input = "floop:byte";
    let got = Primitive::parse_prefixed(input, "floop").unwrap();
    let want = Primitive::Numeric(Numeric::Byte);
    assert_eq!(got, want);
}

#[test]
fn parse_base_type() {
    struct TestCase {
        prefix: &'static str,
        input: &'static str,
        want: BaseType,
    }
    let test_cases = vec![
        TestCase {
            prefix: "foo",
            input: "foo:bar",
            want: BaseType::Other("foo:bar".to_owned()),
        },
        TestCase {
            prefix: "xs",
            input: "xs:string",
            want: BaseType::Primitive(Primitive::Character(Character::String)),
        },
        TestCase {
            prefix: "xs",
            input: "bloop:blerp",
            want: BaseType::Other("bloop:blerp".to_owned()),
        },
    ];
    for test_case in &test_cases {
        let got = BaseType::parse_prefixed(test_case.input, test_case.prefix).unwrap();
        assert_eq!(&got, &test_case.want);
    }
}

#[test]
fn display_numeric() {
    let numeric = Numeric::Byte;
    let got = numeric.name();
    let want = "byte";
    assert_eq!(got, want);
}

#[test]
fn display_base_type() {
    let base_type = BaseType::Primitive(Primitive::Numeric(Numeric::Byte));
    let got = base_type.name();
    let want = "byte";
    assert_eq!(got, want);
}

#[test]
fn wrong_prefix_error_carries_both_prefixes() {
    match Numeric::parse_prefixed("foo:decimal", "bar") {
        Err(Error::WrongPrefix { expected, actual }) => {
            assert_eq!(expected, "bar");
            assert_eq!(actual, "foo");
        }
        other => panic!("expected a WrongPrefix error, got {:?}", other),
    }
}

#[test]
fn unknown_primitive_error_carries_the_value() {
    match Numeric::parse("decimate") {
        Err(Error::UnknownPrimitive { name }) => assert_eq!(name, "decimate"),
        other => panic!("expected an UnknownPrimitive error, got {:?}", other),
    }
}

#[test]
fn every_numeric_name_round_trips() {
    let all = vec![
        Numeric::Byte,
        Numeric::Decimal,
        Numeric::Int,
        Numeric::Integer,
        Numeric::Long,
        Numeric::NegativeInteger,
        Numeric::NonNegativeInteger,
        Numeric::NonPositiveInteger,
        Numeric::PositiveInteger,
        Numeric::Short,
        Numeric::UnsignedLong,
        Numeric::UnsignedInt,
        Numeric::UnsignedShort,
        Numeric::UnsignedByte,
    ];
    for n in all {
        assert_eq!(Numeric::parse(n.name()).unwrap(), n);
    }
}

#[test]
fn prefixed_name_joins_with_a_colon() {
    assert_eq!(Numeric::Decimal.as_str("xs"), "xs:decimal");
    assert_eq!(Numeric::Decimal.as_str(""), "decimal");
    assert_eq!(
        BaseType::Other("foo:bar".to_owned()).as_str("p"),
        "p:foo:bar"
    );
}

#[test]
fn datetime_and_character_parse_bare_names() {
    assert_eq!(DateTime::parse("gYearMonth").unwrap(), DateTime::GYearMonth);
    assert_eq!(Character::parse("NMTOKEN").unwrap(), Character::NmToken);
    assert!(Character::parse("nmtoken").is_err());
}
