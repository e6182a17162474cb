use xsd_codegen::decimal::Decimal;
use xsd_codegen::model::{Enumeration, EnumerationValue, OtherField, Symbol};
use xsd_codegen::primitives::Numeric;
use xsd_codegen::scalar::{Bound, NumericData, Range};
use xsd_codegen::write_enums::{write_enum_h, write_enums};
use xsd_codegen::write_numerics::{
    defaultval, describe_range_int, document_int, min_max_ints, minmax_expr_decimal,
    write_decimals, write_integers,
};

fn sym(original: &str, pascal: &str, camel: &str) -> Symbol {
    Symbol::from_parts(original, pascal, camel)
}

fn yes_no() -> Enumeration {
    Enumeration {
        name: sym("yes-no", "YesNo", "yesNo"),
        documentation: "whether or not".to_owned(),
        members: vec![sym("yes", "Yes", "yes"), sym("no", "No", "no")],
        other_field: None,
    }
}

fn open_mode() -> Enumeration {
    Enumeration {
        name: sym("mode", "Mode", "mode"),
        documentation: "a mode".to_owned(),
        members: vec![sym("major", "Major", "major"), sym("minor", "Minor", "minor")],
        other_field: Some(OtherField {
            name: sym("other", "Other", "other"),
            wrapper_class_name: sym("mode-value", "ModeValue", "modeValue"),
            default_value: sym("major", "Major", "major"),
        }),
    }
}

#[test]
fn closed_parse_round_trips_every_member() {
    let e = yes_no();
    for m in 0..e.members.len() {
        let text = e.member_string(m);
        assert_eq!(e.parse_member(text.as_str()), m);
    }
}

#[test]
fn closed_parse_falls_back_to_first_member() {
    let e = yes_no();
    assert_eq!(e.parse_member("blurp"), 0);
}

#[test]
fn open_parse_reports_recognition() {
    let e = open_mode();
    assert_eq!(e.parse_member_flag("minor"), (1, true));
    assert_eq!(e.parse_member_flag("other"), (2, true));
    assert_eq!(e.parse_member_flag("dorian"), (2, false));
}

#[test]
fn open_wrapper_round_trips_every_literal() {
    let e = open_mode();
    for s in ["major", "minor", "other", "dorian", ""] {
        let w = e.parse_wrapper(s);
        let text = e.wrapper_string(&w);
        assert_eq!(text, s);
        let again = e.parse_wrapper(text.as_str());
        assert_eq!(again.member, w.member);
        assert_eq!(again.literal, w.literal);
    }
}

#[test]
fn open_wrapper_keeps_unknown_literal_verbatim() {
    let e = open_mode();
    let w = e.parse_wrapper("lydian");
    assert_eq!(w.member, 2);
    assert_eq!(w.literal, "lydian");
    let known = EnumerationValue {
        member: 0,
        literal: "major".to_owned(),
    };
    assert_eq!(e.wrapper_string(&known), "major");
}

#[test]
fn enum_h_text_is_pinned() {
    let e = yes_no();
    let h = write_enum_h(&e);
    let want = "        /* ---- YesNo ---- */\n\
                \x20       /// whether or not\n\
                \x20       enum class YesNo\n\
                \x20       {\n\
                \x20           yes = 0,\n\
                \x20           no = 1\n\
                \x20       };\n\
                \n\
                \x20       YesNo parseYesNo( const std::string& value );\n\
                \x20       std::string toString( const YesNo value );\n\
                \x20       std::ostream& toStream( std::ostream& os, const YesNo value );\n\
                \x20       std::ostream& operator<<( std::ostream& os, const YesNo value );\n";
    assert_eq!(h, want);
}

#[test]
fn multi_line_documentation_stays_inside_the_comment() {
    let mut e = yes_no();
    e.documentation = "first line\nsecond line".to_owned();
    let h = write_enum_h(&e);
    assert!(h.contains("        /// first line\n        /// second line\n"));
    assert!(!h.contains("\nsecond line\n"));
}

#[test]
fn enum_emission_is_deterministic() {
    let first = write_enums(vec![yes_no(), open_mode()]);
    let second = write_enums(vec![yes_no(), open_mode()]);
    assert_eq!(first.0, second.0);
    assert_eq!(first.1, second.1);
}

#[test]
fn enum_emission_sorts_by_pascal_name() {
    let (h, cpp) = write_enums(vec![yes_no(), open_mode()]);
    let mode_pos = h.find("enum class Mode").unwrap();
    let yesno_pos = h.find("enum class YesNo").unwrap();
    assert!(mode_pos < yesno_pos);
    assert!(cpp.contains("Mode parseMode( const std::string& value, bool& success )"));
    assert!(cpp.contains("YesNo parseYesNo( const std::string& value )"));
    assert!(h.starts_with("// MusicXML Class Library\n"));
}

fn int_unit(name: (&str, &str, &str), min: Option<Bound<i64>>, max: Option<Bound<i64>>) -> NumericData<i64> {
    NumericData {
        name: sym(name.0, name.1, name.2),
        base_type: Numeric::Integer,
        documentation: String::new(),
        range: Range { min, max },
    }
}

fn dec_unit(
    name: (&str, &str, &str),
    min: Option<Bound<Decimal>>,
    max: Option<Bound<Decimal>>,
) -> NumericData<Decimal> {
    NumericData {
        name: sym(name.0, name.1, name.2),
        base_type: Numeric::Decimal,
        documentation: String::new(),
        range: Range { min, max },
    }
}

#[test]
fn integer_bound_literals() {
    let n = int_unit(
        ("midi-16", "Midi16", "midi16"),
        Some(Bound::Exclusive(0)),
        Some(Bound::Inclusive(255)),
    );
    let (min, max) = min_max_ints(&n);
    assert_eq!(min, "1");
    assert_eq!(max, "255");
}

#[test]
fn integer_bound_sentinels_and_exclusive_max() {
    let n = int_unit(("anything", "Anything", "anything"), None, Some(Bound::Exclusive(10)));
    let (min, max) = min_max_ints(&n);
    assert_eq!(min, "IntMin");
    assert_eq!(max, "9");
    let m = int_unit(("wide", "Wide", "wide"), Some(Bound::Inclusive(-4)), None);
    let (min2, max2) = min_max_ints(&m);
    assert_eq!(min2, "-4");
    assert_eq!(max2, "IntMax");
}

#[test]
fn integer_range_documentation() {
    let n = int_unit(
        ("beats", "Beats", "beats"),
        Some(Bound::Inclusive(1)),
        None,
    );
    assert_eq!(describe_range_int(&n), "Range: min=1, max=None");
    assert_eq!(document_int(&n), "Range: min=1, max=None");
    let mut documented = n;
    documented.documentation = "How many beats.".to_owned();
    assert_eq!(
        document_int(&documented),
        "How many beats.\n\nRange: min=1, max=None"
    );
}

#[test]
fn decimal_default_policy() {
    let exclusive_zero = dec_unit(
        ("divisions", "Divisions", "divisions"),
        Some(Bound::Exclusive(Decimal::from_int(0))),
        None,
    );
    assert_eq!(defaultval(&exclusive_zero), "1");
    let inclusive_five = dec_unit(
        ("tenths", "Tenths", "tenths"),
        Some(Bound::Inclusive(Decimal::from_int(5))),
        None,
    );
    assert_eq!(defaultval(&inclusive_five), "5");
    let unbounded = dec_unit(("free", "Free", "free"), None, None);
    assert_eq!(defaultval(&unbounded), "0.0");
    let negative = dec_unit(
        ("neg", "Neg", "neg"),
        Some(Bound::Exclusive(Decimal::from_int(-3))),
        None,
    );
    assert_eq!(defaultval(&negative), "0.0");
}

#[test]
fn decimal_clamp_expressions() {
    let n = dec_unit(
        ("percent", "Percent", "percent"),
        Some(Bound::Inclusive(Decimal::from_int(0))),
        Some(Bound::Exclusive(Decimal::from_micros(100_500_000))),
    );
    let (minexpr, maxexpr) = minmax_expr_decimal(&n);
    assert_eq!(minexpr, "MXMININ( 0 )");
    assert_eq!(maxexpr, "MXMAXEX( 100.5 )");
    let open = dec_unit(("free", "Free", "free"), None, None);
    let (minexpr2, maxexpr2) = minmax_expr_decimal(&open);
    assert_eq!(minexpr2, "MX_NOOP");
    assert_eq!(maxexpr2, "MX_NOOP");
}

#[test]
fn integer_emission_adds_builtins_and_sorts() {
    let (h, cpp) = write_integers(vec![int_unit(
        ("midi-16", "Midi16", "midi16"),
        Some(Bound::Inclusive(1)),
        Some(Bound::Inclusive(16)),
    )]);
    assert!(h.contains("class Byte"));
    assert!(h.contains("class Midi16"));
    assert!(h.contains("class NonNegativeInteger"));
    assert!(h.contains("class PositiveInteger"));
    let byte_pos = h.find("class Byte").unwrap();
    let midi_pos = h.find("class Midi16").unwrap();
    assert!(byte_pos < midi_pos);
    assert!(cpp.contains(
        "myValue = std::max( IntType{ 0 }, std::min( IntType{ 255 }, value ) );"
    ));
    assert!(cpp.contains(
        "myValue = std::max( IntType{ 1 }, std::min( IntType{ 16 }, value ) );"
    ));
    assert!(h.contains(
        "        /// This is not part of MusicXML. It represents a clamped byte.
        /// 
        /// Range: min=0, max=255
"
    ));
}

#[test]
fn decimal_emission_adds_builtin_and_is_deterministic() {
    let unit = || {
        vec![dec_unit(
            ("tenths", "Tenths", "tenths"),
            Some(Bound::Inclusive(Decimal::from_int(0))),
            None,
        )]
    };
    let first = write_decimals(unit());
    let second = write_decimals(unit());
    assert_eq!(first.0, second.0);
    assert_eq!(first.1, second.1);
    assert!(first.0.contains("class PositiveDivisionsValue"));
    assert!(first.1.contains(": myValue{ 1 }"));
    assert!(first.1.contains("MXMINEX( 0 );"));
}

#[test]
fn decimal_rendering() {
    assert_eq!(Decimal::from_int(5).display_string(), "5");
    assert_eq!(Decimal::from_micros(500_000).display_string(), "0.5");
    assert_eq!(Decimal::from_micros(-2_250_000).display_string(), "-2.25");
    assert_eq!(Decimal::from_micros(1).display_string(), "0.000001");
    assert_eq!(Decimal::from_int(0).display_string(), "0");
}
