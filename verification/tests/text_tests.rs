use xsd_codegen::id::{EntryType, Id};
use xsd_codegen::text::{fmt_i64, fmt_u64, parse_u64};

#[test]
fn parse_u64_reads_digits_only() {
    assert_eq!(parse_u64("0"), Some(0));
    assert_eq!(parse_u64("42"), Some(42));
    assert_eq!(parse_u64("18446744073709551615"), Some(u64::MAX));
    assert_eq!(parse_u64("18446744073709551616"), None);
    assert_eq!(parse_u64(""), None);
    assert_eq!(parse_u64("4x2"), None);
    assert_eq!(parse_u64("-1"), None);
}

#[test]
fn parse_u64_accepts_one_leading_plus() {
    assert_eq!(parse_u64("+2"), Some(2));
    assert_eq!(parse_u64("+0"), Some(0));
    assert_eq!(parse_u64("+"), None);
    assert_eq!(parse_u64("++2"), None);
    assert_eq!(parse_u64("2+"), None);
}

#[test]
fn formatting_round_trips_through_parsing() {
    for n in [0u64, 7, 10, 255, 1000000, u64::MAX] {
        assert_eq!(parse_u64(fmt_u64(n).as_str()), Some(n));
    }
    assert_eq!(fmt_i64(-255), "-255");
    assert_eq!(fmt_i64(i64::MIN), "-9223372036854775808");
    assert_eq!(fmt_i64(0), "0");
}

#[test]
fn id_display_forms() {
    let named = Id {
        entry_type: EntryType::ComplexType,
        name: "note".to_owned(),
    };
    assert_eq!(named.display_string(), "note (complexType)");
    let other = Id {
        entry_type: EntryType::Other("sequence".to_owned()),
        name: "3".to_owned(),
    };
    assert_eq!(other.display_string(), "sequence:3");
}

#[test]
fn id_equality_is_by_kind_and_name() {
    let a = Id {
        entry_type: EntryType::Group,
        name: "editorial".to_owned(),
    };
    let b = Id {
        entry_type: EntryType::Group,
        name: "editorial".to_owned(),
    };
    let c = Id {
        entry_type: EntryType::SimpleType,
        name: "editorial".to_owned(),
    };
    assert!(a == b);
    assert!(a != c);
}
