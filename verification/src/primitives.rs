//! The closed registry of schema builtin types: numeric, character and
//! date-time families, with prefix-aware parsing and round-trip naming.
//! `parse_prefixed` splits a raw name on its first colon and demands the
//! declared namespace prefix; an unrecognized but well-prefixed name fails at
//! the `Primitive` level and degrades to `BaseType::Other` at the coarser
//! `BaseType` level, so user-defined simple types stay representable.

use vstd::prelude::*;

verus! {

use crate::error::{Error, ErrorV};
use crate::text::str_eq;
use vstd::string::StrSliceExecFns;
use vstd::string::StringExecFns;

/// Index of the first colon at or after `i`, or the length when none.
pub open spec fn colon_from(s: Seq<char>, i: int) -> int
    recommends
        0 <= i <= s.len(),
    decreases s.len() - i,
{
    if i < 0 || i >= s.len() {
        s.len() as int
    } else if s[i] == ':' {
        i
    } else {
        colon_from(s, i + 1)
    }
}

/// How a raw type name splits into a namespace prefix and a value: the text
/// before the first colon and the text between the first and second colons.
/// A string without a colon is all value and no prefix, never a prefix with
/// an empty value.
pub open spec fn split_spec(s: Seq<char>) -> (Seq<char>, Seq<char>) {
    let c1 = colon_from(s, 0);
    let ns0 = s.subrange(0, c1);
    let val0 = if c1 == s.len() {
        Seq::<char>::empty()
    } else {
        s.subrange(c1 + 1, colon_from(s, c1 + 1))
    };
    if val0.len() == 0 && ns0.len() > 0 {
        (Seq::<char>::empty(), ns0)
    } else {
        (ns0, val0)
    }
}

/// Finds the first colon at or after `from`; returns the index or the length.
pub(crate) fn find_colon(s: &str, from: usize) -> (r: usize)
    requires
        from <= s@.len(),
    ensures
        r == colon_from(s@, from as int),
        from <= r <= s@.len(),
        r < s@.len() ==> s@[r as int] == ':',
{
    let n = s.unicode_len();
    let mut i: usize = from;
    while i < n
        invariant
            from <= i <= n,
            n == s@.len(),
            colon_from(s@, from as int) == colon_from(s@, i as int),
        decreases n - i,
    {
        let c = s.get_char(i);
        if c == ':' {
            return i;
        }
        i = i + 1;
    }
    i
}

/// Splits a raw type name into its namespace prefix and its value.
pub fn split_raw_str(raw: &str) -> (r: (&str, &str))
    ensures
        r.0@ == split_spec(raw@).0,
        r.1@ == split_spec(raw@).1,
{
    proof {
        reveal_strlit("");
        assert(""@ =~= Seq::<char>::empty());
    }
    let n = raw.unicode_len();
    let c1 = find_colon(raw, 0);
    if c1 == n {
        if n > 0 {
            ("", raw)
        } else {
            proof {
                assert(raw@.subrange(0, 0) =~= Seq::<char>::empty());
            }
            ("", "")
        }
    } else {
        let ns = raw.substring_char(0, c1);
        let c2 = find_colon(raw, c1 + 1);
        let val = raw.substring_char(c1 + 1, c2);
        if val.unicode_len() == 0 && ns.unicode_len() > 0 {
            ("", ns)
        } else {
            (ns, val)
        }
    }
}

/// Parsing of a builtin-type family from the value part of a raw name, and
/// prefix-aware parsing of a whole raw name against the schema's declared
/// namespace prefix.
pub trait PrefixedParse: View + Sized {
    /// Which value texts this family recognizes, and as what.
    spec fn parse_spec(s: Seq<char>) -> Option<Self::V>;

    /// The outcome of prefix-aware parsing of a whole raw name.
    spec fn prefixed_spec(s: Seq<char>, prefix: Seq<char>) -> Result<Self::V, ErrorV>;

    /// Parses a bare value text.
    fn parse(s: &str) -> (r: Result<Self, Error>)
        ensures
            match r {
                Ok(v) => Self::parse_spec(s@) == Some(v@),
                Err(e) => Self::parse_spec(s@) is None && e@ == (ErrorV::UnknownPrimitive {
                    name: s@,
                }),
            },
    ;

    /// Parses a raw name of the form `prefix:value`, demanding `prefix`.
    fn parse_prefixed(s: &str, prefix: &str) -> (r: Result<Self, Error>)
        ensures
            match r {
                Ok(v) => Self::prefixed_spec(s@, prefix@) == Ok::<Self::V, ErrorV>(v@),
                Err(e) => Self::prefixed_spec(s@, prefix@) == Err::<Self::V, ErrorV>(e@),
            },
    ;
}

/// The standard prefix-aware outcome: a mismatched prefix fails with
/// `WrongPrefix`; a matched prefix parses the value part and fails with
/// `UnknownPrimitive` when the family does not recognize it.
pub open spec fn prefixed_outcome<V>(
    pf: spec_fn(Seq<char>) -> Option<V>,
    s: Seq<char>,
    prefix: Seq<char>,
) -> Result<V, ErrorV> {
    let ns = split_spec(s).0;
    let val = split_spec(s).1;
    if ns != prefix {
        Err(ErrorV::WrongPrefix { expected: prefix, actual: ns })
    } else {
        match pf(val) {
            Some(v) => Ok(v),
            None => Err(ErrorV::UnknownPrimitive { name: val }),
        }
    }
}

/// Round-trip naming: the canonical text of a builtin type, bare or behind
/// a namespace prefix.
pub trait PrefixedString: View + Sized {
    /// The canonical name text.
    spec fn name_spec(&self) -> Seq<char>;

    /// The canonical name.
    fn name(&self) -> (r: &str)
        ensures
            r@ == self.name_spec(),
    ;

    /// The canonical name behind `prefix`, joined with a colon; the bare
    /// name when `prefix` is empty.
    fn as_str(&self, prefix: &str) -> (r: String)
        ensures
            r@ == prefixed_name_spec(self.name_spec(), prefix@),
    {
        if prefix.is_empty() {
            self.name().to_owned()
        } else {
            let mut out = prefix.to_owned();
            out.append(":");
            out.append(self.name());
            out
        }
    }
}

/// A name behind a namespace prefix: `prefix:name`, or the bare name when
/// the prefix is empty.
pub open spec fn prefixed_name_spec(name: Seq<char>, prefix: Seq<char>) -> Seq<char> {
    if prefix.len() == 0 {
        name
    } else {
        prefix + ":"@ + name
    }
}

/// The numeric builtin types.
#[derive(Clone, Copy, Debug, Eq, PartialEq, Hash, Structural)]
pub enum Numeric {
    Byte,
    Decimal,
    Int,
    Integer,
    Long,
    NegativeInteger,
    NonNegativeInteger,
    NonPositiveInteger,
    PositiveInteger,
    Short,
    UnsignedLong,
    UnsignedInt,
    UnsignedShort,
    UnsignedByte,
}

impl View for Numeric {
    type V = Numeric;

    open spec fn view(&self) -> Numeric {
        *self
    }
}

impl Default for Numeric {
    fn default() -> (r: Numeric)
        ensures
            r == Numeric::Int,
    {
        Numeric::Int
    }
}

/// Which value texts name a numeric builtin.
pub open spec fn numeric_parse_spec(s: Seq<char>) -> Option<Numeric> {
    if s == "byte"@ {
        Some(Numeric::Byte)
    } else if s == "decimal"@ {
        Some(Numeric::Decimal)
    } else if s == "int"@ {
        Some(Numeric::Int)
    } else if s == "integer"@ {
        Some(Numeric::Integer)
    } else if s == "long"@ {
        Some(Numeric::Long)
    } else if s == "negativeInteger"@ {
        Some(Numeric::NegativeInteger)
    } else if s == "nonNegativeInteger"@ {
        Some(Numeric::NonNegativeInteger)
    } else if s == "nonPositiveInteger"@ {
        Some(Numeric::NonPositiveInteger)
    } else if s == "positiveInteger"@ {
        Some(Numeric::PositiveInteger)
    } else if s == "short"@ {
        Some(Numeric::Short)
    } else if s == "unsignedLong"@ {
        Some(Numeric::UnsignedLong)
    } else if s == "unsignedInt"@ {
        Some(Numeric::UnsignedInt)
    } else if s == "unsignedShort"@ {
        Some(Numeric::UnsignedShort)
    } else if s == "unsignedByte"@ {
        Some(Numeric::UnsignedByte)
    } else {
        None
    }
}

/// The canonical name of a numeric builtin.
pub open spec fn numeric_name_spec(n: Numeric) -> Seq<char> {
    match n {
        Numeric::Byte => "byte"@,
        Numeric::Decimal => "decimal"@,
        Numeric::Int => "int"@,
        Numeric::Integer => "integer"@,
        Numeric::Long => "long"@,
        Numeric::NegativeInteger => "negativeInteger"@,
        Numeric::NonNegativeInteger => "nonNegativeInteger"@,
        Numeric::NonPositiveInteger => "nonPositiveInteger"@,
        Numeric::PositiveInteger => "positiveInteger"@,
        Numeric::Short => "short"@,
        Numeric::UnsignedLong => "unsignedLong"@,
        Numeric::UnsignedInt => "unsignedInt"@,
        Numeric::UnsignedShort => "unsignedShort"@,
        Numeric::UnsignedByte => "unsignedByte"@,
    }
}

impl PrefixedParse for Numeric {
    open spec fn parse_spec(s: Seq<char>) -> Option<Numeric> {
        numeric_parse_spec(s)
    }

    open spec fn prefixed_spec(s: Seq<char>, prefix: Seq<char>) -> Result<Numeric, ErrorV> {
        prefixed_outcome(|t: Seq<char>| numeric_parse_spec(t), s, prefix)
    }

    fn parse(s: &str) -> (r: Result<Numeric, Error>) {
        if str_eq(s, "byte") {
            Ok(Numeric::Byte)
        } else if str_eq(s, "decimal") {
            Ok(Numeric::Decimal)
        } else if str_eq(s, "int") {
            Ok(Numeric::Int)
        } else if str_eq(s, "integer") {
            Ok(Numeric::Integer)
        } else if str_eq(s, "long") {
            Ok(Numeric::Long)
        } else if str_eq(s, "negativeInteger") {
            Ok(Numeric::NegativeInteger)
        } else if str_eq(s, "nonNegativeInteger") {
            Ok(Numeric::NonNegativeInteger)
        } else if str_eq(s, "nonPositiveInteger") {
            Ok(Numeric::NonPositiveInteger)
        } else if str_eq(s, "positiveInteger") {
            Ok(Numeric::PositiveInteger)
        } else if str_eq(s, "short") {
            Ok(Numeric::Short)
        } else if str_eq(s, "unsignedLong") {
            Ok(Numeric::UnsignedLong)
        } else if str_eq(s, "unsignedInt") {
            Ok(Numeric::UnsignedInt)
        } else if str_eq(s, "unsignedShort") {
            Ok(Numeric::UnsignedShort)
        } else if str_eq(s, "unsignedByte") {
            Ok(Numeric::UnsignedByte)
        } else {
            Err(Error::UnknownPrimitive { name: s.to_owned() })
        }
    }

    fn parse_prefixed(s: &str, prefix: &str) -> (r: Result<Numeric, Error>) {
        let (ns, val) = split_raw_str(s);
        if !str_eq(ns, prefix) {
            Err(Error::WrongPrefix { expected: prefix.to_owned(), actual: ns.to_owned() })
        } else {
            Numeric::parse(val)
        }
    }
}

impl PrefixedString for Numeric {
    open spec fn name_spec(&self) -> Seq<char> {
        numeric_name_spec(*self)
    }

    fn name(&self) -> (r: &str) {
        match self {
            Numeric::Byte => "byte",
            Numeric::Decimal => "decimal",
            Numeric::Int => "int",
            Numeric::Integer => "integer",
            Numeric::Long => "long",
            Numeric::NegativeInteger => "negativeInteger",
            Numeric::NonNegativeInteger => "nonNegativeInteger",
            Numeric::NonPositiveInteger => "nonPositiveInteger",
            Numeric::PositiveInteger => "positiveInteger",
            Numeric::Short => "short",
            Numeric::UnsignedLong => "unsignedLong",
            Numeric::UnsignedInt => "unsignedInt",
            Numeric::UnsignedShort => "unsignedShort",
            Numeric::UnsignedByte => "unsignedByte",
        }
    }
}

/// The character (string-like) builtin types.
#[derive(Clone, Copy, Debug, Eq, PartialEq, Hash, Structural)]
pub enum Character {
    ID,
    IDREF,
    Language,
    Name,
    NmToken,
    NormalizedString,
    String,
    Token,
}

impl View for Character {
    type V = Character;

    open spec fn view(&self) -> Character {
        *self
    }
}

impl Default for Character {
    fn default() -> (r: Character)
        ensures
            r == Character::String,
    {
        Character::String
    }
}

/// Which value texts name a character builtin.
pub open spec fn character_parse_spec(s: Seq<char>) -> Option<Character> {
    if s == "ID"@ {
        Some(Character::ID)
    } else if s == "IDREF"@ {
        Some(Character::IDREF)
    } else if s == "language"@ {
        Some(Character::Language)
    } else if s == "Name"@ {
        Some(Character::Name)
    } else if s == "NMTOKEN"@ {
        Some(Character::NmToken)
    } else if s == "normalizedString"@ {
        Some(Character::NormalizedString)
    } else if s == "string"@ {
        Some(Character::String)
    } else if s == "token"@ {
        Some(Character::Token)
    } else {
        None
    }
}

/// The canonical name of a character builtin.
pub open spec fn character_name_spec(c: Character) -> Seq<char> {
    match c {
        Character::ID => "ID"@,
        Character::IDREF => "IDREF"@,
        Character::Language => "language"@,
        Character::Name => "Name"@,
        Character::NmToken => "NMTOKEN"@,
        Character::NormalizedString => "normalizedString"@,
        Character::String => "string"@,
        Character::Token => "token"@,
    }
}

impl PrefixedParse for Character {
    open spec fn parse_spec(s: Seq<char>) -> Option<Character> {
        character_parse_spec(s)
    }

    open spec fn prefixed_spec(s: Seq<char>, prefix: Seq<char>) -> Result<Character, ErrorV> {
        prefixed_outcome(|t: Seq<char>| character_parse_spec(t), s, prefix)
    }

    fn parse(s: &str) -> (r: Result<Character, Error>) {
        if str_eq(s, "ID") {
            Ok(Character::ID)
        } else if str_eq(s, "IDREF") {
            Ok(Character::IDREF)
        } else if str_eq(s, "language") {
            Ok(Character::Language)
        } else if str_eq(s, "Name") {
            Ok(Character::Name)
        } else if str_eq(s, "NMTOKEN") {
            Ok(Character::NmToken)
        } else if str_eq(s, "normalizedString") {
            Ok(Character::NormalizedString)
        } else if str_eq(s, "string") {
            Ok(Character::String)
        } else if str_eq(s, "token") {
            Ok(Character::Token)
        } else {
            Err(Error::UnknownPrimitive { name: s.to_owned() })
        }
    }

    fn parse_prefixed(s: &str, prefix: &str) -> (r: Result<Character, Error>) {
        let (ns, val) = split_raw_str(s);
        if !str_eq(ns, prefix) {
            Err(Error::WrongPrefix { expected: prefix.to_owned(), actual: ns.to_owned() })
        } else {
            Character::parse(val)
        }
    }
}

impl PrefixedString for Character {
    open spec fn name_spec(&self) -> Seq<char> {
        character_name_spec(*self)
    }

    fn name(&self) -> (r: &str) {
        match self {
            Character::ID => "ID",
            Character::IDREF => "IDREF",
            Character::Language => "language",
            Character::Name => "Name",
            Character::NmToken => "NMTOKEN",
            Character::NormalizedString => "normalizedString",
            Character::String => "string",
            Character::Token => "token",
        }
    }
}

/// The date-time builtin types.
#[derive(Clone, Copy, Debug, Eq, PartialEq, Hash, Structural)]
pub enum DateTime {
    Date,
    DateTime,
    Duration,
    GDay,
    GMonth,
    GMonthDay,
    GYear,
    GYearMonth,
    Time,
}

impl View for DateTime {
    type V = DateTime;

    open spec fn view(&self) -> DateTime {
        *self
    }
}

/// Which value texts name a date-time builtin.
pub open spec fn datetime_parse_spec(s: Seq<char>) -> Option<DateTime> {
    if s == "date"@ {
        Some(DateTime::Date)
    } else if s == "dateTime"@ {
        Some(DateTime::DateTime)
    } else if s == "duration"@ {
        Some(DateTime::Duration)
    } else if s == "gDay"@ {
        Some(DateTime::GDay)
    } else if s == "gMonth"@ {
        Some(DateTime::GMonth)
    } else if s == "gMonthDay"@ {
        Some(DateTime::GMonthDay)
    } else if s == "gYear"@ {
        Some(DateTime::GYear)
    } else if s == "gYearMonth"@ {
        Some(DateTime::GYearMonth)
    } else if s == "time"@ {
        Some(DateTime::Time)
    } else {
        None
    }
}

/// The canonical name of a date-time builtin.
pub open spec fn datetime_name_spec(d: DateTime) -> Seq<char> {
    match d {
        DateTime::Date => "date"@,
        DateTime::DateTime => "dateTime"@,
        DateTime::Duration => "duration"@,
        DateTime::GDay => "gDay"@,
        DateTime::GMonth => "gMonth"@,
        DateTime::GMonthDay => "gMonthDay"@,
        DateTime::GYear => "gYear"@,
        DateTime::GYearMonth => "gYearMonth"@,
        DateTime::Time => "time"@,
    }
}

impl PrefixedParse for DateTime {
    open spec fn parse_spec(s: Seq<char>) -> Option<DateTime> {
        datetime_parse_spec(s)
    }

    open spec fn prefixed_spec(s: Seq<char>, prefix: Seq<char>) -> Result<DateTime, ErrorV> {
        prefixed_outcome(|t: Seq<char>| datetime_parse_spec(t), s, prefix)
    }

    fn parse(s: &str) -> (r: Result<DateTime, Error>) {
        if str_eq(s, "date") {
            Ok(DateTime::Date)
        } else if str_eq(s, "dateTime") {
            Ok(DateTime::DateTime)
        } else if str_eq(s, "duration") {
            Ok(DateTime::Duration)
        } else if str_eq(s, "gDay") {
            Ok(DateTime::GDay)
        } else if str_eq(s, "gMonth") {
            Ok(DateTime::GMonth)
        } else if str_eq(s, "gMonthDay") {
            Ok(DateTime::GMonthDay)
        } else if str_eq(s, "gYear") {
            Ok(DateTime::GYear)
        } else if str_eq(s, "gYearMonth") {
            Ok(DateTime::GYearMonth)
        } else if str_eq(s, "time") {
            Ok(DateTime::Time)
        } else {
            Err(Error::UnknownPrimitive { name: s.to_owned() })
        }
    }

    fn parse_prefixed(s: &str, prefix: &str) -> (r: Result<DateTime, Error>) {
        let (ns, val) = split_raw_str(s);
        if !str_eq(ns, prefix) {
            Err(Error::WrongPrefix { expected: prefix.to_owned(), actual: ns.to_owned() })
        } else {
            DateTime::parse(val)
        }
    }
}

impl PrefixedString for DateTime {
    open spec fn name_spec(&self) -> Seq<char> {
        datetime_name_spec(*self)
    }

    fn name(&self) -> (r: &str) {
        match self {
            DateTime::Date => "date",
            DateTime::DateTime => "dateTime",
            DateTime::Duration => "duration",
            DateTime::GDay => "gDay",
            DateTime::GMonth => "gMonth",
            DateTime::GMonthDay => "gMonthDay",
            DateTime::GYear => "gYear",
            DateTime::GYearMonth => "gYearMonth",
            DateTime::Time => "time",
        }
    }
}

/// A builtin primitive: one of the three families.
#[derive(Clone, Copy, Debug, Eq, PartialEq, Hash, Structural)]
pub enum Primitive {
    Numeric(Numeric),
    Character(Character),
    DateTime(DateTime),
}

impl View for Primitive {
    type V = Primitive;

    open spec fn view(&self) -> Primitive {
        *self
    }
}

/// Which value texts name a primitive: the numeric family is tried first,
/// then the character family, then the date-time family.
pub open spec fn primitive_parse_spec(s: Seq<char>) -> Option<Primitive> {
    if numeric_parse_spec(s) is Some {
        Some(Primitive::Numeric(numeric_parse_spec(s)->Some_0))
    } else if character_parse_spec(s) is Some {
        Some(Primitive::Character(character_parse_spec(s)->Some_0))
    } else if datetime_parse_spec(s) is Some {
        Some(Primitive::DateTime(datetime_parse_spec(s)->Some_0))
    } else {
        None
    }
}

/// The canonical name of a primitive.
pub open spec fn primitive_name_spec(p: Primitive) -> Seq<char> {
    match p {
        Primitive::Numeric(x) => numeric_name_spec(x),
        Primitive::Character(x) => character_name_spec(x),
        Primitive::DateTime(x) => datetime_name_spec(x),
    }
}

impl PrefixedParse for Primitive {
    open spec fn parse_spec(s: Seq<char>) -> Option<Primitive> {
        primitive_parse_spec(s)
    }

    open spec fn prefixed_spec(s: Seq<char>, prefix: Seq<char>) -> Result<Primitive, ErrorV> {
        prefixed_outcome(|t: Seq<char>| primitive_parse_spec(t), s, prefix)
    }

    fn parse(s: &str) -> (r: Result<Primitive, Error>) {
        match Numeric::parse(s) {
            Ok(x) => {
                return Ok(Primitive::Numeric(x));
            },
            Err(_) => {},
        }
        match Character::parse(s) {
            Ok(x) => {
                return Ok(Primitive::Character(x));
            },
            Err(_) => {},
        }
        match DateTime::parse(s) {
            Ok(x) => {
                return Ok(Primitive::DateTime(x));
            },
            Err(_) => {},
        }
        Err(Error::UnknownPrimitive { name: s.to_owned() })
    }

    fn parse_prefixed(s: &str, prefix: &str) -> (r: Result<Primitive, Error>) {
        let (ns, val) = split_raw_str(s);
        if !str_eq(ns, prefix) {
            Err(Error::WrongPrefix { expected: prefix.to_owned(), actual: ns.to_owned() })
        } else {
            Primitive::parse(val)
        }
    }
}

impl PrefixedString for Primitive {
    open spec fn name_spec(&self) -> Seq<char> {
        primitive_name_spec(*self)
    }

    fn name(&self) -> (r: &str) {
        match self {
            Primitive::Numeric(x) => x.name(),
            Primitive::Character(x) => x.name(),
            Primitive::DateTime(x) => x.name(),
        }
    }
}

/// A base type named in the schema: a builtin primitive, or any other raw
/// name carried through as an opaque reference.
#[derive(Debug, Clone, PartialEq, Eq)]
pub enum BaseType {
    Primitive(Primitive),
    Other(String),
}

/// The mathematical shape of a [`BaseType`].
pub enum BaseTypeV {
    Primitive(Primitive),
    Other(Seq<char>),
}

impl View for BaseType {
    type V = BaseTypeV;

    open spec fn view(&self) -> BaseTypeV {
        match self {
            BaseType::Primitive(p) => BaseTypeV::Primitive(*p),
            BaseType::Other(s) => BaseTypeV::Other(s@),
        }
    }
}

/// Which value texts a `BaseType` recognizes as a primitive.
pub open spec fn base_type_parse_spec(s: Seq<char>) -> Option<BaseTypeV> {
    match primitive_parse_spec(s) {
        Some(p) => Some(BaseTypeV::Primitive(p)),
        None => None,
    }
}

impl PrefixedParse for BaseType {
    open spec fn parse_spec(s: Seq<char>) -> Option<BaseTypeV> {
        base_type_parse_spec(s)
    }

    /// Any failure of primitive prefix-aware parsing — wrong prefix or
    /// unknown value — degrades to `Other` carrying the whole raw name.
    open spec fn prefixed_spec(s: Seq<char>, prefix: Seq<char>) -> Result<BaseTypeV, ErrorV> {
        match prefixed_outcome(|t: Seq<char>| primitive_parse_spec(t), s, prefix) {
            Ok(p) => Ok(BaseTypeV::Primitive(p)),
            Err(_) => Ok(BaseTypeV::Other(s)),
        }
    }

    fn parse(s: &str) -> (r: Result<BaseType, Error>) {
        match Primitive::parse(s) {
            Ok(p) => Ok(BaseType::Primitive(p)),
            Err(e) => Err(e),
        }
    }

    fn parse_prefixed(s: &str, prefix: &str) -> (r: Result<BaseType, Error>) {
        match Primitive::parse_prefixed(s, prefix) {
            Ok(p) => Ok(BaseType::Primitive(p)),
            Err(_) => Ok(BaseType::Other(s.to_owned())),
        }
    }
}

impl PrefixedString for BaseType {
    open spec fn name_spec(&self) -> Seq<char> {
        match self@ {
            BaseTypeV::Primitive(p) => primitive_name_spec(p),
            BaseTypeV::Other(o) => o,
        }
    }

    fn name(&self) -> (r: &str) {
        match self {
            BaseType::Primitive(p) => p.name(),
            BaseType::Other(o) => o.as_str(),
        }
    }
}

} // verus!
