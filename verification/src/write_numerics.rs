//! The numeric emitter: derives emitted bound literals, clamp expressions,
//! default values and documentation from the range facets, and emits the
//! paired declaration and definition text for the integer and decimal
//! families. Integer bounds collapse to literals; decimal bounds stay
//! clamp-expression tokens so the generated code compares at its own type
//! and precision.

use vstd::prelude::*;

verus! {

use crate::decimal::{dec_string_spec, unit_micros, Decimal};
use crate::emit::{
    doc_block,
    doc_block_spec,
    line1,
    line1_spec,
    line2,
    line2_spec,
    line3,
    line3_spec,
    line4,
    line4_spec,
    line5,
    line5_spec,
    seq_empty_left,
    tabs_spec,
    tabs_to,
};
use crate::model::{Symbol, SymbolV};
use crate::primitives::Numeric;
use crate::scalar::{Bound, NumericData, NumericDataV, Range};
use crate::sort::{sort_vec, SortKey};
use crate::text::{fmt_i64, i64_dec_spec};
use crate::views::opt_view;
use vstd::string::StringExecFns;

impl<T> SortKey for NumericData<T> {
    open spec fn key_spec(&self) -> Seq<char> {
        self.name@.pascal
    }

    fn key(&self) -> (r: &str) {
        self.name.pascal()
    }
}

/// Appends `num` levels of four-space indentation.
pub fn write_tabs(w: &mut String, num: u32)
    ensures
        final(w)@ == old(w)@ + tabs_spec(num as nat),
{
    tabs_to(w, num);
}

/// The emitted lower bound literal of an integer range: an inclusive bound
/// is its value, an exclusive bound is its value plus one, an absent bound
/// is nothing.
pub open spec fn int_min_literal(min: Option<Bound<i64>>) -> Option<Seq<char>> {
    match min {
        None => None,
        Some(Bound::Inclusive(i)) => Some(i64_dec_spec(i as int)),
        Some(Bound::Exclusive(e)) => Some(i64_dec_spec(e + 1)),
    }
}

/// The emitted upper bound literal of an integer range: an inclusive bound
/// is its value, an exclusive bound is its value minus one.
pub open spec fn int_max_literal(max: Option<Bound<i64>>) -> Option<Seq<char>> {
    match max {
        None => None,
        Some(Bound::Inclusive(i)) => Some(i64_dec_spec(i as int)),
        Some(Bound::Exclusive(e)) => Some(i64_dec_spec(e - 1)),
    }
}

/// The exclusive integer bounds leave room for the collapse to an
/// inclusive literal.
pub open spec fn int_bounds_repr(rg: Range<i64>) -> bool {
    &&& match rg.min {
        Some(Bound::Exclusive(e)) => e < i64::MAX,
        _ => true,
    }
    &&& match rg.max {
        Some(Bound::Exclusive(e)) => e > i64::MIN,
        _ => true,
    }
}

/// Derives the emitted bound literals of an integer range, absent bounds
/// staying absent.
pub fn maybe_min_max_ints(numeric: &NumericData<i64>) -> (r: (Option<String>, Option<String>))
    requires
        int_bounds_repr(numeric@.range),
    ensures
        opt_view(r.0) == int_min_literal(numeric@.range.min),
        opt_view(r.1) == int_max_literal(numeric@.range.max),
{
    let min: Option<String> = match &numeric.range.min {
        None => None,
        Some(Bound::Inclusive(i)) => Some(fmt_i64(*i)),
        Some(Bound::Exclusive(e)) => Some(fmt_i64(*e + 1)),
    };
    let max: Option<String> = match &numeric.range.max {
        None => None,
        Some(Bound::Inclusive(i)) => Some(fmt_i64(*i)),
        Some(Bound::Exclusive(e)) => Some(fmt_i64(*e - 1)),
    };
    (min, max)
}

/// The emitted lower bound literal, or the sentinel `IntMin` for the
/// minimum representable value when the bound is absent.
pub open spec fn int_min_text(min: Option<Bound<i64>>) -> Seq<char> {
    match int_min_literal(min) {
        Some(s) => s,
        None => "IntMin"@,
    }
}

/// The emitted upper bound literal, or the sentinel `IntMax`.
pub open spec fn int_max_text(max: Option<Bound<i64>>) -> Seq<char> {
    match int_max_literal(max) {
        Some(s) => s,
        None => "IntMax"@,
    }
}

/// Derives the emitted bound literals, absent bounds becoming the
/// representable-extreme sentinels.
pub fn min_max_ints(numeric: &NumericData<i64>) -> (r: (String, String))
    requires
        int_bounds_repr(numeric@.range),
    ensures
        r.0@ == int_min_text(numeric@.range.min),
        r.1@ == int_max_text(numeric@.range.max),
{
    let (min, max) = maybe_min_max_ints(numeric);
    let min_s: String = match min {
        Some(s) => s,
        None => "IntMin".to_owned(),
    };
    let max_s: String = match max {
        Some(s) => s,
        None => "IntMax".to_owned(),
    };
    (min_s, max_s)
}

/// The machine-readable range line of an integer type's documentation;
/// absent bounds read `None`.
pub open spec fn describe_range_int_spec(rg: Range<i64>) -> Seq<char> {
    "Range: min="@ + (match int_min_literal(rg.min) {
        Some(s) => s,
        None => "None"@,
    }) + ", max="@ + (match int_max_literal(rg.max) {
        Some(s) => s,
        None => "None"@,
    })
}

/// Renders the machine-readable range line of an integer type.
pub fn describe_range_int(numeric: &NumericData<i64>) -> (r: String)
    requires
        int_bounds_repr(numeric@.range),
    ensures
        r@ == describe_range_int_spec(numeric@.range),
{
    let (min, max) = maybe_min_max_ints(numeric);
    let mut s = "Range: min=".to_owned();
    match min {
        Some(m) => s.append(m.as_str()),
        None => s.append("None"),
    }
    s.append(", max=");
    match max {
        Some(m) => s.append(m.as_str()),
        None => s.append("None"),
    }
    s
}

/// The documentation block of an integer type: its own documentation, a
/// blank line, and the range line — or the range line alone when the type
/// has no documentation.
pub open spec fn document_int_spec(n: NumericDataV<i64>) -> Seq<char> {
    if n.documentation.len() == 0 {
        describe_range_int_spec(n.range)
    } else {
        n.documentation + "\n\n"@ + describe_range_int_spec(n.range)
    }
}

/// Renders the documentation block of an integer type.
pub fn document_int(numeric: &NumericData<i64>) -> (r: String)
    requires
        int_bounds_repr(numeric@.range),
    ensures
        r@ == document_int_spec(numeric@),
{
    let range = describe_range_int(numeric);
    if numeric.documentation.as_str().is_empty() {
        range
    } else {
        let mut s = numeric.documentation.clone();
        s.append("\n\n");
        s.append(range.as_str());
        s
    }
}

/// The emitted clamp-expression tokens of a decimal range: the bound kind
/// and its value at full precision, or the no-op token when absent.
pub open spec fn minmax_expr_decimal_spec(rg: Range<int>) -> (Seq<char>, Seq<char>) {
    (
        match rg.min {
            None => "MX_NOOP"@,
            Some(Bound::Inclusive(f)) => "MXMININ( "@ + dec_string_spec(f) + " )"@,
            Some(Bound::Exclusive(f)) => "MXMINEX( "@ + dec_string_spec(f) + " )"@,
        },
        match rg.max {
            None => "MX_NOOP"@,
            Some(Bound::Inclusive(f)) => "MXMAXIN( "@ + dec_string_spec(f) + " )"@,
            Some(Bound::Exclusive(f)) => "MXMAXEX( "@ + dec_string_spec(f) + " )"@,
        },
    )
}

/// Renders the clamp-expression tokens of a decimal range.
pub fn minmax_expr_decimal(numeric: &NumericData<Decimal>) -> (r: (String, String))
    ensures
        r.0@ == minmax_expr_decimal_spec(numeric@.range).0,
        r.1@ == minmax_expr_decimal_spec(numeric@.range).1,
{
    let min: String = match &numeric.range.min {
        None => "MX_NOOP".to_owned(),
        Some(Bound::Inclusive(f)) => {
            let mut s = "MXMININ( ".to_owned();
            s.append(f.display_string().as_str());
            s.append(" )");
            s
        },
        Some(Bound::Exclusive(f)) => {
            let mut s = "MXMINEX( ".to_owned();
            s.append(f.display_string().as_str());
            s.append(" )");
            s
        },
    };
    let max: String = match &numeric.range.max {
        None => "MX_NOOP".to_owned(),
        Some(Bound::Inclusive(f)) => {
            let mut s = "MXMAXIN( ".to_owned();
            s.append(f.display_string().as_str());
            s.append(" )");
            s
        },
        Some(Bound::Exclusive(f)) => {
            let mut s = "MXMAXEX( ".to_owned();
            s.append(f.display_string().as_str());
            s.append(" )");
            s
        },
    };
    (min, max)
}

/// An exclusive, non-negative decimal minimum leaves room for the derived
/// default one unit above it.
pub open spec fn dec_default_repr(rg: Range<int>) -> bool {
    match rg.min {
        Some(Bound::Exclusive(f)) => f >= 0 ==> f + unit_micros() <= i64::MAX,
        _ => true,
    }
}

/// The default value of a decimal type: a positive inclusive minimum is
/// the default itself; an exclusive minimum at or above zero yields the
/// bound plus one unit; anything else defaults to zero.
pub open spec fn defaultval_spec(min: Option<Bound<int>>) -> Seq<char> {
    match min {
        None => "0.0"@,
        Some(Bound::Inclusive(f)) => if f > 0 {
            dec_string_spec(f)
        } else {
            "0.0"@
        },
        Some(Bound::Exclusive(f)) => if f >= 0 {
            dec_string_spec(f + unit_micros())
        } else {
            "0.0"@
        },
    }
}

/// Renders the default value of a decimal type.
pub fn defaultval(numeric: &NumericData<Decimal>) -> (r: String)
    requires
        dec_default_repr(numeric@.range),
    ensures
        r@ == defaultval_spec(numeric@.range.min),
{
    match &numeric.range.min {
        None => "0.0".to_owned(),
        Some(Bound::Inclusive(f)) => {
            if f.is_positive() {
                f.display_string()
            } else {
                "0.0".to_owned()
            }
        },
        Some(Bound::Exclusive(f)) => {
            if f.is_non_negative() {
                f.plus_one().display_string()
            } else {
                "0.0".to_owned()
            }
        },
    }
}

/// The human-readable renderings of a decimal range's bounds, with the
/// bound kind spelled out; absent bounds read `None`.
pub open spec fn decimal_range_doc_spec(rg: Range<int>) -> (Seq<char>, Seq<char>) {
    (
        match rg.min {
            None => "None"@,
            Some(Bound::Inclusive(f)) => "Inclusive("@ + dec_string_spec(f) + ")"@,
            Some(Bound::Exclusive(f)) => "Exclusive("@ + dec_string_spec(f) + ")"@,
        },
        match rg.max {
            None => "None"@,
            Some(Bound::Inclusive(f)) => "Inclusive("@ + dec_string_spec(f) + ")"@,
            Some(Bound::Exclusive(f)) => "Exclusive("@ + dec_string_spec(f) + ")"@,
        },
    )
}

/// Renders the human-readable bounds of a decimal range.
pub fn decimal_range_doc_strings(numeric: &NumericData<Decimal>) -> (r: (String, String))
    ensures
        r.0@ == decimal_range_doc_spec(numeric@.range).0,
        r.1@ == decimal_range_doc_spec(numeric@.range).1,
{
    let min: String = match &numeric.range.min {
        None => "None".to_owned(),
        Some(Bound::Inclusive(f)) => {
            let mut s = "Inclusive(".to_owned();
            s.append(f.display_string().as_str());
            s.append(")");
            s
        },
        Some(Bound::Exclusive(f)) => {
            let mut s = "Exclusive(".to_owned();
            s.append(f.display_string().as_str());
            s.append(")");
            s
        },
    };
    let max: String = match &numeric.range.max {
        None => "None".to_owned(),
        Some(Bound::Inclusive(f)) => {
            let mut s = "Inclusive(".to_owned();
            s.append(f.display_string().as_str());
            s.append(")");
            s
        },
        Some(Bound::Exclusive(f)) => {
            let mut s = "Exclusive(".to_owned();
            s.append(f.display_string().as_str());
            s.append(")");
            s
        },
    };
    (min, max)
}

/// The machine-readable range line built from two already-rendered bound
/// texts.
pub open spec fn describe_range_decimal_spec(minmax: (Seq<char>, Seq<char>)) -> Seq<char> {
    "Range: min="@ + minmax.0 + ", max="@ + minmax.1
}

/// Renders the range line from two already-rendered bound texts.
pub fn describe_range_decimal(minmax: (String, String)) -> (r: String)
    ensures
        r@ == describe_range_decimal_spec((minmax.0@, minmax.1@)),
{
    let mut s = "Range: min=".to_owned();
    s.append(minmax.0.as_str());
    s.append(", max=");
    s.append(minmax.1.as_str());
    s
}

/// The documentation block of a decimal type: its own documentation, a
/// blank line, and the range line over the human-readable bounds.
pub open spec fn document_decimal_spec(n: NumericDataV<int>) -> Seq<char> {
    if n.documentation.len() == 0 {
        describe_range_decimal_spec(decimal_range_doc_spec(n.range))
    } else {
        n.documentation + "\n\n"@ + describe_range_decimal_spec(decimal_range_doc_spec(n.range))
    }
}

/// Renders the documentation block of a decimal type.
pub fn document_decimal(numeric: &NumericData<Decimal>) -> (r: String)
    ensures
        r@ == document_decimal_spec(numeric@),
{
    let range = describe_range_decimal(decimal_range_doc_strings(numeric));
    if numeric.documentation.as_str().is_empty() {
        range
    } else {
        let mut s = numeric.documentation.clone();
        s.append("\n\n");
        s.append(range.as_str());
        s
    }
}

/// The `Pascal`-name key of a numeric unit's view.
pub open spec fn int_key() -> spec_fn(NumericDataV<i64>) -> Seq<char> {
    |nv: NumericDataV<i64>| nv.name.pascal
}

/// The `Pascal`-name key of a decimal unit's view.
pub open spec fn dec_key() -> spec_fn(NumericDataV<int>) -> Seq<char> {
    |nv: NumericDataV<int>| nv.name.pascal
}

/// The clamped-byte builtin appended to every integer emission.
pub open spec fn byte_builtin_v() -> NumericDataV<i64> {
    NumericDataV {
        name: SymbolV { original: "byte"@, pascal: "Byte"@, camel: "byte"@ },
        base_type: Numeric::NonNegativeInteger,
        documentation: "This is not part of MusicXML. It represents a clamped byte."@,
        range: Range {
            min: Some(Bound::Inclusive(0i64)),
            max: Some(Bound::Inclusive(255i64)),
        },
    }
}

/// The `positiveInteger` builtin appended to every integer emission.
pub open spec fn positive_integer_builtin_v() -> NumericDataV<i64> {
    NumericDataV {
        name: SymbolV {
            original: "positiveInteger"@,
            pascal: "PositiveInteger"@,
            camel: "positiveInteger"@,
        },
        base_type: Numeric::PositiveInteger,
        documentation: "The built-in primitive xs:positiveInteger"@,
        range: Range { min: Some(Bound::Inclusive(1i64)), max: None },
    }
}

/// The `nonNegativeInteger` builtin appended to every integer emission.
pub open spec fn non_negative_integer_builtin_v() -> NumericDataV<i64> {
    NumericDataV {
        name: SymbolV {
            original: "nonNegativeInteger"@,
            pascal: "NonNegativeInteger"@,
            camel: "nonNegativeInteger"@,
        },
        base_type: Numeric::NonNegativeInteger,
        documentation: "The built-in primitive xs:nonNegativeInteger"@,
        range: Range { min: Some(Bound::Inclusive(0i64)), max: None },
    }
}

/// The positive-divisions-value builtin appended to every decimal
/// emission.
pub open spec fn positive_divisions_builtin_v() -> NumericDataV<int> {
    NumericDataV {
        name: SymbolV {
            original: "positive-divisions-value"@,
            pascal: "PositiveDivisionsValue"@,
            camel: "positiveDivisionsValue"@,
        },
        base_type: Numeric::Decimal,
        documentation: "The positive divisions value: a decimal that must be greater than zero."@,
        range: Range { min: Some(Bound::Exclusive(0int)), max: None },
    }
}

/// The integer units to emit: the given units plus the builtins.
pub open spec fn with_integer_builtins(vs: Seq<NumericDataV<i64>>) -> Seq<NumericDataV<i64>> {
    vs.push(byte_builtin_v()).push(positive_integer_builtin_v()).push(
        non_negative_integer_builtin_v(),
    )
}

/// The decimal units to emit: the given units plus the builtin.
pub open spec fn with_decimal_builtins(vs: Seq<NumericDataV<int>>) -> Seq<NumericDataV<int>> {
    vs.push(positive_divisions_builtin_v())
}

/// The closing namespace boilerplate of the numeric files.
pub open spec fn close_numerics_spec() -> Seq<char> {
    line1_spec(1, "}"@) + line1_spec(0, "}"@)
}

fn close_numerics() -> (r: String)
    ensures
        r@ == close_numerics_spec(),
{
    let mut s = String::new();
    line1(&mut s, 1, "}");
    proof {
        seq_empty_left(line1_spec(1, "}"@));
    }
    line1(&mut s, 0, "}");
    s
}

/// The opening text of the integer declaration file: license header,
/// includes, namespace boilerplate and the builtin aliases and sentinels.
pub open spec fn open_integers_h_spec() -> Seq<char> {
    line1_spec(0, "// MusicXML Class Library"@) + line1_spec(
        0,
        "// Copyright (c) by Matthew James Briggs"@,
    ) + line1_spec(0, "// Distributed under the MIT License"@) + line1_spec(0, ""@) + line1_spec(
        0,
        "#pragma once"@,
    ) + line1_spec(0, ""@) + line1_spec(0, "#include <iostream>"@) + line1_spec(
        0,
        "#include <string>"@,
    ) + line1_spec(0, "#include <limits>"@) + line1_spec(0, ""@) + line1_spec(0, "namespace mx"@)
        + line1_spec(0, "{"@) + line1_spec(1, "namespace core"@) + line1_spec(1, "{"@) + line1_spec(
        2,
        "using IntType = int;"@,
    ) + line1_spec(2, "constexpr IntType IntMin = std::numeric_limits<IntType>::min();"@)
        + line1_spec(2, "constexpr IntType IntMax = std::numeric_limits<IntType>::max();"@)
}

fn open_integers_h() -> (r: String)
    ensures
        r@ == open_integers_h_spec(),
{
    let mut s = String::new();
    line1(&mut s, 0, "// MusicXML Class Library");
    proof {
        seq_empty_left(line1_spec(0, "// MusicXML Class Library"@));
    }
    line1(&mut s, 0, "// Copyright (c) by Matthew James Briggs");
    line1(&mut s, 0, "// Distributed under the MIT License");
    line1(&mut s, 0, "");
    line1(&mut s, 0, "#pragma once");
    line1(&mut s, 0, "");
    line1(&mut s, 0, "#include <iostream>");
    line1(&mut s, 0, "#include <string>");
    line1(&mut s, 0, "#include <limits>");
    line1(&mut s, 0, "");
    line1(&mut s, 0, "namespace mx");
    line1(&mut s, 0, "{");
    line1(&mut s, 1, "namespace core");
    line1(&mut s, 1, "{");
    line1(&mut s, 2, "using IntType = int;");
    line1(&mut s, 2, "constexpr IntType IntMin = std::numeric_limits<IntType>::min();");
    line1(&mut s, 2, "constexpr IntType IntMax = std::numeric_limits<IntType>::max();");
    s
}

/// The opening text of the integer definition file.
pub open spec fn open_integers_cpp_spec() -> Seq<char> {
    line1_spec(0, "// MusicXML Class Library"@) + line1_spec(
        0,
        "// Copyright (c) by Matthew James Briggs"@,
    ) + line1_spec(0, "// Distributed under the MIT License"@) + line1_spec(0, ""@) + line1_spec(
        0,
        "#include \"mx/core/Integers.h\""@,
    ) + line1_spec(0, ""@) + line1_spec(0, "#include <sstream>"@) + line1_spec(0, ""@) + line1_spec(
        0,
        "namespace mx"@,
    ) + line1_spec(0, "{"@) + line1_spec(1, "namespace core"@) + line1_spec(1, "{"@)
}

fn open_integers_cpp() -> (r: String)
    ensures
        r@ == open_integers_cpp_spec(),
{
    let mut s = String::new();
    line1(&mut s, 0, "// MusicXML Class Library");
    proof {
        seq_empty_left(line1_spec(0, "// MusicXML Class Library"@));
    }
    line1(&mut s, 0, "// Copyright (c) by Matthew James Briggs");
    line1(&mut s, 0, "// Distributed under the MIT License");
    line1(&mut s, 0, "");
    line1(&mut s, 0, "#include \"mx/core/Integers.h\"");
    line1(&mut s, 0, "");
    line1(&mut s, 0, "#include <sstream>");
    line1(&mut s, 0, "");
    line1(&mut s, 0, "namespace mx");
    line1(&mut s, 0, "{");
    line1(&mut s, 1, "namespace core");
    line1(&mut s, 1, "{");
    s
}

/// The opening text of the decimal declaration file.
pub open spec fn open_decimals_h_spec() -> Seq<char> {
    line1_spec(0, "// MusicXML Class Library"@) + line1_spec(
        0,
        "// Copyright (c) by Matthew James Briggs"@,
    ) + line1_spec(0, "// Distributed under the MIT License"@) + line1_spec(0, ""@) + line1_spec(
        0,
        "#pragma once"@,
    ) + line1_spec(0, ""@) + line1_spec(0, "#include <iostream>"@) + line1_spec(
        0,
        "#include <string>"@,
    ) + line1_spec(0, "#include <functional>"@) + line1_spec(0, ""@) + line1_spec(
        0,
        "namespace mx"@,
    ) + line1_spec(0, "{"@) + line1_spec(1, "namespace core"@) + line1_spec(1, "{"@) + line1_spec(
        2,
        "using DecimalType = double;"@,
    )
}

fn open_decimals_h() -> (r: String)
    ensures
        r@ == open_decimals_h_spec(),
{
    let mut s = String::new();
    line1(&mut s, 0, "// MusicXML Class Library");
    proof {
        seq_empty_left(line1_spec(0, "// MusicXML Class Library"@));
    }
    line1(&mut s, 0, "// Copyright (c) by Matthew James Briggs");
    line1(&mut s, 0, "// Distributed under the MIT License");
    line1(&mut s, 0, "");
    line1(&mut s, 0, "#pragma once");
    line1(&mut s, 0, "");
    line1(&mut s, 0, "#include <iostream>");
    line1(&mut s, 0, "#include <string>");
    line1(&mut s, 0, "#include <functional>");
    line1(&mut s, 0, "");
    line1(&mut s, 0, "namespace mx");
    line1(&mut s, 0, "{");
    line1(&mut s, 1, "namespace core");
    line1(&mut s, 1, "{");
    line1(&mut s, 2, "using DecimalType = double;");
    s
}

/// The opening text of the decimal definition file.
pub open spec fn open_decimals_cpp_spec() -> Seq<char> {
    line1_spec(0, "// MusicXML Class Library"@) + line1_spec(
        0,
        "// Copyright (c) by Matthew James Briggs"@,
    ) + line1_spec(0, "// Distributed under the MIT License"@) + line1_spec(0, ""@) + line1_spec(
        0,
        "#include \"mx/core/Decimals.h\""@,
    ) + line1_spec(0, "#include \"mx/core/UnusedParameter.h\""@) + line1_spec(0, ""@) + line1_spec(
        0,
        "#include <sstream>"@,
    ) + line1_spec(0, "#include <cmath>"@) + line1_spec(0, ""@) + line1_spec(0, "namespace mx"@)
        + line1_spec(0, "{"@) + line1_spec(1, "namespace core"@) + line1_spec(1, "{"@)
}

fn open_decimals_cpp() -> (r: String)
    ensures
        r@ == open_decimals_cpp_spec(),
{
    let mut s = String::new();
    line1(&mut s, 0, "// MusicXML Class Library");
    proof {
        seq_empty_left(line1_spec(0, "// MusicXML Class Library"@));
    }
    line1(&mut s, 0, "// Copyright (c) by Matthew James Briggs");
    line1(&mut s, 0, "// Distributed under the MIT License");
    line1(&mut s, 0, "");
    line1(&mut s, 0, "#include \"mx/core/Decimals.h\"");
    line1(&mut s, 0, "#include \"mx/core/UnusedParameter.h\"");
    line1(&mut s, 0, "");
    line1(&mut s, 0, "#include <sstream>");
    line1(&mut s, 0, "#include <cmath>");
    line1(&mut s, 0, "");
    line1(&mut s, 0, "namespace mx");
    line1(&mut s, 0, "{");
    line1(&mut s, 1, "namespace core");
    line1(&mut s, 1, "{");
    s
}

/// The declaration block of one integer type: separator, documentation,
/// and the wrapper class with a validating setter.
pub open spec fn int_h_entry(nv: NumericDataV<i64>) -> Seq<char> {
    let pc = nv.name.pascal;
    line1_spec(0, ""@) + line1_spec(2, crate::write_enums::sep_spec(pc)) + doc_block_spec(
        2,
        document_int_spec(nv),
    ) + line2_spec(2, "class "@, pc) + line1_spec(2, "{"@) + line1_spec(2, "public:"@) + line3_spec(
        3,
        "explicit "@,
        pc,
        "( IntType value );"@,
    ) + line2_spec(3, pc, "();"@) + line1_spec(3, "IntType getValue() const;"@) + line1_spec(
        3,
        "void setValue( IntType value );"@,
    ) + line1_spec(2, "private:"@) + line1_spec(3, "IntType myValue;"@) + line1_spec(2, "};"@)
}

fn int_h_entry_string(numeric: &NumericData<i64>) -> (r: String)
    requires
        int_bounds_repr(numeric@.range),
    ensures
        r@ == int_h_entry(numeric@),
{
    let pc = numeric.name.pascal();
    let mut s = String::new();
    line1(&mut s, 0, "");
    proof {
        seq_empty_left(line1_spec(0, ""@));
    }
    let sep = crate::write_enums::sep_string(pc);
    line1(&mut s, 2, sep.as_str());
    let doc = document_int(numeric);
    doc_block(&mut s, 2, doc.as_str());
    line2(&mut s, 2, "class ", pc);
    line1(&mut s, 2, "{");
    line1(&mut s, 2, "public:");
    line3(&mut s, 3, "explicit ", pc, "( IntType value );");
    line2(&mut s, 3, pc, "();");
    line1(&mut s, 3, "IntType getValue() const;");
    line1(&mut s, 3, "void setValue( IntType value );");
    line1(&mut s, 2, "private:");
    line1(&mut s, 3, "IntType myValue;");
    line1(&mut s, 2, "};");
    s
}

/// The definition block of one integer type: the constructors default to
/// zero and pass through the clamping setter, which holds the value to
/// the derived bound literals.
pub open spec fn int_cpp_entry(nv: NumericDataV<i64>) -> Seq<char> {
    let pc = nv.name.pascal;
    line1_spec(0, ""@) + line1_spec(2, crate::write_enums::sep_spec(pc)) + line4_spec(
        2,
        pc,
        "::"@,
        pc,
        "( IntType value )"@,
    ) + line1_spec(2, ": myValue{ 0 }"@) + line1_spec(2, "{"@) + line1_spec(
        3,
        "setValue( value );"@,
    ) + line1_spec(2, "}"@) + line1_spec(0, ""@) + line4_spec(2, pc, "::"@, pc, "()"@) + line1_spec(
        2,
        ": myValue{ 0 }"@,
    ) + line1_spec(2, "{"@) + line1_spec(3, "setValue( 0 );"@) + line1_spec(2, "}"@) + line1_spec(
        0,
        ""@,
    ) + line3_spec(2, "IntType "@, pc, "::getValue() const"@) + line1_spec(2, "{"@) + line1_spec(
        3,
        "return myValue;"@,
    ) + line1_spec(2, "}"@) + line1_spec(0, ""@) + line3_spec(
        2,
        "void "@,
        pc,
        "::setValue( IntType value )"@,
    ) + line1_spec(2, "{"@) + line5_spec(
        3,
        "myValue = std::max( IntType{ "@,
        int_min_text(nv.range.min),
        " }, std::min( IntType{ "@,
        int_max_text(nv.range.max),
        " }, value ) );"@,
    ) + line1_spec(2, "}"@)
}

fn int_cpp_entry_string(numeric: &NumericData<i64>) -> (r: String)
    requires
        int_bounds_repr(numeric@.range),
    ensures
        r@ == int_cpp_entry(numeric@),
{
    let pc = numeric.name.pascal();
    let (min, max) = min_max_ints(numeric);
    let mut s = String::new();
    line1(&mut s, 0, "");
    proof {
        seq_empty_left(line1_spec(0, ""@));
    }
    let sep = crate::write_enums::sep_string(pc);
    line1(&mut s, 2, sep.as_str());
    line4(&mut s, 2, pc, "::", pc, "( IntType value )");
    line1(&mut s, 2, ": myValue{ 0 }");
    line1(&mut s, 2, "{");
    line1(&mut s, 3, "setValue( value );");
    line1(&mut s, 2, "}");
    line1(&mut s, 0, "");
    line4(&mut s, 2, pc, "::", pc, "()");
    line1(&mut s, 2, ": myValue{ 0 }");
    line1(&mut s, 2, "{");
    line1(&mut s, 3, "setValue( 0 );");
    line1(&mut s, 2, "}");
    line1(&mut s, 0, "");
    line3(&mut s, 2, "IntType ", pc, "::getValue() const");
    line1(&mut s, 2, "{");
    line1(&mut s, 3, "return myValue;");
    line1(&mut s, 2, "}");
    line1(&mut s, 0, "");
    line3(&mut s, 2, "void ", pc, "::setValue( IntType value )");
    line1(&mut s, 2, "{");
    line5(
        &mut s,
        3,
        "myValue = std::max( IntType{ ",
        min.as_str(),
        " }, std::min( IntType{ ",
        max.as_str(),
        " }, value ) );",
    );
    line1(&mut s, 2, "}");
    s
}

/// The declaration block of one decimal type.
pub open spec fn dec_h_entry(nv: NumericDataV<int>) -> Seq<char> {
    let pc = nv.name.pascal;
    line1_spec(0, ""@) + line1_spec(2, crate::write_enums::sep_spec(pc)) + doc_block_spec(
        2,
        document_decimal_spec(nv),
    ) + line2_spec(2, "class "@, pc) + line1_spec(2, "{"@) + line1_spec(2, "public:"@) + line3_spec(
        3,
        "explicit "@,
        pc,
        "( DecimalType value );"@,
    ) + line2_spec(3, pc, "();"@) + line1_spec(3, "DecimalType getValue() const;"@) + line1_spec(
        3,
        "void setValue( DecimalType value );"@,
    ) + line1_spec(2, "private:"@) + line1_spec(3, "DecimalType myValue;"@) + line1_spec(2, "};"@)
}

fn dec_h_entry_string(numeric: &NumericData<Decimal>) -> (r: String)
    ensures
        r@ == dec_h_entry(numeric@),
{
    let pc = numeric.name.pascal();
    let mut s = String::new();
    line1(&mut s, 0, "");
    proof {
        seq_empty_left(line1_spec(0, ""@));
    }
    let sep = crate::write_enums::sep_string(pc);
    line1(&mut s, 2, sep.as_str());
    let doc = document_decimal(numeric);
    doc_block(&mut s, 2, doc.as_str());
    line2(&mut s, 2, "class ", pc);
    line1(&mut s, 2, "{");
    line1(&mut s, 2, "public:");
    line3(&mut s, 3, "explicit ", pc, "( DecimalType value );");
    line2(&mut s, 3, pc, "();");
    line1(&mut s, 3, "DecimalType getValue() const;");
    line1(&mut s, 3, "void setValue( DecimalType value );");
    line1(&mut s, 2, "private:");
    line1(&mut s, 3, "DecimalType myValue;");
    line1(&mut s, 2, "};");
    s
}

/// The definition block of one decimal type: the constructors default to
/// the derived default value, and the setter applies the clamp-expression
/// tokens so the comparison happens at the generated code's own type and
/// precision.
pub open spec fn dec_cpp_entry(nv: NumericDataV<int>) -> Seq<char> {
    let pc = nv.name.pascal;
    let dv = defaultval_spec(nv.range.min);
    let exprs = minmax_expr_decimal_spec(nv.range);
    line1_spec(0, ""@) + line1_spec(2, crate::write_enums::sep_spec(pc)) + line4_spec(
        2,
        pc,
        "::"@,
        pc,
        "( DecimalType value )"@,
    ) + line3_spec(2, ": myValue{ "@, dv, " }"@) + line1_spec(2, "{"@) + line1_spec(
        3,
        "setValue( value );"@,
    ) + line1_spec(2, "}"@) + line1_spec(0, ""@) + line4_spec(2, pc, "::"@, pc, "()"@) + line3_spec(
        2,
        ": myValue{ "@,
        dv,
        " }"@,
    ) + line1_spec(2, "{"@) + line1_spec(2, "}"@) + line1_spec(0, ""@) + line3_spec(
        2,
        "DecimalType "@,
        pc,
        "::getValue() const"@,
    ) + line1_spec(2, "{"@) + line1_spec(3, "return myValue;"@) + line1_spec(2, "}"@) + line1_spec(
        0,
        ""@,
    ) + line3_spec(2, "void "@, pc, "::setValue( DecimalType value )"@) + line1_spec(2, "{"@)
        + line1_spec(3, "myValue = value;"@) + line2_spec(3, exprs.0, ";"@) + line2_spec(
        3,
        exprs.1,
        ";"@,
    ) + line1_spec(2, "}"@)
}

fn dec_cpp_entry_string(numeric: &NumericData<Decimal>) -> (r: String)
    requires
        dec_default_repr(numeric@.range),
    ensures
        r@ == dec_cpp_entry(numeric@),
{
    let pc = numeric.name.pascal();
    let dv = defaultval(numeric);
    let (minexpr, maxexpr) = minmax_expr_decimal(numeric);
    let mut s = String::new();
    line1(&mut s, 0, "");
    proof {
        seq_empty_left(line1_spec(0, ""@));
    }
    let sep = crate::write_enums::sep_string(pc);
    line1(&mut s, 2, sep.as_str());
    line4(&mut s, 2, pc, "::", pc, "( DecimalType value )");
    line3(&mut s, 2, ": myValue{ ", dv.as_str(), " }");
    line1(&mut s, 2, "{");
    line1(&mut s, 3, "setValue( value );");
    line1(&mut s, 2, "}");
    line1(&mut s, 0, "");
    line4(&mut s, 2, pc, "::", pc, "()");
    line3(&mut s, 2, ": myValue{ ", dv.as_str(), " }");
    line1(&mut s, 2, "{");
    line1(&mut s, 2, "}");
    line1(&mut s, 0, "");
    line3(&mut s, 2, "DecimalType ", pc, "::getValue() const");
    line1(&mut s, 2, "{");
    line1(&mut s, 3, "return myValue;");
    line1(&mut s, 2, "}");
    line1(&mut s, 0, "");
    line3(&mut s, 2, "void ", pc, "::setValue( DecimalType value )");
    line1(&mut s, 2, "{");
    line1(&mut s, 3, "myValue = value;");
    line2(&mut s, 3, minexpr.as_str(), ";");
    line2(&mut s, 3, maxexpr.as_str(), ";");
    line1(&mut s, 2, "}");
    s
}

/// The declaration blocks of the first `i` integer units.
pub open spec fn int_h_entries(vs: Seq<NumericDataV<i64>>, i: int) -> Seq<char>
    decreases i,
{
    if i <= 0 {
        Seq::empty()
    } else {
        int_h_entries(vs, i - 1) + int_h_entry(vs[i - 1])
    }
}

/// The definition blocks of the first `i` integer units.
pub open spec fn int_cpp_entries(vs: Seq<NumericDataV<i64>>, i: int) -> Seq<char>
    decreases i,
{
    if i <= 0 {
        Seq::empty()
    } else {
        int_cpp_entries(vs, i - 1) + int_cpp_entry(vs[i - 1])
    }
}

/// The declaration blocks of the first `i` decimal units.
pub open spec fn dec_h_entries(vs: Seq<NumericDataV<int>>, i: int) -> Seq<char>
    decreases i,
{
    if i <= 0 {
        Seq::empty()
    } else {
        dec_h_entries(vs, i - 1) + dec_h_entry(vs[i - 1])
    }
}

/// The definition blocks of the first `i` decimal units.
pub open spec fn dec_cpp_entries(vs: Seq<NumericDataV<int>>, i: int) -> Seq<char>
    decreases i,
{
    if i <= 0 {
        Seq::empty()
    } else {
        dec_cpp_entries(vs, i - 1) + dec_cpp_entry(vs[i - 1])
    }
}

/// Emits the integer declaration file over already-sorted units.
#[verifier::loop_isolation(false)]
pub fn write_integers_h(numerics: &Vec<NumericData<i64>>) -> (r: String)
    requires
        forall|k: int|
            0 <= k < numerics@.len() ==> int_bounds_repr((#[trigger] numerics@[k])@.range),
    ensures
        r@ == open_integers_h_spec() + int_h_entries(
            crate::views::seq_view(numerics@),
            numerics@.len() as int,
        ) + close_numerics_spec(),
{
    let mut s = open_integers_h();
    proof {
        crate::emit::seq_empty_right(open_integers_h_spec());
    }
    let n = numerics.len();
    let mut i: usize = 0;
    while i < n
        invariant
            0 <= i <= n,
            s@ == open_integers_h_spec() + int_h_entries(
                crate::views::seq_view(numerics@),
                i as int,
            ),
        decreases n - i,
    {
        proof {
            assert(crate::views::seq_view(numerics@)[i as int] == numerics@[i as int]@);
        }
        let e = int_h_entry_string(&numerics[i]);
        s.append(e.as_str());
        proof {
            crate::emit::seq_assoc(
                open_integers_h_spec(),
                int_h_entries(crate::views::seq_view(numerics@), i as int),
                e@,
            );
        }
        i = i + 1;
    }
    let c = close_numerics();
    s.append(c.as_str());
    s
}

/// Emits the integer definition file over already-sorted units.
#[verifier::loop_isolation(false)]
pub fn write_integers_cpp(numerics: &Vec<NumericData<i64>>) -> (r: String)
    requires
        forall|k: int|
            0 <= k < numerics@.len() ==> int_bounds_repr((#[trigger] numerics@[k])@.range),
    ensures
        r@ == open_integers_cpp_spec() + int_cpp_entries(
            crate::views::seq_view(numerics@),
            numerics@.len() as int,
        ) + close_numerics_spec(),
{
    let mut s = open_integers_cpp();
    proof {
        crate::emit::seq_empty_right(open_integers_cpp_spec());
    }
    let n = numerics.len();
    let mut i: usize = 0;
    while i < n
        invariant
            0 <= i <= n,
            s@ == open_integers_cpp_spec() + int_cpp_entries(
                crate::views::seq_view(numerics@),
                i as int,
            ),
        decreases n - i,
    {
        proof {
            assert(crate::views::seq_view(numerics@)[i as int] == numerics@[i as int]@);
        }
        let e = int_cpp_entry_string(&numerics[i]);
        s.append(e.as_str());
        proof {
            crate::emit::seq_assoc(
                open_integers_cpp_spec(),
                int_cpp_entries(crate::views::seq_view(numerics@), i as int),
                e@,
            );
        }
        i = i + 1;
    }
    let c = close_numerics();
    s.append(c.as_str());
    s
}

/// Emits the decimal declaration file over already-sorted units.
#[verifier::loop_isolation(false)]
pub fn write_decimals_h(numerics: &Vec<NumericData<Decimal>>) -> (r: String)
    ensures
        r@ == open_decimals_h_spec() + dec_h_entries(
            crate::views::seq_view(numerics@),
            numerics@.len() as int,
        ) + close_numerics_spec(),
{
    let mut s = open_decimals_h();
    proof {
        crate::emit::seq_empty_right(open_decimals_h_spec());
    }
    let n = numerics.len();
    let mut i: usize = 0;
    while i < n
        invariant
            0 <= i <= n,
            s@ == open_decimals_h_spec() + dec_h_entries(
                crate::views::seq_view(numerics@),
                i as int,
            ),
        decreases n - i,
    {
        proof {
            assert(crate::views::seq_view(numerics@)[i as int] == numerics@[i as int]@);
        }
        let e = dec_h_entry_string(&numerics[i]);
        s.append(e.as_str());
        proof {
            crate::emit::seq_assoc(
                open_decimals_h_spec(),
                dec_h_entries(crate::views::seq_view(numerics@), i as int),
                e@,
            );
        }
        i = i + 1;
    }
    let c = close_numerics();
    s.append(c.as_str());
    s
}

/// Emits the decimal definition file over already-sorted units.
#[verifier::loop_isolation(false)]
#[verifier::rlimit(60)]
pub fn write_decimals_cpp(numerics: &Vec<NumericData<Decimal>>) -> (r: String)
    requires
        forall|k: int|
            0 <= k < numerics@.len() ==> dec_default_repr((#[trigger] numerics@[k])@.range),
    ensures
        r@ == open_decimals_cpp_spec() + dec_cpp_entries(
            crate::views::seq_view(numerics@),
            numerics@.len() as int,
        ) + close_numerics_spec(),
{
    let mut s = open_decimals_cpp();
    proof {
        crate::emit::seq_empty_right(open_decimals_cpp_spec());
    }
    let n = numerics.len();
    let mut i: usize = 0;
    while i < n
        invariant
            0 <= i <= n,
            s@ == open_decimals_cpp_spec() + dec_cpp_entries(
                crate::views::seq_view(numerics@),
                i as int,
            ),
        decreases n - i,
    {
        proof {
            assert(crate::views::seq_view(numerics@)[i as int] == numerics@[i as int]@);
        }
        let e = dec_cpp_entry_string(&numerics[i]);
        s.append(e.as_str());
        proof {
            crate::emit::seq_assoc(
                open_decimals_cpp_spec(),
                dec_cpp_entries(crate::views::seq_view(numerics@), i as int),
                e@,
            );
        }
        i = i + 1;
    }
    let c = close_numerics();
    s.append(c.as_str());
    s
}

/// The whole integer declaration file over the given units plus the
/// builtins, sorted by `Pascal` name.
pub open spec fn integers_h_text(vs: Seq<NumericDataV<i64>>) -> Seq<char> {
    let sorted = crate::sort::sort_by(with_integer_builtins(vs), int_key());
    open_integers_h_spec() + int_h_entries(sorted, sorted.len() as int) + close_numerics_spec()
}

/// The whole integer definition file.
pub open spec fn integers_cpp_text(vs: Seq<NumericDataV<i64>>) -> Seq<char> {
    let sorted = crate::sort::sort_by(with_integer_builtins(vs), int_key());
    open_integers_cpp_spec() + int_cpp_entries(sorted, sorted.len() as int)
        + close_numerics_spec()
}

/// The whole decimal declaration file.
pub open spec fn decimals_h_text(vs: Seq<NumericDataV<int>>) -> Seq<char> {
    let sorted = crate::sort::sort_by(with_decimal_builtins(vs), dec_key());
    open_decimals_h_spec() + dec_h_entries(sorted, sorted.len() as int) + close_numerics_spec()
}

/// The whole decimal definition file.
pub open spec fn decimals_cpp_text(vs: Seq<NumericDataV<int>>) -> Seq<char> {
    let sorted = crate::sort::sort_by(with_decimal_builtins(vs), dec_key());
    open_decimals_cpp_spec() + dec_cpp_entries(sorted, sorted.len() as int)
        + close_numerics_spec()
}

/// Runs the integer emission pass: appends the builtin units, sorts by
/// `Pascal` name, and emits the paired declaration and definition text,
/// pinned exactly to the input model.
#[verifier::loop_isolation(false)]
#[verifier::rlimit(60)]
pub fn write_integers(numerics: Vec<NumericData<i64>>) -> (r: (String, String))
    requires
        forall|k: int|
            0 <= k < numerics@.len() ==> int_bounds_repr((#[trigger] numerics@[k])@.range),
    ensures
        r.0@ == integers_h_text(crate::views::seq_view(numerics@)),
        r.1@ == integers_cpp_text(crate::views::seq_view(numerics@)),
{
    let ghost orig = numerics@;
    let mut v = numerics;
    let byte_nd = NumericData {
        name: Symbol::from_parts("byte", "Byte", "byte"),
        base_type: Numeric::NonNegativeInteger,
        documentation: "This is not part of MusicXML. It represents a clamped byte.".to_owned(),
        range: Range { min: Some(Bound::Inclusive(0i64)), max: Some(Bound::Inclusive(255i64)) },
    };
    let ghost b1 = byte_nd;
    v.push(byte_nd);
    let pos_nd = NumericData {
        name: Symbol::from_parts("positiveInteger", "PositiveInteger", "positiveInteger"),
        base_type: Numeric::PositiveInteger,
        documentation: "The built-in primitive xs:positiveInteger".to_owned(),
        range: Range { min: Some(Bound::Inclusive(1i64)), max: None },
    };
    let ghost b2 = pos_nd;
    v.push(pos_nd);
    let nn_nd = NumericData {
        name: Symbol::from_parts(
            "nonNegativeInteger",
            "NonNegativeInteger",
            "nonNegativeInteger",
        ),
        base_type: Numeric::NonNegativeInteger,
        documentation: "The built-in primitive xs:nonNegativeInteger".to_owned(),
        range: Range { min: Some(Bound::Inclusive(0i64)), max: None },
    };
    let ghost b3 = nn_nd;
    v.push(nn_nd);
    let ghost vfull = v@;
    proof {
        assert(b1@ == byte_builtin_v());
        assert(b2@ == positive_integer_builtin_v());
        assert(b3@ == non_negative_integer_builtin_v());
        assert(crate::views::seq_view(vfull) =~= with_integer_builtins(
            crate::views::seq_view(orig),
        ));
    }
    let sorted = sort_vec(v);
    proof {
        crate::sort::lemma_sort_view_commutes::<NumericData<i64>>(
            vfull,
            crate::sort::trait_key::<NumericData<i64>>(),
            int_key(),
        );
        crate::sort::lemma_sort_contains(
            vfull,
            crate::sort::trait_key::<NumericData<i64>>(),
        );
        assert forall|k: int| 0 <= k < sorted@.len() implies int_bounds_repr(
            (#[trigger] sorted@[k])@.range,
        ) by {
            assert(sorted@.contains(sorted@[k]));
            let j = choose|j: int| 0 <= j < vfull.len() && vfull[j] == sorted@[k];
            if j < orig.len() {
                assert(vfull[j] == orig[j]);
            } else if j == orig.len() {
                assert(vfull[j] == b1);
            } else if j == orig.len() + 1 {
                assert(vfull[j] == b2);
            } else {
                assert(vfull[j] == b3);
            }
        }
    }
    let h = write_integers_h(&sorted);
    let cpp = write_integers_cpp(&sorted);
    (h, cpp)
}

/// Runs the decimal emission pass: appends the builtin unit, sorts by
/// `Pascal` name, and emits the paired declaration and definition text,
/// pinned exactly to the input model.
#[verifier::loop_isolation(false)]
#[verifier::rlimit(60)]
pub fn write_decimals(numerics: Vec<NumericData<Decimal>>) -> (r: (String, String))
    requires
        forall|k: int|
            0 <= k < numerics@.len() ==> dec_default_repr((#[trigger] numerics@[k])@.range),
    ensures
        r.0@ == decimals_h_text(crate::views::seq_view(numerics@)),
        r.1@ == decimals_cpp_text(crate::views::seq_view(numerics@)),
{
    let ghost orig = numerics@;
    let mut v = numerics;
    let pdv_nd = NumericData {
        name: Symbol::from_parts(
            "positive-divisions-value",
            "PositiveDivisionsValue",
            "positiveDivisionsValue",
        ),
        base_type: Numeric::Decimal,
        documentation:
            "The positive divisions value: a decimal that must be greater than zero.".to_owned(),
        range: Range { min: Some(Bound::Exclusive(Decimal::from_micros(0))), max: None },
    };
    let ghost b1 = pdv_nd;
    v.push(pdv_nd);
    let ghost vfull = v@;
    proof {
        assert(b1@ == positive_divisions_builtin_v());
        assert(crate::views::seq_view(vfull) =~= with_decimal_builtins(
            crate::views::seq_view(orig),
        ));
    }
    let sorted = sort_vec(v);
    proof {
        crate::sort::lemma_sort_view_commutes::<NumericData<Decimal>>(
            vfull,
            crate::sort::trait_key::<NumericData<Decimal>>(),
            dec_key(),
        );
        crate::sort::lemma_sort_contains(
            vfull,
            crate::sort::trait_key::<NumericData<Decimal>>(),
        );
        assert forall|k: int| 0 <= k < sorted@.len() implies dec_default_repr(
            (#[trigger] sorted@[k])@.range,
        ) by {
            assert(sorted@.contains(sorted@[k]));
            let j = choose|j: int| 0 <= j < vfull.len() && vfull[j] == sorted@[k];
            if j < orig.len() {
                assert(vfull[j] == orig[j]);
            } else {
                assert(vfull[j] == b1);
            }
        }
    }
    let h = write_decimals_h(&sorted);
    let cpp = write_decimals_cpp(&sorted);
    (h, cpp)
}

/// Determinism of the numeric emission passes: over an unchanged model,
/// any two runs produce byte-identical text, because each file's text is
/// a function of the model alone.
pub proof fn lemma_numeric_emission_deterministic(
    ints: Seq<NumericDataV<i64>>,
    decs: Seq<NumericDataV<int>>,
    a: (Seq<char>, Seq<char>),
    b: (Seq<char>, Seq<char>),
    c: (Seq<char>, Seq<char>),
    d: (Seq<char>, Seq<char>),
)
    requires
        a == (integers_h_text(ints), integers_cpp_text(ints)),
        b == (integers_h_text(ints), integers_cpp_text(ints)),
        c == (decimals_h_text(decs), decimals_cpp_text(decs)),
        d == (decimals_h_text(decs), decimals_cpp_text(decs)),
    ensures
        a == b,
        c == d,
{
}

} // verus!
