//! The enumeration emitter: turns the sorted enumeration models into the
//! paired declaration and definition text of the generated library. Every
//! function pins its emitted characters exactly, so the whole pass is
//! deterministic: the same model always yields byte-identical text.

use vstd::prelude::*;

verus! {

use crate::emit::{
    cat3,
    cat3_spec,
    doc_block,
    doc_block_spec,
    line1,
    line1_spec,
    line2,
    line2_spec,
    line3,
    line3_spec,
    line4,
    line4_spec,
    line5,
    line5_spec,
    line6,
    line6_spec,
    line7,
    line7_spec,
    seq_empty_left,
    tabs_spec,
    tabs_to,
};
use crate::model::{Enumeration, EnumerationV, OtherField, OtherFieldV, SymbolV};
use crate::sort::{sort_by_key, sort_vec, SortKey};
use crate::text::{fmt_u64, u64_dec_spec};
use crate::views::seq_view;
use vstd::string::StringExecFns;

impl SortKey for Enumeration {
    open spec fn key_spec(&self) -> Seq<char> {
        self.name@.pascal
    }

    fn key(&self) -> (r: &str) {
        self.name.pascal()
    }
}

/// Appends `num` levels of four-space indentation.
pub fn write_tabs(w: &mut String, num: u32)
    ensures
        final(w)@ == old(w)@ + tabs_spec(num as nat),
{
    tabs_to(w, num);
}

/// The separator comment above an emitted type.
pub open spec fn sep_spec(name: Seq<char>) -> Seq<char> {
    "/* ---- "@ + name + " ---- */"@
}

pub(crate) fn sep_string(name: &str) -> (r: String)
    ensures
        r@ == sep_spec(name@),
{
    let mut s = "/* ---- ".to_owned();
    s.append(name);
    s.append(" ---- */");
    s
}

/// The opening text of the declaration file: license header, include, and
/// namespace boilerplate.
pub open spec fn open_enums_h_spec() -> Seq<char> {
    line1_spec(0, "// MusicXML Class Library"@) + line1_spec(
        0,
        "// Copyright (c) by Matthew James Briggs"@,
    ) + line1_spec(0, "// Distributed under the MIT License"@) + line1_spec(0, ""@) + line1_spec(
        0,
        "#pragma once"@,
    ) + line1_spec(0, ""@) + line1_spec(0, "#include \"mx/core/EnumsBuiltin.h\""@) + line1_spec(
        0,
        ""@,
    ) + line1_spec(0, "namespace mx"@) + line1_spec(0, "{"@) + line1_spec(1, "namespace core"@)
        + line1_spec(1, "{"@)
}

/// Emits the opening text of the declaration file.
pub fn open_enums_h() -> (r: String)
    ensures
        r@ == open_enums_h_spec(),
{
    let mut s = String::new();
    line1(&mut s, 0, "// MusicXML Class Library");
    proof {
        seq_empty_left(line1_spec(0, "// MusicXML Class Library"@));
    }
    line1(&mut s, 0, "// Copyright (c) by Matthew James Briggs");
    line1(&mut s, 0, "// Distributed under the MIT License");
    line1(&mut s, 0, "");
    line1(&mut s, 0, "#pragma once");
    line1(&mut s, 0, "");
    line1(&mut s, 0, "#include \"mx/core/EnumsBuiltin.h\"");
    line1(&mut s, 0, "");
    line1(&mut s, 0, "namespace mx");
    line1(&mut s, 0, "{");
    line1(&mut s, 1, "namespace core");
    line1(&mut s, 1, "{");
    s
}

/// The opening text of the definition file.
pub open spec fn open_enums_cpp_spec() -> Seq<char> {
    line1_spec(0, "// MusicXML Class Library"@) + line1_spec(
        0,
        "// Copyright (c) by Matthew James Briggs"@,
    ) + line1_spec(0, "// Distributed under the MIT License"@) + line1_spec(0, ""@) + line1_spec(
        0,
        "#include \"mx/core/Enums.h\""@,
    ) + line1_spec(0, ""@) + line1_spec(0, "#include <ostream>"@) + line1_spec(
        0,
        "#include <string>"@,
    ) + line1_spec(0, ""@) + line1_spec(0, "namespace mx"@) + line1_spec(0, "{"@) + line1_spec(
        1,
        "namespace core"@,
    ) + line1_spec(1, "{"@)
}

/// Emits the opening text of the definition file.
pub fn open_enums_cpp() -> (r: String)
    ensures
        r@ == open_enums_cpp_spec(),
{
    let mut s = String::new();
    line1(&mut s, 0, "// MusicXML Class Library");
    proof {
        seq_empty_left(line1_spec(0, "// MusicXML Class Library"@));
    }
    line1(&mut s, 0, "// Copyright (c) by Matthew James Briggs");
    line1(&mut s, 0, "// Distributed under the MIT License");
    line1(&mut s, 0, "");
    line1(&mut s, 0, "#include \"mx/core/Enums.h\"");
    line1(&mut s, 0, "");
    line1(&mut s, 0, "#include <ostream>");
    line1(&mut s, 0, "#include <string>");
    line1(&mut s, 0, "");
    line1(&mut s, 0, "namespace mx");
    line1(&mut s, 0, "{");
    line1(&mut s, 1, "namespace core");
    line1(&mut s, 1, "{");
    s
}

/// The closing namespace boilerplate shared by both files.
pub open spec fn close_enums_spec() -> Seq<char> {
    line1_spec(1, "}"@) + line1_spec(0, "}"@)
}

/// Emits the closing text of the declaration file.
pub fn close_enums_h() -> (r: String)
    ensures
        r@ == close_enums_spec(),
{
    let mut s = String::new();
    line1(&mut s, 1, "}");
    proof {
        seq_empty_left(line1_spec(1, "}"@));
    }
    line1(&mut s, 0, "}");
    s
}

/// Emits the closing text of the definition file.
pub fn close_enums_cpp() -> (r: String)
    ensures
        r@ == close_enums_spec(),
{
    let mut s = String::new();
    line1(&mut s, 1, "}");
    proof {
        seq_empty_left(line1_spec(1, "}"@));
    }
    line1(&mut s, 0, "}");
    s
}

/// One member line of the emitted `enum class` body: the member's camel
/// identifier and its ordinal. After the last declared member, an open
/// enumeration appends its "other" member with the next ordinal.
pub open spec fn member_h_line(ms: Seq<SymbolV>, other: Option<OtherFieldV>, k: int) -> Seq<char> {
    let base = cat3_spec(3, ms[k].camel, " = "@, u64_dec_spec(k as nat));
    if k == ms.len() - 1 {
        match other {
            Some(of) => base + ",\n"@ + cat3_spec(3, of.name.camel, " = "@, u64_dec_spec(
                ms.len() as nat,
            )) + "\n"@,
            None => base + "\n"@,
        }
    } else {
        base + ",\n"@
    }
}

/// The member lines of the first `i` members.
pub open spec fn members_h_spec(ms: Seq<SymbolV>, other: Option<OtherFieldV>, i: int) -> Seq<char>
    decreases i,
{
    if i <= 0 {
        Seq::empty()
    } else {
        members_h_spec(ms, other, i - 1) + member_h_line(ms, other, i - 1)
    }
}

/// The declaration text of one enumeration: separator, documentation, the
/// `enum class` body, the parse and serialize signatures, and — for an
/// open enumeration — the wrapper class and its companion signatures.
pub open spec fn enum_h_spec(e: EnumerationV) -> Seq<char> {
    let pc = e.name.pascal;
    let head = line1_spec(2, sep_spec(pc)) + doc_block_spec(2, e.documentation) + line2_spec(
        2,
        "enum class "@,
        pc,
    ) + line1_spec(2, "{"@) + members_h_spec(e.members, e.other_field, e.members.len() as int)
        + line1_spec(2, "};"@) + line1_spec(0, ""@) + line4_spec(
        2,
        pc,
        " parse"@,
        pc,
        "( const std::string& value );"@,
    ) + line3_spec(2, "std::string toString( const "@, pc, " value );"@) + line3_spec(
        2,
        "std::ostream& toStream( std::ostream& os, const "@,
        pc,
        " value );"@,
    ) + line3_spec(2, "std::ostream& operator<<( std::ostream& os, const "@, pc, " value );"@);
    match e.other_field {
        Some(of) => head + wrapper_h_spec(pc, of.wrapper_class_name.pascal),
        None => head,
    }
}

/// The declaration text of the wrapper class of an open enumeration.
pub open spec fn wrapper_h_spec(en: Seq<char>, cn: Seq<char>) -> Seq<char> {
    line1_spec(0, ""@) + line2_spec(2, "class "@, cn) + line1_spec(2, "{"@) + line1_spec(
        2,
        "public:"@,
    ) + line5_spec(3, "explicit "@, cn, "( const "@, en, " value );"@) + line3_spec(
        3,
        "explicit "@,
        cn,
        "( const std::string& value );"@,
    ) + line2_spec(3, cn, "();"@) + line2_spec(3, en, " getValue() const;"@) + line1_spec(
        3,
        "std::string getValueString() const;"@,
    ) + line3_spec(3, "void setValue( const "@, en, " value );"@) + line1_spec(
        3,
        "void setValue( const std::string& value );"@,
    ) + line1_spec(2, "private:"@) + line2_spec(3, en, " myEnum;"@) + line1_spec(
        3,
        "std::string myCustomValue;"@,
    ) + line1_spec(2, "};"@) + line1_spec(0, ""@) + line4_spec(
        2,
        cn,
        " parse"@,
        cn,
        "( const std::string& value );"@,
    ) + line3_spec(2, "std::string toString( const "@, cn, "& value );"@) + line3_spec(
        2,
        "std::ostream& toStream( std::ostream& os, const "@,
        cn,
        "& value );"@,
    ) + line3_spec(2, "std::ostream& operator<<( std::ostream& os, const "@, cn, "& value );"@)
}

/// Emits the declaration text of one enumeration.
#[verifier::loop_isolation(false)]
pub fn write_enum_h(enumer: &Enumeration) -> (r: String)
    ensures
        r@ == enum_h_spec(enumer@),
{
    let pc = enumer.name.pascal();
    let mut s = String::new();
    let sep = sep_string(pc);
    line1(&mut s, 2, sep.as_str());
    proof {
        seq_empty_left(line1_spec(2, sep@));
    }
    doc_block(&mut s, 2, enumer.documentation.as_str());
    line2(&mut s, 2, "enum class ", pc);
    line1(&mut s, 2, "{");
    let n = enumer.members.len();
    let ghost head = s@;
    let mut i: usize = 0;
    proof {
        assert(head + members_h_spec(enumer@.members, enumer@.other_field, 0) =~= head);
    }
    while i < n
        invariant
            0 <= i <= n,
            s@ == head + members_h_spec(enumer@.members, enumer@.other_field, i as int),
        decreases n - i,
    {
        let mut ml = String::new();
        proof {
            assert(seq_view(enumer.members@)[i as int] == enumer.members@[i as int]@);
        }
        let idx = fmt_u64(i as u64);
        cat3(&mut ml, 3, enumer.members[i].camel.as_str(), " = ", idx.as_str());
        proof {
            seq_empty_left(
                cat3_spec(3, enumer.members@[i as int]@.camel, " = "@, u64_dec_spec(i as nat)),
            );
        }
        if i == n - 1 {
            match &enumer.other_field {
                Some(of) => {
                    ml.append(",\n");
                    let total = fmt_u64(n as u64);
                    cat3(&mut ml, 3, of.name.camel.as_str(), " = ", total.as_str());
                    ml.append("\n");
                },
                None => {
                    ml.append("\n");
                },
            }
        } else {
            ml.append(",\n");
        }
        proof {
            assert(ml@ =~= member_h_line(enumer@.members, enumer@.other_field, i as int));
        }
        s.append(ml.as_str());
        proof {
            assert((head + members_h_spec(enumer@.members, enumer@.other_field, i as int)) + ml@
                =~= head + (members_h_spec(enumer@.members, enumer@.other_field, i as int) + ml@));
        }
        i = i + 1;
    }
    line1(&mut s, 2, "};");
    line1(&mut s, 0, "");
    line4(&mut s, 2, pc, " parse", pc, "( const std::string& value );");
    line3(&mut s, 2, "std::string toString( const ", pc, " value );");
    line3(&mut s, 2, "std::ostream& toStream( std::ostream& os, const ", pc, " value );");
    line3(&mut s, 2, "std::ostream& operator<<( std::ostream& os, const ", pc, " value );");
    match &enumer.other_field {
        Some(of) => {
            let w = wrapper_h_string(pc, of.wrapper_class_name.pascal());
            s.append(w.as_str());
        },
        None => {},
    }
    s
}

/// One branch of the emitted parse function: an exact comparison against a
/// member's original spelling, returning that member.
pub open spec fn parse_branch_spec(pc: Seq<char>, o: Seq<char>, n: Seq<char>, first: bool) -> Seq<
    char,
> {
    if first {
        line7_spec(3, "if ( value == \""@, o, "\" ) { return "@, pc, "::"@, n, "; }"@)
    } else {
        line7_spec(3, "else if ( value == \""@, o, "\" ) { return "@, pc, "::"@, n, "; }"@)
    }
}

/// The parse branches of the first `i` members, in declaration order.
pub open spec fn parse_branches_spec(ms: Seq<SymbolV>, pc: Seq<char>, i: int) -> Seq<char>
    decreases i,
{
    if i <= 0 {
        Seq::empty()
    } else {
        parse_branches_spec(ms, pc, i - 1) + parse_branch_spec(
            pc,
            ms[i - 1].original,
            ms[i - 1].camel,
            i - 1 == 0,
        )
    }
}

/// One case of the emitted toString switch: a member mapped back to its
/// original spelling.
pub open spec fn case_line_spec(pc: Seq<char>, n: Seq<char>, o: Seq<char>) -> Seq<char> {
    line7_spec(4, "case "@, pc, "::"@, n, ": { return \""@, o, "\"; }"@)
}

/// The switch cases of the first `i` members, in declaration order.
pub open spec fn case_lines_spec(ms: Seq<SymbolV>, pc: Seq<char>, i: int) -> Seq<char>
    decreases i,
{
    if i <= 0 {
        Seq::empty()
    } else {
        case_lines_spec(ms, pc, i - 1) + case_line_spec(pc, ms[i - 1].camel, ms[i - 1].original)
    }
}

/// Emits the parse branches of all members.
#[verifier::loop_isolation(false)]
fn parse_branches_string(enumer: &Enumeration) -> (r: String)
    ensures
        r@ == parse_branches_spec(
            enumer@.members,
            enumer@.name.pascal,
            enumer@.members.len() as int,
        ),
{
    let pc = enumer.name.pascal();
    let mut s = String::new();
    let n = enumer.members.len();
    let mut i: usize = 0;
    proof {
        assert(Seq::<char>::empty() + parse_branches_spec(enumer@.members, pc@, 0)
            =~= Seq::<char>::empty());
    }
    while i < n
        invariant
            0 <= i <= n,
            s@ == parse_branches_spec(enumer@.members, enumer@.name.pascal, i as int),
        decreases n - i,
    {
        proof {
            assert(seq_view(enumer.members@)[i as int] == enumer.members@[i as int]@);
        }
        let o = enumer.members[i].original.as_str();
        let cm = enumer.members[i].camel.as_str();
        let mut ml = String::new();
        if i == 0 {
            line7(&mut ml, 3, "if ( value == \"", o, "\" ) { return ", pc, "::", cm, "; }");
        } else {
            line7(&mut ml, 3, "else if ( value == \"", o, "\" ) { return ", pc, "::", cm, "; }");
        }
        proof {
            assert(ml@ =~= parse_branch_spec(enumer@.name.pascal, o@, cm@, i == 0));
        }
        let ghost pre = s@;
        s.append(ml.as_str());
        proof {
            assert(pre + ml@ =~= parse_branches_spec(
                enumer@.members,
                enumer@.name.pascal,
                i as int + 1,
            )) by {
                assert(parse_branches_spec(enumer@.members, enumer@.name.pascal, i as int + 1)
                    == parse_branches_spec(enumer@.members, enumer@.name.pascal, i as int)
                    + parse_branch_spec(
                    enumer@.name.pascal,
                    enumer@.members[i as int].original,
                    enumer@.members[i as int].camel,
                    i == 0,
                ));
            }
        }
        i = i + 1;
    }
    s
}

/// Emits the switch cases of all members.
#[verifier::loop_isolation(false)]
fn case_lines_string(enumer: &Enumeration) -> (r: String)
    ensures
        r@ == case_lines_spec(enumer@.members, enumer@.name.pascal, enumer@.members.len() as int),
{
    let pc = enumer.name.pascal();
    let mut s = String::new();
    let n = enumer.members.len();
    let mut i: usize = 0;
    proof {
        assert(Seq::<char>::empty() + case_lines_spec(enumer@.members, pc@, 0)
            =~= Seq::<char>::empty());
    }
    while i < n
        invariant
            0 <= i <= n,
            s@ == case_lines_spec(enumer@.members, enumer@.name.pascal, i as int),
        decreases n - i,
    {
        proof {
            assert(seq_view(enumer.members@)[i as int] == enumer.members@[i as int]@);
        }
        let o = enumer.members[i].original.as_str();
        let cm = enumer.members[i].camel.as_str();
        let mut ml = String::new();
        line7(&mut ml, 4, "case ", pc, "::", cm, ": { return \"", o, "\"; }");
        proof {
            assert(ml@ =~= case_line_spec(enumer@.name.pascal, cm@, o@));
        }
        let ghost pre = s@;
        s.append(ml.as_str());
        proof {
            assert(pre + ml@ =~= case_lines_spec(
                enumer@.members,
                enumer@.name.pascal,
                i as int + 1,
            ));
        }
        i = i + 1;
    }
    s
}

/// The definition text of a closed enumeration: the parse function scans
/// the members in declaration order and falls back to the first declared
/// member on no match — silently, by design; toString maps each member to
/// its original spelling; the stream functions are defined through
/// toString.
pub open spec fn enum_cpp_normal_spec(e: EnumerationV) -> Seq<char> {
    let pc = e.name.pascal;
    line1_spec(2, sep_spec(pc)) + line1_spec(0, ""@) + line4_spec(
        2,
        pc,
        " parse"@,
        pc,
        "( const std::string& value )"@,
    ) + line1_spec(2, "{"@) + parse_branches_spec(e.members, pc, e.members.len() as int)
        + line5_spec(3, "return "@, pc, "::"@, e.members[0].camel, ";"@) + line1_spec(2, "}"@)
        + line1_spec(0, ""@) + line3_spec(2, "std::string toString( const "@, pc, " value )"@)
        + line1_spec(2, "{"@) + line1_spec(3, "switch ( value )"@) + line1_spec(3, "{"@)
        + case_lines_spec(e.members, pc, e.members.len() as int) + line1_spec(
        4,
        "default: break;"@,
    ) + line1_spec(3, "}"@) + line3_spec(3, "return \""@, e.members[0].original, "\";"@)
        + line1_spec(2, "}"@) + line1_spec(0, ""@) + line3_spec(
        2,
        "std::ostream& toStream( std::ostream& os, const "@,
        pc,
        " value )"@,
    ) + line1_spec(2, "{"@) + line1_spec(3, "return os << toString( value );"@) + line1_spec(
        2,
        "}"@,
    ) + line1_spec(0, ""@) + line3_spec(
        2,
        "std::ostream& operator<<( std::ostream& os, const "@,
        pc,
        " value )"@,
    ) + line1_spec(2, "{"@) + line1_spec(3, "return toStream( os, value );"@) + line1_spec(2, "}"@)
}

/// Emits the definition text of a closed enumeration.
pub fn write_enum_cpp_normal_enum(enumer: &Enumeration) -> (r: String)
    requires
        enumer@.members.len() > 0,
    ensures
        r@ == enum_cpp_normal_spec(enumer@),
{
    let pc = enumer.name.pascal();
    let mut s = String::new();
    let sep = sep_string(pc);
    line1(&mut s, 2, sep.as_str());
    proof {
        seq_empty_left(line1_spec(2, sep@));
    }
    line1(&mut s, 0, "");
    line4(&mut s, 2, pc, " parse", pc, "( const std::string& value )");
    line1(&mut s, 2, "{");
    let branches = parse_branches_string(enumer);
    s.append(branches.as_str());
    proof {
        assert(seq_view(enumer.members@)[0] == enumer.members@[0]@);
    }
    let first_camel = enumer.members[0].camel.as_str();
    let first_orig = enumer.members[0].original.as_str();
    line5(&mut s, 3, "return ", pc, "::", first_camel, ";");
    line1(&mut s, 2, "}");
    line1(&mut s, 0, "");
    line3(&mut s, 2, "std::string toString( const ", pc, " value )");
    line1(&mut s, 2, "{");
    line1(&mut s, 3, "switch ( value )");
    line1(&mut s, 3, "{");
    let cases = case_lines_string(enumer);
    s.append(cases.as_str());
    line1(&mut s, 4, "default: break;");
    line1(&mut s, 3, "}");
    line3(&mut s, 3, "return \"", first_orig, "\";");
    line1(&mut s, 2, "}");
    line1(&mut s, 0, "");
    line3(&mut s, 2, "std::ostream& toStream( std::ostream& os, const ", pc, " value )");
    line1(&mut s, 2, "{");
    line1(&mut s, 3, "return os << toString( value );");
    line1(&mut s, 2, "}");
    line1(&mut s, 0, "");
    line3(&mut s, 2, "std::ostream& operator<<( std::ostream& os, const ", pc, " value )");
    line1(&mut s, 2, "{");
    line1(&mut s, 3, "return toStream( os, value );");
    line1(&mut s, 2, "}");
    s
}

/// Emits the wrapper class declaration of an open enumeration.
fn wrapper_h_string(en: &str, cn: &str) -> (r: String)
    ensures
        r@ == wrapper_h_spec(en@, cn@),
{
    let mut s = String::new();
    line1(&mut s, 0, "");
    proof {
        seq_empty_left(line1_spec(0, ""@));
    }
    line2(&mut s, 2, "class ", cn);
    line1(&mut s, 2, "{");
    line1(&mut s, 2, "public:");
    line5(&mut s, 3, "explicit ", cn, "( const ", en, " value );");
    line3(&mut s, 3, "explicit ", cn, "( const std::string& value );");
    line2(&mut s, 3, cn, "();");
    line2(&mut s, 3, en, " getValue() const;");
    line1(&mut s, 3, "std::string getValueString() const;");
    line3(&mut s, 3, "void setValue( const ", en, " value );");
    line1(&mut s, 3, "void setValue( const std::string& value );");
    line1(&mut s, 2, "private:");
    line2(&mut s, 3, en, " myEnum;");
    line1(&mut s, 3, "std::string myCustomValue;");
    line1(&mut s, 2, "};");
    line1(&mut s, 0, "");
    line4(&mut s, 2, cn, " parse", cn, "( const std::string& value );");
    line3(&mut s, 2, "std::string toString( const ", cn, "& value );");
    line3(&mut s, 2, "std::ostream& toStream( std::ostream& os, const ", cn, "& value );");
    line3(&mut s, 2, "std::ostream& operator<<( std::ostream& os, const ", cn, "& value );");
    s
}

/// The parse functions of an open enumeration: the flag-reporting parse
/// recognizes every declared member and the "other" spelling, reports
/// failure through the flag for anything else, and resolves it to the
/// "other" member; the plain parse discards the flag.
pub open spec fn other_parse_spec(e: EnumerationV, of: OtherFieldV) -> Seq<char> {
    let pc = e.name.pascal;
    line4_spec(2, pc, " parse"@, pc, "( const std::string& value, bool& success )"@) + line1_spec(
        2,
        "{"@,
    ) + line1_spec(3, "success = true;"@) + parse_branches_spec(
        e.members,
        pc,
        e.members.len() as int,
    ) + line7_spec(
        3,
        "else if ( value == \""@,
        of.name.original,
        "\" ) { return "@,
        pc,
        "::"@,
        of.name.camel,
        "; }"@,
    ) + line1_spec(3, "success = false;"@) + line5_spec(3, "return "@, pc, "::"@, of.name.camel, ";"@)
        + line1_spec(2, "}"@) + line1_spec(0, ""@) + line4_spec(
        2,
        pc,
        " parse"@,
        pc,
        "( const std::string& value )"@,
    ) + line1_spec(2, "{"@) + line1_spec(3, "bool success = true;"@) + line3_spec(
        3,
        "return parse"@,
        pc,
        "( value, success );"@,
    ) + line1_spec(2, "}"@)
}

fn other_parse_string(enumer: &Enumeration, of: &OtherField) -> (r: String)
    ensures
        r@ == other_parse_spec(enumer@, of@),
{
    let pc = enumer.name.pascal();
    let of_orig = of.name.original();
    let of_camel = of.name.camel();
    let mut s = String::new();
    line4(&mut s, 2, pc, " parse", pc, "( const std::string& value, bool& success )");
    proof {
        seq_empty_left(
            line4_spec(2, pc@, " parse"@, pc@, "( const std::string& value, bool& success )"@),
        );
    }
    line1(&mut s, 2, "{");
    line1(&mut s, 3, "success = true;");
    let branches = parse_branches_string(enumer);
    s.append(branches.as_str());
    line7(&mut s, 3, "else if ( value == \"", of_orig, "\" ) { return ", pc, "::", of_camel, "; }");
    line1(&mut s, 3, "success = false;");
    line5(&mut s, 3, "return ", pc, "::", of_camel, ";");
    line1(&mut s, 2, "}");
    line1(&mut s, 0, "");
    line4(&mut s, 2, pc, " parse", pc, "( const std::string& value )");
    line1(&mut s, 2, "{");
    line1(&mut s, 3, "bool success = true;");
    line3(&mut s, 3, "return parse", pc, "( value, success );");
    line1(&mut s, 2, "}");
    s
}

/// The serialization functions of an open enumeration: toString maps each
/// member — the "other" member included — to its original spelling; the
/// stream functions are defined through toString.
pub open spec fn other_tostring_spec(e: EnumerationV, of: OtherFieldV) -> Seq<char> {
    let pc = e.name.pascal;
    line1_spec(0, ""@) + line3_spec(2, "std::string toString( const "@, pc, " value )"@)
        + line1_spec(2, "{"@) + line1_spec(3, "switch ( value )"@) + line1_spec(3, "{"@)
        + case_lines_spec(e.members, pc, e.members.len() as int) + line7_spec(
        4,
        "case "@,
        pc,
        "::"@,
        of.name.camel,
        ": { return \""@,
        of.name.original,
        "\"; }"@,
    ) + line1_spec(4, "default: break;"@) + line1_spec(3, "}"@) + line1_spec(
        3,
        "return \"default\";"@,
    ) + line1_spec(2, "}"@) + line1_spec(0, ""@) + line3_spec(
        2,
        "std::ostream& toStream( std::ostream& os, const "@,
        pc,
        " value )"@,
    ) + line1_spec(2, "{"@) + line1_spec(3, "return os << toString( value );"@) + line1_spec(
        2,
        "}"@,
    ) + line1_spec(0, ""@) + line3_spec(
        2,
        "std::ostream& operator<<( std::ostream& os, const "@,
        pc,
        " value )"@,
    ) + line1_spec(2, "{"@) + line1_spec(3, "return toStream( os, value );"@) + line1_spec(2, "}"@)
}

fn other_tostring_string(enumer: &Enumeration, of: &OtherField) -> (r: String)
    ensures
        r@ == other_tostring_spec(enumer@, of@),
{
    let pc = enumer.name.pascal();
    let of_orig = of.name.original();
    let of_camel = of.name.camel();
    let mut s = String::new();
    line1(&mut s, 0, "");
    proof {
        seq_empty_left(line1_spec(0, ""@));
    }
    line3(&mut s, 2, "std::string toString( const ", pc, " value )");
    line1(&mut s, 2, "{");
    line1(&mut s, 3, "switch ( value )");
    line1(&mut s, 3, "{");
    let cases = case_lines_string(enumer);
    s.append(cases.as_str());
    line7(&mut s, 4, "case ", pc, "::", of_camel, ": { return \"", of_orig, "\"; }");
    line1(&mut s, 4, "default: break;");
    line1(&mut s, 3, "}");
    line1(&mut s, 3, "return \"default\";");
    line1(&mut s, 2, "}");
    line1(&mut s, 0, "");
    line3(&mut s, 2, "std::ostream& toStream( std::ostream& os, const ", pc, " value )");
    line1(&mut s, 2, "{");
    line1(&mut s, 3, "return os << toString( value );");
    line1(&mut s, 2, "}");
    line1(&mut s, 0, "");
    line3(&mut s, 2, "std::ostream& operator<<( std::ostream& os, const ", pc, " value )");
    line1(&mut s, 2, "{");
    line1(&mut s, 3, "return toStream( os, value );");
    line1(&mut s, 2, "}");
    s
}

/// The wrapper class bodies of an open enumeration: the constructors keep
/// the built-from literal verbatim; getValueString returns the canonical
/// spelling for a known member and the stored literal for "other";
/// setValue from text resolves through the flag-reporting parse.
pub open spec fn other_wrapper_impl_spec(e: EnumerationV, of: OtherFieldV) -> Seq<char> {
    let pc = e.name.pascal;
    let cn = of.wrapper_class_name.pascal;
    let oc = of.name.camel;
    let dv = of.default_value.camel;
    line1_spec(0, ""@) + line6_spec(2, cn, "::"@, cn, "( const "@, pc, " value )"@) + line1_spec(
        2,
        ":myEnum( value )"@,
    ) + line1_spec(2, ",myCustomValue( \"\" )"@) + line1_spec(2, "{"@) + line1_spec(
        3,
        "setValue( value );"@,
    ) + line1_spec(2, "}"@) + line1_spec(0, ""@) + line4_spec(
        2,
        cn,
        "::"@,
        cn,
        "( const std::string& value )"@,
    ) + line5_spec(2, ":myEnum( "@, pc, "::"@, oc, " )"@) + line1_spec(2, ",myCustomValue( value )"@)
        + line1_spec(2, "{"@) + line1_spec(3, "setValue( value );"@) + line1_spec(2, "}"@)
        + line1_spec(0, ""@) + line4_spec(2, cn, "::"@, cn, "()"@) + line5_spec(
        2,
        ":myEnum( "@,
        pc,
        "::"@,
        dv,
        " )"@,
    ) + line1_spec(2, ",myCustomValue( \"\" )"@) + line1_spec(2, "{"@) + line5_spec(
        3,
        "setValue( "@,
        pc,
        "::"@,
        dv,
        " );"@,
    ) + line1_spec(2, "}"@) + line1_spec(0, ""@) + line4_spec(2, pc, " "@, cn, "::getValue() const"@)
        + line1_spec(2, "{"@) + line1_spec(3, "return myEnum;"@) + line1_spec(2, "}"@) + line1_spec(
        0,
        ""@,
    ) + line3_spec(2, "std::string "@, cn, "::getValueString() const"@) + line1_spec(2, "{"@)
        + line5_spec(3, "if ( myEnum != "@, pc, "::"@, oc, " )"@) + line1_spec(3, "{"@)
        + line1_spec(4, "return toString( myEnum );"@) + line1_spec(3, "}"@) + line1_spec(0, ""@)
        + line1_spec(3, "else"@) + line1_spec(3, "{"@) + line1_spec(4, "return myCustomValue;"@)
        + line1_spec(3, "}"@) + line1_spec(2, "}"@) + line1_spec(0, ""@) + line5_spec(
        2,
        "void "@,
        cn,
        "::setValue( const "@,
        pc,
        " value )"@,
    ) + line1_spec(2, "{"@) + line1_spec(3, "myEnum = value;"@) + line1_spec(2, "}"@) + line1_spec(
        0,
        ""@,
    ) + line3_spec(2, "void "@, cn, "::setValue( const std::string& value )"@) + line1_spec(
        2,
        "{"@,
    ) + line1_spec(3, "bool found = false;"@) + line4_spec(
        3,
        pc,
        " temp = parse"@,
        pc,
        "( value, found );"@,
    ) + line1_spec(3, "if ( found )"@) + line1_spec(3, "{"@) + line1_spec(4, "myEnum = temp;"@)
        + line1_spec(3, "}"@) + line1_spec(3, "else"@) + line1_spec(3, "{"@) + line5_spec(
        4,
        "setValue( "@,
        pc,
        "::"@,
        oc,
        " );"@,
    ) + line1_spec(4, "myCustomValue = value;"@) + line1_spec(3, "}"@) + line1_spec(2, "}"@)
}

fn other_wrapper_impl_string(enumer: &Enumeration, of: &OtherField) -> (r: String)
    ensures
        r@ == other_wrapper_impl_spec(enumer@, of@),
{
    let pc = enumer.name.pascal();
    let cn = of.wrapper_class_name.pascal();
    let oc = of.name.camel();
    let dv = of.default_value.camel();
    let mut s = String::new();
    line1(&mut s, 0, "");
    proof {
        seq_empty_left(line1_spec(0, ""@));
    }
    line6(&mut s, 2, cn, "::", cn, "( const ", pc, " value )");
    line1(&mut s, 2, ":myEnum( value )");
    line1(&mut s, 2, ",myCustomValue( \"\" )");
    line1(&mut s, 2, "{");
    line1(&mut s, 3, "setValue( value );");
    line1(&mut s, 2, "}");
    line1(&mut s, 0, "");
    line4(&mut s, 2, cn, "::", cn, "( const std::string& value )");
    line5(&mut s, 2, ":myEnum( ", pc, "::", oc, " )");
    line1(&mut s, 2, ",myCustomValue( value )");
    line1(&mut s, 2, "{");
    line1(&mut s, 3, "setValue( value );");
    line1(&mut s, 2, "}");
    line1(&mut s, 0, "");
    line4(&mut s, 2, cn, "::", cn, "()");
    line5(&mut s, 2, ":myEnum( ", pc, "::", dv, " )");
    line1(&mut s, 2, ",myCustomValue( \"\" )");
    line1(&mut s, 2, "{");
    line5(&mut s, 3, "setValue( ", pc, "::", dv, " );");
    line1(&mut s, 2, "}");
    line1(&mut s, 0, "");
    line4(&mut s, 2, pc, " ", cn, "::getValue() const");
    line1(&mut s, 2, "{");
    line1(&mut s, 3, "return myEnum;");
    line1(&mut s, 2, "}");
    line1(&mut s, 0, "");
    line3(&mut s, 2, "std::string ", cn, "::getValueString() const");
    line1(&mut s, 2, "{");
    line5(&mut s, 3, "if ( myEnum != ", pc, "::", oc, " )");
    line1(&mut s, 3, "{");
    line1(&mut s, 4, "return toString( myEnum );");
    line1(&mut s, 3, "}");
    line1(&mut s, 0, "");
    line1(&mut s, 3, "else");
    line1(&mut s, 3, "{");
    line1(&mut s, 4, "return myCustomValue;");
    line1(&mut s, 3, "}");
    line1(&mut s, 2, "}");
    line1(&mut s, 0, "");
    line5(&mut s, 2, "void ", cn, "::setValue( const ", pc, " value )");
    line1(&mut s, 2, "{");
    line1(&mut s, 3, "myEnum = value;");
    line1(&mut s, 2, "}");
    line1(&mut s, 0, "");
    line3(&mut s, 2, "void ", cn, "::setValue( const std::string& value )");
    line1(&mut s, 2, "{");
    line1(&mut s, 3, "bool found = false;");
    line4(&mut s, 3, pc, " temp = parse", pc, "( value, found );");
    line1(&mut s, 3, "if ( found )");
    line1(&mut s, 3, "{");
    line1(&mut s, 4, "myEnum = temp;");
    line1(&mut s, 3, "}");
    line1(&mut s, 3, "else");
    line1(&mut s, 3, "{");
    line5(&mut s, 4, "setValue( ", pc, "::", oc, " );");
    line1(&mut s, 4, "myCustomValue = value;");
    line1(&mut s, 3, "}");
    line1(&mut s, 2, "}");
    s
}

/// The free companion functions of the wrapper class: parse builds a
/// wrapper from text, and toString and the stream functions go through
/// getValueString.
pub open spec fn other_free_fns_spec(of: OtherFieldV) -> Seq<char> {
    let cn = of.wrapper_class_name.pascal;
    line1_spec(0, ""@) + line4_spec(2, cn, " parse"@, cn, "( const std::string& value )"@)
        + line1_spec(2, "{"@) + line3_spec(3, "return "@, cn, "( value );"@) + line1_spec(2, "}"@)
        + line1_spec(2, ""@) + line3_spec(2, "std::string toString( const "@, cn, "& value )"@)
        + line1_spec(2, "{"@) + line1_spec(3, "return value.getValueString();"@) + line1_spec(
        2,
        "}"@,
    ) + line1_spec(2, ""@) + line3_spec(
        2,
        "std::ostream& toStream( std::ostream& os, const "@,
        cn,
        "& value )"@,
    ) + line1_spec(2, "{"@) + line1_spec(3, "return os << toString( value );"@) + line1_spec(
        2,
        "}"@,
    ) + line1_spec(2, ""@) + line3_spec(
        2,
        "std::ostream& operator<<( std::ostream& os, const "@,
        cn,
        "& value )"@,
    ) + line1_spec(2, "{"@) + line1_spec(3, "return toStream( os, value );"@) + line1_spec(2, "}"@)
}

fn other_free_fns_string(of: &OtherField) -> (r: String)
    ensures
        r@ == other_free_fns_spec(of@),
{
    let cn = of.wrapper_class_name.pascal();
    let mut s = String::new();
    line1(&mut s, 0, "");
    proof {
        seq_empty_left(line1_spec(0, ""@));
    }
    line4(&mut s, 2, cn, " parse", cn, "( const std::string& value )");
    line1(&mut s, 2, "{");
    line3(&mut s, 3, "return ", cn, "( value );");
    line1(&mut s, 2, "}");
    line1(&mut s, 2, "");
    line3(&mut s, 2, "std::string toString( const ", cn, "& value )");
    line1(&mut s, 2, "{");
    line1(&mut s, 3, "return value.getValueString();");
    line1(&mut s, 2, "}");
    line1(&mut s, 2, "");
    line3(&mut s, 2, "std::ostream& toStream( std::ostream& os, const ", cn, "& value )");
    line1(&mut s, 2, "{");
    line1(&mut s, 3, "return os << toString( value );");
    line1(&mut s, 2, "}");
    line1(&mut s, 2, "");
    line3(&mut s, 2, "std::ostream& operator<<( std::ostream& os, const ", cn, "& value )");
    line1(&mut s, 2, "{");
    line1(&mut s, 3, "return toStream( os, value );");
    line1(&mut s, 2, "}");
    s
}

/// The definition text of an open enumeration: the parse and serialize
/// functions, then the wrapper class implementation and its companions.
pub open spec fn enum_cpp_other_spec(e: EnumerationV, of: OtherFieldV) -> Seq<char> {
    line1_spec(2, sep_spec(e.name.pascal)) + line1_spec(0, ""@) + other_parse_spec(e, of)
        + other_tostring_spec(e, of) + other_wrapper_impl_spec(e, of) + other_free_fns_spec(of)
}

/// Emits the definition text of an open enumeration.
pub fn write_enum_cpp_other_enum(enumer: &Enumeration, other_field: &OtherField) -> (r: String)
    ensures
        r@ == enum_cpp_other_spec(enumer@, other_field@),
{
    let mut s = String::new();
    let sep = sep_string(enumer.name.pascal());
    line1(&mut s, 2, sep.as_str());
    proof {
        seq_empty_left(line1_spec(2, sep@));
    }
    line1(&mut s, 0, "");
    let a = other_parse_string(enumer, other_field);
    s.append(a.as_str());
    let b = other_tostring_string(enumer, other_field);
    s.append(b.as_str());
    let c = other_wrapper_impl_string(enumer, other_field);
    s.append(c.as_str());
    let d = other_free_fns_string(other_field);
    s.append(d.as_str());
    s
}

/// The definition text of one enumeration: the open shape when it has an
/// "other" escape member, the closed shape otherwise.
pub open spec fn enum_cpp_spec(e: EnumerationV) -> Seq<char> {
    match e.other_field {
        Some(of) => enum_cpp_other_spec(e, of),
        None => enum_cpp_normal_spec(e),
    }
}

/// Emits the definition text of one enumeration.
pub fn write_enum_cpp(enumer: &Enumeration) -> (r: String)
    requires
        enumer@.other_field is None ==> enumer@.members.len() > 0,
    ensures
        r@ == enum_cpp_spec(enumer@),
{
    match &enumer.other_field {
        Some(of) => write_enum_cpp_other_enum(enumer, of),
        None => write_enum_cpp_normal_enum(enumer),
    }
}

/// An enumeration the emitter can handle: a closed enumeration must have
/// at least one member, since its emitted parse falls back to the first
/// declared member.
pub open spec fn all_enums_emittable(es: Seq<Enumeration>) -> bool {
    forall|k: int|
        0 <= k < es.len() ==> ((#[trigger] es[k])@.other_field is None ==> es[k]@.members.len()
            > 0)
}

/// One sorted entry of the declaration file: the enumeration's text, with
/// a separating blank line after every entry but the last.
pub open spec fn enum_h_entry(es: Seq<Enumeration>, k: int) -> Seq<char> {
    if k < es.len() - 1 {
        enum_h_spec(es[k]@) + "\n"@
    } else {
        enum_h_spec(es[k]@)
    }
}

/// The first `i` sorted entries of the declaration file.
pub open spec fn enums_h_entries(es: Seq<Enumeration>, i: int) -> Seq<char>
    decreases i,
{
    if i <= 0 {
        Seq::empty()
    } else {
        enums_h_entries(es, i - 1) + enum_h_entry(es, i - 1)
    }
}

/// One sorted entry of the definition file.
pub open spec fn enum_cpp_entry(es: Seq<Enumeration>, k: int) -> Seq<char> {
    if k < es.len() - 1 {
        enum_cpp_spec(es[k]@) + "\n"@
    } else {
        enum_cpp_spec(es[k]@)
    }
}

/// The first `i` sorted entries of the definition file.
pub open spec fn enums_cpp_entries(es: Seq<Enumeration>, i: int) -> Seq<char>
    decreases i,
{
    if i <= 0 {
        Seq::empty()
    } else {
        enums_cpp_entries(es, i - 1) + enum_cpp_entry(es, i - 1)
    }
}

/// The whole declaration file: opening boilerplate, the enumerations in
/// alphabetical order of their `Pascal` names, and the closing
/// boilerplate.
pub open spec fn enums_h_text(es: Seq<Enumeration>) -> Seq<char> {
    open_enums_h_spec() + enums_h_entries(sort_by_key(es), sort_by_key(es).len() as int)
        + close_enums_spec()
}

/// The whole definition file, ordered like the declaration file.
pub open spec fn enums_cpp_text(es: Seq<Enumeration>) -> Seq<char> {
    open_enums_cpp_spec() + enums_cpp_entries(sort_by_key(es), sort_by_key(es).len() as int)
        + close_enums_spec()
}

/// Runs the whole enumeration-emission pass: sorts the enumerations by
/// their `Pascal` names and emits the paired declaration and definition
/// text. The output is pinned to the input model exactly, so the pass is
/// deterministic.
#[verifier::loop_isolation(false)]
#[verifier::rlimit(100)]
pub fn write_enums(enumerations: Vec<Enumeration>) -> (r: (String, String))
    requires
        all_enums_emittable(enumerations@),
    ensures
        r.0@ == enums_h_text(enumerations@),
        r.1@ == enums_cpp_text(enumerations@),
{
    let ghost orig = enumerations@;
    let sorted = sort_vec(enumerations);
    proof {
        crate::sort::lemma_sort_contains(orig, crate::sort::trait_key::<Enumeration>());
    }
    let mut h = open_enums_h();
    let mut cpp = open_enums_cpp();
    let n = sorted.len();
    let mut i: usize = 0;
    proof {
        crate::emit::seq_empty_right(open_enums_h_spec());
        crate::emit::seq_empty_right(open_enums_cpp_spec());
    }
    while i < n
        invariant
            0 <= i <= n,
            h@ == open_enums_h_spec() + enums_h_entries(sorted@, i as int),
            cpp@ == open_enums_cpp_spec() + enums_cpp_entries(sorted@, i as int),
        decreases n - i,
    {
        proof {
            assert(sorted@.contains(sorted@[i as int]));
            let j = choose|j: int| 0 <= j < orig.len() && orig[j] == sorted@[i as int];
            assert(orig[j]@.other_field is None ==> orig[j]@.members.len() > 0);
        }
        let e = &sorted[i];
        let mut eh = write_enum_h(e);
        let mut ec = write_enum_cpp(e);
        if i < n - 1 {
            eh.append("\n");
            ec.append("\n");
        }
        proof {
            assert(eh@ == enum_h_entry(sorted@, i as int));
            assert(ec@ == enum_cpp_entry(sorted@, i as int));
        }
        h.append(eh.as_str());
        cpp.append(ec.as_str());
        proof {
            crate::emit::seq_assoc(open_enums_h_spec(), enums_h_entries(sorted@, i as int), eh@);
            crate::emit::seq_assoc(
                open_enums_cpp_spec(),
                enums_cpp_entries(sorted@, i as int),
                ec@,
            );
        }
        i = i + 1;
    }
    let hc = close_enums_h();
    h.append(hc.as_str());
    let cc = close_enums_cpp();
    cpp.append(cc.as_str());
    (h, cpp)
}

/// Determinism of the enumeration-emission pass: over an unchanged model,
/// any two runs produce byte-identical declaration and definition text,
/// because each file's text is a function of the model alone.
pub proof fn lemma_enum_emission_deterministic(
    es: Seq<Enumeration>,
    h1: Seq<char>,
    c1: Seq<char>,
    h2: Seq<char>,
    c2: Seq<char>,
)
    requires
        h1 == enums_h_text(es),
        c1 == enums_cpp_text(es),
        h2 == enums_h_text(es),
        c2 == enums_cpp_text(es),
    ensures
        h1 == h2,
        c1 == c2,
{
}

} // verus!
