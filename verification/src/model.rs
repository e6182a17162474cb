//! The enumeration model fed to the code emitter, and the behaviour that
//! the emitted types implement: parsing a schema literal to a member,
//! serializing a member back to its literal, and — for open enumerations —
//! a wrapper value that preserves arbitrary unrecognized literals verbatim.

use vstd::prelude::*;

verus! {

use crate::text::str_eq;
use crate::views::{opt_view, seq_view};

/// A name together with its case projections: the original schema-literal
/// spelling, the `Pascal` code identifier, and the `camel` code identifier.
/// The projections come from the case-conversion collaborator; identical
/// raw names always carry identical projections.
#[derive(Debug, Clone)]
pub struct Symbol {
    pub original: String,
    pub pascal: String,
    pub camel: String,
}

/// The mathematical shape of a [`Symbol`].
pub struct SymbolV {
    pub original: Seq<char>,
    pub pascal: Seq<char>,
    pub camel: Seq<char>,
}

impl View for Symbol {
    type V = SymbolV;

    open spec fn view(&self) -> SymbolV {
        SymbolV { original: self.original@, pascal: self.pascal@, camel: self.camel@ }
    }
}

impl Symbol {
    /// Builds a symbol from its three projections.
    pub fn from_parts(original: &str, pascal: &str, camel: &str) -> (r: Symbol)
        ensures
            r@.original == original@ && r@.pascal == pascal@ && r@.camel == camel@,
    {
        Symbol {
            original: original.to_owned(),
            pascal: pascal.to_owned(),
            camel: camel.to_owned(),
        }
    }

    /// The original schema-literal spelling.
    pub fn original(&self) -> (r: &str)
        ensures
            r@ == self@.original,
    {
        self.original.as_str()
    }

    /// The `Pascal` code identifier.
    pub fn pascal(&self) -> (r: &str)
        ensures
            r@ == self@.pascal,
    {
        self.pascal.as_str()
    }

    /// The `camel` code identifier.
    pub fn camel(&self) -> (r: &str)
        ensures
            r@ == self@.camel,
    {
        self.camel.as_str()
    }
}

/// The "other" escape member of an open enumeration: its member name, the
/// name of the emitted wrapper class, and the default member of a
/// default-constructed wrapper.
#[derive(Debug, Clone)]
pub struct OtherField {
    pub name: Symbol,
    pub wrapper_class_name: Symbol,
    pub default_value: Symbol,
}

/// The mathematical shape of an [`OtherField`].
pub struct OtherFieldV {
    pub name: SymbolV,
    pub wrapper_class_name: SymbolV,
    pub default_value: SymbolV,
}

impl View for OtherField {
    type V = OtherFieldV;

    open spec fn view(&self) -> OtherFieldV {
        OtherFieldV {
            name: self.name@,
            wrapper_class_name: self.wrapper_class_name@,
            default_value: self.default_value@,
        }
    }
}

/// An enumeration: its name, its documentation, its members in declaration
/// order, and — when it is open — the "other" escape member.
#[derive(Debug, Clone)]
pub struct Enumeration {
    pub name: Symbol,
    pub documentation: String,
    pub members: Vec<Symbol>,
    pub other_field: Option<OtherField>,
}

/// The mathematical shape of an [`Enumeration`].
pub struct EnumerationV {
    pub name: SymbolV,
    pub documentation: Seq<char>,
    pub members: Seq<SymbolV>,
    pub other_field: Option<OtherFieldV>,
}

impl View for Enumeration {
    type V = EnumerationV;

    open spec fn view(&self) -> EnumerationV {
        EnumerationV {
            name: self.name@,
            documentation: self.documentation@,
            members: seq_view(self.members@),
            other_field: opt_view(self.other_field),
        }
    }
}

/// The index of the first member at or after `i` whose original spelling is
/// `text`, or the member count when none matches.
pub open spec fn member_index_of(members: Seq<SymbolV>, text: Seq<char>, i: int) -> int
    decreases members.len() - i,
{
    if i < 0 || i >= members.len() {
        members.len() as int
    } else if members[i].original == text {
        i
    } else {
        member_index_of(members, text, i + 1)
    }
}

/// What parsing a literal against a closed enumeration yields: the first
/// member whose original spelling matches exactly, and otherwise the first
/// declared member — a defined, deterministic fallback, not a failure.
pub open spec fn closed_parse_spec(e: EnumerationV, text: Seq<char>) -> int {
    let i = member_index_of(e.members, text, 0);
    if i < e.members.len() {
        i
    } else {
        0
    }
}

/// What parsing a literal against an open enumeration yields: the matching
/// member index with success, or the "other" member index — the member
/// count — with success exactly when the literal is the "other" member's
/// own spelling.
pub open spec fn open_parse_spec(e: EnumerationV, text: Seq<char>) -> (int, bool)
    recommends
        e.other_field is Some,
{
    let i = member_index_of(e.members, text, 0);
    if i < e.members.len() {
        (i, true)
    } else if text == e.other_field->Some_0.name.original {
        (e.members.len() as int, true)
    } else {
        (e.members.len() as int, false)
    }
}

/// A value of an open enumeration: the resolved member index — the member
/// count stands for the "other" member — and the literal the value was
/// built from, kept verbatim.
#[derive(Debug, Clone)]
pub struct EnumerationValue {
    pub member: usize,
    pub literal: String,
}

/// The mathematical shape of an [`EnumerationValue`].
pub struct EnumerationValueV {
    pub member: int,
    pub literal: Seq<char>,
}

impl View for EnumerationValue {
    type V = EnumerationValueV;

    open spec fn view(&self) -> EnumerationValueV {
        EnumerationValueV { member: self.member as int, literal: self.literal@ }
    }
}

/// What building a wrapper value from a literal yields: the parsed member
/// and the literal itself, kept verbatim.
pub open spec fn parse_wrapper_spec(e: EnumerationV, text: Seq<char>) -> EnumerationValueV
    recommends
        e.other_field is Some,
{
    EnumerationValueV { member: open_parse_spec(e, text).0, literal: text }
}

/// What serializing a wrapper value yields: the canonical spelling of the
/// resolved member, or the stored literal when the member is "other".
pub open spec fn wrapper_string_spec(e: EnumerationV, w: EnumerationValueV) -> Seq<char>
    recommends
        e.other_field is Some,
{
    if w.member < e.members.len() {
        e.members[w.member].original
    } else {
        w.literal
    }
}

proof fn lemma_member_index_of_found(members: Seq<SymbolV>, text: Seq<char>, i: int)
    requires
        0 <= i <= members.len(),
    ensures
        ({
            let r = member_index_of(members, text, i);
            &&& i <= r <= members.len()
            &&& (r < members.len() ==> members[r].original == text)
            &&& forall|j: int| i <= j < r ==> members[j].original != text
        }),
    decreases members.len() - i,
{
    if i < members.len() && members[i].original != text {
        lemma_member_index_of_found(members, text, i + 1);
    }
}

/// Round trip of a closed enumeration: parsing the serialized spelling of
/// any declared member yields that member again, provided the members'
/// original spellings are pairwise distinct — with a duplicated spelling
/// the scan stops at the earlier member.
pub proof fn lemma_closed_round_trip(e: EnumerationV, m: int)
    requires
        0 <= m < e.members.len(),
        forall|i: int, j: int|
            0 <= i < j < e.members.len() ==> e.members[i].original != e.members[j].original,
    ensures
        closed_parse_spec(e, e.members[m].original) == m,
{
    let text = e.members[m].original;
    lemma_member_index_of_found(e.members, text, 0);
    let r = member_index_of(e.members, text, 0);
    assert(r <= m);
    if r < m {
        assert(e.members[r].original == e.members[m].original);
        assert(false);
    }
}

/// Round trip of an open enumeration wrapper: serializing the wrapper built
/// from any literal yields that literal back verbatim, so re-parsing it
/// rebuilds an identical wrapper — the same resolved member and the same
/// stored literal, for unrecognized literals too.
pub proof fn lemma_open_round_trip(e: EnumerationV, s: Seq<char>)
    requires
        e.other_field is Some,
    ensures
        wrapper_string_spec(e, parse_wrapper_spec(e, s)) == s,
        parse_wrapper_spec(e, wrapper_string_spec(e, parse_wrapper_spec(e, s)))
            == parse_wrapper_spec(e, s),
{
    lemma_member_index_of_found(e.members, s, 0);
}

impl Enumeration {
    /// Parses a literal against a closed enumeration: the first matching
    /// member, or the first declared member as the silent fallback.
    pub fn parse_member(&self, text: &str) -> (r: usize)
        requires
            self@.members.len() > 0,
        ensures
            r == closed_parse_spec(self@, text@),
            r < self@.members.len(),
    {
        proof {
            lemma_member_index_of_found(self@.members, text@, 0);
        }
        let n = self.members.len();
        let mut i: usize = 0;
        while i < n
            invariant
                0 <= i <= n,
                n == self.members.len(),
                member_index_of(self@.members, text@, 0) == member_index_of(
                    self@.members,
                    text@,
                    i as int,
                ),
            decreases n - i,
        {
            if str_eq(self.members[i].original.as_str(), text) {
                proof {
                    assert(seq_view(self.members@)[i as int] == self.members@[i as int]@);
                }
                return i;
            }
            proof {
                assert(seq_view(self.members@)[i as int] == self.members@[i as int]@);
            }
            i = i + 1;
        }
        0
    }

    /// The canonical spelling of a member of this enumeration.
    pub fn member_string(&self, m: usize) -> (r: String)
        requires
            m < self@.members.len(),
        ensures
            r@ == self@.members[m as int].original,
    {
        proof {
            assert(seq_view(self.members@)[m as int] == self.members@[m as int]@);
        }
        self.members[m].original.clone()
    }

    /// Parses a literal against an open enumeration, reporting whether the
    /// literal was recognized; an unrecognized literal resolves to the
    /// "other" member with a `false` flag.
    pub fn parse_member_flag(&self, text: &str) -> (r: (usize, bool))
        requires
            self@.other_field is Some,
        ensures
            r.0 as int == open_parse_spec(self@, text@).0,
            r.1 == open_parse_spec(self@, text@).1,
            r.0 <= self@.members.len(),
    {
        proof {
            lemma_member_index_of_found(self@.members, text@, 0);
        }
        let n = self.members.len();
        let mut i: usize = 0;
        while i < n
            invariant
                0 <= i <= n,
                n == self.members.len(),
                member_index_of(self@.members, text@, 0) == member_index_of(
                    self@.members,
                    text@,
                    i as int,
                ),
            decreases n - i,
        {
            if str_eq(self.members[i].original.as_str(), text) {
                proof {
                    assert(seq_view(self.members@)[i as int] == self.members@[i as int]@);
                }
                return (i, true);
            }
            proof {
                assert(seq_view(self.members@)[i as int] == self.members@[i as int]@);
            }
            i = i + 1;
        }
        let other_name: &str = match &self.other_field {
            Some(of) => of.name.original.as_str(),
            None => "",
        };
        if str_eq(text, other_name) {
            (n, true)
        } else {
            (n, false)
        }
    }

    /// Builds a wrapper value from a literal: the resolved member plus the
    /// literal kept verbatim.
    pub fn parse_wrapper(&self, text: &str) -> (r: EnumerationValue)
        requires
            self@.other_field is Some,
        ensures
            r@ == parse_wrapper_spec(self@, text@),
    {
        let (m, _) = self.parse_member_flag(text);
        EnumerationValue { member: m, literal: text.to_owned() }
    }

    /// Serializes a wrapper value: the canonical member spelling, or the
    /// stored literal when the member is "other".
    pub fn wrapper_string(&self, w: &EnumerationValue) -> (r: String)
        requires
            self@.other_field is Some,
        ensures
            r@ == wrapper_string_spec(self@, w@),
    {
        if w.member < self.members.len() {
            self.member_string(w.member)
        } else {
            w.literal.clone()
        }
    }
}

} // verus!
