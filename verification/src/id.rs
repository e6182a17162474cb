//! Identity of schema constructs: a typed tag plus a name. Two entries are
//! the same construct exactly when their identities are equal; lookup and
//! removal in the schema container are identity-keyed.

use vstd::prelude::*;

verus! {

use vstd::string::StringExecFns;

/// The kind of a top-level schema construct. `Other` carries the raw tag of
/// a construct outside the closed set, so that inner members (attributes,
/// sequences) can still be identified for diagnostics.
#[derive(Debug, Clone)]
pub enum EntryType {
    AttributeGroup,
    ComplexType,
    Element,
    Group,
    Import,
    SimpleType,
    Other(String),
}

/// The mathematical shape of an [`EntryType`].
pub enum EntryTypeV {
    AttributeGroup,
    ComplexType,
    Element,
    Group,
    Import,
    SimpleType,
    Other(Seq<char>),
}

impl View for EntryType {
    type V = EntryTypeV;

    open spec fn view(&self) -> EntryTypeV {
        match self {
            EntryType::AttributeGroup => EntryTypeV::AttributeGroup,
            EntryType::ComplexType => EntryTypeV::ComplexType,
            EntryType::Element => EntryTypeV::Element,
            EntryType::Group => EntryTypeV::Group,
            EntryType::Import => EntryTypeV::Import,
            EntryType::SimpleType => EntryTypeV::SimpleType,
            EntryType::Other(s) => EntryTypeV::Other(s@),
        }
    }
}

impl PartialEq for EntryType {
    fn eq(&self, other: &EntryType) -> (r: bool) {
        match (self, other) {
            (EntryType::AttributeGroup, EntryType::AttributeGroup) => true,
            (EntryType::ComplexType, EntryType::ComplexType) => true,
            (EntryType::Element, EntryType::Element) => true,
            (EntryType::Group, EntryType::Group) => true,
            (EntryType::Import, EntryType::Import) => true,
            (EntryType::SimpleType, EntryType::SimpleType) => true,
            (EntryType::Other(a), EntryType::Other(b)) => crate::text::str_eq(
                a.as_str(),
                b.as_str(),
            ),
            _ => false,
        }
    }
}

impl vstd::std_specs::cmp::PartialEqSpecImpl for EntryType {
    open spec fn obeys_eq_spec() -> bool {
        true
    }

    open spec fn eq_spec(&self, other: &EntryType) -> bool {
        self@ == other@
    }
}

/// The identity of a schema construct: its kind and its name.
#[derive(Debug, Clone)]
pub struct Id {
    pub entry_type: EntryType,
    pub name: String,
}

/// The mathematical shape of an [`Id`].
pub struct IdV {
    pub entry_type: EntryTypeV,
    pub name: Seq<char>,
}

impl View for Id {
    type V = IdV;

    open spec fn view(&self) -> IdV {
        IdV { entry_type: self.entry_type@, name: self.name@ }
    }
}

impl PartialEq for Id {
    fn eq(&self, other: &Id) -> (r: bool) {
        self.entry_type == other.entry_type && self.name == other.name
    }
}

impl vstd::std_specs::cmp::PartialEqSpecImpl for Id {
    open spec fn obeys_eq_spec() -> bool {
        true
    }

    open spec fn eq_spec(&self, other: &Id) -> bool {
        self@ == other@
    }
}

/// The tag text under which each construct kind is displayed.
pub open spec fn entry_type_tag(t: EntryTypeV) -> Seq<char> {
    match t {
        EntryTypeV::AttributeGroup => "attributeGroup"@,
        EntryTypeV::ComplexType => "complexType"@,
        EntryTypeV::Element => "element"@,
        EntryTypeV::Group => "group"@,
        EntryTypeV::Import => "import"@,
        EntryTypeV::SimpleType => "simpleType"@,
        EntryTypeV::Other(s) => s,
    }
}

/// The display text of an identity: `name (tag)` for the closed construct
/// kinds, and `tag:name` for `Other` kinds.
pub open spec fn id_display_spec(id: IdV) -> Seq<char> {
    match id.entry_type {
        EntryTypeV::Other(s) => s + ":"@ + id.name,
        _ => id.name + " ("@ + entry_type_tag(id.entry_type) + ")"@,
    }
}

impl Id {
    /// The display text of this identity, for diagnostics.
    pub fn display_string(&self) -> (r: String)
        ensures
            r@ == id_display_spec(self@),
    {
        match &self.entry_type {
            EntryType::Other(s) => {
                let mut out = s.clone();
                out.append(":");
                out.append(self.name.as_str());
                out
            },
            _ => {
                let mut out = self.name.clone();
                out.append(" (");
                let tag: &str = match &self.entry_type {
                    EntryType::AttributeGroup => "attributeGroup",
                    EntryType::ComplexType => "complexType",
                    EntryType::Element => "element",
                    EntryType::Group => "group",
                    EntryType::Import => "import",
                    EntryType::SimpleType => "simpleType",
                    EntryType::Other(_) => "",
                };
                out.append(tag);
                out.append(")");
                out
            },
        }
    }
}

} // verus!
