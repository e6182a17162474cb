//! The `attributeGroup` construct: an identified set of attribute members.
//! A child `attribute` node that carries a `ref` attribute is parsed as an
//! attribute reference; one that declares `name` and `type` is parsed as a
//! type-declaring attribute. A child `attributeGroup` node is kept as a
//! lightweight reference by identity, resolved by a later linking phase.

use vstd::prelude::*;

verus! {

use crate::annotation::{
    annotation_from_xml_spec,
    doc_text,
    Annotation,
    AnnotationV,
};
use crate::error::{Error, ErrorV};
use crate::id::{EntryType, EntryTypeV, Id, IdV};
use crate::text::str_eq;
use crate::views::{opt_view, seq_view};
use crate::xml::{lemma_children_view, lookup_attr, XmlNode, XmlNodeV};
use crate::xsd::{
    default_attribute,
    fixed_attribute,
    is_ref,
    name_attribute,
    ref_attribute,
    type_attribute,
    use_required,
};

/// A type-declaring attribute member: `name` plus `type`.
#[derive(Debug, Clone)]
pub struct AttributeType {
    pub id: Id,
    pub index: u64,
    pub name: String,
    pub type_: String,
    pub required: bool,
}

/// The mathematical shape of an [`AttributeType`].
pub struct AttributeTypeV {
    pub id: IdV,
    pub index: u64,
    pub name: Seq<char>,
    pub type_: Seq<char>,
    pub required: bool,
}

impl View for AttributeType {
    type V = AttributeTypeV;

    open spec fn view(&self) -> AttributeTypeV {
        AttributeTypeV {
            id: self.id@,
            index: self.index,
            name: self.name@,
            type_: self.type_@,
            required: self.required,
        }
    }
}

/// An attribute member that refers to an attribute declared elsewhere.
#[derive(Debug, Clone)]
pub struct AttributeRef {
    pub id: Id,
    pub index: u64,
    pub ref_: String,
    pub required: bool,
    pub default: Option<String>,
    pub fixed: Option<String>,
}

/// The mathematical shape of an [`AttributeRef`].
pub struct AttributeRefV {
    pub id: IdV,
    pub index: u64,
    pub ref_: Seq<char>,
    pub required: bool,
    pub default: Option<Seq<char>>,
    pub fixed: Option<Seq<char>>,
}

impl View for AttributeRef {
    type V = AttributeRefV;

    open spec fn view(&self) -> AttributeRefV {
        AttributeRefV {
            id: self.id@,
            index: self.index,
            ref_: self.ref_@,
            required: self.required,
            default: opt_view(self.default),
            fixed: opt_view(self.fixed),
        }
    }
}

/// A member that refers to another attribute group by identity.
#[derive(Debug, Clone)]
pub struct AttributeGroupRef {
    pub id: Id,
    pub index: u64,
    pub ref_: String,
}

/// The mathematical shape of an [`AttributeGroupRef`].
pub struct AttributeGroupRefV {
    pub id: IdV,
    pub index: u64,
    pub ref_: Seq<char>,
}

impl View for AttributeGroupRef {
    type V = AttributeGroupRefV;

    open spec fn view(&self) -> AttributeGroupRefV {
        AttributeGroupRefV { id: self.id@, index: self.index, ref_: self.ref_@ }
    }
}

/// A member of an attribute group.
#[derive(Debug, Clone)]
pub enum Member {
    AttributeType(AttributeType),
    AttributeRef(AttributeRef),
    AttributeGroupRef(AttributeGroupRef),
}

/// The mathematical shape of a [`Member`].
pub enum MemberV {
    AttributeType(AttributeTypeV),
    AttributeRef(AttributeRefV),
    AttributeGroupRef(AttributeGroupRefV),
}

impl View for Member {
    type V = MemberV;

    open spec fn view(&self) -> MemberV {
        match self {
            Member::AttributeType(a) => MemberV::AttributeType(a@),
            Member::AttributeRef(a) => MemberV::AttributeRef(a@),
            Member::AttributeGroupRef(a) => MemberV::AttributeGroupRef(a@),
        }
    }
}

/// An attribute group: its identity, lineage, documentation and members in
/// document order.
#[derive(Debug, Clone)]
pub struct AttributeGroup {
    pub id: Id,
    pub index: u64,
    pub annotation: Option<Annotation>,
    pub members: Vec<Member>,
}

/// The mathematical shape of an [`AttributeGroup`].
pub struct AttributeGroupV {
    pub id: IdV,
    pub index: u64,
    pub annotation: Option<AnnotationV>,
    pub members: Seq<MemberV>,
}

impl View for AttributeGroup {
    type V = AttributeGroupV;

    open spec fn view(&self) -> AttributeGroupV {
        AttributeGroupV {
            id: self.id@,
            index: self.index,
            annotation: opt_view(self.annotation),
            members: seq_view(self.members@),
        }
    }
}

/// What parsing a child `attribute` node yields: with a `ref` attribute, a
/// reference member carrying `use`, `default` and `fixed`; otherwise a
/// type-declaring member from the required `name` and `type` attributes.
pub open spec fn parse_attribute_spec(n: XmlNodeV, index: u64) -> Result<MemberV, ErrorV> {
    match lookup_attr(n.attributes, "ref"@) {
        Some(r) => Ok(
            MemberV::AttributeRef(
                AttributeRefV {
                    id: IdV { entry_type: EntryTypeV::Other("attribute"@), name: r },
                    index,
                    ref_: r,
                    required: lookup_attr(n.attributes, "use"@) == Some("required"@),
                    default: lookup_attr(n.attributes, "default"@),
                    fixed: lookup_attr(n.attributes, "fixed"@),
                },
            ),
        ),
        None => match lookup_attr(n.attributes, "name"@) {
            None => Err(ErrorV::MissingAttribute { attribute: "name"@, node: n.name }),
            Some(nm) => match lookup_attr(n.attributes, "type"@) {
                None => Err(ErrorV::MissingAttribute { attribute: "type"@, node: n.name }),
                Some(ty) => Ok(
                    MemberV::AttributeType(
                        AttributeTypeV {
                            id: IdV { entry_type: EntryTypeV::Other("attribute"@), name: nm },
                            index,
                            name: nm,
                            type_: ty,
                            required: lookup_attr(n.attributes, "use"@) == Some("required"@),
                        },
                    ),
                ),
            },
        },
    }
}

/// Parses a child `attribute` node into a member.
fn parse_attribute(inner: &XmlNode, index: u64) -> (r: Result<Member, Error>)
    ensures
        match r {
            Ok(m) => parse_attribute_spec(inner@, index) == Ok::<MemberV, ErrorV>(m@),
            Err(e) => parse_attribute_spec(inner@, index) == Err::<MemberV, ErrorV>(e@),
        },
{
    if is_ref(inner) {
        let r = match ref_attribute(inner) {
            Ok(v) => v,
            Err(e) => {
                return Err(e);
            },
        };
        let required = use_required(inner);
        let default = default_attribute(inner);
        let fixed = fixed_attribute(inner);
        Ok(
            Member::AttributeRef(
                AttributeRef {
                    id: Id {
                        entry_type: EntryType::Other("attribute".to_owned()),
                        name: r.clone(),
                    },
                    index,
                    ref_: r,
                    required,
                    default,
                    fixed,
                },
            ),
        )
    } else {
        let name = match name_attribute(inner) {
            Ok(v) => v,
            Err(e) => {
                return Err(e);
            },
        };
        let type_ = match type_attribute(inner) {
            Ok(v) => v,
            Err(e) => {
                return Err(e);
            },
        };
        let required = use_required(inner);
        Ok(
            Member::AttributeType(
                AttributeType {
                    id: Id {
                        entry_type: EntryType::Other("attribute".to_owned()),
                        name: name.clone(),
                    },
                    index,
                    name,
                    type_,
                    required,
                },
            ),
        )
    }
}

/// The annotation and members gathered from the first `i` children of an
/// `attributeGroup` node. A later annotation child replaces an earlier one;
/// `attribute` and `attributeGroup` children append members in document
/// order; any other tag is rejected.
pub open spec fn ag_children(children: Seq<XmlNodeV>, index: u64, i: int) -> Result<
    (Option<AnnotationV>, Seq<MemberV>),
    ErrorV,
>
    decreases i,
{
    if i <= 0 {
        Ok((None, Seq::empty()))
    } else {
        match ag_children(children, index, i - 1) {
            Err(e) => Err(e),
            Ok(acc) => {
                let c = children[i - 1];
                if c.name == "annotation"@ {
                    match annotation_from_xml_spec(c, index) {
                        Ok(a) => Ok((Some(a), acc.1)),
                        Err(e) => Err(e),
                    }
                } else if c.name == "attribute"@ {
                    match parse_attribute_spec(c, index) {
                        Ok(m) => Ok((acc.0, acc.1.push(m))),
                        Err(e) => Err(e),
                    }
                } else if c.name == "attributeGroup"@ {
                    match lookup_attr(c.attributes, "ref"@) {
                        None => Err(ErrorV::MissingAttribute { attribute: "ref"@, node: c.name }),
                        Some(nm) => Ok(
                            (
                                acc.0,
                                acc.1.push(
                                    MemberV::AttributeGroupRef(
                                        AttributeGroupRefV {
                                            id: IdV {
                                                entry_type: EntryTypeV::Other("attribute"@),
                                                name: nm,
                                            },
                                            index,
                                            ref_: nm,
                                        },
                                    ),
                                ),
                            ),
                        ),
                    }
                } else {
                    Err(
                        ErrorV::UnexpectedNode {
                            expected: "annotation, attribute or attributeGroup"@,
                            actual: c.name,
                        },
                    )
                }
            },
        }
    }
}

proof fn lemma_ag_children_err(children: Seq<XmlNodeV>, index: u64, i: int, j: int)
    requires
        ag_children(children, index, i) is Err,
        i <= j,
    ensures
        ag_children(children, index, j) == ag_children(children, index, i),
    decreases j - i,
{
    if i < j {
        lemma_ag_children_err(children, index, i, j - 1);
    }
}

/// What parsing an `attributeGroup` node yields: the node must be tagged
/// `attributeGroup`; its children supply the annotation and the members; the
/// required `name` attribute supplies the identity.
pub open spec fn ag_from_xml_spec(n: XmlNodeV, index: u64) -> Result<AttributeGroupV, ErrorV> {
    if n.name != "attributeGroup"@ {
        Err(ErrorV::UnexpectedNode { expected: "attributeGroup"@, actual: n.name })
    } else {
        match ag_children(n.children, index, n.children.len() as int) {
            Err(e) => Err(e),
            Ok(acc) => match lookup_attr(n.attributes, "name"@) {
                None => Err(ErrorV::MissingAttribute { attribute: "name"@, node: n.name }),
                Some(nm) => Ok(
                    AttributeGroupV {
                        id: IdV { entry_type: EntryTypeV::AttributeGroup, name: nm },
                        index,
                        annotation: acc.0,
                        members: acc.1,
                    },
                ),
            },
        }
    }
}

impl AttributeGroup {
    /// The documentation text of this group's annotation, or empty.
    pub fn documentation(&self) -> (r: String)
        ensures
            r@ == doc_text(self@.annotation),
    {
        match &self.annotation {
            Some(a) => a.documentation(),
            None => String::new(),
        }
    }

    /// Parses an `attributeGroup` node.
    #[verifier::loop_isolation(false)]
    pub fn from_xml(node: &XmlNode, index: u64) -> (r: Result<AttributeGroup, Error>)
        ensures
            match r {
                Ok(g) => ag_from_xml_spec(node@, index) == Ok::<AttributeGroupV, ErrorV>(g@),
                Err(e) => ag_from_xml_spec(node@, index) == Err::<AttributeGroupV, ErrorV>(e@),
            },
    {
        if !str_eq(node.name.as_str(), "attributeGroup") {
            return Err(
                Error::UnexpectedNode {
                    expected: "attributeGroup".to_owned(),
                    actual: node.name.clone(),
                },
            );
        }
        let mut annotation: Option<Annotation> = None;
        let mut members: Vec<Member> = Vec::new();
        let n = node.children.len();
        let mut i: usize = 0;
        proof {
            lemma_children_view(node.children@);
            assert(seq_view::<Member>(members@) =~= Seq::<MemberV>::empty());
        }
        while i < n
            invariant
                0 <= i <= n,
                ag_children(node@.children, index, i as int) == Ok::<
                    (Option<AnnotationV>, Seq<MemberV>),
                    ErrorV,
                >((opt_view(annotation), seq_view(members@))),
            decreases n - i,
        {
            let child = &node.children[i];
            let t = child.name.as_str();
            if str_eq(t, "annotation") {
                match Annotation::from_xml(child, index) {
                    Ok(a) => {
                        annotation = Some(a);
                    },
                    Err(e) => {
                        proof {
                            lemma_ag_children_err(node@.children, index, i as int + 1, n as int);
                        }
                        return Err(e);
                    },
                }
            } else if str_eq(t, "attribute") {
                match parse_attribute(child, index) {
                    Ok(m) => {
                        let ghost old_members = members@;
                        members.push(m);
                        proof {
                            assert(seq_view(members@) =~= seq_view(old_members).push(m@));
                        }
                    },
                    Err(e) => {
                        proof {
                            lemma_ag_children_err(node@.children, index, i as int + 1, n as int);
                        }
                        return Err(e);
                    },
                }
            } else if str_eq(t, "attributeGroup") {
                match ref_attribute(child) {
                    Ok(nm) => {
                        let ghost old_members = members@;
                        let m = Member::AttributeGroupRef(
                            AttributeGroupRef {
                                id: Id {
                                    entry_type: EntryType::Other("attribute".to_owned()),
                                    name: nm.clone(),
                                },
                                index,
                                ref_: nm,
                            },
                        );
                        members.push(m);
                        proof {
                            assert(seq_view(members@) =~= seq_view(old_members).push(m@));
                        }
                    },
                    Err(e) => {
                        proof {
                            lemma_ag_children_err(node@.children, index, i as int + 1, n as int);
                        }
                        return Err(e);
                    },
                }
            } else {
                proof {
                    lemma_ag_children_err(node@.children, index, i as int + 1, n as int);
                }
                return Err(
                    Error::UnexpectedNode {
                        expected: "annotation, attribute or attributeGroup".to_owned(),
                        actual: child.name.clone(),
                    },
                );
            }
            i = i + 1;
        }
        let name = match name_attribute(node) {
            Ok(nm) => nm,
            Err(e) => {
                return Err(e);
            },
        };
        Ok(
            AttributeGroup {
                id: Id { entry_type: EntryType::AttributeGroup, name },
                index,
                annotation,
                members,
            },
        )
    }
}

} // verus!
