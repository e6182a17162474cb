//! The `sequence` and `choice` compositors. Both hold an ordered list of
//! members — elements, group references, and nested sequences or choices —
//! plus an occurrence constraint read from their own attributes.

use vstd::prelude::*;

verus! {

use crate::annotation::{annotation_from_xml_spec, doc_text, Annotation, AnnotationV};
use crate::element::{element_from_xml_spec, ElementDecl, ElementDeclV};
use crate::error::{Error, ErrorV};
use crate::group::{group_from_xml_spec, Group, GroupV};
use crate::id::{EntryType, EntryTypeV, Id, IdV};
use crate::text::{fmt_u64, str_eq, u64_dec_spec};
use crate::views::opt_view;
use crate::xml::{lemma_children_view, XmlNode, XmlNodeV};
use crate::xsd::{occurs_from_map_spec, Occurs};

/// A sequence compositor: its identity (the `sequence` tag with the lineage
/// index as name), its occurrence constraint, and its members in document
/// order.
#[derive(Debug)]
pub struct Sequence {
    pub id: Id,
    pub index: u64,
    pub annotation: Option<Annotation>,
    pub occurs: Occurs,
    pub members: Vec<Member>,
}

/// A choice compositor, shaped like a sequence under the `choice` tag.
#[derive(Debug)]
pub struct Choice {
    pub id: Id,
    pub index: u64,
    pub annotation: Option<Annotation>,
    pub occurs: Occurs,
    pub members: Vec<Member>,
}

/// A member of a sequence or choice.
#[derive(Debug)]
pub enum Member {
    Choice(Choice),
    Element(ElementDecl),
    Group(Group),
    Sequence(Sequence),
}

/// The mathematical shape of a [`Sequence`].
pub struct SequenceV {
    pub id: IdV,
    pub index: u64,
    pub annotation: Option<AnnotationV>,
    pub occurs: Occurs,
    pub members: Seq<MemberV>,
}

/// The mathematical shape of a [`Choice`].
pub struct ChoiceV {
    pub id: IdV,
    pub index: u64,
    pub annotation: Option<AnnotationV>,
    pub occurs: Occurs,
    pub members: Seq<MemberV>,
}

/// The mathematical shape of a [`Member`].
pub enum MemberV {
    Choice(ChoiceV),
    Element(ElementDeclV),
    Group(GroupV),
    Sequence(SequenceV),
}

/// The view of a member.
pub open spec fn member_view(m: Member) -> MemberV
    decreases m, 1int,
{
    match m {
        Member::Choice(c) => MemberV::Choice(choice_view(c)),
        Member::Element(e) => MemberV::Element(e@),
        Member::Group(g) => MemberV::Group(g@),
        Member::Sequence(s) => MemberV::Sequence(sequence_view(s)),
    }
}

/// The pointwise views of a member list.
pub open spec fn member_seq_view(s: Seq<Member>) -> Seq<MemberV>
    decreases s, 2int,
{
    if s.len() == 0 {
        Seq::empty()
    } else {
        member_seq_view(s.drop_last()).push(member_view(s.last()))
    }
}

/// The view of a sequence.
pub open spec fn sequence_view(s: Sequence) -> SequenceV
    decreases s, 0int,
{
    SequenceV {
        id: s.id@,
        index: s.index,
        annotation: opt_view(s.annotation),
        occurs: s.occurs,
        members: member_seq_view(s.members@),
    }
}

/// The view of a choice.
pub open spec fn choice_view(c: Choice) -> ChoiceV
    decreases c, 0int,
{
    ChoiceV {
        id: c.id@,
        index: c.index,
        annotation: opt_view(c.annotation),
        occurs: c.occurs,
        members: member_seq_view(c.members@),
    }
}

impl View for Member {
    type V = MemberV;

    open spec fn view(&self) -> MemberV {
        member_view(*self)
    }
}

impl View for Sequence {
    type V = SequenceV;

    open spec fn view(&self) -> SequenceV {
        sequence_view(*self)
    }
}

impl View for Choice {
    type V = ChoiceV;

    open spec fn view(&self) -> ChoiceV {
        choice_view(*self)
    }
}

/// The pointwise view of a member list is the view of each member.
pub proof fn lemma_member_seq_view(s: Seq<Member>)
    ensures
        member_seq_view(s).len() == s.len(),
        forall|i: int| 0 <= i < s.len() ==> member_seq_view(s)[i] == member_view(s[i]),
    decreases s.len(),
{
    if s.len() > 0 {
        lemma_member_seq_view(s.drop_last());
    }
}

/// The annotation and members gathered from the first `i` children of a
/// sequence or choice node. A later annotation replaces an earlier one;
/// `choice`, `element`, `group` and `sequence` children append members in
/// document order; any other tag is rejected.
pub open spec fn compositor_members(children: Seq<XmlNodeV>, index: u64, i: int) -> Result<
    (Option<AnnotationV>, Seq<MemberV>),
    ErrorV,
>
    decreases children, i,
    when 0 <= i <= children.len()
    via compositor_members_decreases
{
    if i <= 0 {
        Ok((None, Seq::empty()))
    } else {
        match compositor_members(children, index, i - 1) {
            Err(e) => Err(e),
            Ok(acc) => {
                let c = children[i - 1];
                if c.name == "annotation"@ {
                    match annotation_from_xml_spec(c, index) {
                        Ok(a) => Ok((Some(a), acc.1)),
                        Err(e) => Err(e),
                    }
                } else if c.name == "choice"@ {
                    match choice_from_xml_spec(c, index) {
                        Ok(m) => Ok((acc.0, acc.1.push(MemberV::Choice(m)))),
                        Err(e) => Err(e),
                    }
                } else if c.name == "element"@ {
                    match element_from_xml_spec(c, index) {
                        Ok(m) => Ok((acc.0, acc.1.push(MemberV::Element(m)))),
                        Err(e) => Err(e),
                    }
                } else if c.name == "group"@ {
                    match group_from_xml_spec(c, index) {
                        Ok(m) => Ok((acc.0, acc.1.push(MemberV::Group(m)))),
                        Err(e) => Err(e),
                    }
                } else if c.name == "sequence"@ {
                    match seq_from_xml_spec(c, index) {
                        Ok(m) => Ok((acc.0, acc.1.push(MemberV::Sequence(m)))),
                        Err(e) => Err(e),
                    }
                } else {
                    Err(
                        ErrorV::UnexpectedNode {
                            expected: "annotation, choice, element, group or sequence"@,
                            actual: c.name,
                        },
                    )
                }
            },
        }
    }
}

/// What parsing a `sequence` node yields: the node must be tagged
/// `sequence`; its children supply the annotation and the members; its
/// identity is the `sequence` tag with the lineage index as name; the
/// occurrence constraint is read from its own attributes.
pub open spec fn seq_from_xml_spec(n: XmlNodeV, index: u64) -> Result<SequenceV, ErrorV>
    decreases n, 3int,
{
    if n.name != "sequence"@ {
        Err(ErrorV::UnexpectedNode { expected: "sequence"@, actual: n.name })
    } else {
        match compositor_members(n.children, index, n.children.len() as int) {
            Err(e) => Err(e),
            Ok(acc) => match occurs_from_map_spec(n.attributes) {
                Err(e) => Err(e),
                Ok(occurs) => Ok(
                    SequenceV {
                        id: IdV {
                            entry_type: EntryTypeV::Other("sequence"@),
                            name: u64_dec_spec(index as nat),
                        },
                        index,
                        annotation: acc.0,
                        occurs,
                        members: acc.1,
                    },
                ),
            },
        }
    }
}

/// What parsing a `choice` node yields, shaped like a sequence under the
/// `choice` tag.
pub open spec fn choice_from_xml_spec(n: XmlNodeV, index: u64) -> Result<ChoiceV, ErrorV>
    decreases n, 3int,
{
    if n.name != "choice"@ {
        Err(ErrorV::UnexpectedNode { expected: "choice"@, actual: n.name })
    } else {
        match compositor_members(n.children, index, n.children.len() as int) {
            Err(e) => Err(e),
            Ok(acc) => match occurs_from_map_spec(n.attributes) {
                Err(e) => Err(e),
                Ok(occurs) => Ok(
                    ChoiceV {
                        id: IdV {
                            entry_type: EntryTypeV::Other("choice"@),
                            name: u64_dec_spec(index as nat),
                        },
                        index,
                        annotation: acc.0,
                        occurs,
                        members: acc.1,
                    },
                ),
            },
        }
    }
}

#[via_fn]
proof fn compositor_members_decreases(children: Seq<XmlNodeV>, index: u64, i: int) {
    if 0 < i <= children.len() {
        assert(decreases_to!(children => children[i - 1]));
    }
}

proof fn lemma_compositor_members_err(children: Seq<XmlNodeV>, index: u64, i: int, j: int)
    requires
        compositor_members(children, index, i) is Err,
        0 <= i <= j <= children.len(),
    ensures
        compositor_members(children, index, j) == compositor_members(children, index, i),
    decreases j - i,
{
    if i < j {
        lemma_compositor_members_err(children, index, i, j - 1);
    }
}

/// Parses the children of a sequence or choice node into the annotation and
/// the member list.
#[verifier::loop_isolation(false)]
fn parse_compositor_members(node: &XmlNode, index: u64) -> (r: Result<
    (Option<Annotation>, Vec<Member>),
    Error,
>)
    ensures
        match r {
            Ok(p) => compositor_members(node@.children, index, node@.children.len() as int)
                == Ok::<(Option<AnnotationV>, Seq<MemberV>), ErrorV>(
                (opt_view(p.0), member_seq_view(p.1@)),
            ),
            Err(e) => compositor_members(node@.children, index, node@.children.len() as int)
                == Err::<(Option<AnnotationV>, Seq<MemberV>), ErrorV>(e@),
        },
    decreases *node, 0int,
{
    let mut annotation: Option<Annotation> = None;
    let mut members: Vec<Member> = Vec::new();
    let n = node.children.len();
    let mut i: usize = 0;
    proof {
        lemma_children_view(node.children@);
        assert(member_seq_view(members@) =~= Seq::<MemberV>::empty());
    }
    while i < n
        invariant
            0 <= i <= n,
            compositor_members(node@.children, index, i as int) == Ok::<
                (Option<AnnotationV>, Seq<MemberV>),
                ErrorV,
            >((opt_view(annotation), member_seq_view(members@))),
        decreases n - i,
    {
        let child = &node.children[i];
        proof {
            assert(*child == node.children@[i as int]);
            assert(decreases_to!(*node, 0int => *child, 1int));
        }
        let t = child.name.as_str();
        let step: Result<Option<Member>, Error> = if str_eq(t, "annotation") {
            match Annotation::from_xml(child, index) {
                Ok(a) => {
                    annotation = Some(a);
                    Ok(None)
                },
                Err(e) => Err(e),
            }
        } else if str_eq(t, "choice") {
            match Choice::from_xml(child, index) {
                Ok(c) => Ok(Some(Member::Choice(c))),
                Err(e) => Err(e),
            }
        } else if str_eq(t, "element") {
            match ElementDecl::from_xml(child, index) {
                Ok(el) => Ok(Some(Member::Element(el))),
                Err(e) => Err(e),
            }
        } else if str_eq(t, "group") {
            match Group::from_xml(child, index) {
                Ok(g) => Ok(Some(Member::Group(g))),
                Err(e) => Err(e),
            }
        } else if str_eq(t, "sequence") {
            match Sequence::from_xml(child, index) {
                Ok(s) => Ok(Some(Member::Sequence(s))),
                Err(e) => Err(e),
            }
        } else {
            Err(
                Error::UnexpectedNode {
                    expected: "annotation, choice, element, group or sequence".to_owned(),
                    actual: child.name.clone(),
                },
            )
        };
        match step {
            Ok(None) => {},
            Ok(Some(m)) => {
                let ghost old_members = members@;
                members.push(m);
                proof {
                    lemma_member_seq_view(old_members);
                    lemma_member_seq_view(members@);
                    assert(member_seq_view(members@) =~= member_seq_view(old_members).push(m@));
                }
            },
            Err(e) => {
                proof {
                    lemma_compositor_members_err(node@.children, index, i as int + 1, n as int);
                }
                return Err(e);
            },
        }
        i = i + 1;
    }
    Ok((annotation, members))
}

impl Sequence {
    /// The documentation text of this sequence's annotation, or empty.
    pub fn documentation(&self) -> (r: String)
        ensures
            r@ == doc_text(self@.annotation),
    {
        match &self.annotation {
            Some(a) => a.documentation(),
            None => String::new(),
        }
    }

    /// Parses a `sequence` node.
    pub fn from_xml(node: &XmlNode, index: u64) -> (r: Result<Sequence, Error>)
        ensures
            match r {
                Ok(s) => seq_from_xml_spec(node@, index) == Ok::<SequenceV, ErrorV>(s@),
                Err(e) => seq_from_xml_spec(node@, index) == Err::<SequenceV, ErrorV>(e@),
            },
        decreases *node, 2int,
    {
        if !str_eq(node.name.as_str(), "sequence") {
            return Err(
                Error::UnexpectedNode {
                    expected: "sequence".to_owned(),
                    actual: node.name.clone(),
                },
            );
        }
        let (annotation, members) = match parse_compositor_members(node, index) {
            Ok(p) => p,
            Err(e) => {
                return Err(e);
            },
        };
        let occurs = match Occurs::from_xml(node) {
            Ok(o) => o,
            Err(e) => {
                return Err(e);
            },
        };
        Ok(
            Sequence {
                id: Id {
                    entry_type: EntryType::Other("sequence".to_owned()),
                    name: fmt_u64(index),
                },
                index,
                annotation,
                occurs,
                members,
            },
        )
    }
}

impl Choice {
    /// The documentation text of this choice's annotation, or empty.
    pub fn documentation(&self) -> (r: String)
        ensures
            r@ == doc_text(self@.annotation),
    {
        match &self.annotation {
            Some(a) => a.documentation(),
            None => String::new(),
        }
    }

    /// Parses a `choice` node.
    pub fn from_xml(node: &XmlNode, index: u64) -> (r: Result<Choice, Error>)
        ensures
            match r {
                Ok(c) => choice_from_xml_spec(node@, index) == Ok::<ChoiceV, ErrorV>(c@),
                Err(e) => choice_from_xml_spec(node@, index) == Err::<ChoiceV, ErrorV>(e@),
            },
        decreases *node, 2int,
    {
        if !str_eq(node.name.as_str(), "choice") {
            return Err(
                Error::UnexpectedNode { expected: "choice".to_owned(), actual: node.name.clone() },
            );
        }
        let (annotation, members) = match parse_compositor_members(node, index) {
            Ok(p) => p,
            Err(e) => {
                return Err(e);
            },
        };
        let occurs = match Occurs::from_xml(node) {
            Ok(o) => o,
            Err(e) => {
                return Err(e);
            },
        };
        Ok(
            Choice {
                id: Id {
                    entry_type: EntryType::Other("choice".to_owned()),
                    name: fmt_u64(index),
                },
                index,
                annotation,
                occurs,
                members,
            },
        )
    }
}

} // verus!
