//! The `group` construct. Both a top-level group definition and a group
//! reference inside a sequence are parsed the same way here: the tag is
//! checked, the first annotation child is attached, and the `name` attribute
//! supplies the identity.

use vstd::prelude::*;

verus! {

use crate::annotation::{doc_text, first_ann, first_annotation, Annotation, AnnotationV};
use crate::error::{Error, ErrorV};
use crate::id::{EntryType, EntryTypeV, Id, IdV};
use crate::text::str_eq;
use crate::views::opt_view;
use crate::xml::{lookup_attr, XmlNode, XmlNodeV};

/// A group: its identity, its positional lineage, and its documentation.
#[derive(Debug, Clone)]
pub struct Group {
    pub id: Id,
    pub index: u64,
    pub annotation: Option<Annotation>,
}

/// The mathematical shape of a [`Group`].
pub struct GroupV {
    pub id: IdV,
    pub index: u64,
    pub annotation: Option<AnnotationV>,
}

impl View for Group {
    type V = GroupV;

    open spec fn view(&self) -> GroupV {
        GroupV { id: self.id@, index: self.index, annotation: opt_view(self.annotation) }
    }
}

/// What parsing a `group` node yields: the node must be tagged `group`, the
/// first annotation child is attached, children of other tags are passed
/// over, and the required `name` attribute supplies the identity.
pub open spec fn group_from_xml_spec(n: XmlNodeV, index: u64) -> Result<GroupV, ErrorV> {
    if n.name != "group"@ {
        Err(ErrorV::UnexpectedNode { expected: "group"@, actual: n.name })
    } else {
        match first_ann(n.children, index, n.children.len() as int) {
            Err(e) => Err(e),
            Ok(ann) => match lookup_attr(n.attributes, "name"@) {
                None => Err(ErrorV::MissingAttribute { attribute: "name"@, node: n.name }),
                Some(nm) => Ok(
                    GroupV {
                        id: IdV { entry_type: EntryTypeV::Group, name: nm },
                        index,
                        annotation: ann,
                    },
                ),
            },
        }
    }
}

impl Group {
    /// The documentation text of this group's annotation, or empty.
    pub fn documentation(&self) -> (r: String)
        ensures
            r@ == doc_text(self@.annotation),
    {
        match &self.annotation {
            Some(a) => a.documentation(),
            None => String::new(),
        }
    }

    /// Parses a `group` node.
    pub fn from_xml(node: &XmlNode, index: u64) -> (r: Result<Group, Error>)
        ensures
            match r {
                Ok(g) => group_from_xml_spec(node@, index) == Ok::<GroupV, ErrorV>(g@),
                Err(e) => group_from_xml_spec(node@, index) == Err::<GroupV, ErrorV>(e@),
            },
    {
        if !str_eq(node.name.as_str(), "group") {
            return Err(
                Error::UnexpectedNode { expected: "group".to_owned(), actual: node.name.clone() },
            );
        }
        let annotation = match first_annotation(node, index) {
            Ok(a) => a,
            Err(e) => {
                return Err(e);
            },
        };
        let name = match crate::xsd::name_attribute(node) {
            Ok(nm) => nm,
            Err(e) => {
                return Err(e);
            },
        };
        Ok(Group { id: Id { entry_type: EntryType::Group, name }, index, annotation })
    }
}

} // verus!
