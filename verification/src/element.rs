//! The `element` construct: a named element declaration with an optional
//! `type` reference, an occurrence constraint read from its own attributes,
//! and an optional annotation.

use vstd::prelude::*;

verus! {

use crate::annotation::{annotation_from_xml_spec, doc_text, Annotation, AnnotationV};
use crate::error::{Error, ErrorV};
use crate::id::{EntryType, EntryTypeV, Id, IdV};
use crate::text::str_eq;
use crate::views::opt_view;
use crate::xml::{lemma_children_view, lookup_attr, XmlNode, XmlNodeV};
use crate::xsd::{name_attribute, occurs_from_map_spec, Occurs};

/// An element declaration: its identity, lineage, optional annotation,
/// optional `type` reference, and occurrence constraint.
#[derive(Debug, Clone)]
pub struct ElementDecl {
    pub id: Id,
    pub index: u64,
    pub annotation: Option<Annotation>,
    pub type_: Option<String>,
    pub occurs: Occurs,
}

/// The mathematical shape of an [`ElementDecl`].
pub struct ElementDeclV {
    pub id: IdV,
    pub index: u64,
    pub annotation: Option<AnnotationV>,
    pub type_: Option<Seq<char>>,
    pub occurs: Occurs,
}

impl View for ElementDecl {
    type V = ElementDeclV;

    open spec fn view(&self) -> ElementDeclV {
        ElementDeclV {
            id: self.id@,
            index: self.index,
            annotation: opt_view(self.annotation),
            type_: opt_view(self.type_),
            occurs: self.occurs,
        }
    }
}

/// The annotation gathered from the first `i` children of an `element`
/// node: a later annotation child replaces an earlier one, and a child of
/// any other tag is rejected.
pub open spec fn el_ann(children: Seq<XmlNodeV>, index: u64, i: int) -> Result<
    Option<AnnotationV>,
    ErrorV,
>
    decreases i,
{
    if i <= 0 {
        Ok(None)
    } else {
        match el_ann(children, index, i - 1) {
            Err(e) => Err(e),
            Ok(acc) => {
                let c = children[i - 1];
                if c.name == "annotation"@ {
                    match annotation_from_xml_spec(c, index) {
                        Ok(a) => Ok(Some(a)),
                        Err(e) => Err(e),
                    }
                } else {
                    Err(ErrorV::UnexpectedNode { expected: "annotation"@, actual: c.name })
                }
            },
        }
    }
}

proof fn lemma_el_ann_err(children: Seq<XmlNodeV>, index: u64, i: int, j: int)
    requires
        el_ann(children, index, i) is Err,
        i <= j,
    ensures
        el_ann(children, index, j) == el_ann(children, index, i),
    decreases j - i,
{
    if i < j {
        lemma_el_ann_err(children, index, i, j - 1);
    }
}

/// What parsing an `element` node yields: the node must be tagged
/// `element`; only annotation children are accepted; the required `name`
/// attribute supplies the identity; the optional `type` attribute is kept
/// as an opaque reference; the occurrence constraint is read from the
/// node's own attributes.
pub open spec fn element_from_xml_spec(n: XmlNodeV, index: u64) -> Result<ElementDeclV, ErrorV> {
    if n.name != "element"@ {
        Err(ErrorV::UnexpectedNode { expected: "element"@, actual: n.name })
    } else {
        match el_ann(n.children, index, n.children.len() as int) {
            Err(e) => Err(e),
            Ok(ann) => match lookup_attr(n.attributes, "name"@) {
                None => Err(ErrorV::MissingAttribute { attribute: "name"@, node: n.name }),
                Some(nm) => match occurs_from_map_spec(n.attributes) {
                    Err(e) => Err(e),
                    Ok(occurs) => Ok(
                        ElementDeclV {
                            id: IdV { entry_type: EntryTypeV::Element, name: nm },
                            index,
                            annotation: ann,
                            type_: lookup_attr(n.attributes, "type"@),
                            occurs,
                        },
                    ),
                },
            },
        }
    }
}

impl ElementDecl {
    /// The documentation text of this element's annotation, or empty.
    pub fn documentation(&self) -> (r: String)
        ensures
            r@ == doc_text(self@.annotation),
    {
        match &self.annotation {
            Some(a) => a.documentation(),
            None => String::new(),
        }
    }

    /// Parses an `element` node.
    #[verifier::loop_isolation(false)]
    pub fn from_xml(node: &XmlNode, index: u64) -> (r: Result<ElementDecl, Error>)
        ensures
            match r {
                Ok(el) => element_from_xml_spec(node@, index) == Ok::<ElementDeclV, ErrorV>(el@),
                Err(e) => element_from_xml_spec(node@, index) == Err::<ElementDeclV, ErrorV>(e@),
            },
    {
        if !str_eq(node.name.as_str(), "element") {
            return Err(
                Error::UnexpectedNode { expected: "element".to_owned(), actual: node.name.clone() },
            );
        }
        let mut annotation: Option<Annotation> = None;
        let n = node.children.len();
        let mut i: usize = 0;
        proof {
            lemma_children_view(node.children@);
        }
        while i < n
            invariant
                0 <= i <= n,
                el_ann(node@.children, index, i as int) == Ok::<Option<AnnotationV>, ErrorV>(
                    opt_view(annotation),
                ),
            decreases n - i,
        {
            let child = &node.children[i];
            if str_eq(child.name.as_str(), "annotation") {
                match Annotation::from_xml(child, index) {
                    Ok(a) => {
                        annotation = Some(a);
                    },
                    Err(e) => {
                        proof {
                            lemma_el_ann_err(node@.children, index, i as int + 1, n as int);
                        }
                        return Err(e);
                    },
                }
            } else {
                proof {
                    lemma_el_ann_err(node@.children, index, i as int + 1, n as int);
                }
                return Err(
                    Error::UnexpectedNode {
                        expected: "annotation".to_owned(),
                        actual: child.name.clone(),
                    },
                );
            }
            i = i + 1;
        }
        let name = match name_attribute(node) {
            Ok(nm) => nm,
            Err(e) => {
                return Err(e);
            },
        };
        let occurs = match Occurs::from_xml(node) {
            Ok(o) => o,
            Err(e) => {
                return Err(e);
            },
        };
        let type_: Option<String> = match node.attribute("type") {
            Some(t) => Some(t.clone()),
            None => None,
        };
        Ok(
            ElementDecl {
                id: Id { entry_type: EntryType::Element, name },
                index,
                annotation,
                type_,
                occurs,
            },
        )
    }
}

} // verus!
