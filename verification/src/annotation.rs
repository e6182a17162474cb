//! The `annotation` construct: free-text documentation attached to another
//! construct. The first `documentation` child supplies the text; a child of
//! any other tag is rejected.

use vstd::prelude::*;

verus! {

use crate::error::{Error, ErrorV};
use crate::id::{EntryType, EntryTypeV, Id, IdV};
use crate::text::{fmt_u64, str_eq, u64_dec_spec};
use crate::xml::{lemma_children_view, XmlNode, XmlNodeV};

/// An annotation: its identity, its positional lineage, and the text of its
/// first `documentation` child (empty when there is none).
#[derive(Debug, Clone)]
pub struct Annotation {
    pub id: Id,
    pub index: u64,
    pub documentation: String,
}

/// The mathematical shape of an [`Annotation`].
pub struct AnnotationV {
    pub id: IdV,
    pub index: u64,
    pub documentation: Seq<char>,
}

impl View for Annotation {
    type V = AnnotationV;

    open spec fn view(&self) -> AnnotationV {
        AnnotationV { id: self.id@, index: self.index, documentation: self.documentation@ }
    }
}

/// The documentation text gathered from the first `i` children: the text of
/// the first `documentation` child, or an error on any other tag.
pub open spec fn ann_docs(children: Seq<XmlNodeV>, i: int) -> Result<Option<Seq<char>>, ErrorV>
    decreases i,
{
    if i <= 0 {
        Ok(None)
    } else {
        match ann_docs(children, i - 1) {
            Err(e) => Err(e),
            Ok(acc) => {
                let c = children[i - 1];
                if c.name == "documentation"@ {
                    if acc is Some {
                        Ok(acc)
                    } else {
                        Ok(Some(c.text))
                    }
                } else {
                    Err(ErrorV::UnexpectedNode { expected: "documentation"@, actual: c.name })
                }
            },
        }
    }
}

proof fn lemma_ann_docs_err(children: Seq<XmlNodeV>, i: int, j: int)
    requires
        ann_docs(children, i) is Err,
        i <= j,
    ensures
        ann_docs(children, j) == ann_docs(children, i),
    decreases j - i,
{
    if i < j {
        lemma_ann_docs_err(children, i, j - 1);
    }
}

/// What parsing an `annotation` node yields: the node must be tagged
/// `annotation`; its identity is the `annotation` tag with the lineage index
/// as its name; the documentation is the text of the first `documentation`
/// child, empty when there is none.
pub open spec fn annotation_from_xml_spec(n: XmlNodeV, index: u64) -> Result<AnnotationV, ErrorV> {
    if n.name != "annotation"@ {
        Err(ErrorV::UnexpectedNode { expected: "annotation"@, actual: n.name })
    } else {
        match ann_docs(n.children, n.children.len() as int) {
            Err(e) => Err(e),
            Ok(d) => Ok(
                AnnotationV {
                    id: IdV {
                        entry_type: EntryTypeV::Other("annotation"@),
                        name: u64_dec_spec(index as nat),
                    },
                    index,
                    documentation: match d {
                        Some(t) => t,
                        None => Seq::empty(),
                    },
                },
            ),
        }
    }
}

impl Annotation {
    /// Parses an `annotation` node.
    #[verifier::loop_isolation(false)]
    pub fn from_xml(node: &XmlNode, index: u64) -> (r: Result<Annotation, Error>)
        ensures
            match r {
                Ok(a) => annotation_from_xml_spec(node@, index) == Ok::<AnnotationV, ErrorV>(a@),
                Err(e) => annotation_from_xml_spec(node@, index) == Err::<AnnotationV, ErrorV>(
                    e@,
                ),
            },
    {
        if !str_eq(node.name.as_str(), "annotation") {
            return Err(
                Error::UnexpectedNode {
                    expected: "annotation".to_owned(),
                    actual: node.name.clone(),
                },
            );
        }
        let mut doc: Option<String> = None;
        let n = node.children.len();
        let mut i: usize = 0;
        proof {
            lemma_children_view(node.children@);
        }
        while i < n
            invariant
                0 <= i <= n,
                n == node.children.len(),
                match doc {
                    Some(s) => ann_docs(node@.children, i as int) == Ok::<
                        Option<Seq<char>>,
                        ErrorV,
                    >(Some(s@)),
                    None => ann_docs(node@.children, i as int) == Ok::<
                        Option<Seq<char>>,
                        ErrorV,
                    >(None),
                },
            decreases n - i,
        {
            proof {
                lemma_children_view(node.children@);
            }
            let child = &node.children[i];
            if str_eq(child.name.as_str(), "documentation") {
                if doc.is_none() {
                    doc = Some(child.text.clone());
                }
            } else {
                proof {
                    lemma_ann_docs_err(node@.children, i as int + 1, n as int);
                }
                return Err(
                    Error::UnexpectedNode {
                        expected: "documentation".to_owned(),
                        actual: child.name.clone(),
                    },
                );
            }
            i = i + 1;
        }
        proof {
            lemma_children_view(node.children@);
        }
        let documentation: String = match doc {
            Some(d) => d,
            None => String::new(),
        };
        Ok(
            Annotation {
                id: Id { entry_type: EntryType::Other("annotation".to_owned()), name: fmt_u64(index) },
                index,
                documentation,
            },
        )
    }

    /// The documentation text of this annotation.
    pub fn documentation(&self) -> (r: String)
        ensures
            r@ == self@.documentation,
    {
        self.documentation.clone()
    }
}

/// The documentation text of an optional annotation: its text, or empty when
/// there is none. Accessors of the owning constructs go through this, so
/// callers never branch on optionality themselves.
pub open spec fn doc_text(ann: Option<AnnotationV>) -> Seq<char> {
    match ann {
        Some(a) => a.documentation,
        None => Seq::empty(),
    }
}

/// The annotation taken from the first `i` children: the first child tagged
/// `annotation` is parsed and kept, children of other tags are passed over,
/// and children after the first annotation are not examined.
pub open spec fn first_ann(children: Seq<XmlNodeV>, index: u64, i: int) -> Result<
    Option<AnnotationV>,
    ErrorV,
>
    decreases i,
{
    if i <= 0 {
        Ok(None)
    } else {
        match first_ann(children, index, i - 1) {
            Err(e) => Err(e),
            Ok(Some(a)) => Ok(Some(a)),
            Ok(None) => {
                let c = children[i - 1];
                if c.name == "annotation"@ {
                    match annotation_from_xml_spec(c, index) {
                        Ok(a) => Ok(Some(a)),
                        Err(e) => Err(e),
                    }
                } else {
                    Ok(None)
                }
            },
        }
    }
}

proof fn lemma_first_ann_settled(children: Seq<XmlNodeV>, index: u64, i: int, j: int)
    requires
        i <= j,
        first_ann(children, index, i) is Err || first_ann(children, index, i) matches Ok(Some(_)),
    ensures
        first_ann(children, index, j) == first_ann(children, index, i),
    decreases j - i,
{
    if i < j {
        lemma_first_ann_settled(children, index, i, j - 1);
    }
}

/// Extracts the first annotation among `node`'s children, per [`first_ann`].
#[verifier::loop_isolation(false)]
pub fn first_annotation(node: &XmlNode, index: u64) -> (r: Result<Option<Annotation>, Error>)
    ensures
        match r {
            Ok(a) => first_ann(node@.children, index, node@.children.len() as int) == Ok::<
                Option<AnnotationV>,
                ErrorV,
            >(crate::views::opt_view(a)),
            Err(e) => first_ann(node@.children, index, node@.children.len() as int) == Err::<
                Option<AnnotationV>,
                ErrorV,
            >(e@),
        },
{
    let n = node.children.len();
    let mut i: usize = 0;
    let mut found: Option<Annotation> = None;
    proof {
        lemma_children_view(node.children@);
    }
    while i < n
        invariant
            0 <= i <= n,
            n == node.children.len(),
            match found {
                Some(a) => first_ann(node@.children, index, i as int) == Ok::<
                    Option<AnnotationV>,
                    ErrorV,
                >(Some(a@)),
                None => first_ann(node@.children, index, i as int) == Ok::<
                    Option<AnnotationV>,
                    ErrorV,
                >(None),
            },
        decreases n - i,
    {
        proof {
            lemma_children_view(node.children@);
        }
        let child = &node.children[i];
        if found.is_none() && str_eq(child.name.as_str(), "annotation") {
            match Annotation::from_xml(child, index) {
                Ok(a) => {
                    found = Some(a);
                },
                Err(e) => {
                    proof {
                        lemma_first_ann_settled(node@.children, index, i as int + 1, n as int);
                    }
                    return Err(e);
                },
            }
        }
        i = i + 1;
    }
    proof {
        lemma_children_view(node.children@);
    }
    Ok(found)
}

} // verus!
