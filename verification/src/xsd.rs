//! The schema container and the top-level entry parser, together with the
//! attribute-reading helpers and the `Occurs` occurrence constraint that the
//! structural parsers share.

use vstd::prelude::*;

verus! {

use crate::annotation::{annotation_from_xml_spec, doc_text, first_ann, first_annotation, Annotation, AnnotationV};
use crate::attribute_group::{ag_from_xml_spec, AttributeGroup, AttributeGroupV};
use crate::element::{element_from_xml_spec, ElementDecl, ElementDeclV};
use crate::error::{Error, ErrorV};
use crate::group::{group_from_xml_spec, Group, GroupV};
use crate::id::{id_display_spec, EntryType, EntryTypeV, Id, IdV};
use crate::text::{parse_u64, parse_u64_spec, str_eq};
use crate::views::{opt_view, seq_view};
use crate::xml::{lemma_children_view, lookup_attr, XmlNode, XmlNodeV};
use vstd::string::StrSliceExecFns;

/// Reads a required attribute; absence is a `MissingAttribute` error naming
/// the attribute and the node.
pub fn get_attribute(node: &XmlNode, attribute_name: &str) -> (r: Result<String, Error>)
    ensures
        match r {
            Ok(v) => lookup_attr(node@.attributes, attribute_name@) == Some(v@),
            Err(e) => lookup_attr(node@.attributes, attribute_name@) is None && e@
                == (ErrorV::MissingAttribute { attribute: attribute_name@, node: node@.name }),
        },
{
    match node.attribute(attribute_name) {
        Some(v) => Ok(v.clone()),
        None => Err(
            Error::MissingAttribute {
                attribute: attribute_name.to_owned(),
                node: node.name.clone(),
            },
        ),
    }
}

/// The required `name` attribute.
pub fn name_attribute(node: &XmlNode) -> (r: Result<String, Error>)
    ensures
        match r {
            Ok(v) => lookup_attr(node@.attributes, "name"@) == Some(v@),
            Err(e) => lookup_attr(node@.attributes, "name"@) is None && e@
                == (ErrorV::MissingAttribute { attribute: "name"@, node: node@.name }),
        },
{
    get_attribute(node, "name")
}

/// The required `namespace` attribute.
pub fn namespace_attribute(node: &XmlNode) -> (r: Result<String, Error>)
    ensures
        match r {
            Ok(v) => lookup_attr(node@.attributes, "namespace"@) == Some(v@),
            Err(e) => lookup_attr(node@.attributes, "namespace"@) is None && e@
                == (ErrorV::MissingAttribute { attribute: "namespace"@, node: node@.name }),
        },
{
    get_attribute(node, "namespace")
}

/// The required `value` attribute.
pub fn value_attribute(node: &XmlNode) -> (r: Result<String, Error>)
    ensures
        match r {
            Ok(v) => lookup_attr(node@.attributes, "value"@) == Some(v@),
            Err(e) => lookup_attr(node@.attributes, "value"@) is None && e@
                == (ErrorV::MissingAttribute { attribute: "value"@, node: node@.name }),
        },
{
    get_attribute(node, "value")
}

/// The required `ref` attribute.
pub fn ref_attribute(node: &XmlNode) -> (r: Result<String, Error>)
    ensures
        match r {
            Ok(v) => lookup_attr(node@.attributes, "ref"@) == Some(v@),
            Err(e) => lookup_attr(node@.attributes, "ref"@) is None && e@
                == (ErrorV::MissingAttribute { attribute: "ref"@, node: node@.name }),
        },
{
    get_attribute(node, "ref")
}

/// The required `type` attribute.
pub fn type_attribute(node: &XmlNode) -> (r: Result<String, Error>)
    ensures
        match r {
            Ok(v) => lookup_attr(node@.attributes, "type"@) == Some(v@),
            Err(e) => lookup_attr(node@.attributes, "type"@) is None && e@
                == (ErrorV::MissingAttribute { attribute: "type"@, node: node@.name }),
        },
{
    get_attribute(node, "type")
}

/// Whether the node carries `use="required"`.
pub fn use_required(node: &XmlNode) -> (r: bool)
    ensures
        r == (lookup_attr(node@.attributes, "use"@) == Some("required"@)),
{
    match node.attribute("use") {
        Some(v) => str_eq(v.as_str(), "required"),
        None => false,
    }
}

/// The optional `default` attribute.
pub fn default_attribute(node: &XmlNode) -> (r: Option<String>)
    ensures
        crate::views::opt_view(r) == lookup_attr(node@.attributes, "default"@),
{
    match node.attribute("default") {
        Some(v) => Some(v.clone()),
        None => None,
    }
}

/// The optional `fixed` attribute.
pub fn fixed_attribute(node: &XmlNode) -> (r: Option<String>)
    ensures
        crate::views::opt_view(r) == lookup_attr(node@.attributes, "fixed"@),
{
    match node.attribute("fixed") {
        Some(v) => Some(v.clone()),
        None => None,
    }
}

/// Whether the node carries a `ref` attribute.
pub fn is_ref(node: &XmlNode) -> (r: bool)
    ensures
        r == (lookup_attr(node@.attributes, "ref"@) is Some),
{
    match node.attribute("ref") {
        Some(_) => true,
        None => false,
    }
}

/// The required `base` attribute.
pub fn base_attribute(node: &XmlNode) -> (r: Result<String, Error>)
    ensures
        match r {
            Ok(v) => lookup_attr(node@.attributes, "base"@) == Some(v@),
            Err(e) => lookup_attr(node@.attributes, "base"@) is None && e@
                == (ErrorV::MissingAttribute { attribute: "base"@, node: node@.name }),
        },
{
    get_attribute(node, "base")
}

/// An occurrence constraint: how many times a structural member may repeat.
/// `max_occurs` of `None` means unbounded.
#[derive(Copy, Clone, Debug, Eq, PartialEq)]
pub struct Occurs {
    pub min_occurs: u64,
    /// None means `unbounded`.
    pub max_occurs: Option<u64>,
}

impl Default for Occurs {
    /// The default constraint: exactly once.
    fn default() -> (r: Occurs)
        ensures
            r.min_occurs == 1 && r.max_occurs == Some(1u64),
    {
        Occurs { min_occurs: 1, max_occurs: Some(1) }
    }
}

/// What parsing occurrence attributes yields. An absent `minOccurs` defaults
/// to 1 and an absent `maxOccurs` to `Some(1)`; `maxOccurs="unbounded"`
/// yields `None`; an attribute that is not a decimal number is an
/// `InvalidNumber` error; and when both bounds are present,
/// `min_occurs > max_occurs` is rejected with `InvalidOccurs` — never
/// silently clamped.
pub open spec fn occurs_from_map_spec(attrs: Seq<(Seq<char>, Seq<char>)>) -> Result<
    Occurs,
    ErrorV,
> {
    let minr = match lookup_attr(attrs, "minOccurs"@) {
        None => Ok(1u64),
        Some(sval) => match parse_u64_spec(sval) {
            Some(v) => Ok(v),
            None => Err(ErrorV::InvalidNumber { value: sval }),
        },
    };
    match minr {
        Err(e) => Err(e),
        Ok(min) => {
            let maxr = match lookup_attr(attrs, "maxOccurs"@) {
                None => Ok(Some(1u64)),
                Some(sval) => if sval == "unbounded"@ {
                    Ok(None)
                } else {
                    match parse_u64_spec(sval) {
                        Some(v) => Ok(Some(v)),
                        None => Err(ErrorV::InvalidNumber { value: sval }),
                    }
                },
            };
            match maxr {
                Err(e) => Err(e),
                Ok(max) => match max {
                    Some(m) => if min > m {
                        Err(ErrorV::InvalidOccurs { min_occurs: min, max_occurs: m })
                    } else {
                        Ok(Occurs { min_occurs: min, max_occurs: Some(m) })
                    },
                    None => Ok(Occurs { min_occurs: min, max_occurs: None }),
                },
            }
        },
    }
}

impl Occurs {
    /// Parses the occurrence constraint from a node's own attributes.
    pub fn from_xml(node: &XmlNode) -> (r: Result<Occurs, Error>)
        ensures
            match r {
                Ok(o) => occurs_from_map_spec(node@.attributes) == Ok::<Occurs, ErrorV>(o),
                Err(e) => occurs_from_map_spec(node@.attributes) == Err::<Occurs, ErrorV>(e@),
            },
    {
        Occurs::from_map(&node.attributes)
    }

    /// Parses the occurrence constraint from an attribute mapping.
    pub fn from_map(map: &Vec<(String, String)>) -> (r: Result<Occurs, Error>)
        ensures
            match r {
                Ok(o) => occurs_from_map_spec(crate::xml::attr_views(map@)) == Ok::<
                    Occurs,
                    ErrorV,
                >(o),
                Err(e) => occurs_from_map_spec(crate::xml::attr_views(map@)) == Err::<
                    Occurs,
                    ErrorV,
                >(e@),
            },
    {
        let min_occurs: u64 = match find_attr(map, "minOccurs") {
            None => 1,
            Some(sval) => match parse_u64(sval.as_str()) {
                Some(v) => v,
                None => {
                    return Err(Error::InvalidNumber { value: sval.clone() });
                },
            },
        };
        let max_occurs: Option<u64> = match find_attr(map, "maxOccurs") {
            None => Some(1),
            Some(sval) => if str_eq(sval.as_str(), "unbounded") {
                None
            } else {
                match parse_u64(sval.as_str()) {
                    Some(v) => Some(v),
                    None => {
                        return Err(Error::InvalidNumber { value: sval.clone() });
                    },
                }
            },
        };
        if let Some(the_max) = max_occurs {
            if min_occurs > the_max {
                return Err(
                    Error::InvalidOccurs { min_occurs, max_occurs: the_max },
                );
            }
        }
        Ok(Occurs { min_occurs, max_occurs })
    }
}

/// A `complexType` entry. Only its identity and its annotation are modeled;
/// the inner content model is carried by the document, not by this record.
#[derive(Debug, Clone)]
pub struct ComplexType {
    pub id: Id,
    pub index: u64,
    pub annotation: Option<Annotation>,
}

/// The mathematical shape of a [`ComplexType`].
pub struct ComplexTypeV {
    pub id: IdV,
    pub index: u64,
    pub annotation: Option<AnnotationV>,
}

impl View for ComplexType {
    type V = ComplexTypeV;

    open spec fn view(&self) -> ComplexTypeV {
        ComplexTypeV { id: self.id@, index: self.index, annotation: opt_view(self.annotation) }
    }
}

/// A `simpleType` entry, modeled like a complex type.
#[derive(Debug, Clone)]
pub struct SimpleType {
    pub id: Id,
    pub index: u64,
    pub annotation: Option<Annotation>,
}

/// The mathematical shape of a [`SimpleType`].
pub struct SimpleTypeV {
    pub id: IdV,
    pub index: u64,
    pub annotation: Option<AnnotationV>,
}

impl View for SimpleType {
    type V = SimpleTypeV;

    open spec fn view(&self) -> SimpleTypeV {
        SimpleTypeV { id: self.id@, index: self.index, annotation: opt_view(self.annotation) }
    }
}

/// An `import` record: the imported namespace, kept for linking.
#[derive(Debug, Clone)]
pub struct Import {
    pub id: Id,
    pub index: u64,
    pub namespace: String,
    pub annotation: Option<Annotation>,
}

/// The mathematical shape of an [`Import`].
pub struct ImportV {
    pub id: IdV,
    pub index: u64,
    pub namespace: Seq<char>,
    pub annotation: Option<AnnotationV>,
}

impl View for Import {
    type V = ImportV;

    open spec fn view(&self) -> ImportV {
        ImportV {
            id: self.id@,
            index: self.index,
            namespace: self.namespace@,
            annotation: opt_view(self.annotation),
        }
    }
}

/// What parsing a named, shallow entry yields: the expected tag, the first
/// annotation child, and the identity from the required `name` attribute.
pub open spec fn named_entry_spec(n: XmlNodeV, index: u64, tag: Seq<char>, t: EntryTypeV) -> Result<
    (IdV, Option<AnnotationV>),
    ErrorV,
> {
    if n.name != tag {
        Err(ErrorV::UnexpectedNode { expected: tag, actual: n.name })
    } else {
        match first_ann(n.children, index, n.children.len() as int) {
            Err(e) => Err(e),
            Ok(ann) => match lookup_attr(n.attributes, "name"@) {
                None => Err(ErrorV::MissingAttribute { attribute: "name"@, node: n.name }),
                Some(nm) => Ok((IdV { entry_type: t, name: nm }, ann)),
            },
        }
    }
}

/// Parses the shared shallow shape: tag check, first annotation, `name`.
fn parse_named_entry(node: &XmlNode, index: u64, tag: &str, t: EntryType) -> (r: Result<
    (Id, Option<Annotation>),
    Error,
>)
    ensures
        match r {
            Ok(p) => named_entry_spec(node@, index, tag@, t@) == Ok::<
                (IdV, Option<AnnotationV>),
                ErrorV,
            >((p.0@, opt_view(p.1))),
            Err(e) => named_entry_spec(node@, index, tag@, t@) == Err::<
                (IdV, Option<AnnotationV>),
                ErrorV,
            >(e@),
        },
{
    if !str_eq(node.name.as_str(), tag) {
        return Err(Error::UnexpectedNode { expected: tag.to_owned(), actual: node.name.clone() });
    }
    let annotation = match first_annotation(node, index) {
        Ok(a) => a,
        Err(e) => {
            return Err(e);
        },
    };
    let name = match name_attribute(node) {
        Ok(nm) => nm,
        Err(e) => {
            return Err(e);
        },
    };
    Ok((Id { entry_type: t, name }, annotation))
}

impl ComplexType {
    /// What parsing a `complexType` node yields.
    pub open spec fn from_xml_spec(n: XmlNodeV, index: u64) -> Result<ComplexTypeV, ErrorV> {
        match named_entry_spec(n, index, "complexType"@, EntryTypeV::ComplexType) {
            Err(e) => Err(e),
            Ok(p) => Ok(ComplexTypeV { id: p.0, index, annotation: p.1 }),
        }
    }

    /// Parses a `complexType` node.
    pub fn from_xml(node: &XmlNode, index: u64) -> (r: Result<ComplexType, Error>)
        ensures
            match r {
                Ok(c) => Self::from_xml_spec(node@, index) == Ok::<ComplexTypeV, ErrorV>(c@),
                Err(e) => Self::from_xml_spec(node@, index) == Err::<ComplexTypeV, ErrorV>(e@),
            },
    {
        match parse_named_entry(node, index, "complexType", EntryType::ComplexType) {
            Ok(p) => Ok(ComplexType { id: p.0, index, annotation: p.1 }),
            Err(e) => Err(e),
        }
    }

    /// The documentation text of this type's annotation, or empty.
    pub fn documentation(&self) -> (r: String)
        ensures
            r@ == doc_text(self@.annotation),
    {
        match &self.annotation {
            Some(a) => a.documentation(),
            None => String::new(),
        }
    }
}

impl SimpleType {
    /// What parsing a `simpleType` node yields.
    pub open spec fn from_xml_spec(n: XmlNodeV, index: u64) -> Result<SimpleTypeV, ErrorV> {
        match named_entry_spec(n, index, "simpleType"@, EntryTypeV::SimpleType) {
            Err(e) => Err(e),
            Ok(p) => Ok(SimpleTypeV { id: p.0, index, annotation: p.1 }),
        }
    }

    /// Parses a `simpleType` node.
    pub fn from_xml(node: &XmlNode, index: u64) -> (r: Result<SimpleType, Error>)
        ensures
            match r {
                Ok(c) => Self::from_xml_spec(node@, index) == Ok::<SimpleTypeV, ErrorV>(c@),
                Err(e) => Self::from_xml_spec(node@, index) == Err::<SimpleTypeV, ErrorV>(e@),
            },
    {
        match parse_named_entry(node, index, "simpleType", EntryType::SimpleType) {
            Ok(p) => Ok(SimpleType { id: p.0, index, annotation: p.1 }),
            Err(e) => Err(e),
        }
    }

    /// The documentation text of this type's annotation, or empty.
    pub fn documentation(&self) -> (r: String)
        ensures
            r@ == doc_text(self@.annotation),
    {
        match &self.annotation {
            Some(a) => a.documentation(),
            None => String::new(),
        }
    }
}

impl Import {
    /// What parsing an `import` node yields: the node must be tagged
    /// `import`; the first annotation child is attached; the required
    /// `namespace` attribute names the record.
    pub open spec fn from_xml_spec(n: XmlNodeV, index: u64) -> Result<ImportV, ErrorV> {
        if n.name != "import"@ {
            Err(ErrorV::UnexpectedNode { expected: "import"@, actual: n.name })
        } else {
            match first_ann(n.children, index, n.children.len() as int) {
                Err(e) => Err(e),
                Ok(ann) => match lookup_attr(n.attributes, "namespace"@) {
                    None => Err(
                        ErrorV::MissingAttribute { attribute: "namespace"@, node: n.name },
                    ),
                    Some(ns) => Ok(
                        ImportV {
                            id: IdV { entry_type: EntryTypeV::Import, name: ns },
                            index,
                            namespace: ns,
                            annotation: ann,
                        },
                    ),
                },
            }
        }
    }

    /// Parses an `import` node.
    pub fn from_xml(node: &XmlNode, index: u64) -> (r: Result<Import, Error>)
        ensures
            match r {
                Ok(c) => Self::from_xml_spec(node@, index) == Ok::<ImportV, ErrorV>(c@),
                Err(e) => Self::from_xml_spec(node@, index) == Err::<ImportV, ErrorV>(e@),
            },
    {
        if !str_eq(node.name.as_str(), "import") {
            return Err(
                Error::UnexpectedNode { expected: "import".to_owned(), actual: node.name.clone() },
            );
        }
        let annotation = match first_annotation(node, index) {
            Ok(a) => a,
            Err(e) => {
                return Err(e);
            },
        };
        let ns = match namespace_attribute(node) {
            Ok(v) => v,
            Err(e) => {
                return Err(e);
            },
        };
        Ok(
            Import {
                id: Id { entry_type: EntryType::Import, name: ns.clone() },
                index,
                namespace: ns,
                annotation,
            },
        )
    }

    /// The documentation text of this record's annotation, or empty.
    pub fn documentation(&self) -> (r: String)
        ensures
            r@ == doc_text(self@.annotation),
    {
        match &self.annotation {
            Some(a) => a.documentation(),
            None => String::new(),
        }
    }
}

/// A top-level schema entry.
#[derive(Debug)]
pub enum Entry {
    Annotation(Annotation),
    AttributeGroup(AttributeGroup),
    ComplexType(ComplexType),
    Element(ElementDecl),
    Group(Group),
    Import(Import),
    SimpleType(SimpleType),
}

/// The mathematical shape of an [`Entry`].
pub enum EntryV {
    Annotation(AnnotationV),
    AttributeGroup(AttributeGroupV),
    ComplexType(ComplexTypeV),
    Element(ElementDeclV),
    Group(GroupV),
    Import(ImportV),
    SimpleType(SimpleTypeV),
}

impl View for Entry {
    type V = EntryV;

    open spec fn view(&self) -> EntryV {
        match self {
            Entry::Annotation(x) => EntryV::Annotation(x@),
            Entry::AttributeGroup(x) => EntryV::AttributeGroup(x@),
            Entry::ComplexType(x) => EntryV::ComplexType(x@),
            Entry::Element(x) => EntryV::Element(x@),
            Entry::Group(x) => EntryV::Group(x@),
            Entry::Import(x) => EntryV::Import(x@),
            Entry::SimpleType(x) => EntryV::SimpleType(x@),
        }
    }
}

/// The identity of an entry.
pub open spec fn entry_id_v(e: EntryV) -> IdV {
    match e {
        EntryV::Annotation(x) => x.id,
        EntryV::AttributeGroup(x) => x.id,
        EntryV::ComplexType(x) => x.id,
        EntryV::Element(x) => x.id,
        EntryV::Group(x) => x.id,
        EntryV::Import(x) => x.id,
        EntryV::SimpleType(x) => x.id,
    }
}

/// The documentation text of an entry.
pub open spec fn entry_doc_v(e: EntryV) -> Seq<char> {
    match e {
        EntryV::Annotation(x) => x.documentation,
        EntryV::AttributeGroup(x) => doc_text(x.annotation),
        EntryV::ComplexType(x) => doc_text(x.annotation),
        EntryV::Element(x) => doc_text(x.annotation),
        EntryV::Group(x) => doc_text(x.annotation),
        EntryV::Import(x) => doc_text(x.annotation),
        EntryV::SimpleType(x) => doc_text(x.annotation),
    }
}

/// What parsing a top-level entry yields: dispatch on the node's tag over
/// the closed set of top-level constructs.
pub open spec fn entry_from_xml_spec(n: XmlNodeV, index: u64) -> Result<EntryV, ErrorV> {
    if n.name == "annotation"@ {
        match annotation_from_xml_spec(n, index) {
            Ok(x) => Ok(EntryV::Annotation(x)),
            Err(e) => Err(e),
        }
    } else if n.name == "attributeGroup"@ {
        match ag_from_xml_spec(n, index) {
            Ok(x) => Ok(EntryV::AttributeGroup(x)),
            Err(e) => Err(e),
        }
    } else if n.name == "complexType"@ {
        match ComplexType::from_xml_spec(n, index) {
            Ok(x) => Ok(EntryV::ComplexType(x)),
            Err(e) => Err(e),
        }
    } else if n.name == "element"@ {
        match element_from_xml_spec(n, index) {
            Ok(x) => Ok(EntryV::Element(x)),
            Err(e) => Err(e),
        }
    } else if n.name == "group"@ {
        match group_from_xml_spec(n, index) {
            Ok(x) => Ok(EntryV::Group(x)),
            Err(e) => Err(e),
        }
    } else if n.name == "import"@ {
        match Import::from_xml_spec(n, index) {
            Ok(x) => Ok(EntryV::Import(x)),
            Err(e) => Err(e),
        }
    } else if n.name == "simpleType"@ {
        match SimpleType::from_xml_spec(n, index) {
            Ok(x) => Ok(EntryV::SimpleType(x)),
            Err(e) => Err(e),
        }
    } else {
        Err(ErrorV::UnexpectedNode { expected: "schema entry"@, actual: n.name })
    }
}

impl Entry {
    /// Parses a top-level entry node.
    pub fn from_xml(node: &XmlNode, index: u64) -> (r: Result<Entry, Error>)
        ensures
            match r {
                Ok(en) => entry_from_xml_spec(node@, index) == Ok::<EntryV, ErrorV>(en@),
                Err(e) => entry_from_xml_spec(node@, index) == Err::<EntryV, ErrorV>(e@),
            },
    {
        let t = node.name.as_str();
        if str_eq(t, "annotation") {
            match Annotation::from_xml(node, index) {
                Ok(x) => Ok(Entry::Annotation(x)),
                Err(e) => Err(e),
            }
        } else if str_eq(t, "attributeGroup") {
            match AttributeGroup::from_xml(node, index) {
                Ok(x) => Ok(Entry::AttributeGroup(x)),
                Err(e) => Err(e),
            }
        } else if str_eq(t, "complexType") {
            match ComplexType::from_xml(node, index) {
                Ok(x) => Ok(Entry::ComplexType(x)),
                Err(e) => Err(e),
            }
        } else if str_eq(t, "element") {
            match ElementDecl::from_xml(node, index) {
                Ok(x) => Ok(Entry::Element(x)),
                Err(e) => Err(e),
            }
        } else if str_eq(t, "group") {
            match Group::from_xml(node, index) {
                Ok(x) => Ok(Entry::Group(x)),
                Err(e) => Err(e),
            }
        } else if str_eq(t, "import") {
            match Import::from_xml(node, index) {
                Ok(x) => Ok(Entry::Import(x)),
                Err(e) => Err(e),
            }
        } else if str_eq(t, "simpleType") {
            match SimpleType::from_xml(node, index) {
                Ok(x) => Ok(Entry::SimpleType(x)),
                Err(e) => Err(e),
            }
        } else {
            Err(
                Error::UnexpectedNode {
                    expected: "schema entry".to_owned(),
                    actual: node.name.clone(),
                },
            )
        }
    }

    /// The identity of this entry.
    pub fn id(&self) -> (r: &Id)
        ensures
            r@ == entry_id_v(self@),
    {
        match self {
            Entry::Annotation(x) => &x.id,
            Entry::AttributeGroup(x) => &x.id,
            Entry::ComplexType(x) => &x.id,
            Entry::Element(x) => &x.id,
            Entry::Group(x) => &x.id,
            Entry::Import(x) => &x.id,
            Entry::SimpleType(x) => &x.id,
        }
    }

    /// The documentation text of this entry, or empty.
    pub fn documentation(&self) -> (r: String)
        ensures
            r@ == entry_doc_v(self@),
    {
        match self {
            Entry::Annotation(x) => x.documentation(),
            Entry::AttributeGroup(x) => x.documentation(),
            Entry::ComplexType(x) => x.documentation(),
            Entry::Element(x) => x.documentation(),
            Entry::Group(x) => x.documentation(),
            Entry::Import(x) => x.documentation(),
            Entry::SimpleType(x) => x.documentation(),
        }
    }
}

/// The index of the first entry at or after `i` whose identity equals `id`,
/// or the length when there is none.
pub open spec fn find_index(entries: Seq<EntryV>, id: IdV, i: int) -> int
    decreases entries.len() - i,
{
    if i < 0 || i >= entries.len() {
        entries.len() as int
    } else if entry_id_v(entries[i]) == id {
        i
    } else {
        find_index(entries, id, i + 1)
    }
}

/// The schema container: the ordered top-level entries and the document's
/// declared namespace prefix. First-insertion order is preserved; lookup
/// and removal are identity-keyed linear scans.
#[derive(Debug)]
pub struct Xsd {
    entries: Vec<Entry>,
    prefix: String,
}

/// The mathematical shape of an [`Xsd`].
pub struct XsdV {
    pub entries: Seq<EntryV>,
    pub prefix: Seq<char>,
}

impl View for Xsd {
    type V = XsdV;

    closed spec fn view(&self) -> XsdV {
        XsdV { entries: seq_view(self.entries@), prefix: self.prefix@ }
    }
}

impl Default for Xsd {
    /// The empty container with the conventional `xs` prefix.
    fn default() -> (r: Xsd)
        ensures
            r@.entries == Seq::<EntryV>::empty() && r@.prefix == "xs"@,
    {
        let x = Xsd { entries: Vec::new(), prefix: "xs".to_owned() };
        proof {
            assert(seq_view(x.entries@) =~= Seq::<EntryV>::empty());
        }
        x
    }
}

/// The namespace URI that identifies the schema language.
pub open spec fn schema_ns_uri() -> Seq<char> {
    "http://www.w3.org/2001/XMLSchema"@
}

/// Whether an attribute key declares a namespace prefix.
pub open spec fn is_xmlns_key(k: Seq<char>) -> bool {
    k.len() >= 6 && k.subrange(0, 6) == "xmlns:"@
}

/// The prefix declared for the schema namespace by the first matching
/// attribute at or after `i`, or empty when none declares it. The prefix
/// is the text between the key's first and second colons, so a key with a
/// second colon contributes only the segment after `xmlns:`.
pub open spec fn find_prefix(attrs: Seq<(Seq<char>, Seq<char>)>, i: int) -> Seq<char>
    decreases attrs.len() - i,
{
    if i < 0 || i >= attrs.len() {
        Seq::empty()
    } else if attrs[i].1 == schema_ns_uri() && is_xmlns_key(attrs[i].0) {
        attrs[i].0.subrange(6, crate::primitives::colon_from(attrs[i].0, 6))
    } else {
        find_prefix(attrs, i + 1)
    }
}

/// The entries parsed from the first `i` children, each with its document
/// position as lineage.
pub open spec fn entries_upto(children: Seq<XmlNodeV>, i: int) -> Result<Seq<EntryV>, ErrorV>
    decreases i,
{
    if i <= 0 {
        Ok(Seq::empty())
    } else {
        match entries_upto(children, i - 1) {
            Err(e) => Err(e),
            Ok(acc) => match entry_from_xml_spec(children[i - 1], (i - 1) as u64) {
                Ok(en) => Ok(acc.push(en)),
                Err(e) => Err(e),
            },
        }
    }
}

proof fn lemma_entries_upto_err(children: Seq<XmlNodeV>, i: int, j: int)
    requires
        entries_upto(children, i) is Err,
        i <= j,
    ensures
        entries_upto(children, j) == entries_upto(children, i),
    decreases j - i,
{
    if i < j {
        lemma_entries_upto_err(children, i, j - 1);
    }
}

/// What parsing a whole schema document yields: the root must be tagged
/// `schema` and must declare a prefix for the schema namespace through an
/// `xmlns:` attribute — an undeclared or empty prefix is the hard
/// `EmptyPrefix` failure — and every child is parsed as a top-level entry
/// in document order.
pub open spec fn xsd_parse_spec(root: XmlNodeV) -> Result<XsdV, ErrorV> {
    if root.name != "schema"@ {
        Err(ErrorV::UnexpectedNode { expected: "schema"@, actual: root.name })
    } else {
        let p = find_prefix(root.attributes, 0);
        if p.len() == 0 {
            Err(ErrorV::EmptyPrefix)
        } else {
            match entries_upto(root.children, root.children.len() as int) {
                Err(e) => Err(e),
                Ok(es) => Ok(XsdV { entries: es, prefix: p }),
            }
        }
    }
}

/// What loading schema text yields: text outside [`crate::xml::decl_safe`]
/// is refused before the XML parser sees it, since the parser's
/// declaration path cannot handle it; a document that is not well-formed
/// XML fails as an I/O-level error; otherwise the root is parsed per
/// [`xsd_parse_spec`].
pub open spec fn load_str_spec(s: Seq<char>) -> Result<XsdV, ErrorV> {
    if !crate::xml::decl_safe(s) {
        Err(ErrorV::Io { message: "the document's prolog holds text that is not ASCII"@ })
    } else if crate::xml::has_double_gt(s) {
        Err(
            ErrorV::Io {
                message: "the document holds a '>' immediately after another '>'"@,
            },
        )
    } else {
        match crate::xml::parsed_document(s) {
            None => Err(ErrorV::Io { message: "the document is not well-formed XML"@ }),
            Some(root) => xsd_parse_spec(root),
        }
    }
}

impl Xsd {
    /// The empty container with the given namespace prefix.
    pub fn new(prefix: &str) -> (r: Xsd)
        ensures
            r@.entries == Seq::<EntryV>::empty() && r@.prefix == prefix@,
    {
        let x = Xsd { entries: Vec::new(), prefix: prefix.to_owned() };
        proof {
            assert(seq_view(x.entries@) =~= Seq::<EntryV>::empty());
        }
        x
    }

    /// The document's namespace prefix.
    pub fn prefix(&self) -> (r: &str)
        ensures
            r@ == self@.prefix,
    {
        self.prefix.as_str()
    }

    /// Appends an entry, preserving first-insertion order. Duplicate
    /// identities are not rejected here; they are a caller error detected
    /// at `find`.
    pub fn add_entry(&mut self, entry: Entry) -> (r: Result<(), Error>)
        ensures
            r is Ok,
            final(self)@.entries == old(self)@.entries.push(entry@),
            final(self)@.prefix == old(self)@.prefix,
    {
        let ghost old_entries = self.entries@;
        self.entries.push(entry);
        proof {
            assert(seq_view(self.entries@) =~= seq_view(old_entries).push(self.entries@.last()@));
        }
        Ok(())
    }

    /// Finds the unique entry with the given identity: the first match of a
    /// linear scan, or `NotFound` naming the identity when no entry bears
    /// it.
    pub fn find(&self, id: &Id) -> (r: Result<&Entry, Error>)
        ensures
            match r {
                Ok(e) => find_index(self@.entries, id@, 0) < self@.entries.len() && e@
                    == self@.entries[find_index(self@.entries, id@, 0)],
                Err(e) => find_index(self@.entries, id@, 0) == self@.entries.len() && e@
                    == (ErrorV::NotFound { name: id_display_spec(id@) }),
            },
    {
        let n = self.entries.len();
        let mut i: usize = 0;
        while i < n
            invariant
                0 <= i <= n,
                n == self.entries.len(),
                find_index(self@.entries, id@, 0) == find_index(self@.entries, id@, i as int),
                forall|j: int| 0 <= j < i ==> entry_id_v(self@.entries[j]) != id@,
            decreases n - i,
        {
            let entry = &self.entries[i];
            if entry.id() == id {
                return Ok(entry);
            }
            i = i + 1;
        }
        Err(Error::NotFound { name: id.display_string() })
    }

    /// Removes and returns the first entry with the given identity, leaving
    /// the rest in their original order; fails with `NotFound` — and leaves
    /// the container unchanged — when no entry bears it.
    pub fn remove(&mut self, id: &Id) -> (r: Result<Entry, Error>)
        ensures
            match r {
                Ok(e) => {
                    let i = find_index(old(self)@.entries, id@, 0);
                    &&& i < old(self)@.entries.len()
                    &&& e@ == old(self)@.entries[i]
                    &&& final(self)@.entries == old(self)@.entries.remove(i)
                    &&& final(self)@.prefix == old(self)@.prefix
                },
                Err(e) => find_index(old(self)@.entries, id@, 0) == old(self)@.entries.len()
                    && final(self)@ == old(self)@ && e@ == (ErrorV::NotFound {
                    name: id_display_spec(id@),
                }),
            },
    {
        let n = self.entries.len();
        let mut i: usize = 0;
        while i < n
            invariant
                0 <= i <= n,
                n == self.entries.len(),
                self == old(self),
                find_index(self@.entries, id@, 0) == find_index(self@.entries, id@, i as int),
            decreases n - i,
        {
            let entry = &self.entries[i];
            if entry.id() == id {
                let ghost old_entries = self.entries@;
                let e = self.entries.remove(i);
                proof {
                    assert(seq_view(self.entries@) =~= seq_view(old_entries).remove(i as int));
                }
                return Ok(e);
            }
            i = i + 1;
        }
        Err(Error::NotFound { name: id.display_string() })
    }

    /// The entries, in first-insertion order.
    pub fn entries(&self) -> (r: &Vec<Entry>)
        ensures
            seq_view(r@) == self@.entries,
    {
        &self.entries
    }

    /// Parses a whole schema document from its root node.
    #[verifier::loop_isolation(false)]
    pub fn parse(root: &XmlNode) -> (r: Result<Xsd, Error>)
        ensures
            match r {
                Ok(x) => xsd_parse_spec(root@) == Ok::<XsdV, ErrorV>(x@),
                Err(e) => xsd_parse_spec(root@) == Err::<XsdV, ErrorV>(e@),
            },
    {
        if !str_eq(root.name.as_str(), "schema") {
            return Err(
                Error::UnexpectedNode { expected: "schema".to_owned(), actual: root.name.clone() },
            );
        }
        let prefix = match find_schema_prefix(root) {
            Some(p) => p,
            None => {
                return Err(Error::EmptyPrefix);
            },
        };
        let mut xsd = Xsd::new(prefix.as_str());
        let n = root.children.len();
        let mut i: usize = 0;
        proof {
            lemma_children_view(root.children@);
        }
        while i < n
            invariant
                0 <= i <= n,
                entries_upto(root@.children, i as int) == Ok::<Seq<EntryV>, ErrorV>(xsd@.entries),
                xsd@.prefix == prefix@,
            decreases n - i,
        {
            let child = &root.children[i];
            match Entry::from_xml(child, i as u64) {
                Ok(entry) => {
                    match xsd.add_entry(entry) {
                        Ok(_) => {},
                        Err(e) => {
                            return Err(e);
                        },
                    }
                },
                Err(e) => {
                    proof {
                        lemma_entries_upto_err(root@.children, i as int + 1, n as int);
                    }
                    return Err(e);
                },
            }
            i = i + 1;
        }
        Ok(xsd)
    }

    /// Parses a whole schema document from its text. Text the XML parser
    /// cannot handle — a prolog with non-ASCII declaration text, or a `>`
    /// pair — is refused up front, and text that is not a well-formed XML
    /// document fails as an I/O-level error.
    pub fn load_str(xml: &str) -> (r: Result<Xsd, Error>)
        ensures
            match r {
                Ok(x) => load_str_spec(xml@) == Ok::<XsdV, ErrorV>(x@),
                Err(e) => load_str_spec(xml@) == Err::<XsdV, ErrorV>(e@),
            },
    {
        if !crate::xml::decl_safe_check(xml) {
            return Err(
                Error::Io {
                    message: "the document's prolog holds text that is not ASCII".to_owned(),
                },
            );
        }
        if !crate::xml::no_double_gt_check(xml) {
            return Err(
                Error::Io {
                    message: "the document holds a '>' immediately after another '>'".to_owned(),
                },
            );
        }
        match crate::xml::parse_document(xml) {
            Some(root) => Xsd::parse(&root),
            None => Err(Error::Io { message: "the document is not well-formed XML".to_owned() }),
        }
    }
}

/// Scans the root's attributes for the schema namespace declaration and
/// returns the non-empty prefix it declares, if any.
#[verifier::loop_isolation(false)]
fn find_schema_prefix(root: &XmlNode) -> (r: Option<String>)
    ensures
        match r {
            Some(p) => p@ == find_prefix(root@.attributes, 0) && p@.len() > 0,
            None => find_prefix(root@.attributes, 0).len() == 0,
        },
{
    let n = root.attributes.len();
    let mut i: usize = 0;
    while i < n
        invariant
            0 <= i <= n,
            find_prefix(root@.attributes, 0) == find_prefix(root@.attributes, i as int),
        decreases n - i,
    {
        let k = &root.attributes[i].0;
        let v = &root.attributes[i].1;
        let klen = k.as_str().unicode_len();
        if str_eq(v.as_str(), "http://www.w3.org/2001/XMLSchema") && klen >= 6 && str_eq(
            k.as_str().substring_char(0, 6),
            "xmlns:",
        ) {
            let c2 = crate::primitives::find_colon(k.as_str(), 6);
            let p = k.as_str().substring_char(6, c2);
            proof {
                assert(root@.attributes[i as int].0 == k@);
            }
            let plen = p.unicode_len();
            if plen > 0 {
                return Some(p.to_owned());
            } else {
                return None;
            }
        }
        i = i + 1;
    }
    None
}

/// An entry whose identity no existing entry bears is found right after it
/// is added: pushing it onto the container and scanning for its identity
/// yields exactly the new entry, at the end.
pub proof fn lemma_add_then_find(entries: Seq<EntryV>, e: EntryV)
    requires
        find_index(entries, entry_id_v(e), 0) == entries.len(),
    ensures
        find_index(entries.push(e), entry_id_v(e), 0) == entries.len(),
        entries.push(e)[find_index(entries.push(e), entry_id_v(e), 0)] == e,
{
    lemma_find_index_push(entries, e, entry_id_v(e), 0);
}

proof fn lemma_find_index_push(entries: Seq<EntryV>, e: EntryV, id: IdV, i: int)
    requires
        0 <= i <= entries.len(),
        find_index(entries, id, i) == entries.len(),
    ensures
        find_index(entries.push(e), id, i) == if entry_id_v(e) == id {
            entries.len() as int
        } else {
            entries.len() + 1int
        },
    decreases entries.len() - i,
{
    if i < entries.len() {
        lemma_find_index_push(entries, e, id, i + 1);
    } else {
        assert(find_index(entries.push(e), id, entries.len() + 1int) == entries.push(
            e,
        ).len() as int);
    }
}

/// When both occurrence bounds are given as plain numbers — or left to
/// their defaults of one — parsing fails exactly when the minimum exceeds
/// the maximum, with the `InvalidOccurs` error carrying both, and succeeds
/// with exactly those bounds otherwise.
pub proof fn lemma_occurs_bounded(attrs: Seq<(Seq<char>, Seq<char>)>, min: u64, max: u64)
    requires
        match lookup_attr(attrs, "minOccurs"@) {
            Some(s) => parse_u64_spec(s) == Some(min),
            None => min == 1,
        },
        match lookup_attr(attrs, "maxOccurs"@) {
            Some(s) => s != "unbounded"@ && parse_u64_spec(s) == Some(max),
            None => max == 1,
        },
    ensures
        occurs_from_map_spec(attrs) == if min > max {
            Err::<Occurs, ErrorV>(ErrorV::InvalidOccurs { min_occurs: min, max_occurs: max })
        } else {
            Ok::<Occurs, ErrorV>(Occurs { min_occurs: min, max_occurs: Some(max) })
        },
{
}

/// A `maxOccurs` of `unbounded` always parses to an absent maximum, for
/// any well-formed minimum.
pub proof fn lemma_occurs_unbounded(attrs: Seq<(Seq<char>, Seq<char>)>, min: u64)
    requires
        match lookup_attr(attrs, "minOccurs"@) {
            Some(s) => parse_u64_spec(s) == Some(min),
            None => min == 1,
        },
        lookup_attr(attrs, "maxOccurs"@) == Some("unbounded"@),
    ensures
        occurs_from_map_spec(attrs) == Ok::<Occurs, ErrorV>(
            Occurs { min_occurs: min, max_occurs: None },
        ),
{
}

/// Absent occurrence attributes default to exactly once: `{1, Some(1)}`.
pub proof fn lemma_occurs_defaults(attrs: Seq<(Seq<char>, Seq<char>)>)
    requires
        lookup_attr(attrs, "minOccurs"@) is None,
        lookup_attr(attrs, "maxOccurs"@) is None,
    ensures
        occurs_from_map_spec(attrs) == Ok::<Occurs, ErrorV>(
            Occurs { min_occurs: 1, max_occurs: Some(1u64) },
        ),
{
}

/// The value of the first attribute named `key` in the mapping.
fn find_attr<'a>(map: &'a Vec<(String, String)>, key: &str) -> (r: Option<&'a String>)
    ensures
        match r {
            Some(v) => lookup_attr(crate::xml::attr_views(map@), key@) == Some(v@),
            None => lookup_attr(crate::xml::attr_views(map@), key@) is None,
        },
{
    let n = map.len();
    let mut i: usize = 0;
    proof {
        assert(crate::xml::attr_views(map@).skip(0) =~= crate::xml::attr_views(map@));
    }
    while i < n
        invariant
            0 <= i <= n,
            n == map.len(),
            lookup_attr(crate::xml::attr_views(map@), key@) == lookup_attr(
                crate::xml::attr_views(map@).skip(i as int),
                key@,
            ),
        decreases n - i,
    {
        proof {
            assert(crate::xml::attr_views(map@).skip(i as int)[0] == crate::xml::attr_views(
                map@,
            )[i as int]);
            assert(crate::xml::attr_views(map@).skip(i as int).drop_first()
                =~= crate::xml::attr_views(map@).skip(i as int + 1));
        }
        if str_eq(map[i].0.as_str(), key) {
            return Some(&map[i].1);
        }
        i = i + 1;
    }
    proof {
        assert(crate::xml::attr_views(map@).skip(n as int) =~= Seq::<
            (Seq<char>, Seq<char>),
        >::empty());
    }
    None
}

} // verus!
