//! The read-only XML tree that the structural parsers walk: an element name,
//! an attribute mapping in ascending key order, the first text or CDATA
//! content, and the ordered child elements. The tree is produced from
//! document text by the `exile` XML parser behind a single trusted door.

use vstd::prelude::*;

verus! {

use vstd::string::StrSliceExecFns;

/// One XML element: its local name, its attributes as key/value pairs in
/// ascending key order, the content of its first text or CDATA node (empty
/// when there is none, or when an element child comes first), and its child
/// elements in document order.
pub struct XmlNode {
    pub name: String,
    pub attributes: Vec<(String, String)>,
    pub text: String,
    pub children: Vec<XmlNode>,
}

/// The mathematical shape of an [`XmlNode`].
pub struct XmlNodeV {
    pub name: Seq<char>,
    pub attributes: Seq<(Seq<char>, Seq<char>)>,
    pub text: Seq<char>,
    pub children: Seq<XmlNodeV>,
}

/// The views of an attribute list.
pub open spec fn attr_views(s: Seq<(String, String)>) -> Seq<(Seq<char>, Seq<char>)> {
    s.map_values(|kv: (String, String)| (kv.0@, kv.1@))
}

/// The view of an element tree.
pub open spec fn xml_view(n: XmlNode) -> XmlNodeV
    decreases n,
{
    XmlNodeV {
        name: n.name@,
        attributes: attr_views(n.attributes@),
        text: n.text@,
        children: xml_children_view(n.children@),
    }
}

/// The views of a child list.
pub open spec fn xml_children_view(s: Seq<XmlNode>) -> Seq<XmlNodeV>
    decreases s,
{
    if s.len() == 0 {
        Seq::empty()
    } else {
        xml_children_view(s.drop_last()).push(xml_view(s.last()))
    }
}

impl View for XmlNode {
    type V = XmlNodeV;

    open spec fn view(&self) -> XmlNodeV {
        xml_view(*self)
    }
}

/// The view of a child list is the pointwise view of its elements.
pub proof fn lemma_children_view(s: Seq<XmlNode>)
    ensures
        xml_children_view(s).len() == s.len(),
        forall|i: int| 0 <= i < s.len() ==> xml_children_view(s)[i] == xml_view(s[i]),
    decreases s.len(),
{
    if s.len() > 0 {
        lemma_children_view(s.drop_last());
        assert(forall|i: int|
            0 <= i < s.len() - 1 ==> xml_children_view(s)[i] == xml_children_view(s.drop_last())[i]);
        assert(forall|i: int| 0 <= i < s.len() - 1 ==> s.drop_last()[i] == s[i]);
    }
}

/// The value of the first attribute named `key`, if any.
pub open spec fn lookup_attr(attrs: Seq<(Seq<char>, Seq<char>)>, key: Seq<char>) -> Option<
    Seq<char>,
>
    decreases attrs.len(),
{
    if attrs.len() == 0 {
        None
    } else if attrs[0].0 == key {
        Some(attrs[0].1)
    } else {
        lookup_attr(attrs.drop_first(), key)
    }
}

impl XmlNode {
    /// The value of the attribute named `key` on this node, if present.
    pub fn attribute<'a>(&'a self, key: &str) -> (r: Option<&'a String>)
        ensures
            match r {
                Some(v) => lookup_attr(self@.attributes, key@) == Some(v@),
                None => lookup_attr(self@.attributes, key@) is None,
            },
    {
        let n = self.attributes.len();
        let mut i: usize = 0;
        proof {
            assert(self@.attributes.skip(0) =~= self@.attributes);
        }
        while i < n
            invariant
                0 <= i <= n,
                n == self.attributes.len(),
                lookup_attr(self@.attributes, key@) == lookup_attr(
                    self@.attributes.skip(i as int),
                    key@,
                ),
            decreases n - i,
        {
            proof {
                assert(self@.attributes.skip(i as int)[0] == self@.attributes[i as int]);
                assert(self@.attributes.skip(i as int).drop_first() =~= self@.attributes.skip(
                    i as int + 1,
                ));
            }
            if crate::text::str_eq(self.attributes[i].0.as_str(), key) {
                return Some(&self.attributes[i].1);
            }
            i = i + 1;
        }
        proof {
            assert(self@.attributes.skip(n as int) =~= Seq::<(Seq<char>, Seq<char>)>::empty());
        }
        None
    }
}

/// The XML parser's element type, declared so that the conversion below can
/// take it; opaque to the verifier.
#[verifier::external_type_specification]
#[verifier::external_body]
pub struct ExElement(exile::Element);

/// An ASCII character.
pub open spec fn is_ascii_char(c: char) -> bool {
    (c as u32) < 128
}

/// An ASCII whitespace character, the kind the XML parser skips ahead of
/// the document's first construct.
pub open spec fn is_ascii_ws(c: char) -> bool {
    c == ' ' || c == '\t' || c == '\n' || c == '\r' || c == '\u{c}'
}

/// The index of the first character at or after `i` that is not ASCII
/// whitespace, or the length when there is none.
pub open spec fn ws_from(s: Seq<char>, i: int) -> int
    decreases s.len() - i,
{
    if i < 0 || i >= s.len() {
        s.len() as int
    } else if is_ascii_ws(s[i]) {
        ws_from(s, i + 1)
    } else {
        i
    }
}

/// The index of the first `?>` pair at or after `i`, or the length when
/// there is none.
pub open spec fn pi_close_from(s: Seq<char>, i: int) -> int
    decreases s.len() - i,
{
    if i < 0 || i + 1 >= s.len() {
        s.len() as int
    } else if s[i] == '?' && s[i + 1] == '>' {
        i
    } else {
        pi_close_from(s, i + 1)
    }
}

/// Every character of `s` in `lo..hi` is ASCII.
pub open spec fn ascii_between(s: Seq<char>, lo: int, hi: int) -> bool {
    forall|k: int| lo <= k < hi && 0 <= k < s.len() ==> is_ascii_char(#[trigger] s[k])
}

/// Whether a `<?` pair occurs anywhere in `s`.
pub open spec fn has_pi_open(s: Seq<char>) -> bool {
    exists|j: int| 0 <= j && j + 1 < s.len() && (#[trigger] s[j]) == '<' && s[j + 1] == '?'
}

/// Text the XML parser's declaration path handles without byte-slicing
/// trouble. The parser reads a processing instruction that opens the
/// document — optionally behind whitespace or a document type section — as
/// the XML declaration and splits its text by byte positions, which aborts
/// the process when a slice boundary falls inside a character that is not
/// ASCII. So: a document opening with `<?` must be ASCII through the first
/// `?>`; a document opening with `<!` must be ASCII throughout or hold no
/// `<?` at all; any other document never reaches that path.
pub open spec fn decl_safe(s: Seq<char>) -> bool {
    let w = ws_from(s, 0);
    if w + 1 < s.len() && s[w] == '<' && s[w + 1] == '?' {
        pi_close_from(s, w) == s.len() || ascii_between(s, w, pi_close_from(s, w) + 2)
    } else if w + 1 < s.len() && s[w] == '<' && s[w + 1] == '!' {
        ascii_between(s, 0, s.len() as int) || !has_pi_open(s)
    } else {
        true
    }
}

/// Decides [`decl_safe`].
#[verifier::loop_isolation(false)]
pub fn decl_safe_check(s: &str) -> (r: bool)
    ensures
        r == decl_safe(s@),
{
    let n = s.unicode_len();
    let mut w: usize = 0;
    while w < n && is_ws_exec(s.get_char(w))
        invariant
            0 <= w <= n,
            ws_from(s@, 0) == ws_from(s@, w as int),
        decreases n - w,
    {
        w = w + 1;
    }
    if n - w > 1 && s.get_char(w) == '<' && s.get_char(w + 1) == '?' {
        let mut j: usize = w;
        while n - j > 1 && !(s.get_char(j) == '?' && s.get_char(j + 1) == '>')
            invariant
                w <= j <= n,
                pi_close_from(s@, w as int) == pi_close_from(s@, j as int),
            decreases n - j,
        {
            j = j + 1;
        }
        if n - j <= 1 {
            return true;
        }
        ascii_section(s, w, j + 2)
    } else if n - w > 1 && s.get_char(w) == '<' && s.get_char(w + 1) == '!' {
        if ascii_section(s, 0, n) {
            return true;
        }
        let mut j: usize = 0;
        while n - j > 1 && !(s.get_char(j) == '<' && s.get_char(j + 1) == '?')
            invariant
                0 <= j <= n,
                forall|k: int|
                    0 <= k < j ==> !((#[trigger] s@[k]) == '<' && k + 1 < n && s@[k + 1] == '?'),
            decreases n - j,
        {
            j = j + 1;
        }
        n - j <= 1
    } else {
        true
    }
}

/// Decides whether every character of `s` in `lo..hi` is ASCII.
#[verifier::loop_isolation(false)]
fn ascii_section(s: &str, lo: usize, hi: usize) -> (r: bool)
    requires
        hi <= s@.len(),
    ensures
        r == ascii_between(s@, lo as int, hi as int),
{
    let mut k: usize = lo;
    while k < hi
        invariant
            lo <= k,
            forall|m: int| lo <= m < k ==> is_ascii_char(#[trigger] s@[m]),
        decreases hi - k,
    {
        let c = s.get_char(k);
        if (c as u32) >= 128 {
            assert(!is_ascii_char(s@[k as int]));
            return false;
        }
        k = k + 1;
    }
    true
}

/// Whether `c` is ASCII whitespace.
fn is_ws_exec(c: char) -> (r: bool)
    ensures
        r == is_ascii_ws(c),
{
    c == ' ' || c == '\t' || c == '\n' || c == '\r' || c == '\u{c}'
}

/// Whether a `>` immediately follows another `>` anywhere in `s`. The XML
/// parser's element path asserts, in builds that keep debug assertions,
/// that the character after a tag-closing `>` is not another `>`, and
/// aborts when it is; excluding every such pair — a conservative
/// over-approximation that also refuses the harmless ones in text content —
/// keeps all those documents away from it.
pub open spec fn has_double_gt(s: Seq<char>) -> bool {
    exists|j: int| 0 <= j && j + 1 < s.len() && (#[trigger] s[j]) == '>' && s[j + 1] == '>'
}

/// Decides the absence of a `>` pair: true exactly when `s` holds none.
#[verifier::loop_isolation(false)]
pub fn no_double_gt_check(s: &str) -> (r: bool)
    ensures
        r == !has_double_gt(s@),
{
    let n = s.unicode_len();
    let mut j: usize = 0;
    while n - j > 1 && !(s.get_char(j) == '>' && s.get_char(j + 1) == '>')
        invariant
            0 <= j <= n,
            forall|k: int|
                0 <= k < j ==> !((#[trigger] s@[k]) == '>' && k + 1 < n && s@[k + 1] == '>'),
        decreases n - j,
    {
        j = j + 1;
    }
    n - j <= 1
}

/// What `parse_document` returns for a given document text. The result is a
/// function of the text alone: the XML parser is deterministic and its
/// attribute map iterates in ascending key order.
pub uninterp spec fn parsed_document(s: Seq<char>) -> Option<XmlNodeV>;

/// Relies on `exile::parse`: parses XML text into a document tree, or fails
/// on text that is not a well-formed document. The root element is converted
/// to an [`XmlNode`]. The caller keeps documents outside [`decl_safe`], and
/// documents holding a `>` pair ([`has_double_gt`]), away from this call: on
/// those the parser's declaration path, or its element path in builds that
/// keep debug assertions, can abort the process instead of returning.
#[verifier::external_body]
pub fn parse_document(xml: &str) -> (r: Option<XmlNode>)
    requires
        decl_safe(xml@),
        !has_double_gt(xml@),
    ensures
        match r {
            Some(n) => parsed_document(xml@) == Some(n@),
            None => parsed_document(xml@) is None,
        },
{
    match exile::parse(xml) {
        Ok(doc) => Some(convert_element(doc.root())),
        Err(_) => None,
    }
}

/// Relies on `exile::Element`'s accessors: `name` (the local name without
/// its prefix), `attributes` (ascending key order), `text` (the content of
/// the first text or CDATA node, and nothing when an element child comes
/// first), and `children` (child elements in document order). Converts the
/// tree one element for one.
#[verifier::external_body]
fn convert_element(e: &exile::Element) -> XmlNode {
    XmlNode {
        name: e.name().to_owned(),
        attributes: e.attributes().map(|(k, v)| (k.clone(), v.clone())).collect(),
        text: e.text().unwrap_or_default(),
        children: e.children().map(convert_element).collect(),
    }
}

} // verus!
