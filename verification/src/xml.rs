//! Document model for the hierarchical markup fixtures, and the extraction
//! primitives that the test-suite parser is built from.
//!
//! A fixture is tokenized by an outside markup library into an [`XmlNode`]
//! tree holding plain values: each node keeps its tag local name, its
//! attributes (with their namespace, local name and value), its direct text
//! content and its child nodes in document order. All extraction logic is
//! verified against the mathematical model [`XmlNodeV`].

use crate::errors::RunnerError;
use crate::errors::RunnerErrorV;
use vstd::prelude::*;

verus! {

/// One attribute of a markup node.
pub struct XmlAttribute {
    /// Namespace URI of the attribute, when it is namespace-qualified.
    pub ns: Option<String>,
    /// Local name of the attribute.
    pub name: String,
    /// Value of the attribute.
    pub value: String,
}

/// One node of the markup tree, with plain values only.
pub struct XmlNode {
    /// Tag local name of the node; empty for text and comment nodes.
    pub tag: String,
    /// Attributes of the node, in document order.
    pub attributes: Vec<XmlAttribute>,
    /// Direct text content of the node, when present.
    pub text: Option<String>,
    /// Child nodes in document order.
    pub children: Vec<XmlNode>,
}

/// Mathematical model of an [`XmlAttribute`].
pub struct XmlAttributeV {
    pub ns: Option<Seq<char>>,
    pub name: Seq<char>,
    pub value: Seq<char>,
}

/// Mathematical model of an [`XmlNode`].
#[verifier::ext_equal]
pub struct XmlNodeV {
    pub tag: Seq<char>,
    pub attributes: Seq<XmlAttributeV>,
    pub text: Option<Seq<char>>,
    pub children: Seq<XmlNodeV>,
}

impl View for XmlAttribute {
    type V = XmlAttributeV;

    open spec fn view(&self) -> XmlAttributeV {
        XmlAttributeV {
            ns: match self.ns {
                Some(u) => Some(u@),
                None => None,
            },
            name: self.name@,
            value: self.value@,
        }
    }
}

/// Model of a whole node tree.
pub open spec fn node_view(n: XmlNode) -> XmlNodeV
    decreases n,
{
    XmlNodeV {
        tag: n.tag@,
        attributes: Seq::new(n.attributes@.len(), |i: int| n.attributes@[i]@),
        text: match n.text {
            Some(t) => Some(t@),
            None => None,
        },
        children: children_view(n.children@),
    }
}

/// Models of a sequence of nodes, element by element.
pub open spec fn children_view(s: Seq<XmlNode>) -> Seq<XmlNodeV>
    decreases s,
{
    if s.len() == 0 {
        Seq::empty()
    } else {
        children_view(s.drop_last()).push(node_view(s.last()))
    }
}

/// `children_view` keeps the length and models each element in place.
pub broadcast proof fn lemma_children_view(s: Seq<XmlNode>)
    ensures
        (#[trigger] children_view(s)).len() == s.len(),
        forall|i: int| 0 <= i < s.len() ==> children_view(s)[i] == node_view(s[i]),
    decreases s,
{
    if s.len() > 0 {
        lemma_children_view(s.drop_last());
    }
}

impl View for XmlNode {
    type V = XmlNodeV;

    open spec fn view(&self) -> XmlNodeV {
        node_view(*self)
    }
}

/// Namespace URI that the nil marker and the declared-type tag are bound to.
pub open spec fn xsi_ns() -> Seq<char> {
    "http://www.w3.org/2001/XMLSchema-instance"@
}

/// Relies on `str`'s `PartialEq`: two string slices are equal exactly when
/// their character sequences are equal.
#[verifier::external_body]
pub fn str_eq(a: &str, b: &str) -> (r: bool)
    ensures
        r == (a@ == b@),
{
    a == b
}

/// First node of `s` whose tag is `tag`, if any.
pub open spec fn spec_find_first(s: Seq<XmlNodeV>, tag: Seq<char>) -> Option<XmlNodeV>
    decreases s.len(),
{
    if s.len() == 0 {
        None
    } else if s[0].tag == tag {
        Some(s[0])
    } else {
        spec_find_first(s.subrange(1, s.len() as int), tag)
    }
}

proof fn lemma_find_first_at(s: Seq<XmlNodeV>, tag: Seq<char>, i: int)
    requires
        0 <= i < s.len(),
        s[i].tag == tag,
        forall|j: int| 0 <= j < i ==> s[j].tag != tag,
    ensures
        spec_find_first(s, tag) == Some(s[i]),
    decreases s.len(),
{
    if i > 0 {
        lemma_find_first_at(s.subrange(1, s.len() as int), tag, i - 1);
    }
}

proof fn lemma_find_first_none(s: Seq<XmlNodeV>, tag: Seq<char>)
    requires
        forall|j: int| 0 <= j < s.len() ==> s[j].tag != tag,
    ensures
        spec_find_first(s, tag) == None::<XmlNodeV>,
    decreases s.len(),
{
    if s.len() > 0 {
        lemma_find_first_none(s.subrange(1, s.len() as int), tag);
    }
}

/// Returns the first direct child of `node` whose tag is `tag`, searching
/// direct children only.
#[verifier::loop_isolation(false)]
pub fn find_child<'a>(node: &'a XmlNode, tag: &str) -> (r: Option<&'a XmlNode>)
    ensures
        match r {
            Some(c) => spec_find_first(node@.children, tag@) == Some(c@) && (exists|i: int|
                0 <= i < node.children@.len() && *c == node.children@[i]),
            None => spec_find_first(node@.children, tag@) == None::<XmlNodeV>,
        },
{
    proof {
        lemma_children_view(node.children@);
    }
    let n = node.children.len();
    for i in 0..n
        invariant
            n == node.children@.len(),
            node@.children.len() == n,
            forall|j: int| 0 <= j < i ==> node@.children[j].tag != tag@,
    {
        let hit = str_eq(node.children[i].tag.as_str(), tag);
        if hit {
            proof {
                lemma_find_first_at(node@.children, tag@, i as int);
            }
            return Some(&node.children[i]);
        }
    }
    proof {
        lemma_find_first_none(node@.children, tag@);
    }
    None
}

/// Value of the first attribute of `s` whose local name is `name`, if any.
pub open spec fn spec_attr(s: Seq<XmlAttributeV>, name: Seq<char>) -> Option<Seq<char>>
    decreases s.len(),
{
    if s.len() == 0 {
        None
    } else if s[0].name == name {
        Some(s[0].value)
    } else {
        spec_attr(s.subrange(1, s.len() as int), name)
    }
}

proof fn lemma_attr_at(s: Seq<XmlAttributeV>, name: Seq<char>, i: int)
    requires
        0 <= i < s.len(),
        s[i].name == name,
        forall|j: int| 0 <= j < i ==> s[j].name != name,
    ensures
        spec_attr(s, name) == Some(s[i].value),
    decreases s.len(),
{
    if i > 0 {
        lemma_attr_at(s.subrange(1, s.len() as int), name, i - 1);
    }
}

proof fn lemma_attr_none(s: Seq<XmlAttributeV>, name: Seq<char>)
    requires
        forall|j: int| 0 <= j < s.len() ==> s[j].name != name,
    ensures
        spec_attr(s, name) == None::<Seq<char>>,
    decreases s.len(),
{
    if s.len() > 0 {
        lemma_attr_none(s.subrange(1, s.len() as int), name);
    }
}

/// Value of the first attribute of `s` bound to namespace `ns` whose local
/// name is `name`, if any.
pub open spec fn spec_ns_attr(s: Seq<XmlAttributeV>, ns: Seq<char>, name: Seq<char>) -> Option<
    Seq<char>,
>
    decreases s.len(),
{
    if s.len() == 0 {
        None
    } else if s[0].ns == Some(ns) && s[0].name == name {
        Some(s[0].value)
    } else {
        spec_ns_attr(s.subrange(1, s.len() as int), ns, name)
    }
}

proof fn lemma_ns_attr_at(s: Seq<XmlAttributeV>, ns: Seq<char>, name: Seq<char>, i: int)
    requires
        0 <= i < s.len(),
        s[i].ns == Some(ns),
        s[i].name == name,
        forall|j: int| 0 <= j < i ==> !(s[j].ns == Some(ns) && s[j].name == name),
    ensures
        spec_ns_attr(s, ns, name) == Some(s[i].value),
    decreases s.len(),
{
    if i > 0 {
        lemma_ns_attr_at(s.subrange(1, s.len() as int), ns, name, i - 1);
    }
}

proof fn lemma_ns_attr_none(s: Seq<XmlAttributeV>, ns: Seq<char>, name: Seq<char>)
    requires
        forall|j: int| 0 <= j < s.len() ==> !(s[j].ns == Some(ns) && s[j].name == name),
    ensures
        spec_ns_attr(s, ns, name) == None::<Seq<char>>,
    decreases s.len(),
{
    if s.len() > 0 {
        lemma_ns_attr_none(s.subrange(1, s.len() as int), ns, name);
    }
}

/// Returns the value of the optional attribute with local name `name`.
pub fn optional_attribute(node: &XmlNode, name: &str) -> (r: Option<String>)
    ensures
        match r {
            Some(v) => spec_attr(node@.attributes, name@) == Some(v@),
            None => spec_attr(node@.attributes, name@) == None::<Seq<char>>,
        },
{
    let n = node.attributes.len();
    for i in 0..n
        invariant
            n == node.attributes@.len(),
            node@.attributes.len() == n,
            forall|j: int| 0 <= j < i ==> node@.attributes[j].name != name@,
    {
        if str_eq(node.attributes[i].name.as_str(), name) {
            proof {
                lemma_attr_at(node@.attributes, name@, i as int);
            }
            return Some(node.attributes[i].value.clone());
        }
    }
    proof {
        lemma_attr_none(node@.attributes, name@);
    }
    None
}

/// Returns the value of the required attribute with local name `name`, or
/// the error that names the missing attribute.
pub fn required_attribute(node: &XmlNode, name: &str) -> (r: Result<String, RunnerError>)
    ensures
        match spec_attr(node@.attributes, name@) {
            Some(v) => r matches Ok(s) && s@ == v,
            None => r matches Err(e) && e@ == RunnerErrorV::XmlExpectedMandatoryAttribute(name@),
        },
{
    match optional_attribute(node, name) {
        Some(v) => Ok(v),
        None => Err(RunnerError::XmlExpectedMandatoryAttribute(name.to_owned())),
    }
}

/// Returns the value of the namespace-qualified attribute `name` bound to
/// the fixed declared-type namespace.
pub fn optional_xsi_attribute(node: &XmlNode, name: &str) -> (r: Option<String>)
    ensures
        match r {
            Some(v) => spec_ns_attr(node@.attributes, xsi_ns(), name@) == Some(v@),
            None => spec_ns_attr(node@.attributes, xsi_ns(), name@) == None::<Seq<char>>,
        },
{
    let n = node.attributes.len();
    for i in 0..n
        invariant
            n == node.attributes@.len(),
            node@.attributes.len() == n,
            forall|j: int|
                0 <= j < i ==> !(node@.attributes[j].ns == Some(xsi_ns())
                    && node@.attributes[j].name == name@),
    {
        let a = &node.attributes[i];
        let ns_matches = match &a.ns {
            Some(u) => str_eq(u.as_str(), "http://www.w3.org/2001/XMLSchema-instance"),
            None => false,
        };
        if ns_matches && str_eq(a.name.as_str(), name) {
            proof {
                lemma_ns_attr_at(node@.attributes, xsi_ns(), name@, i as int);
            }
            return Some(a.value.clone());
        }
    }
    proof {
        lemma_ns_attr_none(node@.attributes, xsi_ns(), name@);
    }
    None
}

/// The declared-type tag of `n`: the value of its namespace-qualified
/// `type` attribute, if any.
pub open spec fn spec_xsi_type(n: XmlNodeV) -> Option<Seq<char>> {
    spec_ns_attr(n.attributes, xsi_ns(), "type"@)
}

/// Returns the value of the optional namespace-qualified `type` attribute.
pub fn optional_xsi_type_attribute(node: &XmlNode) -> (r: Option<String>)
    ensures
        match r {
            Some(v) => spec_xsi_type(node@) == Some(v@),
            None => spec_xsi_type(node@) == None::<Seq<char>>,
        },
{
    optional_xsi_attribute(node, "type")
}

/// Whether `n` carries the explicit nil marker: a namespace-qualified
/// `nil` attribute with value `true`.
pub open spec fn spec_nil(n: XmlNodeV) -> bool {
    spec_ns_attr(n.attributes, xsi_ns(), "nil"@) == Some("true"@)
}

/// Returns `true` exactly when the namespace-qualified `nil` attribute of
/// `node` is present with value `true`.
pub fn optional_nil_attribute(node: &XmlNode) -> (r: bool)
    ensures
        r == spec_nil(node@),
{
    match optional_xsi_attribute(node, "nil") {
        Some(v) => str_eq(v.as_str(), "true"),
        None => false,
    }
}

/// Returns the required direct text content of `node`, or the error that
/// names the node's tag.
pub fn required_content(node: &XmlNode) -> (r: Result<String, RunnerError>)
    ensures
        match node@.text {
            Some(t) => r matches Ok(s) && s@ == t,
            None => r matches Err(e) && e@ == RunnerErrorV::XmlExpectedMandatoryTextContent(
                node@.tag,
            ),
        },
{
    match &node.text {
        Some(t) => Ok(t.clone()),
        None => Err(RunnerError::XmlExpectedMandatoryTextContent(node.tag.clone())),
    }
}

/// Returns the optional direct text content of `node`.
pub fn optional_content(node: &XmlNode) -> (r: Option<String>)
    ensures
        match r {
            Some(s) => node@.text == Some(s@),
            None => node@.text matches None,
        },
{
    match &node.text {
        Some(t) => Some(t.clone()),
        None => None,
    }
}

/// The required text content of the first child of `n` tagged `child`:
/// present only when that child exists and has text.
pub open spec fn spec_child_content(n: XmlNodeV, child: Seq<char>) -> Option<Seq<char>> {
    match spec_find_first(n.children, child) {
        Some(c) => c.text,
        None => None,
    }
}

/// Returns the required text content of the optional child tagged `child`:
/// `None` when the child is absent or has no text.
pub fn optional_child_required_content(node: &XmlNode, child: &str) -> (r: Option<String>)
    ensures
        match r {
            Some(s) => spec_child_content(node@, child@) == Some(s@),
            None => spec_child_content(node@, child@) matches None,
        },
{
    match find_child(node, child) {
        Some(c) => match required_content(c) {
            Ok(s) => Some(s),
            Err(_) => None,
        },
        None => None,
    }
}

/// The markup tree that tokenizing a character sequence yields: a tree
/// exactly when the text is well-formed markup, and nothing otherwise.
/// The outside tokenizer computes it from the text alone.
pub uninterp spec fn tokenized(s: Seq<char>) -> Option<XmlNodeV>;

#[verifier::external_type_specification]
#[verifier::external_body]
pub struct ExRoxmltreeNode<'a, 'input: 'a>(roxmltree::Node<'a, 'input>);

/// Relies on roxmltree's node accessors (`tag_name`, `attributes`, `text`,
/// `children`): each node of the tree is copied, one for one, into an
/// [`XmlNode`] of plain values.
#[verifier::external_body]
fn node_to_tree(n: roxmltree::Node) -> (r: XmlNode) {
    XmlNode {
        tag: n.tag_name().name().to_string(),
        attributes: n.attributes().map(
            |a| XmlAttribute {
                ns: a.namespace().map(|u| u.to_string()),
                name: a.name().to_string(),
                value: a.value().to_string(),
            },
        ).collect(),
        text: n.text().map(|t| t.to_string()),
        children: n.children().map(node_to_tree).collect(),
    }
}

/// Relies on `roxmltree::Document::parse`: tokenizing well-formed markup
/// yields its node tree, rooted at the outermost element; malformed markup
/// yields an error message.
#[verifier::external_body]
pub fn parse_document(s: &str) -> (r: Result<XmlNode, String>)
    ensures
        match r {
            Ok(root) => tokenized(s@) == Some(root@),
            Err(_) => tokenized(s@) == None::<XmlNodeV>,
        },
{
    match roxmltree::Document::parse(s) {
        Ok(doc) => Ok(node_to_tree(doc.root_element())),
        Err(e) => Err(format!("{}", e)),
    }
}

} // verus!
