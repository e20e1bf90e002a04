//! Parser that walks a markup fixture tree and produces the test-suite
//! model.
//!
//! Each extraction step is specified against the mathematical model of the
//! tree ([`crate::xml::XmlNodeV`]): the shape of a value node is resolved
//! by trying the simple anchor, then the component anchor, then the list
//! anchor, stopping at the first anchor child that is present.

use crate::errors::RunnerError;
use crate::errors::RunnerErrorV;
use crate::model::Component;
use crate::model::ComponentV;
use crate::model::List;
use crate::model::ListV;
use crate::model::TestCase;
use crate::model::TestCaseType;
use crate::model::TestCaseV;
use crate::model::TestCases;
use crate::model::TestCasesV;
use crate::model::InputNode;
use crate::model::InputNodeV;
use crate::model::ResultNode;
use crate::model::ResultNodeV;
use crate::model::Value;
use crate::model::ValueType;
use crate::model::ValueTypeV;
use crate::model::ValueV;
use crate::model::components_view;
use crate::model::items_view;
use crate::model::value_type_view;
use crate::model::lemma_components_view;
use crate::model::lemma_items_view;
use crate::model::spec_default_list;
use crate::xml::XmlNode;
use crate::xml::XmlNodeV;
use crate::xml::lemma_children_view;
use crate::xml::spec_attr;
use crate::xml::spec_find_first;
use crate::xml::spec_nil;
use crate::xml::spec_xsi_type;
use crate::xml::find_child;
use crate::xml::optional_attribute;
use crate::xml::optional_content;
use crate::xml::optional_nil_attribute;
use crate::xml::optional_xsi_type_attribute;
use crate::xml::str_eq;
use vstd::prelude::*;

verus! {

/// Model of an optional owned value.
pub open spec fn opt_view<T: View>(o: Option<T>) -> Option<T::V> {
    match o {
        Some(x) => Some(x@),
        None => None,
    }
}

/// The simple value read from `n`, when `n` has a `value` anchor child:
/// its declared type tag, its text and its nil marker.
pub open spec fn spec_parse_simple(n: XmlNodeV) -> Option<ValueV> {
    match spec_find_first(n.children, "value"@) {
        Some(c) => Some(ValueV { typ: spec_xsi_type(c), text: c.text, nil: spec_nil(c) }),
        None => None,
    }
}

/// The components read from the `component`-tagged nodes of `s`, in
/// order. A node that is no component is passed over.
pub open spec fn spec_components_seq(s: Seq<XmlNodeV>) -> Seq<ComponentV>
    decreases s,
{
    if s.len() == 0 {
        Seq::empty()
    } else {
        let rest = spec_components_seq(s.drop_last());
        if s.last().tag == "component"@ {
            rest.push(
                ComponentV {
                    name: spec_attr(s.last().attributes, "name"@),
                    value: spec_parse_value_type(s.last()),
                    nil: spec_nil(s.last()),
                },
            )
        } else {
            rest
        }
    }
}

/// The values read from the `item`-tagged nodes of `s`, in order. An item
/// in which no value shape resolves is passed over.
pub open spec fn spec_items_seq(s: Seq<XmlNodeV>) -> Seq<ValueTypeV>
    decreases s,
{
    if s.len() == 0 {
        Seq::empty()
    } else {
        let rest = spec_items_seq(s.drop_last());
        match spec_parse_value_type(s.last()) {
            Some(v) => if s.last().tag == "item"@ {
                rest.push(v)
            } else {
                rest
            },
            None => rest,
        }
    }
}

/// The list read from the first `list`-tagged node of `s`, if any: a nil
/// marker on that node short-circuits item parsing and yields the empty
/// nil list; otherwise the node's items are read, and a list without any
/// item yields nothing.
pub open spec fn spec_list_seq(s: Seq<XmlNodeV>) -> Option<ListV>
    decreases s,
{
    if s.len() == 0 {
        None
    } else if s[0].tag == "list"@ {
        if spec_nil(s[0]) {
            Some(spec_default_list())
        } else {
            let items = spec_items_seq(s[0].children);
            if items.len() > 0 {
                Some(ListV { items, nil: false })
            } else {
                None
            }
        }
    } else {
        spec_list_seq(s.subrange(1, s.len() as int))
    }
}

/// The value of node `n`: the first shape whose anchor child is present,
/// trying simple, then components, then list.
pub open spec fn spec_parse_value_type(n: XmlNodeV) -> Option<ValueTypeV>
    decreases n,
{
    match spec_parse_simple(n) {
        Some(v) => Some(ValueTypeV::Simple(v)),
        None => {
            let cs = spec_components_seq(n.children);
            if cs.len() > 0 {
                Some(ValueTypeV::Components(cs))
            } else {
                match spec_list_seq(n.children) {
                    Some(l) => Some(ValueTypeV::List(l)),
                    None => None,
                }
            }
        },
    }
}

/// `spec_list_seq` is determined by the first `list`-tagged node.
proof fn lemma_list_seq_find(s: Seq<XmlNodeV>)
    ensures
        spec_list_seq(s) == match spec_find_first(s, "list"@) {
            Some(ln) => if spec_nil(ln) {
                Some(spec_default_list())
            } else {
                let items = spec_items_seq(ln.children);
                if items.len() > 0 {
                    Some(ListV { items, nil: false })
                } else {
                    None
                }
            },
            None => None::<ListV>,
        },
    decreases s,
{
    if s.len() > 0 && s[0].tag != "list"@ {
        lemma_list_seq_find(s.subrange(1, s.len() as int));
    }
}

/// Parses a simple value: present exactly when `node` has a `value`
/// anchor child.
pub fn parse_simple_value(node: &XmlNode) -> (r: Option<Value>)
    ensures
        opt_view(r) == spec_parse_simple(node@),
{
    match find_child(node, "value") {
        Some(value_node) => Some(
            Value {
                typ: optional_xsi_type_attribute(value_node),
                text: optional_content(value_node),
                nil: optional_nil_attribute(value_node),
            },
        ),
        None => None,
    }
}

/// Parses the collection of component values of `node`: present exactly
/// when at least one `component` child exists.
#[verifier::loop_isolation(false)]
pub fn parse_value_components(node: &XmlNode) -> (r: Option<Vec<Component>>)
    ensures
        match r {
            Some(cs) => spec_components_seq(node@.children).len() > 0 && components_view(cs@)
                == spec_components_seq(node@.children),
            None => spec_components_seq(node@.children).len() == 0,
        },
    decreases node, 1int,
{
    proof {
        lemma_children_view(node.children@);
    }
    let mut items: Vec<Component> = Vec::new();
    let n = node.children.len();
    for i in 0..n
        invariant
            n == node.children@.len(),
            components_view(items@) == spec_components_seq(node@.children.subrange(0, i as int)),
    {
        let child = &node.children[i];
        proof {
            assert(child@ == node@.children[i as int]);
            assert(decreases_to!(*node => node.children@[i as int]));
            assert(node@.children.subrange(0, i + 1).drop_last() =~= node@.children.subrange(
                0,
                i as int,
            ));
            assert(node@.children.subrange(0, i + 1).last() == child@);
        }
        if str_eq(child.tag.as_str(), "component") {
            let c = Component {
                name: optional_attribute(child, "name"),
                value: parse_value_type(child),
                nil: optional_nil_attribute(child),
            };
            let ghost cv = c@;
            let ghost old_items = items@;
            items.push(c);
            proof {
                assert(items@.drop_last() =~= old_items);
                assert(components_view(items@) == components_view(old_items).push(cv));
            }
        }
    }
    proof {
        assert(node@.children.subrange(0, n as int) =~= node@.children);
    }
    if items.len() > 0 {
        proof {
            lemma_components_view(items@);
        }
        Some(items)
    } else {
        proof {
            lemma_components_view(items@);
        }
        None
    }
}

/// Parses the list value of `node`: present exactly when `node` has a
/// `list` anchor child that is nil or holds at least one item.
#[verifier::loop_isolation(false)]
pub fn parse_value_list(node: &XmlNode) -> (r: Option<List>)
    ensures
        opt_view(r) == spec_list_seq(node@.children),
    decreases node, 1int,
{
    proof {
        lemma_children_view(node.children@);
        lemma_list_seq_find(node@.children);
    }
    match find_child(node, "list") {
        Some(list_node) => {
            proof {
                let i = choose|i: int|
                    0 <= i < node.children@.len() && *list_node == node.children@[i];
                assert(decreases_to!(*node => node.children@[i]));
            }
            if optional_nil_attribute(list_node) {
                return Some(List::default());
            }
            proof {
                lemma_children_view(list_node.children@);
            }
            let mut items: Vec<ValueType> = Vec::new();
            let n = list_node.children.len();
            for j in 0..n
                invariant
                    n == list_node.children@.len(),
                    decreases_to!(*node => *list_node),
                    items_view(items@) == spec_items_seq(
                        list_node@.children.subrange(0, j as int),
                    ),
            {
                let child = &list_node.children[j];
                proof {
                    assert(child@ == list_node@.children[j as int]);
                    assert(decreases_to!(*list_node => list_node.children@[j as int]));
                }
                let parsed = if str_eq(child.tag.as_str(), "item") {
                    parse_value_type(child)
                } else {
                    None
                };
                proof {
                    assert(list_node@.children.subrange(0, j + 1).drop_last()
                        =~= list_node@.children.subrange(0, j as int));
                    assert(list_node@.children.subrange(0, j + 1).last() == child@);
                }
                match parsed {
                    Some(value_type) => {
                        let ghost vv = value_type_view(value_type);
                        let ghost old_items = items@;
                        items.push(value_type);
                        proof {
                            assert(items@.drop_last() =~= old_items);
                            assert(items_view(items@) == items_view(old_items).push(vv));
                        }
                    },
                    None => {},
                }
            }
            proof {
                assert(list_node@.children.subrange(0, n as int) =~= list_node@.children);
            }
            if items.len() > 0 {
                proof {
                    lemma_items_view(items@);
                }
                Some(List { items, nil: false })
            } else {
                proof {
                    lemma_items_view(items@);
                }
                None
            }
        },
        None => None,
    }
}

/// Parses the value of `node`, trying the simple shape, then components,
/// then the list shape, and stopping at the first present anchor.
pub fn parse_value_type(node: &XmlNode) -> (r: Option<ValueType>)
    ensures
        opt_view(r) == spec_parse_value_type(node@),
    decreases node, 2int,
{
    if let Some(v) = parse_simple_value(node) {
        return Some(ValueType::Simple(v));
    }
    if let Some(c) = parse_value_components(node) {
        return Some(ValueType::Components(c));
    }
    if let Some(l) = parse_value_list(node) {
        return Some(ValueType::List(l));
    }
    None
}

/// The value read from the first child of `n` tagged `tag`, when that
/// child is present and a shape resolves on it.
pub open spec fn spec_child_value(n: XmlNodeV, tag: Seq<char>) -> Option<ValueTypeV> {
    match spec_find_first(n.children, tag) {
        Some(c) => spec_parse_value_type(c),
        None => None,
    }
}

/// Parses the value held by the optional child of `node` tagged
/// `child_name`.
pub fn parse_child_value_type(node: &XmlNode, child_name: &str) -> (r: Option<ValueType>)
    ensures
        opt_view(r) == spec_child_value(node@, child_name@),
{
    match find_child(node, child_name) {
        Some(child_node) => parse_value_type(child_node),
        None => None,
    }
}

/// Type of the test case read from the discriminator attribute of `n`:
/// `bkm` and `decisionService` select their kinds, and any other value,
/// or an absent attribute, falls back to `Decision`.
pub open spec fn spec_case_type(n: XmlNodeV) -> TestCaseType {
    match spec_attr(n.attributes, "type"@) {
        Some(t) => if t == "bkm"@ {
            TestCaseType::BusinessKnowledgeModel
        } else if t == "decisionService"@ {
            TestCaseType::DecisionService
        } else {
            TestCaseType::Decision
        },
        None => TestCaseType::Decision,
    }
}

/// Parses the type of a test case; `Decision` is the default.
pub fn parse_test_case_type(node: &XmlNode) -> (r: TestCaseType)
    ensures
        r == spec_case_type(node@),
{
    match optional_attribute(node, "type") {
        Some(t) => if str_eq(t.as_str(), "bkm") {
            TestCaseType::BusinessKnowledgeModel
        } else if str_eq(t.as_str(), "decisionService") {
            TestCaseType::DecisionService
        } else {
            TestCaseType::Decision
        },
        None => TestCaseType::Decision,
    }
}

/// The labels read from the `label`-tagged nodes of `s`, in order: the
/// required text of each, or the error for the first label without text.
pub open spec fn spec_labels_seq(s: Seq<XmlNodeV>) -> Result<Seq<Seq<char>>, RunnerErrorV>
    decreases s,
{
    if s.len() == 0 {
        Ok(Seq::empty())
    } else {
        match spec_labels_seq(s.drop_last()) {
            Err(e) => Err(e),
            Ok(acc) => if s.last().tag == "label"@ {
                match s.last().text {
                    Some(t) => Ok(acc.push(t)),
                    None => Err(RunnerErrorV::XmlExpectedMandatoryTextContent(s.last().tag)),
                }
            } else {
                Ok(acc)
            },
        }
    }
}

/// The labels of the suite: the `label` entries of the optional `labels`
/// child, or no labels when that child is absent.
pub open spec fn spec_parse_labels(n: XmlNodeV) -> Result<Seq<Seq<char>>, RunnerErrorV> {
    match spec_find_first(n.children, "labels"@) {
        Some(ln) => spec_labels_seq(ln.children),
        None => Ok(Seq::empty()),
    }
}

/// The input nodes read from the `inputNode`-tagged nodes of `s`, in
/// order: each requires a `name` attribute and holds an optional value.
pub open spec fn spec_inputs_seq(s: Seq<XmlNodeV>) -> Result<Seq<InputNodeV>, RunnerErrorV>
    decreases s,
{
    if s.len() == 0 {
        Ok(Seq::empty())
    } else {
        match spec_inputs_seq(s.drop_last()) {
            Err(e) => Err(e),
            Ok(acc) => if s.last().tag == "inputNode"@ {
                match spec_attr(s.last().attributes, "name"@) {
                    Some(nm) => Ok(
                        acc.push(
                            InputNodeV { name: nm, value: spec_parse_value_type(s.last()) },
                        ),
                    ),
                    None => Err(RunnerErrorV::XmlExpectedMandatoryAttribute("name"@)),
                }
            } else {
                Ok(acc)
            },
        }
    }
}

/// The result nodes read from the `resultNode`-tagged nodes of `s`, in
/// order: each requires a `name` attribute.
pub open spec fn spec_results_seq(s: Seq<XmlNodeV>) -> Result<Seq<ResultNodeV>, RunnerErrorV>
    decreases s,
{
    if s.len() == 0 {
        Ok(Seq::empty())
    } else {
        match spec_results_seq(s.drop_last()) {
            Err(e) => Err(e),
            Ok(acc) => if s.last().tag == "resultNode"@ {
                match spec_attr(s.last().attributes, "name"@) {
                    Some(nm) => Ok(
                        acc.push(
                            ResultNodeV {
                                name: nm,
                                error_result: spec_attr(s.last().attributes, "errorResult"@)
                                    == Some("true"@),
                                typ: spec_attr(s.last().attributes, "type"@),
                                cast: spec_attr(s.last().attributes, "cast"@),
                                expected: spec_child_value(s.last(), "expected"@),
                                computed: spec_child_value(s.last(), "computed"@),
                            },
                        ),
                    ),
                    None => Err(RunnerErrorV::XmlExpectedMandatoryAttribute("name"@)),
                }
            } else {
                Ok(acc)
            },
        }
    }
}

/// The test case read from node `n`: its attributes, its description, and
/// its input and result nodes.
pub open spec fn spec_parse_test_case(n: XmlNodeV) -> Result<TestCaseV, RunnerErrorV> {
    match spec_inputs_seq(n.children) {
        Err(e) => Err(e),
        Ok(ins) => match spec_results_seq(n.children) {
            Err(e) => Err(e),
            Ok(rs) => Ok(
                TestCaseV {
                    id: spec_attr(n.attributes, "id"@),
                    name: spec_attr(n.attributes, "name"@),
                    typ: spec_case_type(n),
                    description: crate::xml::spec_child_content(n, "description"@),
                    invocable_name: spec_attr(n.attributes, "invocableName"@),
                    input_nodes: ins,
                    result_nodes: rs,
                },
            ),
        },
    }
}

/// The test cases read from the `testCase`-tagged nodes of `s`, in order.
pub open spec fn spec_cases_seq(s: Seq<XmlNodeV>) -> Result<Seq<TestCaseV>, RunnerErrorV>
    decreases s,
{
    if s.len() == 0 {
        Ok(Seq::empty())
    } else {
        match spec_cases_seq(s.drop_last()) {
            Err(e) => Err(e),
            Ok(acc) => if s.last().tag == "testCase"@ {
                match spec_parse_test_case(s.last()) {
                    Ok(tc) => Ok(acc.push(tc)),
                    Err(e) => Err(e),
                }
            } else {
                Ok(acc)
            },
        }
    }
}

/// The whole suite read from the root node `n`: its optional model name,
/// its labels, and its test cases.
pub open spec fn spec_parse_root_node(n: XmlNodeV) -> Result<TestCasesV, RunnerErrorV> {
    match spec_parse_labels(n) {
        Err(e) => Err(e),
        Ok(ls) => match spec_cases_seq(n.children) {
            Err(e) => Err(e),
            Ok(cs) => Ok(
                TestCasesV {
                    model_name: crate::xml::spec_child_content(n, "modelName"@),
                    labels: ls,
                    test_cases: cs,
                },
            ),
        },
    }
}

/// The suite read from a tokenized document: the root element must be
/// tagged `testCases`, and any other tag is a fatal error.
pub open spec fn spec_parse_tree(root: XmlNodeV) -> Result<TestCasesV, RunnerErrorV> {
    if root.tag != "testCases"@ {
        Err(RunnerErrorV::XmlExpectedMandatoryNode("testCases"@))
    } else {
        spec_parse_root_node(root)
    }
}


/// An error in a prefix of `s` is the error of the whole of `s`.
proof fn lemma_labels_seq_extend(s: Seq<XmlNodeV>, j: int)
    requires
        0 <= j <= s.len(),
        spec_labels_seq(s.subrange(0, j)) matches Err(_),
    ensures
        spec_labels_seq(s) == spec_labels_seq(s.subrange(0, j)),
    decreases s.len() - j,
{
    if j < s.len() {
        assert(s.subrange(0, j + 1).drop_last() =~= s.subrange(0, j));
        lemma_labels_seq_extend(s, j + 1);
    } else {
        assert(s.subrange(0, j) =~= s);
    }
}

/// An error in a prefix of `s` is the error of the whole of `s`.
proof fn lemma_inputs_seq_extend(s: Seq<XmlNodeV>, j: int)
    requires
        0 <= j <= s.len(),
        spec_inputs_seq(s.subrange(0, j)) matches Err(_),
    ensures
        spec_inputs_seq(s) == spec_inputs_seq(s.subrange(0, j)),
    decreases s.len() - j,
{
    if j < s.len() {
        assert(s.subrange(0, j + 1).drop_last() =~= s.subrange(0, j));
        lemma_inputs_seq_extend(s, j + 1);
    } else {
        assert(s.subrange(0, j) =~= s);
    }
}

/// An error in a prefix of `s` is the error of the whole of `s`.
proof fn lemma_results_seq_extend(s: Seq<XmlNodeV>, j: int)
    requires
        0 <= j <= s.len(),
        spec_results_seq(s.subrange(0, j)) matches Err(_),
    ensures
        spec_results_seq(s) == spec_results_seq(s.subrange(0, j)),
    decreases s.len() - j,
{
    if j < s.len() {
        assert(s.subrange(0, j + 1).drop_last() =~= s.subrange(0, j));
        lemma_results_seq_extend(s, j + 1);
    } else {
        assert(s.subrange(0, j) =~= s);
    }
}

/// An error in a prefix of `s` is the error of the whole of `s`.
proof fn lemma_cases_seq_extend(s: Seq<XmlNodeV>, j: int)
    requires
        0 <= j <= s.len(),
        spec_cases_seq(s.subrange(0, j)) matches Err(_),
    ensures
        spec_cases_seq(s) == spec_cases_seq(s.subrange(0, j)),
    decreases s.len() - j,
{
    if j < s.len() {
        assert(s.subrange(0, j + 1).drop_last() =~= s.subrange(0, j));
        lemma_cases_seq_extend(s, j + 1);
    } else {
        assert(s.subrange(0, j) =~= s);
    }
}

/// Parses all labels of the suite: the `label` entries of the optional
/// `labels` child of `node`, each with its required text content.
#[verifier::loop_isolation(false)]
pub fn parse_labels(node: &XmlNode) -> (r: Result<Vec<String>, RunnerError>)
    ensures
        match r {
            Ok(v) => spec_parse_labels(node@) == Ok::<_, RunnerErrorV>(
                crate::model::labels_view(v@),
            ),
            Err(e) => spec_parse_labels(node@) == Err::<Seq<Seq<char>>, _>(e@),
        },
{
    let mut items: Vec<String> = Vec::new();
    if let Some(labels_node) = find_child(node, "labels") {
        proof {
            lemma_children_view(labels_node.children@);
        }
        let n = labels_node.children.len();
        for i in 0..n
            invariant
                n == labels_node.children@.len(),
                spec_labels_seq(labels_node@.children.subrange(0, i as int)) == Ok::<
                    _,
                    RunnerErrorV,
                >(crate::model::labels_view(items@)),
        {
            let child = &labels_node.children[i];
            proof {
                assert(child@ == labels_node@.children[i as int]);
                assert(labels_node@.children.subrange(0, i + 1).drop_last()
                    =~= labels_node@.children.subrange(0, i as int));
                assert(labels_node@.children.subrange(0, i + 1).last() == child@);
            }
            if str_eq(child.tag.as_str(), "label") {
                match crate::xml::required_content(child) {
                    Ok(t) => {
                        let ghost tv = t@;
                        let ghost old_items = items@;
                        items.push(t);
                        proof {
                            assert(items@.drop_last() =~= old_items);
                            assert(crate::model::labels_view(items@) == crate::model::labels_view(
                                old_items,
                            ).push(tv));
                        }
                    },
                    Err(e) => {
                        proof {
                            lemma_labels_seq_extend(labels_node@.children, i + 1);
                        }
                        return Err(e);
                    },
                }
            }
        }
        proof {
            assert(labels_node@.children.subrange(0, n as int) =~= labels_node@.children);
        }
    }
    Ok(items)
}

/// Parses the input nodes of a test case: the `inputNode` children of
/// `node`, each with its required `name` attribute and optional value.
#[verifier::loop_isolation(false)]
pub fn parse_input_nodes(node: &XmlNode) -> (r: Result<Vec<InputNode>, RunnerError>)
    ensures
        match r {
            Ok(v) => spec_inputs_seq(node@.children) == Ok::<_, RunnerErrorV>(
                crate::model::input_nodes_view(v@),
            ),
            Err(e) => spec_inputs_seq(node@.children) == Err::<Seq<InputNodeV>, _>(e@),
        },
{
    proof {
        lemma_children_view(node.children@);
    }
    let mut items: Vec<InputNode> = Vec::new();
    let n = node.children.len();
    for i in 0..n
        invariant
            n == node.children@.len(),
            spec_inputs_seq(node@.children.subrange(0, i as int)) == Ok::<_, RunnerErrorV>(
                crate::model::input_nodes_view(items@),
            ),
    {
        let child = &node.children[i];
        proof {
            assert(child@ == node@.children[i as int]);
            assert(node@.children.subrange(0, i + 1).drop_last() =~= node@.children.subrange(
                0,
                i as int,
            ));
            assert(node@.children.subrange(0, i + 1).last() == child@);
        }
        if str_eq(child.tag.as_str(), "inputNode") {
            let name = match crate::xml::required_attribute(child, "name") {
                Ok(nm) => nm,
                Err(e) => {
                    proof {
                        lemma_inputs_seq_extend(node@.children, i + 1);
                    }
                    return Err(e);
                },
            };
            let value = parse_value_type(child);
            let input_node = InputNode { name, value };
            let ghost iv = input_node@;
            let ghost old_items = items@;
            items.push(input_node);
            proof {
                assert(items@.drop_last() =~= old_items);
                assert(crate::model::input_nodes_view(items@) == crate::model::input_nodes_view(
                    old_items,
                ).push(iv));
            }
        }
    }
    proof {
        assert(node@.children.subrange(0, n as int) =~= node@.children);
    }
    Ok(items)
}

/// Parses the result nodes of a test case: the `resultNode` children of
/// `node`, each with its required `name` attribute, its flags and tags,
/// and its optional expected and computed values.
#[verifier::loop_isolation(false)]
pub fn parse_result_nodes(node: &XmlNode) -> (r: Result<Vec<ResultNode>, RunnerError>)
    ensures
        match r {
            Ok(v) => spec_results_seq(node@.children) == Ok::<_, RunnerErrorV>(
                crate::model::result_nodes_view(v@),
            ),
            Err(e) => spec_results_seq(node@.children) == Err::<Seq<ResultNodeV>, _>(e@),
        },
{
    proof {
        lemma_children_view(node.children@);
    }
    let mut items: Vec<ResultNode> = Vec::new();
    let n = node.children.len();
    for i in 0..n
        invariant
            n == node.children@.len(),
            spec_results_seq(node@.children.subrange(0, i as int)) == Ok::<_, RunnerErrorV>(
                crate::model::result_nodes_view(items@),
            ),
    {
        let child = &node.children[i];
        proof {
            assert(child@ == node@.children[i as int]);
            assert(node@.children.subrange(0, i + 1).drop_last() =~= node@.children.subrange(
                0,
                i as int,
            ));
            assert(node@.children.subrange(0, i + 1).last() == child@);
        }
        if str_eq(child.tag.as_str(), "resultNode") {
            let name = match crate::xml::required_attribute(child, "name") {
                Ok(nm) => nm,
                Err(e) => {
                    proof {
                        lemma_results_seq_extend(node@.children, i + 1);
                    }
                    return Err(e);
                },
            };
            let error_result = match optional_attribute(child, "errorResult") {
                Some(v) => str_eq(v.as_str(), "true"),
                None => false,
            };
            let result_node = ResultNode {
                name,
                error_result,
                typ: optional_attribute(child, "type"),
                cast: optional_attribute(child, "cast"),
                expected: parse_child_value_type(child, "expected"),
                computed: parse_child_value_type(child, "computed"),
            };
            let ghost rv = result_node@;
            let ghost old_items = items@;
            items.push(result_node);
            proof {
                assert(items@.drop_last() =~= old_items);
                assert(crate::model::result_nodes_view(items@) == crate::model::result_nodes_view(
                    old_items,
                ).push(rv));
            }
        }
    }
    proof {
        assert(node@.children.subrange(0, n as int) =~= node@.children);
    }
    Ok(items)
}

/// Parses all test cases of the suite: the `testCase` children of the
/// root `node`, in document order.
#[verifier::loop_isolation(false)]
pub fn parse_test_cases(node: &XmlNode) -> (r: Result<Vec<TestCase>, RunnerError>)
    ensures
        match r {
            Ok(v) => spec_cases_seq(node@.children) == Ok::<_, RunnerErrorV>(
                crate::model::test_cases_view(v@),
            ),
            Err(e) => spec_cases_seq(node@.children) == Err::<Seq<TestCaseV>, _>(e@),
        },
{
    proof {
        lemma_children_view(node.children@);
    }
    let mut items: Vec<TestCase> = Vec::new();
    let n = node.children.len();
    for i in 0..n
        invariant
            n == node.children@.len(),
            spec_cases_seq(node@.children.subrange(0, i as int)) == Ok::<_, RunnerErrorV>(
                crate::model::test_cases_view(items@),
            ),
    {
        let child = &node.children[i];
        proof {
            assert(child@ == node@.children[i as int]);
            assert(node@.children.subrange(0, i + 1).drop_last() =~= node@.children.subrange(
                0,
                i as int,
            ));
            assert(node@.children.subrange(0, i + 1).last() == child@);
        }
        if str_eq(child.tag.as_str(), "testCase") {
            let input_nodes = match parse_input_nodes(child) {
                Ok(v) => v,
                Err(e) => {
                    proof {
                        lemma_cases_seq_extend(node@.children, i + 1);
                    }
                    return Err(e);
                },
            };
            let result_nodes = match parse_result_nodes(child) {
                Ok(v) => v,
                Err(e) => {
                    proof {
                        lemma_cases_seq_extend(node@.children, i + 1);
                    }
                    return Err(e);
                },
            };
            let test_case = TestCase {
                id: optional_attribute(child, "id"),
                name: optional_attribute(child, "name"),
                typ: parse_test_case_type(child),
                description: crate::xml::optional_child_required_content(child, "description"),
                invocable_name: optional_attribute(child, "invocableName"),
                input_nodes,
                result_nodes,
            };
            let ghost tv = test_case@;
            let ghost old_items = items@;
            items.push(test_case);
            proof {
                assert(items@.drop_last() =~= old_items);
                assert(crate::model::test_cases_view(items@) == crate::model::test_cases_view(
                    old_items,
                ).push(tv));
                assert(spec_parse_test_case(child@) == Ok::<_, RunnerErrorV>(tv));
            }
        }
    }
    proof {
        assert(node@.children.subrange(0, n as int) =~= node@.children);
    }
    Ok(items)
}

/// Parses the root node of the suite: its optional model name, its
/// labels, and its test cases.
pub fn parse_root_node(node: &XmlNode) -> (r: Result<TestCases, RunnerError>)
    ensures
        match r {
            Ok(tc) => spec_parse_root_node(node@) == Ok::<_, RunnerErrorV>(tc@),
            Err(e) => spec_parse_root_node(node@) == Err::<TestCasesV, _>(e@),
        },
{
    let model_name = crate::xml::optional_child_required_content(node, "modelName");
    let labels = match parse_labels(node) {
        Ok(v) => v,
        Err(e) => {
            return Err(e);
        },
    };
    let test_cases = match parse_test_cases(node) {
        Ok(v) => v,
        Err(e) => {
            return Err(e);
        },
    };
    Ok(TestCases { model_name, labels, test_cases })
}

/// Parses a test-suite fixture from its textual form. Malformed markup is
/// reported as a parse failure; well-formed markup must be rooted at a
/// `testCases` element, and is then read into the suite model.
pub fn parse_from_string(s: &str) -> (r: Result<TestCases, RunnerError>)
    ensures
        match crate::xml::tokenized(s@) {
            Some(root) => match r {
                Ok(tc) => spec_parse_tree(root) == Ok::<_, RunnerErrorV>(tc@),
                Err(e) => spec_parse_tree(root) == Err::<TestCasesV, _>(e@),
            },
            None => r matches Err(e) && (e@ matches RunnerErrorV::ParsingXMLFailed(_)),
        },
{
    match crate::xml::parse_document(s) {
        Ok(root) => {
            if !str_eq(root.tag.as_str(), "testCases") {
                Err(RunnerError::XmlExpectedMandatoryNode("testCases".to_owned()))
            } else {
                parse_root_node(&root)
            }
        },
        Err(reason) => Err(RunnerError::ParsingXMLFailed(reason)),
    }
}


/// Nil is distinct from absent: when a node resolves to no simple value
/// and no components, a `list` anchor child carrying the nil marker
/// parses to the empty nil list; a missing `list` anchor child, or one
/// that is neither nil nor holds any item, parses to no value at all.
pub proof fn lemma_nil_vs_absent(n: XmlNodeV)
    requires
        spec_parse_simple(n) matches None,
        spec_components_seq(n.children).len() == 0,
    ensures
        (match spec_find_first(n.children, "list"@) {
            Some(ln) => spec_nil(ln),
            None => false,
        }) ==> spec_parse_value_type(n) == Some(
            ValueTypeV::List(ListV { items: Seq::empty(), nil: true }),
        ),
        spec_find_first(n.children, "list"@) matches None ==> spec_parse_value_type(n)
            == None::<ValueTypeV>,
        (match spec_find_first(n.children, "list"@) {
            Some(ln) => !spec_nil(ln) && spec_items_seq(ln.children).len() == 0,
            None => false,
        }) ==> spec_parse_value_type(n) == None::<ValueTypeV>,
{
    lemma_list_seq_find(n.children);
}

} // verus!
