//! Test-case value model and the parser that builds it from a markup
//! fixture.
//!
//! A parsed value is one of exactly three shapes: a simple leaf value, an
//! ordered collection of named components, or a list of values. The parser
//! resolves the shape of a node by trying the simple anchor first, then the
//! component anchor, then the list anchor, and stops at the first present
//! one.

pub use crate::parser::parse_from_string;

use vstd::prelude::*;

verus! {

/// Test cases parsed from one fixture.
#[derive(Debug)]
pub struct TestCases {
    /// Optional name of the model under test.
    pub model_name: Option<String>,
    /// Labels of the fixture, in document order.
    pub labels: Vec<String>,
    /// Test cases of the fixture, in document order.
    pub test_cases: Vec<TestCase>,
}

/// Type of a test case.
#[derive(Debug, PartialEq, Eq, Structural, Clone, Copy)]
pub enum TestCaseType {
    Decision,
    BusinessKnowledgeModel,
    DecisionService,
}

/// Single test case.
#[derive(Debug)]
pub struct TestCase {
    /// Optional identifier of this test case.
    pub id: Option<String>,
    /// Optional name of this test case.
    pub name: Option<String>,
    /// Type of this test case, `Decision` by default.
    pub typ: TestCaseType,
    /// Optional description of this test case.
    pub description: Option<String>,
    /// Optional invocable name.
    pub invocable_name: Option<String>,
    /// Input nodes, in document order.
    pub input_nodes: Vec<InputNode>,
    /// Result nodes, in document order.
    pub result_nodes: Vec<ResultNode>,
}

/// Input node defined for a test case.
#[derive(Debug)]
pub struct InputNode {
    /// Required name of this input node.
    pub name: String,
    /// Optional value of this input node; absence means that no input
    /// value was supplied, which is distinct from an explicitly nil value.
    pub value: Option<ValueType>,
}

/// A parsed value: a single simple value, a collection of components, or
/// a list.
#[derive(Debug)]
pub enum ValueType {
    Simple(Value),
    Components(Vec<Component>),
    List(List),
}

/// Result node expected by a test case.
#[derive(Debug)]
pub struct ResultNode {
    /// Required name of this result node.
    pub name: String,
    /// Whether the test case expects the evaluation to fail.
    pub error_result: bool,
    /// Optional type tag of this result node.
    pub typ: Option<String>,
    /// Optional cast tag of this result node.
    pub cast: Option<String>,
    /// Optional expected value.
    pub expected: Option<ValueType>,
    /// Optional computed value, attached after an evaluation round-trip.
    pub computed: Option<ValueType>,
}

/// A simple leaf value.
#[derive(Debug)]
pub struct Value {
    /// Type of the value in namespace-prefixed form.
    pub typ: Option<String>,
    /// Optional text representing the value.
    pub text: Option<String>,
    /// Whether this value carries the explicit nil marker.
    pub nil: bool,
}

/// One member of a component collection.
#[derive(Debug)]
pub struct Component {
    /// Optional name of this component.
    pub name: Option<String>,
    /// Optional value contained in this component.
    pub value: Option<ValueType>,
    /// Whether this component carries the explicit nil marker.
    pub nil: bool,
}

/// A list of values.
#[derive(Debug)]
pub struct List {
    /// List items, in document order; may be empty.
    pub items: Vec<ValueType>,
    /// Whether this list carries the explicit nil marker.
    pub nil: bool,
}

/// Mathematical model of a [`ValueType`].
#[verifier::ext_equal]
pub enum ValueTypeV {
    Simple(ValueV),
    Components(Seq<ComponentV>),
    List(ListV),
}

/// Mathematical model of a [`Value`].
#[verifier::ext_equal]
pub struct ValueV {
    pub typ: Option<Seq<char>>,
    pub text: Option<Seq<char>>,
    pub nil: bool,
}

/// Mathematical model of a [`Component`].
#[verifier::ext_equal]
pub struct ComponentV {
    pub name: Option<Seq<char>>,
    pub value: Option<ValueTypeV>,
    pub nil: bool,
}

/// Mathematical model of a [`List`].
#[verifier::ext_equal]
pub struct ListV {
    pub items: Seq<ValueTypeV>,
    pub nil: bool,
}

/// Mathematical model of an [`InputNode`].
#[verifier::ext_equal]
pub struct InputNodeV {
    pub name: Seq<char>,
    pub value: Option<ValueTypeV>,
}

/// Mathematical model of a [`ResultNode`].
#[verifier::ext_equal]
pub struct ResultNodeV {
    pub name: Seq<char>,
    pub error_result: bool,
    pub typ: Option<Seq<char>>,
    pub cast: Option<Seq<char>>,
    pub expected: Option<ValueTypeV>,
    pub computed: Option<ValueTypeV>,
}

/// Mathematical model of a [`TestCase`].
#[verifier::ext_equal]
pub struct TestCaseV {
    pub id: Option<Seq<char>>,
    pub name: Option<Seq<char>>,
    pub typ: TestCaseType,
    pub description: Option<Seq<char>>,
    pub invocable_name: Option<Seq<char>>,
    pub input_nodes: Seq<InputNodeV>,
    pub result_nodes: Seq<ResultNodeV>,
}

/// Mathematical model of a [`TestCases`].
#[verifier::ext_equal]
pub struct TestCasesV {
    pub model_name: Option<Seq<char>>,
    pub labels: Seq<Seq<char>>,
    pub test_cases: Seq<TestCaseV>,
}

/// Model of an optional string.
pub open spec fn opt_str_view(o: Option<String>) -> Option<Seq<char>> {
    match o {
        Some(s) => Some(s@),
        None => None,
    }
}

/// Model of a value of any of the three shapes.
pub open spec fn value_type_view(v: ValueType) -> ValueTypeV
    decreases v,
{
    match v {
        ValueType::Simple(s) => ValueTypeV::Simple(
            ValueV { typ: opt_str_view(s.typ), text: opt_str_view(s.text), nil: s.nil },
        ),
        ValueType::Components(cs) => ValueTypeV::Components(components_view(cs@)),
        ValueType::List(l) => ValueTypeV::List(
            ListV { items: items_view(l.items@), nil: l.nil },
        ),
    }
}

/// Models of a sequence of components, element by element.
pub open spec fn components_view(s: Seq<Component>) -> Seq<ComponentV>
    decreases s,
{
    if s.len() == 0 {
        Seq::empty()
    } else {
        components_view(s.drop_last()).push(component_view(s.last()))
    }
}

/// Model of one component.
pub open spec fn component_view(c: Component) -> ComponentV
    decreases c,
{
    ComponentV {
        name: opt_str_view(c.name),
        value: match c.value {
            Some(v) => Some(value_type_view(v)),
            None => None,
        },
        nil: c.nil,
    }
}

/// Models of a sequence of values, element by element.
pub open spec fn items_view(s: Seq<ValueType>) -> Seq<ValueTypeV>
    decreases s,
{
    if s.len() == 0 {
        Seq::empty()
    } else {
        items_view(s.drop_last()).push(value_type_view(s.last()))
    }
}

/// `components_view` keeps the length and models each element in place.
pub broadcast proof fn lemma_components_view(s: Seq<Component>)
    ensures
        (#[trigger] components_view(s)).len() == s.len(),
        forall|i: int| 0 <= i < s.len() ==> components_view(s)[i] == component_view(s[i]),
    decreases s,
{
    if s.len() > 0 {
        lemma_components_view(s.drop_last());
    }
}

/// `items_view` keeps the length and models each element in place.
pub broadcast proof fn lemma_items_view(s: Seq<ValueType>)
    ensures
        (#[trigger] items_view(s)).len() == s.len(),
        forall|i: int| 0 <= i < s.len() ==> items_view(s)[i] == value_type_view(s[i]),
    decreases s,
{
    if s.len() > 0 {
        lemma_items_view(s.drop_last());
    }
}

impl View for ValueType {
    type V = ValueTypeV;

    open spec fn view(&self) -> ValueTypeV {
        value_type_view(*self)
    }
}

impl View for Value {
    type V = ValueV;

    open spec fn view(&self) -> ValueV {
        ValueV { typ: opt_str_view(self.typ), text: opt_str_view(self.text), nil: self.nil }
    }
}

impl View for Component {
    type V = ComponentV;

    open spec fn view(&self) -> ComponentV {
        component_view(*self)
    }
}

impl View for List {
    type V = ListV;

    open spec fn view(&self) -> ListV {
        ListV { items: items_view(self.items@), nil: self.nil }
    }
}

impl View for InputNode {
    type V = InputNodeV;

    open spec fn view(&self) -> InputNodeV {
        InputNodeV {
            name: self.name@,
            value: match self.value {
                Some(v) => Some(value_type_view(v)),
                None => None,
            },
        }
    }
}

impl View for ResultNode {
    type V = ResultNodeV;

    open spec fn view(&self) -> ResultNodeV {
        ResultNodeV {
            name: self.name@,
            error_result: self.error_result,
            typ: opt_str_view(self.typ),
            cast: opt_str_view(self.cast),
            expected: match self.expected {
                Some(v) => Some(value_type_view(v)),
                None => None,
            },
            computed: match self.computed {
                Some(v) => Some(value_type_view(v)),
                None => None,
            },
        }
    }
}

/// Models of a sequence of input nodes, element by element.
pub open spec fn input_nodes_view(s: Seq<InputNode>) -> Seq<InputNodeV>
    decreases s,
{
    if s.len() == 0 {
        Seq::empty()
    } else {
        input_nodes_view(s.drop_last()).push(s.last()@)
    }
}

/// Models of a sequence of result nodes, element by element.
pub open spec fn result_nodes_view(s: Seq<ResultNode>) -> Seq<ResultNodeV>
    decreases s,
{
    if s.len() == 0 {
        Seq::empty()
    } else {
        result_nodes_view(s.drop_last()).push(s.last()@)
    }
}

impl View for TestCase {
    type V = TestCaseV;

    open spec fn view(&self) -> TestCaseV {
        TestCaseV {
            id: opt_str_view(self.id),
            name: opt_str_view(self.name),
            typ: self.typ,
            description: opt_str_view(self.description),
            invocable_name: opt_str_view(self.invocable_name),
            input_nodes: input_nodes_view(self.input_nodes@),
            result_nodes: result_nodes_view(self.result_nodes@),
        }
    }
}

/// Models of a sequence of test cases, element by element.
pub open spec fn test_cases_view(s: Seq<TestCase>) -> Seq<TestCaseV>
    decreases s,
{
    if s.len() == 0 {
        Seq::empty()
    } else {
        test_cases_view(s.drop_last()).push(s.last()@)
    }
}

/// Models of a sequence of labels, element by element.
pub open spec fn labels_view(s: Seq<String>) -> Seq<Seq<char>>
    decreases s,
{
    if s.len() == 0 {
        Seq::empty()
    } else {
        labels_view(s.drop_last()).push(s.last()@)
    }
}

impl View for TestCases {
    type V = TestCasesV;

    open spec fn view(&self) -> TestCasesV {
        TestCasesV {
            model_name: opt_str_view(self.model_name),
            labels: labels_view(self.labels@),
            test_cases: test_cases_view(self.test_cases@),
        }
    }
}

/// The default list model: empty and nil.
pub open spec fn spec_default_list() -> ListV {
    ListV { items: Seq::empty(), nil: true }
}

impl Default for List {
    /// A list is empty and nil by default.
    fn default() -> (r: Self)
        ensures
            r@ == spec_default_list(),
    {
        Self { items: Vec::new(), nil: true }
    }
}


/// Returns `true` exactly when the two optional strings hold the same
/// characters, or are both absent.
pub fn opt_str_eq(a: &Option<String>, b: &Option<String>) -> (r: bool)
    ensures
        r == (opt_str_view(*a) == opt_str_view(*b)),
{
    match (a, b) {
        (Some(x), Some(y)) => crate::xml::str_eq(x.as_str(), y.as_str()),
        (None, None) => true,
        _ => false,
    }
}

impl Value {
    /// Returns `true` exactly when the two simple values agree on their
    /// type tag, their text and their nil marker. A nil value is never
    /// equal to a non-nil value with empty text: the two are distinct
    /// states.
    pub fn structural_eq(&self, other: &Value) -> (r: bool)
        ensures
            r == (self@ == other@),
    {
        opt_str_eq(&self.typ, &other.typ) && opt_str_eq(&self.text, &other.text) && self.nil
            == other.nil
    }
}

impl ValueType {
    /// Returns `true` exactly when the two values have the same shape
    /// and, recursively, equal contents in the same order.
    #[verifier::loop_isolation(false)]
    pub fn structural_eq(&self, other: &ValueType) -> (r: bool)
        ensures
            r == (self@ == other@),
        decreases self,
    {
        match (self, other) {
            (ValueType::Simple(a), ValueType::Simple(b)) => a.structural_eq(b),
            (ValueType::Components(a), ValueType::Components(b)) => {
                proof {
                    lemma_components_view(a@);
                    lemma_components_view(b@);
                }
                if a.len() != b.len() {
                    return false;
                }
                let n = a.len();
                for i in 0..n
                    invariant
                        n == a@.len() == b@.len(),
                        forall|j: int|
                            0 <= j < i ==> component_view(a@[j]) == component_view(b@[j]),
                {
                    proof {
                        assert(decreases_to!(*self => a@[i as int]));
                    }
                    if !a[i].structural_eq(&b[i]) {
                        proof {
                            assert(components_view(a@)[i as int] != components_view(b@)[
                                i as int
                            ]);
                        }
                        return false;
                    }
                }
                proof {
                    assert(components_view(a@) =~= components_view(b@));
                }
                true
            },
            (ValueType::List(a), ValueType::List(b)) => {
                proof {
                    lemma_items_view(a.items@);
                    lemma_items_view(b.items@);
                }
                if a.nil != b.nil || a.items.len() != b.items.len() {
                    return false;
                }
                let n = a.items.len();
                for i in 0..n
                    invariant
                        n == a.items@.len() == b.items@.len(),
                        forall|j: int|
                            0 <= j < i ==> value_type_view(a.items@[j]) == value_type_view(
                                b.items@[j],
                            ),
                {
                    proof {
                        assert(decreases_to!(*self => a.items@[i as int]));
                    }
                    if !a.items[i].structural_eq(&b.items[i]) {
                        proof {
                            assert(items_view(a.items@)[i as int] != items_view(b.items@)[
                                i as int
                            ]);
                        }
                        return false;
                    }
                }
                proof {
                    assert(items_view(a.items@) =~= items_view(b.items@));
                }
                true
            },
            _ => false,
        }
    }
}

impl Component {
    /// Returns `true` exactly when the two components agree on their
    /// name, their nil marker and, recursively, their value.
    pub fn structural_eq(&self, other: &Component) -> (r: bool)
        ensures
            r == (self@ == other@),
        decreases self,
    {
        if !(opt_str_eq(&self.name, &other.name) && self.nil == other.nil) {
            return false;
        }
        match (&self.value, &other.value) {
            (Some(a), Some(b)) => a.structural_eq(b),
            (None, None) => true,
            _ => false,
        }
    }
}


/// Returns a copy of the optional string.
pub fn opt_str_clone(o: &Option<String>) -> (r: Option<String>)
    ensures
        opt_str_view(r) == opt_str_view(*o),
{
    match o {
        Some(t) => Some(t.clone()),
        None => None,
    }
}

impl Value {
    /// Returns a copy of this simple value with the same model.
    pub fn deep_clone(&self) -> (r: Value)
        ensures
            r@ == self@,
    {
        Value { typ: opt_str_clone(&self.typ), text: opt_str_clone(&self.text), nil: self.nil }
    }
}

impl ValueType {
    /// Returns a copy of this value with the same model.
    #[verifier::loop_isolation(false)]
    pub fn deep_clone(&self) -> (r: ValueType)
        ensures
            r@ == self@,
        decreases self,
    {
        match self {
            ValueType::Simple(v) => ValueType::Simple(v.deep_clone()),
            ValueType::Components(cs) => {
                proof {
                    lemma_components_view(cs@);
                }
                let mut out: Vec<Component> = Vec::new();
                let n = cs.len();
                for i in 0..n
                    invariant
                        n == cs@.len(),
                        out@.len() == i,
                        forall|j: int|
                            0 <= j < i ==> component_view(out@[j]) == component_view(cs@[j]),
                {
                    proof {
                        assert(decreases_to!(*self => cs@[i as int]));
                    }
                    out.push(cs[i].deep_clone());
                }
                proof {
                    lemma_components_view(out@);
                    assert(components_view(out@) =~= components_view(cs@));
                }
                ValueType::Components(out)
            },
            ValueType::List(l) => {
                proof {
                    lemma_items_view(l.items@);
                }
                let mut out: Vec<ValueType> = Vec::new();
                let n = l.items.len();
                for i in 0..n
                    invariant
                        n == l.items@.len(),
                        out@.len() == i,
                        forall|j: int|
                            0 <= j < i ==> value_type_view(out@[j]) == value_type_view(
                                l.items@[j],
                            ),
                {
                    proof {
                        assert(decreases_to!(*self => l.items@[i as int]));
                    }
                    out.push(l.items[i].deep_clone());
                }
                proof {
                    lemma_items_view(out@);
                    assert(items_view(out@) =~= items_view(l.items@));
                }
                ValueType::List(List { items: out, nil: l.nil })
            },
        }
    }
}

impl Component {
    /// Returns a copy of this component with the same model.
    pub fn deep_clone(&self) -> (r: Component)
        ensures
            r@ == self@,
        decreases self,
    {
        Component {
            name: opt_str_clone(&self.name),
            value: match &self.value {
                Some(v) => Some(v.deep_clone()),
                None => None,
            },
            nil: self.nil,
        }
    }
}

impl List {
    /// Returns a copy of this list with the same model.
    #[verifier::loop_isolation(false)]
    pub fn deep_clone(&self) -> (r: List)
        ensures
            r@ == self@,
        decreases self,
    {
        proof {
            lemma_items_view(self.items@);
        }
        let mut out: Vec<ValueType> = Vec::new();
        let n = self.items.len();
        for i in 0..n
            invariant
                n == self.items@.len(),
                out@.len() == i,
                forall|j: int|
                    0 <= j < i ==> value_type_view(out@[j]) == value_type_view(self.items@[j]),
        {
            proof {
                assert(decreases_to!(*self => self.items@[i as int]));
            }
            out.push(self.items[i].deep_clone());
        }
        proof {
            lemma_items_view(out@);
            assert(items_view(out@) =~= items_view(self.items@));
        }
        List { items: out, nil: self.nil }
    }
}


impl TestCaseType {
    /// Returns the textual form of this test-case type, as it appears in
    /// reports: `decision`, `bkm` or `decisionService`.
    pub fn display_name(&self) -> (r: String)
        ensures
            r@ == match *self {
                TestCaseType::Decision => "decision"@,
                TestCaseType::BusinessKnowledgeModel => "bkm"@,
                TestCaseType::DecisionService => "decisionService"@,
            },
    {
        match self {
            TestCaseType::Decision => "decision".to_owned(),
            TestCaseType::BusinessKnowledgeModel => "bkm".to_owned(),
            TestCaseType::DecisionService => "decisionService".to_owned(),
        }
    }
}


/// Structural equality is reflexive, and order-sensitive: a composite
/// value equals another exactly when the member sequences are equal, so
/// the same members in a different order make a different value.
pub proof fn lemma_eq_reflexive_order_sensitive(
    v: ValueTypeV,
    cs1: Seq<ComponentV>,
    cs2: Seq<ComponentV>,
)
    ensures
        v == v,
        (ValueTypeV::Components(cs1) == ValueTypeV::Components(cs2)) <==> cs1 == cs2,
{
}

} // verus!
