//! Wire encoding exchanged with the evaluation collaborator.
//!
//! A value serializes to an object with at most one of three mutually
//! exclusive keys: `simple` for a leaf value, `components` for a named
//! aggregate, and `list` for a list. The encoding mirrors the internal
//! value model exactly: it is variant-preserving and round-trip-safe for
//! all three shapes, which [`lemma_round_trip`] states and proves.

use crate::model::Component;
use crate::model::ComponentV;
use crate::model::InputNode;
use crate::model::List;
use crate::model::ListV;
use crate::model::Value;
use crate::model::ValueType;
use crate::model::ValueTypeV;
use crate::model::ValueV;
use crate::model::opt_str_clone;
use crate::model::opt_str_view;
use crate::model::components_view;
use crate::model::items_view;
use crate::model::lemma_components_view;
use crate::model::lemma_items_view;
use crate::parser::opt_view;
use vstd::prelude::*;

verus! {

/// Data transfer object for an error returned by a collaborator.
#[derive(Debug)]
pub struct ErrorDto {
    /// Error details.
    pub details: String,
}

/// Data transfer object for a result returned by a collaborator.
#[derive(Debug)]
pub struct ResultDto<T> {
    /// Result carrying data.
    pub data: Option<T>,
    /// Result carrying errors.
    pub errors: Option<Vec<ErrorDto>>,
}

/// Wire form of one named input value.
#[derive(Debug)]
pub struct InputNodeDto {
    pub name: String,
    pub value: Option<ValueDto>,
}

/// Wire form of the expected value of a result node.
#[derive(Debug)]
pub struct ExpectedValueDto {
    pub value: Option<ValueDto>,
}

/// Wire form of a value: at most one of the three keys is present.
#[derive(Debug)]
pub struct ValueDto {
    pub simple: Option<SimpleDto>,
    pub components: Option<Vec<ComponentDto>>,
    pub list: Option<ListDto>,
}

/// Wire form of a simple leaf value.
#[derive(Debug)]
pub struct SimpleDto {
    pub typ: Option<String>,
    pub text: Option<String>,
    pub nil: bool,
}

/// Wire form of one component of an aggregate.
#[derive(Debug)]
pub struct ComponentDto {
    pub name: Option<String>,
    pub value: Option<ValueDto>,
    pub nil: bool,
}

/// Wire form of a list of values.
#[derive(Debug)]
pub struct ListDto {
    pub items: Vec<ValueDto>,
    pub nil: bool,
}

/// Mathematical model of a [`SimpleDto`].
#[verifier::ext_equal]
pub struct SimpleDtoV {
    pub typ: Option<Seq<char>>,
    pub text: Option<Seq<char>>,
    pub nil: bool,
}

/// Mathematical model of a [`ComponentDto`].
#[verifier::ext_equal]
pub struct ComponentDtoV {
    pub name: Option<Seq<char>>,
    pub value: Option<ValueDtoV>,
    pub nil: bool,
}

/// Mathematical model of a [`ListDto`].
#[verifier::ext_equal]
pub struct ListDtoV {
    pub items: Seq<ValueDtoV>,
    pub nil: bool,
}

/// Mathematical model of a [`ValueDto`].
#[verifier::ext_equal]
pub struct ValueDtoV {
    pub simple: Option<SimpleDtoV>,
    pub components: Option<Seq<ComponentDtoV>>,
    pub list: Option<ListDtoV>,
}

/// Mathematical model of an [`InputNodeDto`].
#[verifier::ext_equal]
pub struct InputNodeDtoV {
    pub name: Seq<char>,
    pub value: Option<ValueDtoV>,
}

impl View for SimpleDto {
    type V = SimpleDtoV;

    open spec fn view(&self) -> SimpleDtoV {
        SimpleDtoV { typ: opt_str_view(self.typ), text: opt_str_view(self.text), nil: self.nil }
    }
}

/// Model of a wire value.
pub open spec fn value_dto_view(d: ValueDto) -> ValueDtoV
    decreases d,
{
    ValueDtoV {
        simple: match d.simple {
            Some(s) => Some(s@),
            None => None,
        },
        components: match d.components {
            Some(cs) => Some(component_dtos_view(cs@)),
            None => None,
        },
        list: match d.list {
            Some(l) => Some(ListDtoV { items: value_dtos_view(l.items@), nil: l.nil }),
            None => None,
        },
    }
}

/// Models of a sequence of wire components, element by element.
pub open spec fn component_dtos_view(s: Seq<ComponentDto>) -> Seq<ComponentDtoV>
    decreases s,
{
    if s.len() == 0 {
        Seq::empty()
    } else {
        component_dtos_view(s.drop_last()).push(component_dto_view(s.last()))
    }
}

/// Model of one wire component.
pub open spec fn component_dto_view(c: ComponentDto) -> ComponentDtoV
    decreases c,
{
    ComponentDtoV {
        name: opt_str_view(c.name),
        value: match c.value {
            Some(v) => Some(value_dto_view(v)),
            None => None,
        },
        nil: c.nil,
    }
}

/// Models of a sequence of wire values, element by element.
pub open spec fn value_dtos_view(s: Seq<ValueDto>) -> Seq<ValueDtoV>
    decreases s,
{
    if s.len() == 0 {
        Seq::empty()
    } else {
        value_dtos_view(s.drop_last()).push(value_dto_view(s.last()))
    }
}

/// `component_dtos_view` keeps the length and models each element in
/// place.
pub broadcast proof fn lemma_component_dtos_view(s: Seq<ComponentDto>)
    ensures
        (#[trigger] component_dtos_view(s)).len() == s.len(),
        forall|i: int| 0 <= i < s.len() ==> component_dtos_view(s)[i] == component_dto_view(s[i]),
    decreases s,
{
    if s.len() > 0 {
        lemma_component_dtos_view(s.drop_last());
    }
}

/// `value_dtos_view` keeps the length and models each element in place.
pub broadcast proof fn lemma_value_dtos_view(s: Seq<ValueDto>)
    ensures
        (#[trigger] value_dtos_view(s)).len() == s.len(),
        forall|i: int| 0 <= i < s.len() ==> value_dtos_view(s)[i] == value_dto_view(s[i]),
    decreases s,
{
    if s.len() > 0 {
        lemma_value_dtos_view(s.drop_last());
    }
}

impl View for ValueDto {
    type V = ValueDtoV;

    open spec fn view(&self) -> ValueDtoV {
        value_dto_view(*self)
    }
}

impl View for ComponentDto {
    type V = ComponentDtoV;

    open spec fn view(&self) -> ComponentDtoV {
        component_dto_view(*self)
    }
}

impl View for ListDto {
    type V = ListDtoV;

    open spec fn view(&self) -> ListDtoV {
        ListDtoV { items: value_dtos_view(self.items@), nil: self.nil }
    }
}

impl View for InputNodeDto {
    type V = InputNodeDtoV;

    open spec fn view(&self) -> InputNodeDtoV {
        InputNodeDtoV {
            name: self.name@,
            value: match self.value {
                Some(v) => Some(value_dto_view(v)),
                None => None,
            },
        }
    }
}

/// The wire form of a value: exactly one of the three keys is set, the
/// one of the value's shape.
pub open spec fn spec_encode_value(v: ValueTypeV) -> ValueDtoV
    decreases v,
{
    match v {
        ValueTypeV::Simple(s) => ValueDtoV {
            simple: Some(SimpleDtoV { typ: s.typ, text: s.text, nil: s.nil }),
            components: None,
            list: None,
        },
        ValueTypeV::Components(cs) => ValueDtoV {
            simple: None,
            components: Some(spec_encode_components(cs)),
            list: None,
        },
        ValueTypeV::List(l) => ValueDtoV {
            simple: None,
            components: None,
            list: Some(ListDtoV { items: spec_encode_items(l.items), nil: l.nil }),
        },
    }
}

/// The wire forms of a sequence of components, element by element.
pub open spec fn spec_encode_components(s: Seq<ComponentV>) -> Seq<ComponentDtoV>
    decreases s,
{
    if s.len() == 0 {
        Seq::empty()
    } else {
        spec_encode_components(s.drop_last()).push(spec_encode_component(s.last()))
    }
}

/// The wire form of one component.
pub open spec fn spec_encode_component(c: ComponentV) -> ComponentDtoV
    decreases c,
{
    ComponentDtoV {
        name: c.name,
        value: match c.value {
            Some(v) => Some(spec_encode_value(v)),
            None => None,
        },
        nil: c.nil,
    }
}

/// The wire forms of a sequence of values, element by element.
pub open spec fn spec_encode_items(s: Seq<ValueTypeV>) -> Seq<ValueDtoV>
    decreases s,
{
    if s.len() == 0 {
        Seq::empty()
    } else {
        spec_encode_items(s.drop_last()).push(spec_encode_value(s.last()))
    }
}

/// The value read back from a wire form: the first present key wins, in
/// the order `simple`, `components`, `list`; a wire form with no key
/// holds no value.
pub open spec fn spec_decode_value(d: ValueDtoV) -> Option<ValueTypeV>
    decreases d,
{
    match d.simple {
        Some(s) => Some(ValueTypeV::Simple(ValueV { typ: s.typ, text: s.text, nil: s.nil })),
        None => match d.components {
            Some(cs) => Some(ValueTypeV::Components(spec_decode_components(cs))),
            None => match d.list {
                Some(l) => Some(
                    ValueTypeV::List(ListV { items: spec_decode_items(l.items), nil: l.nil }),
                ),
                None => None,
            },
        },
    }
}

/// The components read back from their wire forms, element by element. A
/// member whose wire value holds no key reads back as a member without a
/// value.
pub open spec fn spec_decode_components(s: Seq<ComponentDtoV>) -> Seq<ComponentV>
    decreases s,
{
    if s.len() == 0 {
        Seq::empty()
    } else {
        spec_decode_components(s.drop_last()).push(
            ComponentV {
                name: s.last().name,
                value: match s.last().value {
                    Some(dv) => spec_decode_value(dv),
                    None => None,
                },
                nil: s.last().nil,
            },
        )
    }
}

/// The list items read back from their wire forms, in order; an item
/// whose wire form holds no key is passed over.
pub open spec fn spec_decode_items(s: Seq<ValueDtoV>) -> Seq<ValueTypeV>
    decreases s,
{
    if s.len() == 0 {
        Seq::empty()
    } else {
        let rest = spec_decode_items(s.drop_last());
        match spec_decode_value(s.last()) {
            Some(v) => rest.push(v),
            None => rest,
        }
    }
}

/// Round trip: encoding any value to its wire form and decoding it back
/// yields a value structurally equal to the original, for all three
/// shapes, nested combinations included.
pub proof fn lemma_round_trip(v: ValueTypeV)
    ensures
        spec_decode_value(spec_encode_value(v)) == Some(v),
    decreases v,
{
    match v {
        ValueTypeV::Simple(_) => {},
        ValueTypeV::Components(cs) => {
            lemma_round_trip_components(cs);
            assert(spec_decode_components(spec_encode_components(cs)) =~= cs);
        },
        ValueTypeV::List(l) => {
            lemma_round_trip_items(l.items);
            assert(spec_decode_items(spec_encode_items(l.items)) =~= l.items);
            assert(ListV { items: spec_decode_items(spec_encode_items(l.items)), nil: l.nil }
                =~= l);
        },
    }
}

/// Round trip of a sequence of components, element by element.
proof fn lemma_round_trip_components(s: Seq<ComponentV>)
    ensures
        spec_decode_components(spec_encode_components(s)) =~= s,
    decreases s,
{
    if s.len() > 0 {
        lemma_round_trip_components(s.drop_last());
        assert(spec_encode_components(s).drop_last() =~= spec_encode_components(s.drop_last()));
        match s.last().value {
            Some(v) => {
                lemma_round_trip(v);
            },
            None => {},
        }
        assert(ComponentV {
            name: s.last().name,
            value: match spec_encode_component(s.last()).value {
                Some(dv) => spec_decode_value(dv),
                None => None,
            },
            nil: s.last().nil,
        } =~= s.last());
    }
}

/// Round trip of a sequence of list items, element by element.
proof fn lemma_round_trip_items(s: Seq<ValueTypeV>)
    ensures
        spec_decode_items(spec_encode_items(s)) =~= s,
    decreases s,
{
    if s.len() > 0 {
        lemma_round_trip_items(s.drop_last());
        assert(spec_encode_items(s).drop_last() =~= spec_encode_items(s.drop_last()));
        lemma_round_trip(s.last());
    }
}

impl Default for ValueDto {
    /// A wire value carries no key by default.
    fn default() -> (r: Self)
        ensures
            r@ == (ValueDtoV { simple: None, components: None, list: None }),
    {
        Self { simple: None, components: None, list: None }
    }
}

impl SimpleDto {
    /// Encodes a simple leaf value into its wire form.
    pub fn from_simple(v: &Value) -> (r: SimpleDto)
        ensures
            r@ == (SimpleDtoV { typ: v@.typ, text: v@.text, nil: v@.nil }),
    {
        SimpleDto {
            typ: opt_str_clone(&v.typ),
            text: opt_str_clone(&v.text),
            nil: v.nil,
        }
    }
}

impl ComponentDto {
    /// Encodes one component into its wire form.
    pub fn from_component(c: &Component) -> (r: ComponentDto)
        ensures
            r@ == spec_encode_component(c@),
        decreases c,
    {
        ComponentDto {
            name: opt_str_clone(&c.name),
            value: match &c.value {
                Some(v) => Some(ValueDto::from_value_type(v)),
                None => None,
            },
            nil: c.nil,
        }
    }
}

impl ListDto {
    /// Encodes a list into its wire form, item by item.
    #[verifier::loop_isolation(false)]
    pub fn from_list(l: &List) -> (r: ListDto)
        ensures
            r@ == (ListDtoV { items: spec_encode_items(items_view(l.items@)), nil: l.nil }),
        decreases l,
    {
        proof {
            lemma_items_view(l.items@);
        }
        let ghost full = items_view(l.items@);
        let mut out: Vec<ValueDto> = Vec::new();
        let n = l.items.len();
        for i in 0..n
            invariant
                n == l.items@.len(),
                full == items_view(l.items@),
                full.len() == n,
                value_dtos_view(out@) == spec_encode_items(full.subrange(0, i as int)),
        {
            proof {
                assert(decreases_to!(*l => l.items@[i as int]));
                assert(full.subrange(0, i + 1).drop_last() =~= full.subrange(0, i as int));
                assert(full.subrange(0, i + 1).last() == full[i as int]);
            }
            let dto = ValueDto::from_value_type(&l.items[i]);
            let ghost dv = dto@;
            let ghost old_out = out@;
            out.push(dto);
            proof {
                assert(out@.drop_last() =~= old_out);
                assert(value_dtos_view(out@) == value_dtos_view(old_out).push(dv));
            }
        }
        proof {
            assert(full.subrange(0, n as int) =~= full);
        }
        ListDto { items: out, nil: l.nil }
    }
}

impl ValueDto {
    /// Encodes a value into its wire form: exactly one of the three keys
    /// is set, the one of the value's shape.
    #[verifier::loop_isolation(false)]
    pub fn from_value_type(v: &ValueType) -> (r: ValueDto)
        ensures
            r@ == spec_encode_value(v@),
        decreases v,
    {
        match v {
            ValueType::Simple(s) => ValueDto {
                simple: Some(SimpleDto::from_simple(s)),
                components: None,
                list: None,
            },
            ValueType::Components(cs) => {
                proof {
                    lemma_components_view(cs@);
                }
                let ghost full = components_view(cs@);
                let mut out: Vec<ComponentDto> = Vec::new();
                let n = cs.len();
                for i in 0..n
                    invariant
                        n == cs@.len(),
                        full == components_view(cs@),
                        full.len() == n,
                        component_dtos_view(out@) == spec_encode_components(
                            full.subrange(0, i as int),
                        ),
                {
                    proof {
                        assert(decreases_to!(*v => cs@[i as int]));
                        assert(full.subrange(0, i + 1).drop_last() =~= full.subrange(
                            0,
                            i as int,
                        ));
                        assert(full.subrange(0, i + 1).last() == full[i as int]);
                    }
                    let dto = ComponentDto::from_component(&cs[i]);
                    let ghost dv = dto@;
                    let ghost old_out = out@;
                    out.push(dto);
                    proof {
                        assert(out@.drop_last() =~= old_out);
                        assert(component_dtos_view(out@) == component_dtos_view(old_out).push(
                            dv,
                        ));
                    }
                }
                proof {
                    assert(full.subrange(0, n as int) =~= full);
                }
                ValueDto { simple: None, components: Some(out), list: None }
            },
            ValueType::List(l) => ValueDto {
                simple: None,
                components: None,
                list: Some(ListDto::from_list(l)),
            },
        }
    }

    /// Decodes a wire form back into a value: the first present key
    /// wins, in the order `simple`, `components`, `list`; a wire form
    /// with no key decodes to no value.
    #[verifier::loop_isolation(false)]
    pub fn to_value_type(&self) -> (r: Option<ValueType>)
        ensures
            opt_view(r) == spec_decode_value(self@),
        decreases self,
    {
        if let Some(s) = &self.simple {
            return Some(
                ValueType::Simple(
                    Value {
                        typ: opt_str_clone(&s.typ),
                        text: opt_str_clone(&s.text),
                        nil: s.nil,
                    },
                ),
            );
        }
        if let Some(cs) = &self.components {
            proof {
                lemma_component_dtos_view(cs@);
            }
            let ghost full = component_dtos_view(cs@);
            let mut out: Vec<Component> = Vec::new();
            let n = cs.len();
            for i in 0..n
                invariant
                    n == cs@.len(),
                    full == component_dtos_view(cs@),
                    full.len() == n,
                    components_view(out@) == spec_decode_components(full.subrange(0, i as int)),
            {
                let cd = &cs[i];
                proof {
                    assert(decreases_to!(*self => cs@[i as int]));
                    assert(cd@ == full[i as int]);
                    assert(full.subrange(0, i + 1).drop_last() =~= full.subrange(0, i as int));
                    assert(full.subrange(0, i + 1).last() == full[i as int]);
                }
                let val = match &cd.value {
                    Some(dv) => dv.to_value_type(),
                    None => None,
                };
                let c = Component { name: opt_str_clone(&cd.name), value: val, nil: cd.nil };
                let ghost cv = c@;
                let ghost old_out = out@;
                out.push(c);
                proof {
                    assert(out@.drop_last() =~= old_out);
                    assert(components_view(out@) == components_view(old_out).push(cv));
                }
            }
            proof {
                assert(full.subrange(0, n as int) =~= full);
            }
            return Some(ValueType::Components(out));
        }
        if let Some(l) = &self.list {
            proof {
                lemma_value_dtos_view(l.items@);
            }
            let ghost full = value_dtos_view(l.items@);
            let mut out: Vec<ValueType> = Vec::new();
            let n = l.items.len();
            for i in 0..n
                invariant
                    n == l.items@.len(),
                    full == value_dtos_view(l.items@),
                    full.len() == n,
                    items_view(out@) == spec_decode_items(full.subrange(0, i as int)),
            {
                let item = &l.items[i];
                proof {
                    assert(decreases_to!(*self => l.items@[i as int]));
                    assert(item@ == full[i as int]);
                    assert(full.subrange(0, i + 1).drop_last() =~= full.subrange(0, i as int));
                    assert(full.subrange(0, i + 1).last() == full[i as int]);
                }
                match item.to_value_type() {
                    Some(v) => {
                        let ghost vv = v@;
                        let ghost old_out = out@;
                        out.push(v);
                        proof {
                            assert(out@.drop_last() =~= old_out);
                            assert(items_view(out@) == items_view(old_out).push(vv));
                        }
                    },
                    None => {},
                }
            }
            proof {
                assert(full.subrange(0, n as int) =~= full);
            }
            return Some(ValueType::List(List { items: out, nil: l.nil }));
        }
        None
    }
}

impl InputNodeDto {
    /// Encodes one named input value into its wire form.
    pub fn from_input_node(n: &InputNode) -> (r: InputNodeDto)
        ensures
            r@ == (InputNodeDtoV {
                name: n@.name,
                value: match n@.value {
                    Some(v) => Some(spec_encode_value(v)),
                    None => None,
                },
            }),
    {
        InputNodeDto {
            name: n.name.clone(),
            value: match &n.value {
                Some(v) => Some(ValueDto::from_value_type(v)),
                None => None,
            },
        }
    }
}

} // verus!
