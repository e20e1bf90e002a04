//! Tests for the wire-encoding round trip, the nil-versus-absent
//! distinction, equality, kind fallback and the parse errors.

use dmn_runner::dto::ValueDto;
use dmn_runner::errors::RunnerError;
use dmn_runner::model::parse_from_string;
use dmn_runner::model::Component;
use dmn_runner::model::List;
use dmn_runner::model::TestCaseType;
use dmn_runner::model::Value;
use dmn_runner::model::ValueType;

fn scalar(typ: &str, text: &str) -> ValueType {
    ValueType::Simple(Value {
        typ: Some(typ.to_string()),
        text: Some(text.to_string()),
        nil: false,
    })
}

#[test]
fn round_trip_simple() {
    let v = scalar("xsd:string", "Hello");
    let decoded = ValueDto::from_value_type(&v).to_value_type().unwrap();
    assert!(v.structural_eq(&decoded));
}

#[test]
fn round_trip_nil_simple() {
    let v = ValueType::Simple(Value { typ: None, text: None, nil: true });
    let decoded = ValueDto::from_value_type(&v).to_value_type().unwrap();
    assert!(v.structural_eq(&decoded));
}

#[test]
fn round_trip_nested() {
    // A composite holding a sequence of scalars, plus a valueless member.
    let seq = ValueType::List(List {
        items: vec![scalar("xsd:decimal", "1"), scalar("xsd:decimal", "2")],
        nil: false,
    });
    let v = ValueType::Components(vec![
        Component { name: Some("numbers".to_string()), value: Some(seq), nil: false },
        Component { name: None, value: None, nil: true },
    ]);
    let decoded = ValueDto::from_value_type(&v).to_value_type().unwrap();
    assert!(v.structural_eq(&decoded));
}

#[test]
fn round_trip_empty_nil_sequence() {
    let v = ValueType::List(List::default());
    let decoded = ValueDto::from_value_type(&v).to_value_type().unwrap();
    assert!(v.structural_eq(&decoded));
}

#[test]
fn wire_form_is_variant_preserving() {
    // The wire form sets exactly the key of the value's shape; a default
    // wire form sets none and decodes to no value.
    let dto = ValueDto::from_value_type(&scalar("xsd:string", "x"));
    assert!(dto.simple.is_some());
    assert!(dto.components.is_none());
    assert!(dto.list.is_none());
    let empty = ValueDto::default();
    assert!(empty.to_value_type().is_none());
}

#[test]
fn nil_sequence_vs_absent_value() {
    let source = r#"<?xml version="1.0"?>
<testCases xmlns:xsi="http://www.w3.org/2001/XMLSchema-instance">
  <testCase id="001">
    <inputNode name="nilList">
      <list xsi:nil="true"/>
    </inputNode>
    <inputNode name="nothing"/>
    <inputNode name="emptyList">
      <list/>
    </inputNode>
  </testCase>
</testCases>
"#;
    let test_cases = parse_from_string(source).unwrap();
    let case = &test_cases.test_cases[0];
    // An explicit nil marker parses to an empty, nil sequence.
    match &case.input_nodes[0].value {
        Some(ValueType::List(l)) => {
            assert_eq!(0, l.items.len());
            assert!(l.nil);
        }
        _ => assert!(false),
    }
    // A node with neither marker nor items parses to no value at all.
    assert!(case.input_nodes[1].value.is_none());
    // So does a list node without the marker and without items.
    assert!(case.input_nodes[2].value.is_none());
}

#[test]
fn default_list_is_empty_and_nil() {
    let l = List::default();
    assert_eq!(0, l.items.len());
    assert!(l.nil);
}

#[test]
fn equality_is_reflexive_and_order_sensitive() {
    let a1 = Component { name: Some("a".to_string()), value: Some(scalar("xsd:decimal", "1")), nil: false };
    let b2 = Component { name: Some("b".to_string()), value: Some(scalar("xsd:decimal", "2")), nil: false };
    let forward = ValueType::Components(vec![a1.deep_clone(), b2.deep_clone()]);
    let backward = ValueType::Components(vec![b2, a1]);
    assert!(forward.structural_eq(&forward));
    assert!(backward.structural_eq(&backward));
    assert!(!forward.structural_eq(&backward));
}

#[test]
fn nil_scalar_differs_from_empty_text() {
    let nil = ValueType::Simple(Value { typ: None, text: None, nil: true });
    let empty = ValueType::Simple(Value { typ: None, text: Some(String::new()), nil: false });
    assert!(!nil.structural_eq(&empty));
}

#[test]
fn kind_fallback_for_unknown_discriminator() {
    let source = r#"<?xml version="1.0"?>
<testCases>
  <testCase id="001" type="unknown-future-kind"/>
  <testCase id="002" type="bkm"/>
  <testCase id="003" type="decisionService"/>
  <testCase id="004"/>
</testCases>
"#;
    let test_cases = parse_from_string(source).unwrap();
    assert_eq!(TestCaseType::Decision, test_cases.test_cases[0].typ);
    assert_eq!(TestCaseType::BusinessKnowledgeModel, test_cases.test_cases[1].typ);
    assert_eq!(TestCaseType::DecisionService, test_cases.test_cases[2].typ);
    assert_eq!(TestCaseType::Decision, test_cases.test_cases[3].typ);
}

#[test]
fn wrong_root_tag_is_a_mandatory_node_error() {
    let source = r#"<?xml version="1.0"?><wrongRoot/>"#;
    match parse_from_string(source) {
        Err(RunnerError::XmlExpectedMandatoryNode(tag)) => assert_eq!("testCases", tag.as_str()),
        _ => assert!(false),
    }
}

#[test]
fn malformed_document_is_a_parse_error() {
    let source = "<testCases><unclosed></testCases>";
    assert!(matches!(parse_from_string(source), Err(RunnerError::ParsingXMLFailed(_))));
}

#[test]
fn label_without_text_is_a_mandatory_text_error() {
    let source = r#"<testCases><labels><label/></labels></testCases>"#;
    match parse_from_string(source) {
        Err(RunnerError::XmlExpectedMandatoryTextContent(tag)) => assert_eq!("label", tag.as_str()),
        _ => assert!(false),
    }
}

#[test]
fn input_node_without_name_is_a_mandatory_attribute_error() {
    let source = r#"<testCases><testCase id="001"><inputNode/></testCase></testCases>"#;
    match parse_from_string(source) {
        Err(RunnerError::XmlExpectedMandatoryAttribute(name)) => assert_eq!("name", name.as_str()),
        _ => assert!(false),
    }
}

#[test]
fn result_node_without_name_is_a_mandatory_attribute_error() {
    let source = r#"<testCases><testCase id="001"><resultNode/></testCase></testCases>"#;
    match parse_from_string(source) {
        Err(RunnerError::XmlExpectedMandatoryAttribute(name)) => assert_eq!("name", name.as_str()),
        _ => assert!(false),
    }
}

#[test]
fn result_node_flags_and_values_are_read() {
    let source = r#"<?xml version="1.0"?>
<testCases xmlns:xsi="http://www.w3.org/2001/XMLSchema-instance"
           xmlns:xsd="http://www.w3.org/2001/XMLSchema">
  <testCase id="001">
    <resultNode name="res" errorResult="true" type="decision" cast="xsd:string">
      <expected>
        <value xsi:type="xsd:string">ok</value>
      </expected>
    </resultNode>
  </testCase>
</testCases>
"#;
    let test_cases = parse_from_string(source).unwrap();
    let result_node = &test_cases.test_cases[0].result_nodes[0];
    assert_eq!("res", result_node.name.as_str());
    assert!(result_node.error_result);
    assert_eq!("decision", result_node.typ.as_ref().unwrap().as_str());
    assert_eq!("xsd:string", result_node.cast.as_ref().unwrap().as_str());
    match &result_node.expected {
        Some(ValueType::Simple(v)) => {
            assert_eq!("ok", v.text.as_ref().unwrap().as_str());
            assert_eq!("xsd:string", v.typ.as_ref().unwrap().as_str());
        }
        _ => assert!(false),
    }
    assert!(result_node.computed.is_none());
}

#[test]
fn shape_resolution_prefers_simple_over_components() {
    // A value anchor wins over component anchors when both are present.
    let source = r#"<testCases><testCase id="001"><inputNode name="x">
      <value>direct</value>
      <component name="c"><value>inner</value></component>
    </inputNode></testCase></testCases>"#;
    let test_cases = parse_from_string(source).unwrap();
    match &test_cases.test_cases[0].input_nodes[0].value {
        Some(ValueType::Simple(v)) => assert_eq!("direct", v.text.as_ref().unwrap().as_str()),
        _ => assert!(false),
    }
}

#[test]
fn test_case_type_display_names() {
    assert_eq!("decision", TestCaseType::Decision.display_name().as_str());
    assert_eq!("bkm", TestCaseType::BusinessKnowledgeModel.display_name().as_str());
    assert_eq!("decisionService", TestCaseType::DecisionService.display_name().as_str());
}
