//! Tests for the fixture parser, over three representative suites.

use dmn_runner::model::parse_from_string;
use dmn_runner::model::TestCaseType;
use dmn_runner::model::ValueType;

const TC_0001: &str = r#"<?xml version="1.0" encoding="UTF-8"?>
<testCases xmlns="http://www.omg.org/spec/DMN/20160719/testcase"
           xmlns:xsi="http://www.w3.org/2001/XMLSchema-instance"
           xmlns:xsd="http://www.w3.org/2001/XMLSchema">
  <modelName>0001-input-data-string.dmn</modelName>
  <labels>
    <label>Compliance Level 2</label>
    <label>Literal Expression</label>
    <label>FEEL Special-character Names</label>
    <label>Data Type: String</label>
  </labels>
  <testCase id="001">
    <description>Testing valid input</description>
    <inputNode name="Full Name">
      <value xsi:type="xsd:string">John Doe</value>
    </inputNode>
    <resultNode name="Greeting Message" type="decision">
      <expected>
        <value xsi:type="xsd:string">Hello John Doe</value>
      </expected>
    </resultNode>
  </testCase>
</testCases>
"#;

const TC_0002: &str = r#"<?xml version="1.0" encoding="UTF-8"?>
<testCases xmlns="http://www.omg.org/spec/DMN/20160719/testcase"
           xmlns:xsi="http://www.w3.org/2001/XMLSchema-instance"
           xmlns:xsd="http://www.w3.org/2001/XMLSchema">
  <modelName>0008-LX-arithmetic.dmn</modelName>
  <labels>
    <label>Compliance Level 2</label>
    <label>Literal Expression</label>
    <label>Item Definition</label>
    <label>FEEL Arithmetic</label>
    <label>Data Type: Number</label>
    <label>Data Type: Structure</label>
  </labels>
  <testCase id="001">
    <inputNode name="loan">
      <component name="principal">
        <value xsi:type="xsd:decimal">600000</value>
      </component>
      <component name="rate">
        <value xsi:type="xsd:decimal">0.0375</value>
      </component>
      <component name="termMonths">
        <value xsi:type="xsd:decimal">360</value>
      </component>
    </inputNode>
    <resultNode name="payment" type="decision">
      <expected>
        <value xsi:type="xsd:decimal">2778.69</value>
      </expected>
    </resultNode>
  </testCase>
  <testCase id="002">
    <inputNode name="loan">
      <component name="principal">
        <value xsi:type="xsd:decimal">30000</value>
      </component>
      <component name="rate">
        <value xsi:type="xsd:decimal">0.0475</value>
      </component>
      <component name="termMonths">
        <value xsi:type="xsd:decimal">60</value>
      </component>
    </inputNode>
    <resultNode name="payment" type="decision">
      <expected>
        <value xsi:type="xsd:decimal">562.90</value>
      </expected>
    </resultNode>
  </testCase>
  <testCase id="003">
    <inputNode name="loan">
      <component name="principal">
        <value xsi:type="xsd:decimal">600000</value>
      </component>
      <component name="rate">
        <value xsi:type="xsd:decimal">0.0399</value>
      </component>
      <component name="termMonths">
        <value xsi:type="xsd:decimal">360</value>
      </component>
    </inputNode>
    <resultNode name="payment" type="decision">
      <expected>
        <value xsi:type="xsd:decimal">2861.27</value>
      </expected>
    </resultNode>
  </testCase>
</testCases>
"#;

fn tc_0003() -> String {
    let mut s = String::from(
        r#"<?xml version="1.0" encoding="UTF-8"?>
<testCases xmlns="http://www.omg.org/spec/DMN/20160719/testcase"
           xmlns:xsi="http://www.w3.org/2001/XMLSchema-instance"
           xmlns:xsd="http://www.w3.org/2001/XMLSchema">
  <modelName>0012-list-functions.dmn</modelName>
  <testCase id="001">
    <inputNode name="list1">
      <list>
        <item><value xsi:type="xsd:string">a</value></item>
        <item><value xsi:type="xsd:string">b</value></item>
        <item><value xsi:type="xsd:string">c</value></item>
      </list>
    </inputNode>
    <resultNode name="listContains" type="decision">
      <expected>
        <value xsi:type="xsd:boolean">true</value>
      </expected>
    </resultNode>
  </testCase>
"#,
    );
    for i in 2..=19 {
        s.push_str(&format!(
            r#"  <testCase id="{:03}">
    <inputNode name="list1">
      <list>
        <item><value xsi:type="xsd:string">a</value></item>
      </list>
    </inputNode>
    <resultNode name="listContains" type="decision">
      <expected>
        <value xsi:type="xsd:boolean">false</value>
      </expected>
    </resultNode>
  </testCase>
"#,
            i
        ));
    }
    s.push_str("</testCases>\n");
    s
}

#[test]
fn test_001() {
    let test_cases = parse_from_string(TC_0001).unwrap();
    assert_eq!("0001-input-data-string.dmn", test_cases.model_name.unwrap().as_str());
    assert_eq!(4, test_cases.labels.len());
    assert_eq!("Compliance Level 2", test_cases.labels[0].as_str());
    assert_eq!("Literal Expression", test_cases.labels[1].as_str());
    assert_eq!("FEEL Special-character Names", test_cases.labels[2].as_str());
    assert_eq!("Data Type: String", test_cases.labels[3].as_str());
    assert_eq!(1, test_cases.test_cases.len());
    let test_case_1 = &test_cases.test_cases[0];
    assert_eq!("001", test_case_1.id.as_ref().unwrap().as_str());
    assert_eq!(None, test_case_1.name);
    assert_eq!(TestCaseType::Decision, test_case_1.typ);
    assert_eq!(None, test_case_1.invocable_name);
    assert_eq!("Testing valid input", test_case_1.description.as_ref().unwrap().as_str());
}

#[test]
fn test_002() {
    let test_cases = parse_from_string(TC_0002).unwrap();
    assert_eq!("0008-LX-arithmetic.dmn", test_cases.model_name.unwrap().as_str());
    assert_eq!(6, test_cases.labels.len());
    assert_eq!("Compliance Level 2", test_cases.labels[0].as_str());
    assert_eq!("Literal Expression", test_cases.labels[1].as_str());
    assert_eq!("Item Definition", test_cases.labels[2].as_str());
    assert_eq!("FEEL Arithmetic", test_cases.labels[3].as_str());
    assert_eq!("Data Type: Number", test_cases.labels[4].as_str());
    assert_eq!("Data Type: Structure", test_cases.labels[5].as_str());
    assert_eq!(3, test_cases.test_cases.len());
    let test_case_1 = &test_cases.test_cases[0];
    assert_eq!("001", test_case_1.id.as_ref().unwrap().as_str());
    assert_eq!(None, test_case_1.name);
    assert_eq!(TestCaseType::Decision, test_case_1.typ);
    assert_eq!(None, test_case_1.invocable_name);
    assert_eq!(None, test_case_1.description);
    assert_eq!(1, test_case_1.input_nodes.len());
    let input_node_1 = &test_case_1.input_nodes[0];
    match &input_node_1.value {
        Some(ValueType::Components(components)) => {
            assert_eq!(3, components.len());
            let component_1 = &components[0];
            assert_eq!("principal", component_1.name.as_ref().unwrap().as_str());
            match &component_1.value {
                Some(ValueType::Simple(v)) => {
                    assert_eq!("600000", v.text.as_ref().unwrap().as_str());
                    assert_eq!("xsd:decimal", v.typ.as_ref().unwrap().as_str());
                    assert_eq!(false, v.nil);
                }
                _ => assert!(false),
            }
            let component_2 = &components[1];
            assert_eq!("rate", component_2.name.as_ref().unwrap().as_str());
            match &component_2.value {
                Some(ValueType::Simple(v)) => {
                    assert_eq!("0.0375", v.text.as_ref().unwrap().as_str());
                    assert_eq!("xsd:decimal", v.typ.as_ref().unwrap().as_str());
                    assert_eq!(false, v.nil);
                }
                _ => assert!(false),
            }
            let component_3 = &components[2];
            assert_eq!("termMonths", component_3.name.as_ref().unwrap().as_str());
            match &component_3.value {
                Some(ValueType::Simple(v)) => {
                    assert_eq!("360", v.text.as_ref().unwrap().as_str());
                    assert_eq!("xsd:decimal", v.typ.as_ref().unwrap().as_str());
                    assert_eq!(false, v.nil);
                }
                _ => assert!(false),
            }
        }
        _ => assert!(false),
    };
}

#[test]
fn test_003() {
    let source = tc_0003();
    let test_cases = parse_from_string(&source).unwrap();
    assert_eq!("0012-list-functions.dmn", test_cases.model_name.unwrap().as_str());
    assert_eq!(19, test_cases.test_cases.len());
    let test_case_1 = &test_cases.test_cases[0];
    assert_eq!("001", test_case_1.id.as_ref().unwrap().as_str());
    let input_node_1 = &test_case_1.input_nodes[0];
    match &input_node_1.value {
        Some(ValueType::List(l)) => {
            assert_eq!(3, l.items.len());
            for (i, &text) in ["a", "b", "c"].iter().enumerate() {
                match &l.items[i] {
                    ValueType::Simple(v) => {
                        assert_eq!(text, v.text.as_ref().unwrap().as_str());
                        assert_eq!("xsd:string", v.typ.as_ref().unwrap().as_str());
                        assert_eq!(false, v.nil);
                    }
                    _ => assert!(false),
                }
            }
        }
        _ => assert!(false),
    }
}
