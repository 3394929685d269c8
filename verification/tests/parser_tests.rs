use kc_extract::cjparser::CJParser;
use kc_extract::knowledge_component::Component;
use kc_extract::knowledge_component::KnowledgeComponent;
use kc_extract::pyparser::PyParser;

fn chain_names(c: &Component) -> Vec<String> {
    let mut names = Vec::new();
    let mut cur = Some(c);
    while let Some(node) = cur {
        names.push(node.name.clone());
        cur = (*node.node).as_ref();
    }
    names
}

fn tokens_of(kcs: &[KnowledgeComponent]) -> Vec<String> {
    kcs.iter().map(|kc| kc.token().clone()).collect()
}

#[test]
fn pointer_declarator_disambiguation() {
    let mut parser = CJParser::new("url");
    parser.parse("int *p", 1);
    let kcs = parser.get_knowledge_components();
    let tokens = tokens_of(&kcs);
    assert!(tokens.contains(&"Pointer".to_string()));
    assert!(!tokens.contains(&"Multiplication".to_string()));
    let pointer = kcs.iter().find(|kc| kc.token() == "Pointer").unwrap();
    assert_eq!(
        chain_names(pointer.classification()),
        vec!["Declaration", "Declarator", "Pointer"]
    );
}

#[test]
fn multiplication_disambiguation() {
    let mut parser = CJParser::new("url");
    parser.parse("a * b", 1);
    let kcs = parser.get_knowledge_components();
    let tokens = tokens_of(&kcs);
    assert!(tokens.contains(&"Multiplication".to_string()));
    assert!(!tokens.contains(&"Pointer".to_string()));
    let mult = kcs.iter().find(|kc| kc.token() == "Multiplication").unwrap();
    assert_eq!(
        chain_names(mult.classification()),
        vec!["Expression", "Arithmetic", "Multiplication"]
    );
}

#[test]
fn stream_operator_skipped() {
    let mut parser = CJParser::new("url");
    parser.parse("cout << x", 1);
    let kcs = parser.get_knowledge_components();
    assert!(kcs.iter().all(|kc| !chain_names(kc.classification()).contains(&"Bitwise".to_string())));
    assert!(!tokens_of(&kcs).contains(&"LeftShift".to_string()));
}

#[test]
fn left_shift_classified_as_bitwise() {
    let mut parser = CJParser::new("url");
    parser.parse("a << 2", 1);
    let kcs = parser.get_knowledge_components();
    let shift = kcs.iter().find(|kc| kc.token() == "LeftShift").unwrap();
    assert_eq!(
        chain_names(shift.classification()),
        vec!["Expression", "Bitwise", "LeftShift"]
    );
}

#[test]
fn input_stream_operator_skipped() {
    let mut parser = CJParser::new("url");
    parser.parse("cin >> x", 1);
    assert!(!tokens_of(&parser.get_knowledge_components()).contains(&"RightShift".to_string()));
    let mut parser = CJParser::new("url");
    parser.parse("a >> 2", 1);
    assert!(tokens_of(&parser.get_knowledge_components()).contains(&"RightShift".to_string()));
}

#[test]
fn end_to_end_conditional_fragment() {
    let mut parser = CJParser::new("https://example.org/v");
    parser.parse("if (x > 0) { return x; }", 1);
    let kcs = parser.get_knowledge_components();

    let cond = kcs.iter().find(|kc| kc.token() == "If").unwrap();
    assert_eq!(chain_names(cond.classification()), vec!["Statement", "Condition", "If"]);
    assert!(cond.time_stamp().ends_with("&t=1"));

    let jump = kcs.iter().find(|kc| kc.token() == "Return").unwrap();
    assert_eq!(chain_names(jump.classification()), vec!["Statement", "Jump", "Return"]);
    assert!(jump.time_stamp().ends_with("&t=1"));

    // x > 0 has an identifier before and a number after: it is classified
    let greater = kcs.iter().find(|kc| kc.token() == "Greater").unwrap();
    assert_eq!(
        chain_names(greater.classification()),
        vec!["Expression", "Comparison", "Greater"]
    );
}

#[test]
fn identifier_comparison_skipped() {
    // the documented (unfixed) rule: identifier-to-identifier comparisons
    // are dropped
    let mut parser = CJParser::new("url");
    parser.parse("x < y", 1);
    assert!(!tokens_of(&parser.get_knowledge_components()).contains(&"Less".to_string()));
}

#[test]
fn increment_prefix_and_postfix() {
    let mut parser = CJParser::new("url");
    parser.parse("++i", 1);
    assert!(tokens_of(&parser.get_knowledge_components()).contains(&"PrefixIncrement".to_string()));
    let mut parser = CJParser::new("url");
    parser.parse("i++", 1);
    assert!(tokens_of(&parser.get_knowledge_components()).contains(&"PostfixIncrement".to_string()));
}

#[test]
fn function_declarator_after_type_keyword() {
    let mut parser = CJParser::new("url");
    parser.parse("int (", 1);
    let kcs = parser.get_knowledge_components();
    let f = kcs.iter().find(|kc| kc.token() == "Function").unwrap();
    assert_eq!(
        chain_names(f.classification()),
        vec!["Declaration", "Declarator", "Function"]
    );

    let mut parser = CJParser::new("url");
    parser.parse("f (", 1);
    let kcs = parser.get_knowledge_components();
    let f = kcs.iter().find(|kc| kc.token() == "Function").unwrap();
    assert_eq!(chain_names(f.classification()), vec!["Expression", "Function"]);
}

#[test]
fn stream_edges_use_the_no_token_sentinel() {
    // a lone ambiguous token has no neighbors: the sentinel drives every
    // disambiguation to its "otherwise" arm
    let mut parser = CJParser::new("url");
    parser.parse("*", 1);
    assert_eq!(tokens_of(&parser.get_knowledge_components()), vec!["Pointer"]);

    let mut parser = CJParser::new("url");
    parser.parse("&", 1);
    assert_eq!(tokens_of(&parser.get_knowledge_components()), vec!["Reference"]);

    let mut parser = CJParser::new("url");
    parser.parse("++", 1);
    assert_eq!(
        tokens_of(&parser.get_knowledge_components()),
        vec!["PostfixIncrement"]
    );

    let mut parser = CJParser::new("url");
    parser.parse("<<", 1);
    assert_eq!(tokens_of(&parser.get_knowledge_components()), vec!["LeftShift"]);
}

#[test]
fn reference_chain_is_member_access() {
    let mut parser = CJParser::new("url");
    parser.parse("&x", 1);
    let kcs = parser.get_knowledge_components();
    let r = kcs.iter().find(|kc| kc.token() == "Reference").unwrap();
    assert_eq!(
        chain_names(r.classification()),
        vec!["Expression", "Member Access", "Reference"]
    );
    let mut parser = CJParser::new("url");
    parser.parse("a & b", 1);
    let kcs = parser.get_knowledge_components();
    let r = kcs.iter().find(|kc| kc.token() == "BitwiseAnd").unwrap();
    assert_eq!(
        chain_names(r.classification()),
        vec!["Expression", "Bitwise", "BitwiseAnd"]
    );
}

#[test]
fn dedup_keeps_first_timestamp() {
    let mut parser = CJParser::new("url");
    parser.parse("for", 1);
    parser.parse("for", 2);
    let kcs = parser.get_knowledge_components();
    assert_eq!(tokens_of(&kcs), vec!["For"]);
    assert_eq!(kcs[0].time_stamp(), "url&t=1");
}

#[test]
fn insertion_order_preserved() {
    let mut parser = CJParser::new("url");
    parser.parse("for while", 1);
    parser.parse("if for while", 2);
    let kcs = parser.get_knowledge_components();
    assert_eq!(tokens_of(&kcs), vec!["For", "While", "If"]);
    assert_eq!(kcs[0].time_stamp(), "url&t=1");
    assert_eq!(kcs[2].time_stamp(), "url&t=2");
}

#[test]
fn display_value_is_lower_cased() {
    let mut parser = CJParser::new("url");
    parser.parse("for", 3);
    let kcs = parser.get_knowledge_components();
    assert_eq!(kcs[0].token(), "For");
    assert_eq!(kcs[0].value(), "for");
}

#[test]
fn preprocessor_component_carries_directive() {
    let mut parser = CJParser::new("url");
    parser.parse("#include <iostream>", 4);
    let kcs = parser.get_knowledge_components();
    let pre = kcs
        .iter()
        .find(|kc| kc.token() == "Preprocessor(\"#include\")")
        .unwrap();
    assert_eq!(pre.value(), "preprocessor(\"#include\")");
    assert_eq!(
        chain_names(pre.classification()),
        vec!["Preprocessor", "Preprocessor(\"#include\")"]
    );
}

#[test]
fn py_keyword_component() {
    let mut parser = PyParser::new("url");
    parser.parse("for", 5);
    let kcs = parser.get_knowledge_components();
    assert_eq!(kcs.len(), 1);
    assert_eq!(kcs[0].token(), "Float");
    assert_eq!(kcs[0].value(), "float");
    assert_eq!(kcs[0].time_stamp(), "url&t=5");
    assert_eq!(
        chain_names(kcs[0].classification()),
        vec![
            "Declaration",
            "Data Type",
            "Arithmetic Data Type",
            "Floating Point Number",
            "Float"
        ]
    );
}

#[test]
fn py_misc_declaration_naming_rule() {
    let mut parser = PyParser::new("url");
    parser.parse("yield lambda", 1);
    let kcs = parser.get_knowledge_components();
    let y = kcs.iter().find(|kc| kc.token() == "Yield").unwrap();
    assert_eq!(
        chain_names(y.classification()),
        vec!["Declaration", "Yield Declaration", "Yield"]
    );
    let l = kcs.iter().find(|kc| kc.token() == "Lambda").unwrap();
    assert_eq!(
        chain_names(l.classification()),
        vec!["Declaration", "Lambda Declaration", "Lambda"]
    );
}

#[test]
fn py_identity_and_membership() {
    let mut parser = PyParser::new("url");
    parser.parse("a is not b", 1);
    parser.parse("a not in b", 2);
    let kcs = parser.get_knowledge_components();
    let isnot = kcs.iter().find(|kc| kc.token() == "IsNot").unwrap();
    assert_eq!(
        chain_names(isnot.classification()),
        vec!["Expression", "Identity Operator", "IsNot"]
    );
    let notin = kcs.iter().find(|kc| kc.token() == "NotIn").unwrap();
    assert_eq!(
        chain_names(notin.classification()),
        vec!["Expression", "Membership Operator", "NotIn"]
    );
}

#[test]
fn py_unrecognized_dropped_silently() {
    let mut parser = PyParser::new("url");
    parser.parse("$$$ ???", 1);
    assert!(parser.get_knowledge_components().is_empty());
}

#[test]
fn component_chain_shape() {
    let leaf = Component::new("Leaf", None);
    let outer = Component::new("Outer", Some(leaf));
    assert_eq!(chain_names(&outer), vec!["Outer", "Leaf"]);
}

#[test]
fn knowledge_component_with_ident_keeps_text() {
    let chain = Component::new("Preprocessor", None);
    let kc = KnowledgeComponent::new_with_ident(chain, "Preprocessor", "#define", "u&t=0");
    assert_eq!(kc.token(), "Preprocessor");
    assert_eq!(kc.value(), "#define");
    assert_eq!(kc.time_stamp(), "u&t=0");
}
