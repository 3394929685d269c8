use kc_extract::analyzer::CoordinatorAction;
use kc_extract::analyzer::Message;
use kc_extract::analyzer::StreamCoordinator;
use kc_extract::classifier::ProgrammingLanguage;
use kc_extract::parser::ProtoParser;

#[test]
fn hint_resolved_binds_immediately() {
    let mut coord = StreamCoordinator::new("https://example.org/cpp-tutorial");
    assert!(matches!(coord.language(), Some(ProgrammingLanguage::Cpp)));
    let action = coord.handle_message(&Message::StreamMessage("for".to_string()), 1);
    assert_eq!(action, CoordinatorAction::Proceed);
    let action = coord.handle_message(&Message::EndMessage, 2);
    assert_eq!(action, CoordinatorAction::Finished);
    let kcs = coord.get_knowledge_components();
    assert_eq!(kcs.len(), 1);
    assert_eq!(kcs[0].token(), "For");
    assert_eq!(kcs[0].time_stamp(), "https://example.org/cpp-tutorial&t=1");
}

#[test]
fn threshold_scenario() {
    // hint classification fails: the coordinator accumulates
    let mut coord = StreamCoordinator::new("zzz");
    assert!(coord.language().is_none());

    // 2 characters: below the threshold, fragment forwarded while unbound
    let action = coord.handle_message(&Message::StreamMessage("ab".to_string()), 1);
    assert_eq!(action, CoordinatorAction::Proceed);
    assert!(coord.get_knowledge_components().is_empty());

    // 8 more characters: the running tally crosses the threshold and the
    // model is to be invoked on the triggering fragment's text alone
    let action = coord.handle_message(&Message::StreamMessage("cdefghij".to_string()), 2);
    assert_eq!(action, CoordinatorAction::InvokeModel);

    coord.apply_model_result(Some("c_cpp"), "cdefghij", 2);
    assert!(matches!(coord.language(), Some(ProgrammingLanguage::Cpp)));

    let action = coord.handle_message(&Message::EndMessage, 3);
    assert_eq!(action, CoordinatorAction::Finished);

    // "cdefghij" lexes to a lone identifier, which is never recorded, and
    // nothing from "ab" was retried: the registry stays empty
    assert!(coord.get_knowledge_components().is_empty());
}

#[test]
fn threshold_scenario_with_keywords() {
    let mut coord = StreamCoordinator::new("zzz");
    // the first fragment is processed while unbound and is permanently lost
    let action = coord.handle_message(&Message::StreamMessage("int\n".to_string()), 1);
    assert_eq!(action, CoordinatorAction::Proceed);
    let action = coord.handle_message(&Message::StreamMessage("for (i".to_string()), 2);
    assert_eq!(action, CoordinatorAction::InvokeModel);
    coord.apply_model_result(Some("c_cpp"), "for (i", 2);
    let kcs = coord.get_knowledge_components();
    let tokens: Vec<String> = kcs.iter().map(|kc| kc.token().clone()).collect();
    assert!(tokens.contains(&"For".to_string()));
    assert!(!tokens.contains(&"Int".to_string()));
}

#[test]
fn model_failure_leaves_stream_unclassified() {
    let mut coord = StreamCoordinator::new("zzz");
    let action = coord.handle_message(&Message::StreamMessage("for while!".to_string()), 1);
    assert_eq!(action, CoordinatorAction::InvokeModel);
    // the model call failed or returned an unknown label: not retried
    coord.apply_model_result(None, "for while!", 1);
    assert!(coord.language().is_none());
    // later fragments are still forwarded, to a dispatcher that stays
    // unbound: the final registry is empty
    let action = coord.handle_message(&Message::StreamMessage("return x;".to_string()), 2);
    assert_eq!(action, CoordinatorAction::Proceed);
    coord.handle_message(&Message::EndMessage, 3);
    assert!(coord.get_knowledge_components().is_empty());
}

#[test]
fn model_invoked_at_most_once() {
    let mut coord = StreamCoordinator::new("zzz");
    let action = coord.handle_message(&Message::StreamMessage("abcdefgh".to_string()), 1);
    assert_eq!(action, CoordinatorAction::InvokeModel);
    coord.apply_model_result(Some("nonsense"), "abcdefgh", 1);
    // even though the tally stays above the threshold, the one-shot flag is
    // disarmed: no further InvokeModel
    let action = coord.handle_message(&Message::StreamMessage("ijklmnop".to_string()), 2);
    assert_eq!(action, CoordinatorAction::Proceed);
}

#[test]
fn python_stream_via_model() {
    let mut coord = StreamCoordinator::new("zzz");
    let action = coord.handle_message(&Message::StreamMessage("def f(x): yield".to_string()), 7);
    assert_eq!(action, CoordinatorAction::InvokeModel);
    coord.apply_model_result(Some("python"), "def f(x): yield", 7);
    assert!(matches!(coord.language(), Some(ProgrammingLanguage::Python)));
    let kcs = coord.get_knowledge_components();
    let tokens: Vec<String> = kcs.iter().map(|kc| kc.token().clone()).collect();
    assert!(tokens.contains(&"FunctionDefinition".to_string()));
    assert!(tokens.contains(&"Yield".to_string()));
}

#[test]
fn unbound_dispatcher_parse_is_noop() {
    let mut pp = ProtoParser::new();
    pp.parse("for while", 1);
    assert!(pp.language.is_none());
    assert!(pp.parser.is_none());
}

#[test]
fn dispatcher_binds_cj_for_java() {
    let mut pp = ProtoParser::new();
    pp.parse_language("url", ProgrammingLanguage::Java);
    pp.parse("import java.util.List;", 1);
    let kcs = pp.get_knowledge_components();
    let tokens: Vec<String> = kcs.iter().map(|kc| kc.token().clone()).collect();
    assert!(tokens.contains(&"Import".to_string()));
}
