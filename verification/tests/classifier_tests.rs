use kc_extract::classifier::LanguageClassifier;
use kc_extract::classifier::ProgrammingLanguage;

#[test]
fn hint_cpp() {
    assert!(matches!(
        LanguageClassifier::classify("Tutorial on C++ basics"),
        Some(ProgrammingLanguage::Cpp)
    ));
}

#[test]
fn hint_cpp_spelled_out() {
    assert!(matches!(
        LanguageClassifier::classify("my CPP lecture"),
        Some(ProgrammingLanguage::Cpp)
    ));
}

#[test]
fn hint_java() {
    assert!(matches!(
        LanguageClassifier::classify("Intro to Java"),
        Some(ProgrammingLanguage::Java)
    ));
}

#[test]
fn hint_python() {
    assert!(matches!(
        LanguageClassifier::classify("Learn PYTHON fast"),
        Some(ProgrammingLanguage::Python)
    ));
}

#[test]
fn hint_c() {
    assert!(matches!(
        LanguageClassifier::classify("learn c "),
        Some(ProgrammingLanguage::C)
    ));
}

#[test]
fn hint_unresolved() {
    assert!(LanguageClassifier::classify("random title").is_none());
}

#[test]
fn hint_order_cpp_before_c() {
    // "cpp tutorial" contains both "cpp" and "c " would-be matches; the
    // C++ check runs first.
    assert!(matches!(
        LanguageClassifier::classify("cpp for c programmers"),
        Some(ProgrammingLanguage::Cpp)
    ));
}

#[test]
fn model_label_c_cpp() {
    assert!(matches!(
        LanguageClassifier::classify_ml("c_cpp"),
        Some(ProgrammingLanguage::Cpp)
    ));
}

#[test]
fn model_label_java() {
    assert!(matches!(
        LanguageClassifier::classify_ml("java"),
        Some(ProgrammingLanguage::Java)
    ));
}

#[test]
fn model_label_python() {
    assert!(matches!(
        LanguageClassifier::classify_ml("python"),
        Some(ProgrammingLanguage::Python)
    ));
}

#[test]
fn model_label_unknown() {
    assert!(LanguageClassifier::classify_ml("ruby").is_none());
    assert!(LanguageClassifier::classify_ml("").is_none());
    // the mapping is exact, not a substring match
    assert!(LanguageClassifier::classify_ml("java\n").is_none());
}

#[test]
fn language_names() {
    assert_eq!(ProgrammingLanguage::C.name(), "C");
    assert_eq!(ProgrammingLanguage::Cpp.name(), "Cpp");
    assert_eq!(ProgrammingLanguage::Java.name(), "Java");
    assert_eq!(ProgrammingLanguage::Python.name(), "Python");
}

#[test]
fn ascii_lower_basic() {
    assert_eq!(kc_extract::strutil::ascii_lower("AbC++ Xy_9"), "abc++ xy_9");
}
