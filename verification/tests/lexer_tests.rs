use kc_extract::cjlexer;
use kc_extract::pylexer;

fn cj_names(s: &str) -> Vec<String> {
    cjlexer::tokenize(s).iter().map(|t| t.name()).collect()
}

fn py_names(s: &str) -> Vec<String> {
    pylexer::tokenize(s).iter().map(|t| t.name()).collect()
}

#[test]
fn cj_pointer_fragment() {
    assert_eq!(cj_names("int *p"), vec!["Int", "Asterisk", "Identifier(\"p\")"]);
}

#[test]
fn cj_multiplication_fragment() {
    assert_eq!(
        cj_names("a * b"),
        vec!["Identifier(\"a\")", "Asterisk", "Identifier(\"b\")"]
    );
}

#[test]
fn cj_stream_fragment() {
    assert_eq!(
        cj_names("cout << x"),
        vec!["Identifier(\"cout\")", "LeftOperator", "Identifier(\"x\")"]
    );
}

#[test]
fn cj_longest_match_wins() {
    // "<<=" must win over "<<" and "<"; "long long int" over its prefixes
    assert_eq!(
        cj_names("a<<=3"),
        vec!["Identifier(\"a\")", "LeftShiftAssignment", "Number(\"3\")"]
    );
    assert_eq!(
        cj_names("long long int x"),
        vec!["LongLongInt", "Identifier(\"x\")"]
    );
    assert_eq!(cj_names("long long"), vec!["LongLong"]);
}

#[test]
fn cj_keyword_versus_identifier() {
    // a keyword embedded in a longer identifier is not a keyword
    assert_eq!(cj_names("format"), vec!["Identifier(\"format\")"]);
    assert_eq!(cj_names("elseif"), vec!["Identifier(\"elseif\")"]);
    assert_eq!(cj_names("else if"), vec!["ElseIf"]);
    assert_eq!(cj_names("for"), vec!["For"]);
}

#[test]
fn cj_preprocessor_capture() {
    assert_eq!(
        cj_names("#include <iostream>"),
        vec![
            "Preprocessor(\"#include\")",
            "Less",
            "Identifier(\"iostream\")",
            "Greater"
        ]
    );
    assert_eq!(cj_names("#ifdef"), vec!["Preprocessor(\"#ifdef\")"]);
}

#[test]
fn cj_number_class_takes_dots() {
    assert_eq!(cj_names("1.5"), vec!["Number(\"1.5\")"]);
    assert_eq!(cj_names("x.y"), vec!["Identifier(\"x\")", "DotOperator", "Identifier(\"y\")"]);
}

#[test]
fn cj_line_breaks_kept_whitespace_dropped() {
    assert_eq!(
        cj_names("a \t b\n\r c"),
        vec![
            "Identifier(\"a\")",
            "Identifier(\"b\")",
            "LineBreak",
            "Identifier(\"c\")"
        ]
    );
}

#[test]
fn cj_unmatched_input_becomes_error_token() {
    assert_eq!(
        cj_names("x $ y"),
        vec!["Identifier(\"x\")", "Error", "Identifier(\"y\")"]
    );
    // lexing never fails: arbitrary input still yields a token list
    assert_eq!(cj_names("\u{00e9}"), vec!["Error"]);
}

#[test]
fn py_keywords_fold_into_the_float_group() {
    assert_eq!(py_names("for"), vec!["Float"]);
    assert_eq!(py_names("return"), vec!["Float"]);
    assert_eq!(py_names("float"), vec!["Float"]);
}

#[test]
fn py_number_literals() {
    assert_eq!(py_names("1.5"), vec!["Float"]);
    assert_eq!(py_names("42"), vec!["Int"]);
    assert_eq!(py_names("12j"), vec!["Complex"]);
}

#[test]
fn py_call_shape_wins_over_keyword() {
    assert_eq!(py_names("print(x, y)"), vec!["Function"]);
    assert_eq!(py_names("if(x)"), vec!["Function"]);
}

#[test]
fn py_displays_and_strings() {
    assert_eq!(py_names("[1,2]"), vec!["List"]);
    assert_eq!(py_names("(a,b)"), vec!["Tuple"]);
    assert_eq!(py_names("{a:1}"), vec!["Dict"]);
    assert_eq!(py_names("\"hi\""), vec!["String"]);
    assert_eq!(py_names("'a\\'b'"), vec!["String"]);
}

#[test]
fn py_two_word_operators() {
    assert_eq!(py_names("is not"), vec!["IsNot"]);
    assert_eq!(py_names("not in"), vec!["NotIn"]);
    assert_eq!(py_names("is"), vec!["Is"]);
    assert_eq!(py_names("not"), vec!["LogicalNot"]);
}

#[test]
fn py_comment_swallows_the_line() {
    assert_eq!(py_names("# hello\nx"), vec!["Comment", "Error"]);
    assert_eq!(py_names("#only"), vec!["Comment"]);
}

#[test]
fn py_whitespace_and_breaks_dropped() {
    assert_eq!(py_names(" \t\n\r"), Vec::<String>::new());
}
