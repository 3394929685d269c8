//! The C/C++/Java language parser: lexes a fragment with the combined
//! grammar, classifies each token into its taxonomy chain with one-token
//! lookahead/lookbehind disambiguation, and merges the results into the
//! owned knowledge component registry.

use vstd::prelude::*;

use crate::cjlexer::spec_lex;
use crate::cjlexer::spec_token_name;
use crate::cjlexer::tokenize;
use crate::cjlexer::Token;
use crate::knowledge_component::kcs_view;
use crate::knowledge_component::lemma_insert_all_push;
use crate::knowledge_component::make_time_stamp;
use crate::knowledge_component::registry_insert;
use crate::knowledge_component::clone_components;
use crate::knowledge_component::spec_insert_all;
use crate::knowledge_component::spec_time_stamp;
use crate::knowledge_component::Component;
use crate::knowledge_component::KnowledgeComponent;
use crate::knowledge_component::KnowledgeComponentV;
use crate::strutil::spec_lower;
use crate::strutil::str_eq;

verus! {

/// The view of an executable token sequence.
pub open spec fn toks_view(s: Seq<Token<String>>) -> Seq<Token<Seq<char>>> {
    s.map_values(|t: Token<String>| t@)
}

/// The token at index `j`, with `Token::Error` as the synthetic "no token"
/// sentinel at the stream edges.
pub open spec fn tok_at(tokens: Seq<Token<Seq<char>>>, j: int) -> Token<Seq<char>> {
    if 0 <= j < tokens.len() {
        tokens[j]
    } else {
        Token::Error
    }
}

/// The token is an identifier or a number literal.
pub open spec fn is_ident_or_number(t: Token<Seq<char>>) -> bool {
    t is Identifier || t is Number
}

/// The token is an identifier naming a known output stream.
pub open spec fn is_out_stream_ident(t: Token<Seq<char>>) -> bool {
    match t {
        Token::Identifier(id) => id == "cout"@ || id == "cerr"@ || id == "clog"@,
        _ => false,
    }
}

/// The token is an identifier naming a known input stream.
pub open spec fn is_in_stream_ident(t: Token<Seq<char>>) -> bool {
    match t {
        Token::Identifier(id) => id == "cin"@,
        _ => false,
    }
}

/// The token is a known data type keyword.
pub open spec fn is_type_keyword(t: Token<Seq<char>>) -> bool {
    match t {
        Token::Unsigned | Token::Signed | Token::Char | Token::Int | Token::Short
            | Token::ShortInt | Token::Long | Token::LongInt | Token::LongLong
            | Token::LongLongInt | Token::Float | Token::Double | Token::LongDouble | Token::Bool
            | Token::StringType | Token::Enum | Token::Struct | Token::Union | Token::Class
            | Token::Template | Token::Void => true,
        _ => false,
    }
}

/// The classification outcome for the token at index `i` of the stream: the
/// token kind to record and its category chain, or `None` for a skipped
/// token. Ambiguous tokens are resolved from the immediate neighbors.
pub open spec fn cj_classify(tokens: Seq<Token<Seq<char>>>, i: int) -> Option<
    (Seq<char>, Seq<Seq<char>>),
> {
    let t = tok_at(tokens, i);
    let prev = tok_at(tokens, i - 1);
    let next = tok_at(tokens, i + 1);
    match t {
        Token::Preprocessor(_) => Some(
            (spec_token_name(t), seq!["Preprocessor"@, spec_token_name(t)]),
        ),
        Token::For | Token::While | Token::DoWhile => Some(
            (spec_token_name(t), seq!["Statement"@, "Iteration"@, spec_token_name(t)]),
        ),
        Token::Switch | Token::Case | Token::DefaultCase | Token::If | Token::ElseIf
            | Token::Else => Some(
            (spec_token_name(t), seq!["Statement"@, "Condition"@, spec_token_name(t)]),
        ),
        Token::Break | Token::Continue | Token::Goto | Token::Return => Some(
            (spec_token_name(t), seq!["Statement"@, "Jump"@, spec_token_name(t)]),
        ),
        Token::Unsigned | Token::Signed => Some(
            (
                spec_token_name(t),
                seq![
                    "Declaration"@,
                    "Data Type"@,
                    "Arithmetic Data Type"@,
                    "Sign"@,
                    spec_token_name(t),
                ],
            ),
        ),
        Token::Char => Some(
            (
                spec_token_name(t),
                seq![
                    "Declaration"@,
                    "Data Type"@,
                    "Arithmetic Data Type"@,
                    "Character"@,
                    spec_token_name(t),
                ],
            ),
        ),
        Token::Int | Token::Short | Token::ShortInt | Token::Long | Token::LongInt
            | Token::LongLong | Token::LongLongInt => Some(
            (
                spec_token_name(t),
                seq![
                    "Declaration"@,
                    "Data Type"@,
                    "Arithmetic Data Type"@,
                    "Integer Number"@,
                    spec_token_name(t),
                ],
            ),
        ),
        Token::Float | Token::Double | Token::LongDouble => Some(
            (
                spec_token_name(t),
                seq![
                    "Declaration"@,
                    "Data Type"@,
                    "Arithmetic Data Type"@,
                    "Floating Point Number"@,
                    spec_token_name(t),
                ],
            ),
        ),
        Token::Bool => Some(
            (
                spec_token_name(t),
                seq!["Declaration"@, "Data Type"@, "Boolean"@, spec_token_name(t)],
            ),
        ),
        Token::StringType => Some(
            (
                spec_token_name(t),
                seq!["Declaration"@, "Data Type"@, "String"@, spec_token_name(t)],
            ),
        ),
        Token::Enum | Token::Struct | Token::Union | Token::Class | Token::Template => Some(
            (
                spec_token_name(t),
                seq![
                    "Declaration"@,
                    "Data Type"@,
                    "Elaborated Type Specifier"@,
                    spec_token_name(t),
                ],
            ),
        ),
        Token::Void => Some(
            (spec_token_name(t), seq!["Declaration"@, "Data Type"@, "Void"@, spec_token_name(t)]),
        ),
        Token::OpenBracket => Some(
            ("Array"@, seq!["Declaration"@, "Declarator"@, "Array"@]),
        ),
        Token::OpenParen => if is_type_keyword(prev) {
            Some(("Function"@, seq!["Declaration"@, "Declarator"@, "Function"@]))
        } else {
            Some(("Function"@, seq!["Expression"@, "Function"@]))
        },
        Token::Asterisk => if is_ident_or_number(prev) {
            Some(("Multiplication"@, seq!["Expression"@, "Arithmetic"@, "Multiplication"@]))
        } else {
            Some(("Pointer"@, seq!["Declaration"@, "Declarator"@, "Pointer"@]))
        },
        Token::Auto | Token::Extern | Token::Register | Token::Static | Token::ThreadLocal
            | Token::Typedef | Token::Decltype => Some(
            (spec_token_name(t), seq!["Declaration"@, "Storage Class"@, spec_token_name(t)]),
        ),
        Token::Atomic | Token::Const | Token::Restrict | Token::Volatile | Token::Mutable
            | Token::Public | Token::Protected | Token::Private => Some(
            (spec_token_name(t), seq!["Declaration"@, "Access Specifier"@, spec_token_name(t)]),
        ),
        Token::Plus | Token::Minus | Token::Multiplication | Token::Divide | Token::Modulo => Some(
            (spec_token_name(t), seq!["Expression"@, "Arithmetic"@, spec_token_name(t)]),
        ),
        Token::AddAssignment | Token::SubAssignment | Token::MultAssignment | Token::DivAssignment
            | Token::ModAssignment | Token::Assignment => Some(
            (spec_token_name(t), seq!["Expression"@, "Assignment"@, spec_token_name(t)]),
        ),
        Token::Ampersand | Token::BitwiseAnd | Token::Reference => if is_ident_or_number(prev) {
            Some(("BitwiseAnd"@, seq!["Expression"@, "Bitwise"@, "BitwiseAnd"@]))
        } else {
            Some(("Reference"@, seq!["Expression"@, "Member Access"@, "Reference"@]))
        },
        Token::BitwiseOr | Token::BitwiseXor | Token::BitwiseNot | Token::LeftShiftAssignment
            | Token::RightShiftAssignment | Token::BitwiseAndAssignment
            | Token::BitwiseOrAssignment | Token::BitwiseXorAssignment
            | Token::UnsignedRightShiftOperator => Some(
            (spec_token_name(t), seq!["Expression"@, "Bitwise"@, spec_token_name(t)]),
        ),
        Token::LeftOperator => if is_out_stream_ident(prev) {
            None
        } else {
            Some(("LeftShift"@, seq!["Expression"@, "Bitwise"@, "LeftShift"@]))
        },
        Token::RightOperator => if is_in_stream_ident(prev) {
            None
        } else {
            Some(("RightShift"@, seq!["Expression"@, "Bitwise"@, "RightShift"@]))
        },
        Token::And | Token::Or | Token::Not => Some(
            (spec_token_name(t), seq!["Expression"@, "Logical"@, spec_token_name(t)]),
        ),
        Token::SizeOf => Some(
            (spec_token_name(t), seq!["Expression"@, "Size Of"@, spec_token_name(t)]),
        ),
        Token::TypeCast => Some((spec_token_name(t), seq!["Expression"@, spec_token_name(t)])),
        Token::ConditionalOperator => Some(
            (spec_token_name(t), seq!["Expression"@, spec_token_name(t)]),
        ),
        Token::GreaterOrEquals | Token::LessOrEquals | Token::Equals | Token::NotEquals
            | Token::ThreeWayComparison => Some(
            (spec_token_name(t), seq!["Expression"@, "Comparison"@, spec_token_name(t)]),
        ),
        Token::Less | Token::Greater => if next is Number && prev is Identifier {
            Some((spec_token_name(t), seq!["Expression"@, "Comparison"@, spec_token_name(t)]))
        } else {
            None
        },
        Token::DotOperator | Token::ArrowOperator => None,
        Token::Increment => if is_ident_or_number(next) {
            Some(("PrefixIncrement"@, seq!["Expression"@, "Increment"@, "PrefixIncrement"@]))
        } else {
            Some(("PostfixIncrement"@, seq!["Expression"@, "Increment"@, "PostfixIncrement"@]))
        },
        Token::Decrement => if is_ident_or_number(next) {
            Some(("PrefixDecrement"@, seq!["Expression"@, "Decrement"@, "PrefixDecrement"@]))
        } else {
            Some(("PostfixDecrement"@, seq!["Expression"@, "Decrement"@, "PostfixDecrement"@]))
        },
        Token::New | Token::Delete => Some(
            (spec_token_name(t), seq!["Expression"@, "Memory Allocation"@, spec_token_name(t)]),
        ),
        Token::ScopeResolution => Some(
            (
                spec_token_name(t),
                seq![
                    "Expression"@,
                    "Nested Specifier"@,
                    "Scope Resolution"@,
                    spec_token_name(t),
                ],
            ),
        ),
        Token::True | Token::False | Token::Null => Some(
            (spec_token_name(t), seq!["Expression"@, "Predefined Constant"@, spec_token_name(t)]),
        ),
        Token::Using => Some(
            (spec_token_name(t), seq!["Declaration"@, "Using"@, spec_token_name(t)]),
        ),
        Token::Namespace => Some(
            (spec_token_name(t), seq!["Declaration"@, "Namespace"@, spec_token_name(t)]),
        ),
        Token::Import | Token::Package => Some(
            (spec_token_name(t), seq!["Compilation Unit"@, spec_token_name(t)]),
        ),
        Token::Annotation | Token::Abstract | Token::Final | Token::Native | Token::Synchronized
            | Token::Transient | Token::StrictFp | Token::Assert => Some(
            (spec_token_name(t), seq!["Declaration"@, "Modifier"@, spec_token_name(t)]),
        ),
        Token::Interface => Some(
            (
                spec_token_name(t),
                seq!["Declaration"@, "Data Type"@, "Abstract Data Type"@, spec_token_name(t)],
            ),
        ),
        Token::Try | Token::Catch | Token::Finally => Some(
            (spec_token_name(t), seq!["Statement"@, "Try Block"@, spec_token_name(t)]),
        ),
        Token::Throw | Token::Throws => Some(
            (spec_token_name(t), seq!["Statement"@, "Throw Statement"@, spec_token_name(t)]),
        ),
        Token::Super | Token::This => Some(
            (
                spec_token_name(t),
                seq![
                    "Expression"@,
                    "Primary Expression"@,
                    "Abstract Data Type"@,
                    spec_token_name(t),
                ],
            ),
        ),
        Token::Extends | Token::Implements => Some(
            (spec_token_name(t), seq!["Declaration"@, "Class Extension"@, spec_token_name(t)]),
        ),
        Token::Var => Some(
            (
                spec_token_name(t),
                seq!["Declaration"@, "Data Type"@, "Var Data Type"@, spec_token_name(t)],
            ),
        ),
        _ => None,
    }
}

/// The knowledge component recorded for a classification outcome.
pub open spec fn kc_of(name: Seq<char>, chain: Seq<Seq<char>>, ts: Seq<char>) -> KnowledgeComponentV {
    KnowledgeComponentV {
        token: name,
        value: spec_lower(name),
        time_stamp: ts,
        classification: chain,
    }
}

/// The stream of components produced by classifying the first `i` tokens.
pub open spec fn cj_components_upto(
    tokens: Seq<Token<Seq<char>>>,
    ts: Seq<char>,
    i: int,
) -> Seq<KnowledgeComponentV>
    decreases i,
{
    if i <= 0 {
        Seq::empty()
    } else {
        let prev = cj_components_upto(tokens, ts, i - 1);
        match cj_classify(tokens, i - 1) {
            Some(p) => prev.push(kc_of(p.0, p.1, ts)),
            None => prev,
        }
    }
}

/// The stream of components produced by classifying a whole token sequence.
pub open spec fn cj_components(tokens: Seq<Token<Seq<char>>>, ts: Seq<char>) -> Seq<
    KnowledgeComponentV,
> {
    cj_components_upto(tokens, ts, tokens.len() as int)
}

/// The executable classification outcome `r` agrees with the model outcome
/// `m`.
pub open spec fn cls_res_matches(
    r: Option<(String, Component)>,
    m: Option<(Seq<char>, Seq<Seq<char>>)>,
) -> bool {
    match (r, m) {
        (Some(a), Some(b)) => a.0@ == b.0 && a.1@ == b.1,
        (None, None) => true,
        _ => false,
    }
}

fn prev_is_ident_or_number(tokens: &Vec<Token<String>>, i: usize) -> (b: bool)
    requires
        i < tokens@.len(),
    ensures
        b == is_ident_or_number(tok_at(toks_view(tokens@), i as int - 1)),
{
    if i == 0 {
        false
    } else {
        match &tokens[i - 1] {
            Token::Identifier(_) => true,
            Token::Number(_) => true,
            _ => false,
        }
    }
}

fn next_is_ident_or_number(tokens: &Vec<Token<String>>, i: usize) -> (b: bool)
    requires
        i < tokens@.len(),
    ensures
        b == is_ident_or_number(tok_at(toks_view(tokens@), i as int + 1)),
{
    if i >= tokens.len() - 1 {
        false
    } else {
        match &tokens[i + 1] {
            Token::Identifier(_) => true,
            Token::Number(_) => true,
            _ => false,
        }
    }
}

fn next_is_number(tokens: &Vec<Token<String>>, i: usize) -> (b: bool)
    requires
        i < tokens@.len(),
    ensures
        b == (tok_at(toks_view(tokens@), i as int + 1) is Number),
{
    if i >= tokens.len() - 1 {
        false
    } else {
        match &tokens[i + 1] {
            Token::Number(_) => true,
            _ => false,
        }
    }
}

fn prev_is_identifier(tokens: &Vec<Token<String>>, i: usize) -> (b: bool)
    requires
        i < tokens@.len(),
    ensures
        b == (tok_at(toks_view(tokens@), i as int - 1) is Identifier),
{
    if i == 0 {
        false
    } else {
        match &tokens[i - 1] {
            Token::Identifier(_) => true,
            _ => false,
        }
    }
}

fn prev_is_out_stream(tokens: &Vec<Token<String>>, i: usize) -> (b: bool)
    requires
        i < tokens@.len(),
    ensures
        b == is_out_stream_ident(tok_at(toks_view(tokens@), i as int - 1)),
{
    if i == 0 {
        false
    } else {
        match &tokens[i - 1] {
            Token::Identifier(id) => str_eq(id.as_str(), "cout") || str_eq(id.as_str(), "cerr")
                || str_eq(id.as_str(), "clog"),
            _ => false,
        }
    }
}

fn prev_is_in_stream(tokens: &Vec<Token<String>>, i: usize) -> (b: bool)
    requires
        i < tokens@.len(),
    ensures
        b == is_in_stream_ident(tok_at(toks_view(tokens@), i as int - 1)),
{
    if i == 0 {
        false
    } else {
        match &tokens[i - 1] {
            Token::Identifier(id) => str_eq(id.as_str(), "cin"),
            _ => false,
        }
    }
}

fn prev_is_type_keyword(tokens: &Vec<Token<String>>, i: usize) -> (b: bool)
    requires
        i < tokens@.len(),
    ensures
        b == is_type_keyword(tok_at(toks_view(tokens@), i as int - 1)),
{
    if i == 0 {
        false
    } else {
        match &tokens[i - 1] {
            Token::Unsigned | Token::Signed | Token::Char | Token::Int | Token::Short
                | Token::ShortInt | Token::Long | Token::LongInt | Token::LongLong
                | Token::LongLongInt | Token::Float | Token::Double | Token::LongDouble
                | Token::Bool | Token::StringType | Token::Enum | Token::Struct | Token::Union
                | Token::Class | Token::Template | Token::Void => true,
            _ => false,
        }
    }
}

fn parse_statement(token: Component) -> (c: Component)
    ensures
        c@ == seq!["Statement"@] + token@,
{
    let component = Component::new("Statement", Some(token));
    let r = component;
    proof {
        assert(r@ =~= seq!["Statement"@] + token@);
    }
    r
}

fn parse_arithmetic_type(token: Component) -> (c: Component)
    ensures
        c@ == seq!["Declaration"@, "Data Type"@, "Arithmetic Data Type"@] + token@,
{
    let component = Component::new("Arithmetic Data Type", Some(token));
    let r = parse_data_type(component);
    proof {
        assert(r@ =~= seq!["Declaration"@, "Data Type"@, "Arithmetic Data Type"@] + token@);
    }
    r
}

fn parse_data_type(token: Component) -> (c: Component)
    ensures
        c@ == seq!["Declaration"@, "Data Type"@] + token@,
{
    let component = Component::new("Data Type", Some(token));
    let r = parse_declaration(component);
    proof {
        assert(r@ =~= seq!["Declaration"@, "Data Type"@] + token@);
    }
    r
}

fn parse_declaration(token: Component) -> (c: Component)
    ensures
        c@ == seq!["Declaration"@] + token@,
{
    let component = Component::new("Declaration", Some(token));
    let r = component;
    proof {
        assert(r@ =~= seq!["Declaration"@] + token@);
    }
    r
}

fn parse_expression(token: Component) -> (c: Component)
    ensures
        c@ == seq!["Expression"@] + token@,
{
    let component = Component::new("Expression", Some(token));
    let r = component;
    proof {
        assert(r@ =~= seq!["Expression"@] + token@);
    }
    r
}

fn parse_nested_specifier(token: Component) -> (c: Component)
    ensures
        c@ == seq!["Expression"@, "Nested Specifier"@] + token@,
{
    let component = Component::new("Nested Specifier", Some(token));
    let r = parse_expression(component);
    proof {
        assert(r@ =~= seq!["Expression"@, "Nested Specifier"@] + token@);
    }
    r
}

fn parse_primary_expression(token: Component) -> (c: Component)
    ensures
        c@ == seq!["Expression"@, "Primary Expression"@] + token@,
{
    let component = Component::new("Primary Expression", Some(token));
    let r = parse_expression(component);
    proof {
        assert(r@ =~= seq!["Expression"@, "Primary Expression"@] + token@);
    }
    r
}

fn parse_preprocessor(token: &Token<String>) -> (c: Component)
    ensures
        c@ == seq!["Preprocessor"@, spec_token_name(token@)],
{
    let leaf = Component::new(token.name().as_str(), None);
    let component = Component::new("Preprocessor", Some(leaf));
    let r = component;
    proof {
        assert(r@ =~= seq!["Preprocessor"@, spec_token_name(token@)]);
    }
    r
}

fn parse_iteration(token: &Token<String>) -> (c: Component)
    ensures
        c@ == seq!["Statement"@, "Iteration"@, spec_token_name(token@)],
{
    let leaf = Component::new(token.name().as_str(), None);
    let component = Component::new("Iteration", Some(leaf));
    let r = parse_statement(component);
    proof {
        assert(r@ =~= seq!["Statement"@, "Iteration"@, spec_token_name(token@)]);
    }
    r
}

fn parse_jump(token: &Token<String>) -> (c: Component)
    ensures
        c@ == seq!["Statement"@, "Jump"@, spec_token_name(token@)],
{
    let leaf = Component::new(token.name().as_str(), None);
    let component = Component::new("Jump", Some(leaf));
    let r = parse_statement(component);
    proof {
        assert(r@ =~= seq!["Statement"@, "Jump"@, spec_token_name(token@)]);
    }
    r
}

fn parse_label(token: &Token<String>) -> (c: Component)
    ensures
        c@ == seq!["Statement"@, "Label"@, spec_token_name(token@)],
{
    let leaf = Component::new(token.name().as_str(), None);
    let component = Component::new("Label", Some(leaf));
    let r = parse_statement(component);
    proof {
        assert(r@ =~= seq!["Statement"@, "Label"@, spec_token_name(token@)]);
    }
    r
}

fn parse_condition(token: &Token<String>) -> (c: Component)
    ensures
        c@ == seq!["Statement"@, "Condition"@, spec_token_name(token@)],
{
    let leaf = Component::new(token.name().as_str(), None);
    let component = Component::new("Condition", Some(leaf));
    let r = parse_statement(component);
    proof {
        assert(r@ =~= seq!["Statement"@, "Condition"@, spec_token_name(token@)]);
    }
    r
}

fn parse_sign(token: &Token<String>) -> (c: Component)
    ensures
        c@ == seq!["Declaration"@, "Data Type"@, "Arithmetic Data Type"@, "Sign"@, spec_token_name(token@)],
{
    let leaf = Component::new(token.name().as_str(), None);
    let component = Component::new("Sign", Some(leaf));
    let r = parse_arithmetic_type(component);
    proof {
        assert(r@ =~= seq!["Declaration"@, "Data Type"@, "Arithmetic Data Type"@, "Sign"@, spec_token_name(token@)]);
    }
    r
}

fn parse_character(token: &Token<String>) -> (c: Component)
    ensures
        c@ == seq!["Declaration"@, "Data Type"@, "Arithmetic Data Type"@, "Character"@, spec_token_name(token@)],
{
    let leaf = Component::new(token.name().as_str(), None);
    let component = Component::new("Character", Some(leaf));
    let r = parse_arithmetic_type(component);
    proof {
        assert(r@ =~= seq!["Declaration"@, "Data Type"@, "Arithmetic Data Type"@, "Character"@, spec_token_name(token@)]);
    }
    r
}

fn parse_integer(token: &Token<String>) -> (c: Component)
    ensures
        c@ == seq!["Declaration"@, "Data Type"@, "Arithmetic Data Type"@, "Integer Number"@, spec_token_name(token@)],
{
    let leaf = Component::new(token.name().as_str(), None);
    let component = Component::new("Integer Number", Some(leaf));
    let r = parse_arithmetic_type(component);
    proof {
        assert(r@ =~= seq!["Declaration"@, "Data Type"@, "Arithmetic Data Type"@, "Integer Number"@, spec_token_name(token@)]);
    }
    r
}

fn parse_float(token: &Token<String>) -> (c: Component)
    ensures
        c@ == seq!["Declaration"@, "Data Type"@, "Arithmetic Data Type"@, "Floating Point Number"@, spec_token_name(token@)],
{
    let leaf = Component::new(token.name().as_str(), None);
    let component = Component::new("Floating Point Number", Some(leaf));
    let r = parse_arithmetic_type(component);
    proof {
        assert(r@ =~= seq!["Declaration"@, "Data Type"@, "Arithmetic Data Type"@, "Floating Point Number"@, spec_token_name(token@)]);
    }
    r
}

fn parse_boolean(token: &Token<String>) -> (c: Component)
    ensures
        c@ == seq!["Declaration"@, "Data Type"@, "Boolean"@, spec_token_name(token@)],
{
    let leaf = Component::new(token.name().as_str(), None);
    let component = Component::new("Boolean", Some(leaf));
    let r = parse_data_type(component);
    proof {
        assert(r@ =~= seq!["Declaration"@, "Data Type"@, "Boolean"@, spec_token_name(token@)]);
    }
    r
}

fn parse_string(token: &Token<String>) -> (c: Component)
    ensures
        c@ == seq!["Declaration"@, "Data Type"@, "String"@, spec_token_name(token@)],
{
    let leaf = Component::new(token.name().as_str(), None);
    let component = Component::new("String", Some(leaf));
    let r = parse_data_type(component);
    proof {
        assert(r@ =~= seq!["Declaration"@, "Data Type"@, "String"@, spec_token_name(token@)]);
    }
    r
}

fn parse_elaborated_type_specifier(token: &Token<String>) -> (c: Component)
    ensures
        c@ == seq!["Declaration"@, "Data Type"@, "Elaborated Type Specifier"@, spec_token_name(token@)],
{
    let leaf = Component::new(token.name().as_str(), None);
    let component = Component::new("Elaborated Type Specifier", Some(leaf));
    let r = parse_data_type(component);
    proof {
        assert(r@ =~= seq!["Declaration"@, "Data Type"@, "Elaborated Type Specifier"@, spec_token_name(token@)]);
    }
    r
}

fn parse_void(token: &Token<String>) -> (c: Component)
    ensures
        c@ == seq!["Declaration"@, "Data Type"@, "Void"@, spec_token_name(token@)],
{
    let leaf = Component::new(token.name().as_str(), None);
    let component = Component::new("Void", Some(leaf));
    let r = parse_data_type(component);
    proof {
        assert(r@ =~= seq!["Declaration"@, "Data Type"@, "Void"@, spec_token_name(token@)]);
    }
    r
}

fn parse_using(token: &Token<String>) -> (c: Component)
    ensures
        c@ == seq!["Declaration"@, "Using"@, spec_token_name(token@)],
{
    let leaf = Component::new(token.name().as_str(), None);
    let component = Component::new("Using", Some(leaf));
    let r = parse_declaration(component);
    proof {
        assert(r@ =~= seq!["Declaration"@, "Using"@, spec_token_name(token@)]);
    }
    r
}

fn parse_namespace(token: &Token<String>) -> (c: Component)
    ensures
        c@ == seq!["Declaration"@, "Namespace"@, spec_token_name(token@)],
{
    let leaf = Component::new(token.name().as_str(), None);
    let component = Component::new("Namespace", Some(leaf));
    let r = parse_declaration(component);
    proof {
        assert(r@ =~= seq!["Declaration"@, "Namespace"@, spec_token_name(token@)]);
    }
    r
}

fn parse_declarator(token: &Token<String>) -> (c: Component)
    ensures
        c@ == seq!["Declaration"@, "Declarator"@, spec_token_name(token@)],
{
    let leaf = Component::new(token.name().as_str(), None);
    let component = Component::new("Declarator", Some(leaf));
    let r = parse_declaration(component);
    proof {
        assert(r@ =~= seq!["Declaration"@, "Declarator"@, spec_token_name(token@)]);
    }
    r
}

fn parse_storage_class(token: &Token<String>) -> (c: Component)
    ensures
        c@ == seq!["Declaration"@, "Storage Class"@, spec_token_name(token@)],
{
    let leaf = Component::new(token.name().as_str(), None);
    let component = Component::new("Storage Class", Some(leaf));
    let r = parse_declaration(component);
    proof {
        assert(r@ =~= seq!["Declaration"@, "Storage Class"@, spec_token_name(token@)]);
    }
    r
}

fn parse_type_qualifier(token: &Token<String>) -> (c: Component)
    ensures
        c@ == seq!["Declaration"@, "Storage Class"@, spec_token_name(token@)],
{
    let leaf = Component::new(token.name().as_str(), None);
    let component = Component::new("Storage Class", Some(leaf));
    let r = parse_declaration(component);
    proof {
        assert(r@ =~= seq!["Declaration"@, "Storage Class"@, spec_token_name(token@)]);
    }
    r
}

fn parse_access_specifier(token: &Token<String>) -> (c: Component)
    ensures
        c@ == seq!["Declaration"@, "Access Specifier"@, spec_token_name(token@)],
{
    let leaf = Component::new(token.name().as_str(), None);
    let component = Component::new("Access Specifier", Some(leaf));
    let r = parse_declaration(component);
    proof {
        assert(r@ =~= seq!["Declaration"@, "Access Specifier"@, spec_token_name(token@)]);
    }
    r
}

fn parse_arithmetic(token: &Token<String>) -> (c: Component)
    ensures
        c@ == seq!["Expression"@, "Arithmetic"@, spec_token_name(token@)],
{
    let leaf = Component::new(token.name().as_str(), None);
    let component = Component::new("Arithmetic", Some(leaf));
    let r = parse_expression(component);
    proof {
        assert(r@ =~= seq!["Expression"@, "Arithmetic"@, spec_token_name(token@)]);
    }
    r
}

fn parse_assignment(token: &Token<String>) -> (c: Component)
    ensures
        c@ == seq!["Expression"@, "Assignment"@, spec_token_name(token@)],
{
    let leaf = Component::new(token.name().as_str(), None);
    let component = Component::new("Assignment", Some(leaf));
    let r = parse_expression(component);
    proof {
        assert(r@ =~= seq!["Expression"@, "Assignment"@, spec_token_name(token@)]);
    }
    r
}

fn parse_bitwise(token: &Token<String>) -> (c: Component)
    ensures
        c@ == seq!["Expression"@, "Bitwise"@, spec_token_name(token@)],
{
    let leaf = Component::new(token.name().as_str(), None);
    let component = Component::new("Bitwise", Some(leaf));
    let r = parse_expression(component);
    proof {
        assert(r@ =~= seq!["Expression"@, "Bitwise"@, spec_token_name(token@)]);
    }
    r
}

fn parse_logical(token: &Token<String>) -> (c: Component)
    ensures
        c@ == seq!["Expression"@, "Logical"@, spec_token_name(token@)],
{
    let leaf = Component::new(token.name().as_str(), None);
    let component = Component::new("Logical", Some(leaf));
    let r = parse_expression(component);
    proof {
        assert(r@ =~= seq!["Expression"@, "Logical"@, spec_token_name(token@)]);
    }
    r
}

fn parse_size_of(token: &Token<String>) -> (c: Component)
    ensures
        c@ == seq!["Expression"@, "Size Of"@, spec_token_name(token@)],
{
    let leaf = Component::new(token.name().as_str(), None);
    let component = Component::new("Size Of", Some(leaf));
    let r = parse_expression(component);
    proof {
        assert(r@ =~= seq!["Expression"@, "Size Of"@, spec_token_name(token@)]);
    }
    r
}

fn parse_initialization(token: &Token<String>) -> (c: Component)
    ensures
        c@ == seq!["Expression"@, "Initialization"@, spec_token_name(token@)],
{
    let leaf = Component::new(token.name().as_str(), None);
    let component = Component::new("Initialization", Some(leaf));
    let r = parse_expression(component);
    proof {
        assert(r@ =~= seq!["Expression"@, "Initialization"@, spec_token_name(token@)]);
    }
    r
}

fn parse_function_call(token: &Token<String>) -> (c: Component)
    ensures
        c@ == seq!["Expression"@, spec_token_name(token@)],
{
    let leaf = Component::new(token.name().as_str(), None);
    let r = parse_expression(leaf);
    proof {
        assert(r@ =~= seq!["Expression"@, spec_token_name(token@)]);
    }
    r
}

fn parse_type_cast(token: &Token<String>) -> (c: Component)
    ensures
        c@ == seq!["Expression"@, spec_token_name(token@)],
{
    let leaf = Component::new(token.name().as_str(), None);
    let r = parse_expression(leaf);
    proof {
        assert(r@ =~= seq!["Expression"@, spec_token_name(token@)]);
    }
    r
}

fn parse_conditional_operator(token: &Token<String>) -> (c: Component)
    ensures
        c@ == seq!["Expression"@, spec_token_name(token@)],
{
    let leaf = Component::new(token.name().as_str(), None);
    let r = parse_expression(leaf);
    proof {
        assert(r@ =~= seq!["Expression"@, spec_token_name(token@)]);
    }
    r
}

fn parse_comparison(token: &Token<String>) -> (c: Component)
    ensures
        c@ == seq!["Expression"@, "Comparison"@, spec_token_name(token@)],
{
    let leaf = Component::new(token.name().as_str(), None);
    let component = Component::new("Comparison", Some(leaf));
    let r = parse_expression(component);
    proof {
        assert(r@ =~= seq!["Expression"@, "Comparison"@, spec_token_name(token@)]);
    }
    r
}

fn parse_member_access(token: &Token<String>) -> (c: Component)
    ensures
        c@ == seq!["Expression"@, "Member Access"@, spec_token_name(token@)],
{
    let leaf = Component::new(token.name().as_str(), None);
    let component = Component::new("Member Access", Some(leaf));
    let r = parse_expression(component);
    proof {
        assert(r@ =~= seq!["Expression"@, "Member Access"@, spec_token_name(token@)]);
    }
    r
}

fn parse_increment(token: &Token<String>) -> (c: Component)
    ensures
        c@ == seq!["Expression"@, "Increment"@, spec_token_name(token@)],
{
    let leaf = Component::new(token.name().as_str(), None);
    let component = Component::new("Increment", Some(leaf));
    let r = parse_expression(component);
    proof {
        assert(r@ =~= seq!["Expression"@, "Increment"@, spec_token_name(token@)]);
    }
    r
}

fn parse_decrement(token: &Token<String>) -> (c: Component)
    ensures
        c@ == seq!["Expression"@, "Decrement"@, spec_token_name(token@)],
{
    let leaf = Component::new(token.name().as_str(), None);
    let component = Component::new("Decrement", Some(leaf));
    let r = parse_expression(component);
    proof {
        assert(r@ =~= seq!["Expression"@, "Decrement"@, spec_token_name(token@)]);
    }
    r
}

fn parse_predefined_constant(token: &Token<String>) -> (c: Component)
    ensures
        c@ == seq!["Expression"@, "Predefined Constant"@, spec_token_name(token@)],
{
    let leaf = Component::new(token.name().as_str(), None);
    let component = Component::new("Predefined Constant", Some(leaf));
    let r = parse_expression(component);
    proof {
        assert(r@ =~= seq!["Expression"@, "Predefined Constant"@, spec_token_name(token@)]);
    }
    r
}

fn parse_allocation(token: &Token<String>) -> (c: Component)
    ensures
        c@ == seq!["Expression"@, "Memory Allocation"@, spec_token_name(token@)],
{
    let leaf = Component::new(token.name().as_str(), None);
    let component = Component::new("Memory Allocation", Some(leaf));
    let r = parse_expression(component);
    proof {
        assert(r@ =~= seq!["Expression"@, "Memory Allocation"@, spec_token_name(token@)]);
    }
    r
}

fn parse_scope_resolution(token: &Token<String>) -> (c: Component)
    ensures
        c@ == seq!["Expression"@, "Nested Specifier"@, "Scope Resolution"@, spec_token_name(token@)],
{
    let leaf = Component::new(token.name().as_str(), None);
    let component = Component::new("Scope Resolution", Some(leaf));
    let r = parse_nested_specifier(component);
    proof {
        assert(r@ =~= seq!["Expression"@, "Nested Specifier"@, "Scope Resolution"@, spec_token_name(token@)]);
    }
    r
}

fn parse_super(token: &Token<String>) -> (c: Component)
    ensures
        c@ == seq!["Expression"@, "Primary Expression"@, "Abstract Data Type"@, spec_token_name(token@)],
{
    let leaf = Component::new(token.name().as_str(), None);
    let component = Component::new("Abstract Data Type", Some(leaf));
    let r = parse_primary_expression(component);
    proof {
        assert(r@ =~= seq!["Expression"@, "Primary Expression"@, "Abstract Data Type"@, spec_token_name(token@)]);
    }
    r
}

fn parse_this(token: &Token<String>) -> (c: Component)
    ensures
        c@ == seq!["Expression"@, "Primary Expression"@, "Abstract Data Type"@, spec_token_name(token@)],
{
    let leaf = Component::new(token.name().as_str(), None);
    let component = Component::new("Abstract Data Type", Some(leaf));
    let r = parse_primary_expression(component);
    proof {
        assert(r@ =~= seq!["Expression"@, "Primary Expression"@, "Abstract Data Type"@, spec_token_name(token@)]);
    }
    r
}

fn parse_abstract_data_type(token: &Token<String>) -> (c: Component)
    ensures
        c@ == seq!["Declaration"@, "Data Type"@, "Abstract Data Type"@, spec_token_name(token@)],
{
    let leaf = Component::new(token.name().as_str(), None);
    let component = Component::new("Abstract Data Type", Some(leaf));
    let r = parse_data_type(component);
    proof {
        assert(r@ =~= seq!["Declaration"@, "Data Type"@, "Abstract Data Type"@, spec_token_name(token@)]);
    }
    r
}

fn parse_modifier(token: &Token<String>) -> (c: Component)
    ensures
        c@ == seq!["Declaration"@, "Modifier"@, spec_token_name(token@)],
{
    let leaf = Component::new(token.name().as_str(), None);
    let component = Component::new("Modifier", Some(leaf));
    let r = parse_declaration(component);
    proof {
        assert(r@ =~= seq!["Declaration"@, "Modifier"@, spec_token_name(token@)]);
    }
    r
}

fn parse_try_block(token: &Token<String>) -> (c: Component)
    ensures
        c@ == seq!["Statement"@, "Try Block"@, spec_token_name(token@)],
{
    let leaf = Component::new(token.name().as_str(), None);
    let component = Component::new("Try Block", Some(leaf));
    let r = parse_statement(component);
    proof {
        assert(r@ =~= seq!["Statement"@, "Try Block"@, spec_token_name(token@)]);
    }
    r
}

fn parse_throw(token: &Token<String>) -> (c: Component)
    ensures
        c@ == seq!["Statement"@, "Throw Statement"@, spec_token_name(token@)],
{
    let leaf = Component::new(token.name().as_str(), None);
    let component = Component::new("Throw Statement", Some(leaf));
    let r = parse_statement(component);
    proof {
        assert(r@ =~= seq!["Statement"@, "Throw Statement"@, spec_token_name(token@)]);
    }
    r
}

fn parse_var(token: &Token<String>) -> (c: Component)
    ensures
        c@ == seq!["Declaration"@, "Data Type"@, "Var Data Type"@, spec_token_name(token@)],
{
    let leaf = Component::new(token.name().as_str(), None);
    let component = Component::new("Var Data Type", Some(leaf));
    let r = parse_data_type(component);
    proof {
        assert(r@ =~= seq!["Declaration"@, "Data Type"@, "Var Data Type"@, spec_token_name(token@)]);
    }
    r
}

fn parse_class_extension(token: &Token<String>) -> (c: Component)
    ensures
        c@ == seq!["Declaration"@, "Class Extension"@, spec_token_name(token@)],
{
    let leaf = Component::new(token.name().as_str(), None);
    let component = Component::new("Class Extension", Some(leaf));
    let r = parse_declaration(component);
    proof {
        assert(r@ =~= seq!["Declaration"@, "Class Extension"@, spec_token_name(token@)]);
    }
    r
}

fn parse_compilation_unit(token: &Token<String>) -> (c: Component)
    ensures
        c@ == seq!["Compilation Unit"@, spec_token_name(token@)],
{
    let leaf = Component::new(token.name().as_str(), None);
    let component = Component::new("Compilation Unit", Some(leaf));
    let r = component;
    proof {
        assert(r@ =~= seq!["Compilation Unit"@, spec_token_name(token@)]);
    }
    r
}


fn classify_token(tokens: &Vec<Token<String>>, i: usize) -> (r: Option<(String, Component)>)
    requires
        i < tokens@.len(),
    ensures
        cls_res_matches(r, cj_classify(toks_view(tokens@), i as int)),
{
    proof {
        assert(toks_view(tokens@)[i as int] == tokens@[i as int]@);
    }
    let t = &tokens[i];
    match t {
        Token::Preprocessor(_) => Some((t.name(), parse_preprocessor(t))),
        Token::For | Token::While | Token::DoWhile => Some((t.name(), parse_iteration(t))),
        Token::Switch | Token::Case | Token::DefaultCase | Token::If | Token::ElseIf
            | Token::Else => Some((t.name(), parse_condition(t))),
        Token::Break | Token::Continue | Token::Goto | Token::Return => Some(
            (t.name(), parse_jump(t)),
        ),
        Token::Unsigned | Token::Signed => Some((t.name(), parse_sign(t))),
        Token::Char => Some((t.name(), parse_character(t))),
        Token::Int | Token::Short | Token::ShortInt | Token::Long | Token::LongInt
            | Token::LongLong | Token::LongLongInt => Some((t.name(), parse_integer(t))),
        Token::Float | Token::Double | Token::LongDouble => Some((t.name(), parse_float(t))),
        Token::Bool => Some((t.name(), parse_boolean(t))),
        Token::StringType => Some((t.name(), parse_string(t))),
        Token::Enum | Token::Struct | Token::Union | Token::Class | Token::Template => Some(
            (t.name(), parse_elaborated_type_specifier(t)),
        ),
        Token::Void => Some((t.name(), parse_void(t))),
        Token::OpenBracket => {
            let tok: Token<String> = Token::Array;
            Some((tok.name(), parse_declarator(&tok)))
        },
        Token::OpenParen => {
            let tok: Token<String> = Token::Function;
            if prev_is_type_keyword(tokens, i) {
                Some((tok.name(), parse_declarator(&tok)))
            } else {
                Some((tok.name(), parse_function_call(&tok)))
            }
        },
        Token::Asterisk => {
            if prev_is_ident_or_number(tokens, i) {
                let tok: Token<String> = Token::Multiplication;
                Some((tok.name(), parse_arithmetic(&tok)))
            } else {
                let tok: Token<String> = Token::Pointer;
                Some((tok.name(), parse_declarator(&tok)))
            }
        },
        Token::Auto | Token::Extern | Token::Register | Token::Static | Token::ThreadLocal
            | Token::Typedef | Token::Decltype => Some((t.name(), parse_storage_class(t))),
        Token::Atomic | Token::Const | Token::Restrict | Token::Volatile | Token::Mutable
            | Token::Public | Token::Protected | Token::Private => Some(
            (t.name(), parse_access_specifier(t)),
        ),
        Token::Plus | Token::Minus | Token::Multiplication | Token::Divide | Token::Modulo => Some(
            (t.name(), parse_arithmetic(t)),
        ),
        Token::AddAssignment | Token::SubAssignment | Token::MultAssignment | Token::DivAssignment
            | Token::ModAssignment | Token::Assignment => Some((t.name(), parse_assignment(t))),
        Token::Ampersand | Token::BitwiseAnd | Token::Reference => {
            if prev_is_ident_or_number(tokens, i) {
                let tok: Token<String> = Token::BitwiseAnd;
                Some((tok.name(), parse_bitwise(&tok)))
            } else {
                let tok: Token<String> = Token::Reference;
                Some((tok.name(), parse_member_access(&tok)))
            }
        },
        Token::BitwiseOr | Token::BitwiseXor | Token::BitwiseNot | Token::LeftShiftAssignment
            | Token::RightShiftAssignment | Token::BitwiseAndAssignment
            | Token::BitwiseOrAssignment | Token::BitwiseXorAssignment
            | Token::UnsignedRightShiftOperator => Some((t.name(), parse_bitwise(t))),
        Token::LeftOperator => {
            if prev_is_out_stream(tokens, i) {
                None
            } else {
                let tok: Token<String> = Token::LeftShift;
                Some((tok.name(), parse_bitwise(&tok)))
            }
        },
        Token::RightOperator => {
            if prev_is_in_stream(tokens, i) {
                None
            } else {
                let tok: Token<String> = Token::RightShift;
                Some((tok.name(), parse_bitwise(&tok)))
            }
        },
        Token::And | Token::Or | Token::Not => Some((t.name(), parse_logical(t))),
        Token::SizeOf => Some((t.name(), parse_size_of(t))),
        Token::TypeCast => Some((t.name(), parse_type_cast(t))),
        Token::ConditionalOperator => Some((t.name(), parse_conditional_operator(t))),
        Token::GreaterOrEquals | Token::LessOrEquals | Token::Equals | Token::NotEquals
            | Token::ThreeWayComparison => Some((t.name(), parse_comparison(t))),
        Token::Less | Token::Greater => {
            if next_is_number(tokens, i) && prev_is_identifier(tokens, i) {
                Some((t.name(), parse_comparison(t)))
            } else {
                None
            }
        },
        Token::DotOperator | Token::ArrowOperator => None,
        Token::Increment => {
            if next_is_ident_or_number(tokens, i) {
                let tok: Token<String> = Token::PrefixIncrement;
                Some((tok.name(), parse_increment(&tok)))
            } else {
                let tok: Token<String> = Token::PostfixIncrement;
                Some((tok.name(), parse_increment(&tok)))
            }
        },
        Token::Decrement => {
            if next_is_ident_or_number(tokens, i) {
                let tok: Token<String> = Token::PrefixDecrement;
                Some((tok.name(), parse_decrement(&tok)))
            } else {
                let tok: Token<String> = Token::PostfixDecrement;
                Some((tok.name(), parse_decrement(&tok)))
            }
        },
        Token::New | Token::Delete => Some((t.name(), parse_allocation(t))),
        Token::ScopeResolution => Some((t.name(), parse_scope_resolution(t))),
        Token::True | Token::False | Token::Null => Some(
            (t.name(), parse_predefined_constant(t)),
        ),
        Token::Using => Some((t.name(), parse_using(t))),
        Token::Namespace => Some((t.name(), parse_namespace(t))),
        Token::Import | Token::Package => Some((t.name(), parse_compilation_unit(t))),
        Token::Annotation | Token::Abstract | Token::Final | Token::Native | Token::Synchronized
            | Token::Transient | Token::StrictFp | Token::Assert => Some(
            (t.name(), parse_modifier(t)),
        ),
        Token::Interface => Some((t.name(), parse_abstract_data_type(t))),
        Token::Try | Token::Catch | Token::Finally => Some((t.name(), parse_try_block(t))),
        Token::Throw | Token::Throws => Some((t.name(), parse_throw(t))),
        Token::Super => Some((t.name(), parse_super(t))),
        Token::This => Some((t.name(), parse_this(t))),
        Token::Extends | Token::Implements => Some((t.name(), parse_class_extension(t))),
        Token::Var => Some((t.name(), parse_var(t))),
        _ => None,
    }
}

/// The C/C++/Java parser: a source URL (used to build timestamp links) and
/// the owned knowledge component registry.
pub struct CJParser {
    pub source: String,
    pub knowledge_components: Vec<KnowledgeComponent>,
}

impl CJParser {
    /// A parser with an empty registry for the given source URL.
    pub fn new(source: &str) -> (r: Self)
        ensures
            r.source@ == source@,
            r.knowledge_components@ == Seq::<KnowledgeComponent>::empty(),
    {
        CJParser { source: source.to_owned(), knowledge_components: Vec::new() }
    }

    /// Lexes `file`, classifies every token with its neighbors, and inserts
    /// the resulting components into the registry in stream order, keeping
    /// the first-seen entry of each token kind. Never fails, whatever the
    /// fragment holds.
    pub fn parse(&mut self, file: &str, time_code: i32)
        ensures
            final(self).source@ == old(self).source@,
            kcs_view(final(self).knowledge_components@) == spec_insert_all(
                kcs_view(old(self).knowledge_components@),
                cj_components(
                    spec_lex(file@, 0),
                    spec_time_stamp(old(self).source@, time_code as int),
                ),
            ),
    {
        let tokens = tokenize(file);
        let time_stamp = make_time_stamp(self.source.as_str(), time_code);
        let n = tokens.len();
        let mut idx: usize = 0;
        while idx < n
            invariant
                n == tokens@.len(),
                idx <= n,
                self.source@ == old(self).source@,
                time_stamp@ == spec_time_stamp(old(self).source@, time_code as int),
                toks_view(tokens@) == spec_lex(file@, 0),
                kcs_view(self.knowledge_components@) == spec_insert_all(
                    kcs_view(old(self).knowledge_components@),
                    cj_components_upto(toks_view(tokens@), time_stamp@, idx as int),
                ),
            decreases n - idx,
        {
            let ghost toks = toks_view(tokens@);
            let ghost done = cj_components_upto(toks, time_stamp@, idx as int);
            match classify_token(&tokens, idx) {
                Some((name, component)) => {
                    let kc = KnowledgeComponent::new(component, name.as_str(), time_stamp.as_str());
                    proof {
                        let m = cj_classify(toks, idx as int).unwrap();
                        assert(kc@ == kc_of(m.0, m.1, time_stamp@));
                        assert(cj_components_upto(toks, time_stamp@, idx + 1) == done.push(kc@));
                        lemma_insert_all_push(
                            kcs_view(old(self).knowledge_components@),
                            done,
                            kc@,
                        );
                    }
                    registry_insert(&mut self.knowledge_components, kc);
                },
                None => {
                    proof {
                        assert(cj_components_upto(toks, time_stamp@, idx + 1) == done);
                    }
                },
            }
            idx = idx + 1;
        }
    }

    /// A copy of the registry in insertion order.
    pub fn get_knowledge_components(&self) -> (r: Vec<KnowledgeComponent>)
        ensures
            kcs_view(r@) == kcs_view(self.knowledge_components@),
    {
        clone_components(&self.knowledge_components)
    }
}

} // verus!
