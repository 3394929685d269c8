//! The Python language parser: lexes a fragment with the Python grammar,
//! classifies each token into its taxonomy chain, and merges the results
//! into the owned knowledge component registry.

use vstd::prelude::*;
use vstd::string::StringExecFns;

use crate::knowledge_component::clone_components;
use crate::knowledge_component::kcs_view;
use crate::knowledge_component::lemma_insert_all_push;
use crate::knowledge_component::make_time_stamp;
use crate::knowledge_component::registry_insert;
use crate::knowledge_component::spec_insert_all;
use crate::knowledge_component::spec_time_stamp;
use crate::knowledge_component::Component;
use crate::knowledge_component::KnowledgeComponent;
use crate::knowledge_component::KnowledgeComponentV;
use crate::pylexer::spec_lex;
use crate::pylexer::spec_token_name;
use crate::pylexer::tokenize;
use crate::pylexer::Token;
use crate::strutil::spec_lower;

verus! {

/// The classification outcome for one Python token: the token kind to record
/// and its category chain, or `None` for a skipped token. No token of this
/// grammar needs neighbor disambiguation.
pub open spec fn py_classify(t: Token) -> Option<(Seq<char>, Seq<Seq<char>>)> {
    let nm = spec_token_name(t);
    match t {
        Token::Float => Some(
            (
                nm,
                seq![
                    "Declaration"@,
                    "Data Type"@,
                    "Arithmetic Data Type"@,
                    "Floating Point Number"@,
                    nm,
                ],
            ),
        ),
        Token::Int => Some(
            (
                nm,
                seq![
                    "Declaration"@,
                    "Data Type"@,
                    "Arithmetic Data Type"@,
                    "Integer Number"@,
                    nm,
                ],
            ),
        ),
        Token::Complex => Some(
            (
                nm,
                seq![
                    "Declaration"@,
                    "Data Type"@,
                    "Arithmetic Data Type"@,
                    "Complex Number"@,
                    nm,
                ],
            ),
        ),
        Token::Bool | Token::True | Token::False => Some(
            (nm, seq!["Declaration"@, "Data Type"@, "Arithmetic Data Type"@, "Boolean"@, nm]),
        ),
        Token::List => Some((nm, seq!["Declaration"@, "Data Type"@, "List"@, nm])),
        Token::Tuple => Some((nm, seq!["Declaration"@, "Data Type"@, "Tuple"@, nm])),
        Token::Dict => Some((nm, seq!["Declaration"@, "Data Type"@, "Dict"@, nm])),
        Token::SetType => Some((nm, seq!["Declaration"@, "Data Type"@, "Set"@, nm])),
        Token::Bytes => Some((nm, seq!["Declaration"@, "Data Type"@, "Bytes"@, nm])),
        Token::Class => Some((nm, seq!["Declaration"@, "Data Type"@, "ClassType"@, nm])),
        Token::StringLit => Some((nm, seq!["Declaration"@, "Data Type"@, "StringType"@, nm])),
        Token::NoneLiteral => Some((nm, seq!["Declaration"@, "Data Type"@, "NoneType"@, nm])),
        Token::FunctionDefinition | Token::Decorator | Token::Final | Token::Overload => Some(
            (nm, seq!["Declaration"@, "Declarator"@, nm]),
        ),
        Token::Global => Some((nm, seq!["Declaration"@, "Type Qualifier"@, nm])),
        Token::Addition | Token::Subtraction | Token::Multiplication | Token::Division
            | Token::FloorDivision | Token::Modulo | Token::Exponentiation => Some(
            (nm, seq!["Expression"@, "Arithmetic"@, nm]),
        ),
        Token::AddAssignment | Token::SubAssignment | Token::MultAssignment | Token::DivAssignment
            | Token::FloorDivAssignment | Token::ModAssignment | Token::ExpAssignment
            | Token::Assignment | Token::AssignmentExpression => Some(
            (nm, seq!["Expression"@, "Assignment"@, nm]),
        ),
        Token::BitwiseAnd | Token::BitwiseAndAssignment | Token::BitwiseOr
            | Token::BitwiseOrAssignment | Token::BitwiseXor | Token::BitwiseXorAssignment
            | Token::BitwiseNot | Token::BitwiseLeftShift | Token::BitwiseLeftShiftAssignment
            | Token::BitwiseRightShift | Token::BitwiseRightShiftAssignment => Some(
            (nm, seq!["Expression"@, "Bitwise"@, nm]),
        ),
        Token::Function => Some((nm, seq!["Expression"@, "Function"@, nm])),
        Token::LogicalAnd | Token::LogicalOr | Token::LogicalNot => Some(
            (nm, seq!["Expression"@, "Logical"@, nm]),
        ),
        Token::Greater | Token::GreaterOrEquals | Token::Less | Token::LessOrEquals | Token::Equal
            | Token::NotEquals => Some((nm, seq!["Expression"@, "Comparison"@, nm])),
        Token::MemberAccess => Some((nm, seq!["Expression"@, "Member Access"@, nm])),
        Token::Is | Token::IsNot => Some((nm, seq!["Expression"@, "Identity Operator"@, nm])),
        Token::In | Token::NotIn => Some((nm, seq!["Expression"@, "Membership Operator"@, nm])),
        Token::Yield | Token::Async | Token::Await | Token::Lambda => Some(
            (nm, seq!["Declaration"@, nm + " Declaration"@, nm]),
        ),
        Token::Comment | Token::Error => None,
    }
}

/// The knowledge component recorded for a classification outcome.
pub open spec fn kc_of(name: Seq<char>, chain: Seq<Seq<char>>, ts: Seq<char>) -> KnowledgeComponentV {
    KnowledgeComponentV {
        token: name,
        value: spec_lower(name),
        time_stamp: ts,
        classification: chain,
    }
}

/// The stream of components produced by classifying the first `i` tokens.
pub open spec fn py_components_upto(tokens: Seq<Token>, ts: Seq<char>, i: int) -> Seq<
    KnowledgeComponentV,
>
    decreases i,
{
    if i <= 0 {
        Seq::empty()
    } else {
        let prev = py_components_upto(tokens, ts, i - 1);
        match py_classify(tokens[i - 1]) {
            Some(p) => prev.push(kc_of(p.0, p.1, ts)),
            None => prev,
        }
    }
}

/// The stream of components produced by classifying a whole token sequence.
pub open spec fn py_components(tokens: Seq<Token>, ts: Seq<char>) -> Seq<KnowledgeComponentV> {
    py_components_upto(tokens, ts, tokens.len() as int)
}

/// The executable classification outcome `r` agrees with the model outcome
/// `m`.
pub open spec fn cls_res_matches(
    r: Option<(String, Component)>,
    m: Option<(Seq<char>, Seq<Seq<char>>)>,
) -> bool {
    match (r, m) {
        (Some(a), Some(b)) => a.0@ == b.0 && a.1@ == b.1,
        (None, None) => true,
        _ => false,
    }
}

fn parse_misc_declaration(token: &Token) -> (c: Component)
    ensures
        c@ == seq![
            "Declaration"@,
            spec_token_name(*token) + " Declaration"@,
            spec_token_name(*token),
        ],
{
    let leaf = Component::new(token.name().as_str(), None);
    let mut mid_name = token.name();
    mid_name.append(" Declaration");
    let component = Component::new(mid_name.as_str(), Some(leaf));
    let r = parse_declaration(component);
    proof {
        assert(r@ =~= seq![
            "Declaration"@,
            spec_token_name(*token) + " Declaration"@,
            spec_token_name(*token),
        ]);
    }
    r
}

fn parse_misc_expression(token: &Token) -> (c: Component)
    ensures
        c@ == seq![
            "Expression"@,
            spec_token_name(*token) + " Expression"@,
            spec_token_name(*token),
        ],
{
    let leaf = Component::new(token.name().as_str(), None);
    let mut mid_name = token.name();
    mid_name.append(" Expression");
    let component = Component::new(mid_name.as_str(), Some(leaf));
    let r = parse_expression(component);
    proof {
        assert(r@ =~= seq![
            "Expression"@,
            spec_token_name(*token) + " Expression"@,
            spec_token_name(*token),
        ]);
    }
    r
}

fn classify_token(t: &Token) -> (r: Option<(String, Component)>)
    ensures
        cls_res_matches(r, py_classify(*t)),
{
    match t {
        Token::Float => Some((t.name(), parse_float(t))),
        Token::Int => Some((t.name(), parse_integer(t))),
        Token::Complex => Some((t.name(), parse_complex(t))),
        Token::Bool | Token::True | Token::False => Some((t.name(), parse_boolean(t))),
        Token::List => Some((t.name(), parse_list(t))),
        Token::Tuple => Some((t.name(), parse_tuple(t))),
        Token::Dict => Some((t.name(), parse_dict(t))),
        Token::SetType => Some((t.name(), parse_set(t))),
        Token::Bytes => Some((t.name(), parse_bytes(t))),
        Token::Class => Some((t.name(), parse_class(t))),
        Token::StringLit => Some((t.name(), parse_string(t))),
        Token::NoneLiteral => Some((t.name(), parse_none(t))),
        Token::FunctionDefinition | Token::Decorator | Token::Final | Token::Overload => Some(
            (t.name(), parse_declarator(t)),
        ),
        Token::Global => Some((t.name(), parse_type_qualifier(t))),
        Token::Addition | Token::Subtraction | Token::Multiplication | Token::Division
            | Token::FloorDivision | Token::Modulo | Token::Exponentiation => Some(
            (t.name(), parse_arithmetic(t)),
        ),
        Token::AddAssignment | Token::SubAssignment | Token::MultAssignment | Token::DivAssignment
            | Token::FloorDivAssignment | Token::ModAssignment | Token::ExpAssignment
            | Token::Assignment | Token::AssignmentExpression => Some(
            (t.name(), parse_assignment(t)),
        ),
        Token::BitwiseAnd | Token::BitwiseAndAssignment | Token::BitwiseOr
            | Token::BitwiseOrAssignment | Token::BitwiseXor | Token::BitwiseXorAssignment
            | Token::BitwiseNot | Token::BitwiseLeftShift | Token::BitwiseLeftShiftAssignment
            | Token::BitwiseRightShift | Token::BitwiseRightShiftAssignment => Some(
            (t.name(), parse_bitwise(t)),
        ),
        Token::Function => Some((t.name(), parse_function(t))),
        Token::LogicalAnd | Token::LogicalOr | Token::LogicalNot => Some(
            (t.name(), parse_logical(t)),
        ),
        Token::Greater | Token::GreaterOrEquals | Token::Less | Token::LessOrEquals | Token::Equal
            | Token::NotEquals => Some((t.name(), parse_comparison(t))),
        Token::MemberAccess => Some((t.name(), parse_member_access(t))),
        Token::Is | Token::IsNot => Some((t.name(), parse_identity(t))),
        Token::In | Token::NotIn => Some((t.name(), parse_membership(t))),
        Token::Yield | Token::Async | Token::Await | Token::Lambda => Some(
            (t.name(), parse_misc_declaration(t)),
        ),
        Token::Comment | Token::Error => None,
    }
}

/// The Python parser: a source URL (used to build timestamp links) and the
/// owned knowledge component registry.
pub struct PyParser {
    pub source: String,
    pub knowledge_components: Vec<KnowledgeComponent>,
}

impl PyParser {
    /// A parser with an empty registry for the given source URL.
    pub fn new(source: &str) -> (r: Self)
        ensures
            r.source@ == source@,
            r.knowledge_components@ == Seq::<KnowledgeComponent>::empty(),
    {
        PyParser { source: source.to_owned(), knowledge_components: Vec::new() }
    }

    /// Lexes `file`, classifies every token, and inserts the resulting
    /// components into the registry in stream order, keeping the first-seen
    /// entry of each token kind. Never fails, whatever the fragment holds.
    pub fn parse(&mut self, file: &str, time_code: i32)
        ensures
            final(self).source@ == old(self).source@,
            kcs_view(final(self).knowledge_components@) == spec_insert_all(
                kcs_view(old(self).knowledge_components@),
                py_components(
                    spec_lex(file@, 0),
                    spec_time_stamp(old(self).source@, time_code as int),
                ),
            ),
    {
        let tokens = tokenize(file);
        let time_stamp = make_time_stamp(self.source.as_str(), time_code);
        let n = tokens.len();
        let mut idx: usize = 0;
        while idx < n
            invariant
                n == tokens@.len(),
                idx <= n,
                self.source@ == old(self).source@,
                time_stamp@ == spec_time_stamp(old(self).source@, time_code as int),
                tokens@ == spec_lex(file@, 0),
                kcs_view(self.knowledge_components@) == spec_insert_all(
                    kcs_view(old(self).knowledge_components@),
                    py_components_upto(tokens@, time_stamp@, idx as int),
                ),
            decreases n - idx,
        {
            let ghost done = py_components_upto(tokens@, time_stamp@, idx as int);
            match classify_token(&tokens[idx]) {
                Some((name, component)) => {
                    let kc = KnowledgeComponent::new(component, name.as_str(), time_stamp.as_str());
                    proof {
                        let m = py_classify(tokens@[idx as int]).unwrap();
                        assert(kc@ == kc_of(m.0, m.1, time_stamp@));
                        assert(py_components_upto(tokens@, time_stamp@, idx + 1) == done.push(
                            kc@,
                        ));
                        lemma_insert_all_push(
                            kcs_view(old(self).knowledge_components@),
                            done,
                            kc@,
                        );
                    }
                    registry_insert(&mut self.knowledge_components, kc);
                },
                None => {
                    proof {
                        assert(py_components_upto(tokens@, time_stamp@, idx + 1) == done);
                    }
                },
            }
            idx = idx + 1;
        }
    }

    /// A copy of the registry in insertion order.
    pub fn get_knowledge_components(&self) -> (r: Vec<KnowledgeComponent>)
        ensures
            kcs_view(r@) == kcs_view(self.knowledge_components@),
    {
        clone_components(&self.knowledge_components)
    }
}

fn parse_arithmetic_type(token: Component) -> (c: Component)
    ensures
        c@ == seq!["Declaration"@, "Data Type"@, "Arithmetic Data Type"@] + token@,
{
    let component = Component::new("Arithmetic Data Type", Some(token));
    let r = parse_data_type(component);
    proof {
        assert(r@ =~= seq!["Declaration"@, "Data Type"@, "Arithmetic Data Type"@] + token@);
    }
    r
}

fn parse_data_type(token: Component) -> (c: Component)
    ensures
        c@ == seq!["Declaration"@, "Data Type"@] + token@,
{
    let component = Component::new("Data Type", Some(token));
    let r = parse_declaration(component);
    proof {
        assert(r@ =~= seq!["Declaration"@, "Data Type"@] + token@);
    }
    r
}

fn parse_declaration(token: Component) -> (c: Component)
    ensures
        c@ == seq!["Declaration"@] + token@,
{
    let component = Component::new("Declaration", Some(token));
    let r = component;
    proof {
        assert(r@ =~= seq!["Declaration"@] + token@);
    }
    r
}

fn parse_expression(token: Component) -> (c: Component)
    ensures
        c@ == seq!["Expression"@] + token@,
{
    let component = Component::new("Expression", Some(token));
    let r = component;
    proof {
        assert(r@ =~= seq!["Expression"@] + token@);
    }
    r
}

fn parse_float(token: &Token) -> (c: Component)
    ensures
        c@ == seq!["Declaration"@, "Data Type"@, "Arithmetic Data Type"@, "Floating Point Number"@, spec_token_name(*token)],
{
    let leaf = Component::new(token.name().as_str(), None);
    let component = Component::new("Floating Point Number", Some(leaf));
    let r = parse_arithmetic_type(component);
    proof {
        assert(r@ =~= seq!["Declaration"@, "Data Type"@, "Arithmetic Data Type"@, "Floating Point Number"@, spec_token_name(*token)]);
    }
    r
}

fn parse_integer(token: &Token) -> (c: Component)
    ensures
        c@ == seq!["Declaration"@, "Data Type"@, "Arithmetic Data Type"@, "Integer Number"@, spec_token_name(*token)],
{
    let leaf = Component::new(token.name().as_str(), None);
    let component = Component::new("Integer Number", Some(leaf));
    let r = parse_arithmetic_type(component);
    proof {
        assert(r@ =~= seq!["Declaration"@, "Data Type"@, "Arithmetic Data Type"@, "Integer Number"@, spec_token_name(*token)]);
    }
    r
}

fn parse_complex(token: &Token) -> (c: Component)
    ensures
        c@ == seq!["Declaration"@, "Data Type"@, "Arithmetic Data Type"@, "Complex Number"@, spec_token_name(*token)],
{
    let leaf = Component::new(token.name().as_str(), None);
    let component = Component::new("Complex Number", Some(leaf));
    let r = parse_arithmetic_type(component);
    proof {
        assert(r@ =~= seq!["Declaration"@, "Data Type"@, "Arithmetic Data Type"@, "Complex Number"@, spec_token_name(*token)]);
    }
    r
}

fn parse_boolean(token: &Token) -> (c: Component)
    ensures
        c@ == seq!["Declaration"@, "Data Type"@, "Arithmetic Data Type"@, "Boolean"@, spec_token_name(*token)],
{
    let leaf = Component::new(token.name().as_str(), None);
    let component = Component::new("Boolean", Some(leaf));
    let r = parse_arithmetic_type(component);
    proof {
        assert(r@ =~= seq!["Declaration"@, "Data Type"@, "Arithmetic Data Type"@, "Boolean"@, spec_token_name(*token)]);
    }
    r
}

fn parse_list(token: &Token) -> (c: Component)
    ensures
        c@ == seq!["Declaration"@, "Data Type"@, "List"@, spec_token_name(*token)],
{
    let leaf = Component::new(token.name().as_str(), None);
    let component = Component::new("List", Some(leaf));
    let r = parse_data_type(component);
    proof {
        assert(r@ =~= seq!["Declaration"@, "Data Type"@, "List"@, spec_token_name(*token)]);
    }
    r
}

fn parse_tuple(token: &Token) -> (c: Component)
    ensures
        c@ == seq!["Declaration"@, "Data Type"@, "Tuple"@, spec_token_name(*token)],
{
    let leaf = Component::new(token.name().as_str(), None);
    let component = Component::new("Tuple", Some(leaf));
    let r = parse_data_type(component);
    proof {
        assert(r@ =~= seq!["Declaration"@, "Data Type"@, "Tuple"@, spec_token_name(*token)]);
    }
    r
}

fn parse_dict(token: &Token) -> (c: Component)
    ensures
        c@ == seq!["Declaration"@, "Data Type"@, "Dict"@, spec_token_name(*token)],
{
    let leaf = Component::new(token.name().as_str(), None);
    let component = Component::new("Dict", Some(leaf));
    let r = parse_data_type(component);
    proof {
        assert(r@ =~= seq!["Declaration"@, "Data Type"@, "Dict"@, spec_token_name(*token)]);
    }
    r
}

fn parse_set(token: &Token) -> (c: Component)
    ensures
        c@ == seq!["Declaration"@, "Data Type"@, "Set"@, spec_token_name(*token)],
{
    let leaf = Component::new(token.name().as_str(), None);
    let component = Component::new("Set", Some(leaf));
    let r = parse_data_type(component);
    proof {
        assert(r@ =~= seq!["Declaration"@, "Data Type"@, "Set"@, spec_token_name(*token)]);
    }
    r
}

fn parse_bytes(token: &Token) -> (c: Component)
    ensures
        c@ == seq!["Declaration"@, "Data Type"@, "Bytes"@, spec_token_name(*token)],
{
    let leaf = Component::new(token.name().as_str(), None);
    let component = Component::new("Bytes", Some(leaf));
    let r = parse_data_type(component);
    proof {
        assert(r@ =~= seq!["Declaration"@, "Data Type"@, "Bytes"@, spec_token_name(*token)]);
    }
    r
}

fn parse_class(token: &Token) -> (c: Component)
    ensures
        c@ == seq!["Declaration"@, "Data Type"@, "ClassType"@, spec_token_name(*token)],
{
    let leaf = Component::new(token.name().as_str(), None);
    let component = Component::new("ClassType", Some(leaf));
    let r = parse_data_type(component);
    proof {
        assert(r@ =~= seq!["Declaration"@, "Data Type"@, "ClassType"@, spec_token_name(*token)]);
    }
    r
}

fn parse_string(token: &Token) -> (c: Component)
    ensures
        c@ == seq!["Declaration"@, "Data Type"@, "StringType"@, spec_token_name(*token)],
{
    let leaf = Component::new(token.name().as_str(), None);
    let component = Component::new("StringType", Some(leaf));
    let r = parse_data_type(component);
    proof {
        assert(r@ =~= seq!["Declaration"@, "Data Type"@, "StringType"@, spec_token_name(*token)]);
    }
    r
}

fn parse_none(token: &Token) -> (c: Component)
    ensures
        c@ == seq!["Declaration"@, "Data Type"@, "NoneType"@, spec_token_name(*token)],
{
    let leaf = Component::new(token.name().as_str(), None);
    let component = Component::new("NoneType", Some(leaf));
    let r = parse_data_type(component);
    proof {
        assert(r@ =~= seq!["Declaration"@, "Data Type"@, "NoneType"@, spec_token_name(*token)]);
    }
    r
}

fn parse_declarator(token: &Token) -> (c: Component)
    ensures
        c@ == seq!["Declaration"@, "Declarator"@, spec_token_name(*token)],
{
    let leaf = Component::new(token.name().as_str(), None);
    let component = Component::new("Declarator", Some(leaf));
    let r = parse_declaration(component);
    proof {
        assert(r@ =~= seq!["Declaration"@, "Declarator"@, spec_token_name(*token)]);
    }
    r
}

fn parse_type_qualifier(token: &Token) -> (c: Component)
    ensures
        c@ == seq!["Declaration"@, "Type Qualifier"@, spec_token_name(*token)],
{
    let leaf = Component::new(token.name().as_str(), None);
    let component = Component::new("Type Qualifier", Some(leaf));
    let r = parse_declaration(component);
    proof {
        assert(r@ =~= seq!["Declaration"@, "Type Qualifier"@, spec_token_name(*token)]);
    }
    r
}

fn parse_arithmetic(token: &Token) -> (c: Component)
    ensures
        c@ == seq!["Expression"@, "Arithmetic"@, spec_token_name(*token)],
{
    let leaf = Component::new(token.name().as_str(), None);
    let component = Component::new("Arithmetic", Some(leaf));
    let r = parse_expression(component);
    proof {
        assert(r@ =~= seq!["Expression"@, "Arithmetic"@, spec_token_name(*token)]);
    }
    r
}

fn parse_assignment(token: &Token) -> (c: Component)
    ensures
        c@ == seq!["Expression"@, "Assignment"@, spec_token_name(*token)],
{
    let leaf = Component::new(token.name().as_str(), None);
    let component = Component::new("Assignment", Some(leaf));
    let r = parse_expression(component);
    proof {
        assert(r@ =~= seq!["Expression"@, "Assignment"@, spec_token_name(*token)]);
    }
    r
}

fn parse_bitwise(token: &Token) -> (c: Component)
    ensures
        c@ == seq!["Expression"@, "Bitwise"@, spec_token_name(*token)],
{
    let leaf = Component::new(token.name().as_str(), None);
    let component = Component::new("Bitwise", Some(leaf));
    let r = parse_expression(component);
    proof {
        assert(r@ =~= seq!["Expression"@, "Bitwise"@, spec_token_name(*token)]);
    }
    r
}

fn parse_logical(token: &Token) -> (c: Component)
    ensures
        c@ == seq!["Expression"@, "Logical"@, spec_token_name(*token)],
{
    let leaf = Component::new(token.name().as_str(), None);
    let component = Component::new("Logical", Some(leaf));
    let r = parse_expression(component);
    proof {
        assert(r@ =~= seq!["Expression"@, "Logical"@, spec_token_name(*token)]);
    }
    r
}

fn parse_function(token: &Token) -> (c: Component)
    ensures
        c@ == seq!["Expression"@, "Function"@, spec_token_name(*token)],
{
    let leaf = Component::new(token.name().as_str(), None);
    let component = Component::new("Function", Some(leaf));
    let r = parse_expression(component);
    proof {
        assert(r@ =~= seq!["Expression"@, "Function"@, spec_token_name(*token)]);
    }
    r
}

fn parse_comparison(token: &Token) -> (c: Component)
    ensures
        c@ == seq!["Expression"@, "Comparison"@, spec_token_name(*token)],
{
    let leaf = Component::new(token.name().as_str(), None);
    let component = Component::new("Comparison", Some(leaf));
    let r = parse_expression(component);
    proof {
        assert(r@ =~= seq!["Expression"@, "Comparison"@, spec_token_name(*token)]);
    }
    r
}

fn parse_member_access(token: &Token) -> (c: Component)
    ensures
        c@ == seq!["Expression"@, "Member Access"@, spec_token_name(*token)],
{
    let leaf = Component::new(token.name().as_str(), None);
    let component = Component::new("Member Access", Some(leaf));
    let r = parse_expression(component);
    proof {
        assert(r@ =~= seq!["Expression"@, "Member Access"@, spec_token_name(*token)]);
    }
    r
}

fn parse_identity(token: &Token) -> (c: Component)
    ensures
        c@ == seq!["Expression"@, "Identity Operator"@, spec_token_name(*token)],
{
    let leaf = Component::new(token.name().as_str(), None);
    let component = Component::new("Identity Operator", Some(leaf));
    let r = parse_expression(component);
    proof {
        assert(r@ =~= seq!["Expression"@, "Identity Operator"@, spec_token_name(*token)]);
    }
    r
}

fn parse_membership(token: &Token) -> (c: Component)
    ensures
        c@ == seq!["Expression"@, "Membership Operator"@, spec_token_name(*token)],
{
    let leaf = Component::new(token.name().as_str(), None);
    let component = Component::new("Membership Operator", Some(leaf));
    let r = parse_expression(component);
    proof {
        assert(r@ =~= seq!["Expression"@, "Membership Operator"@, spec_token_name(*token)]);
    }
    r
}

} // verus!
