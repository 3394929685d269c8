//! The Python lexical grammar: a closed token set with longest-match literal
//! rules, number/string/display classes, a comment rule, whitespace skipping
//! (line breaks included), and a catch-all unrecognized token. Lexing never
//! fails: unmatched input reduces to `Token::Error`.

use vstd::prelude::*;
use vstd::string::StrSliceExecFns;
use vstd::string::StringExecFns;

use crate::cjlexer::is_digit_char;
use crate::cjlexer::is_ident_char;
use crate::strutil::is_lit;
use crate::strutil::match_at;

verus! {

/// A character of the call-argument class: identifier class, comma or space.
pub open spec fn is_args_char(c: char) -> bool {
    is_ident_char(c) || c as u32 == 44 || c as u32 == 32
}

/// A character of the list-display class: letter, digit or comma.
pub open spec fn is_list_char(c: char) -> bool {
    (65 <= c as u32 <= 90) || (97 <= c as u32 <= 122) || is_digit_char(c) || c as u32 == 44
}

/// A character of the dict-display class: the list class plus the colon.
pub open spec fn is_dict_char(c: char) -> bool {
    is_list_char(c) || c as u32 == 58
}

/// Any character but a line break.
pub open spec fn is_comment_char(c: char) -> bool {
    !(c as u32 == 10 || c as u32 == 13)
}

/// Whitespace, line breaks included: this grammar does not retain them.
pub open spec fn is_ws_char(c: char) -> bool {
    c as u32 == 32 || c as u32 == 9 || c as u32 == 10 || c as u32 == 13
}

/// The executable outcome `r` of a literal-table lookup agrees with the
/// model outcome `m`.
pub open spec fn lit_res_matches(r: Option<(Token, usize)>, m: Option<(Token, int)>) -> bool {
    match (r, m) {
        (Some(p), Some(q)) => p.0 == q.0 && p.1 as int == q.1,
        (None, None) => true,
        _ => false,
    }
}

/// One lexical token of the Python grammar. Keyword groups that the
/// grammar folds into a single category share a variant; no token of this
/// grammar carries text.
pub enum Token {
    Float,
    Int,
    Complex,
    True,
    False,
    Bool,
    List,
    Tuple,
    Dict,
    SetType,
    Bytes,
    Class,
    StringLit,
    NoneLiteral,
    FunctionDefinition,
    Decorator,
    Final,
    Overload,
    Global,
    Addition,
    AddAssignment,
    Subtraction,
    SubAssignment,
    Multiplication,
    MultAssignment,
    Division,
    DivAssignment,
    FloorDivision,
    FloorDivAssignment,
    Modulo,
    ModAssignment,
    Exponentiation,
    ExpAssignment,
    Assignment,
    AssignmentExpression,
    BitwiseAnd,
    BitwiseAndAssignment,
    BitwiseOr,
    BitwiseOrAssignment,
    BitwiseXor,
    BitwiseXorAssignment,
    BitwiseNot,
    BitwiseLeftShift,
    BitwiseLeftShiftAssignment,
    BitwiseRightShift,
    BitwiseRightShiftAssignment,
    Function,
    LogicalAnd,
    LogicalOr,
    LogicalNot,
    Greater,
    GreaterOrEquals,
    Less,
    LessOrEquals,
    Equal,
    NotEquals,
    MemberAccess,
    Is,
    IsNot,
    In,
    NotIn,
    Yield,
    Async,
    Await,
    Lambda,
    Comment,
    Error,
}

/// The literal form of a token: the identity key of the knowledge
/// components built from this grammar.
pub open spec fn spec_token_name(t: Token) -> Seq<char> {
    match t {
        Token::Float => "Float"@,
        Token::Int => "Int"@,
        Token::Complex => "Complex"@,
        Token::True => "True"@,
        Token::False => "False"@,
        Token::Bool => "Bool"@,
        Token::List => "List"@,
        Token::Tuple => "Tuple"@,
        Token::Dict => "Dict"@,
        Token::SetType => "Set"@,
        Token::Bytes => "Bytes"@,
        Token::Class => "Class"@,
        Token::StringLit => "String"@,
        Token::NoneLiteral => "None"@,
        Token::FunctionDefinition => "FunctionDefinition"@,
        Token::Decorator => "Decorator"@,
        Token::Final => "Final"@,
        Token::Overload => "Overload"@,
        Token::Global => "Global"@,
        Token::Addition => "Addition"@,
        Token::AddAssignment => "AddAssignment"@,
        Token::Subtraction => "Subtraction"@,
        Token::SubAssignment => "SubAssignment"@,
        Token::Multiplication => "Multiplication"@,
        Token::MultAssignment => "MultAssignment"@,
        Token::Division => "Division"@,
        Token::DivAssignment => "DivAssignment"@,
        Token::FloorDivision => "FloorDivision"@,
        Token::FloorDivAssignment => "FloorDivAssignment"@,
        Token::Modulo => "Modulo"@,
        Token::ModAssignment => "ModAssignment"@,
        Token::Exponentiation => "Exponentiation"@,
        Token::ExpAssignment => "ExpAssignment"@,
        Token::Assignment => "Assignment"@,
        Token::AssignmentExpression => "AssignmentExpression"@,
        Token::BitwiseAnd => "BitwiseAnd"@,
        Token::BitwiseAndAssignment => "BitwiseAndAssignment"@,
        Token::BitwiseOr => "BitwiseOr"@,
        Token::BitwiseOrAssignment => "BitwiseOrAssignment"@,
        Token::BitwiseXor => "BitwiseXor"@,
        Token::BitwiseXorAssignment => "BitwiseXorAssignment"@,
        Token::BitwiseNot => "BitwiseNot"@,
        Token::BitwiseLeftShift => "BitwiseLeftShift"@,
        Token::BitwiseLeftShiftAssignment => "BitwiseLeftShiftAssignment"@,
        Token::BitwiseRightShift => "BitwiseRightShift"@,
        Token::BitwiseRightShiftAssignment => "BitwiseRightShiftAssignment"@,
        Token::Function => "Function"@,
        Token::LogicalAnd => "LogicalAnd"@,
        Token::LogicalOr => "LogicalOr"@,
        Token::LogicalNot => "LogicalNot"@,
        Token::Greater => "Greater"@,
        Token::GreaterOrEquals => "GreaterOrEquals"@,
        Token::Less => "Less"@,
        Token::LessOrEquals => "LessOrEquals"@,
        Token::Equal => "Equal"@,
        Token::NotEquals => "NotEquals"@,
        Token::MemberAccess => "MemberAccess"@,
        Token::Is => "Is"@,
        Token::IsNot => "IsNot"@,
        Token::In => "In"@,
        Token::NotIn => "NotIn"@,
        Token::Yield => "Yield"@,
        Token::Async => "Async"@,
        Token::Await => "Await"@,
        Token::Lambda => "Lambda"@,
        Token::Comment => "Comment"@,
        Token::Error => "Error"@,
    }
}

impl Token {
    /// The literal form of the token, used as the identity key of
    /// knowledge components.
    pub fn name(&self) -> (r: String)
        ensures
            r@ == spec_token_name(*self),
    {
        match self {
            Token::Float => "Float".to_owned(),
            Token::Int => "Int".to_owned(),
            Token::Complex => "Complex".to_owned(),
            Token::True => "True".to_owned(),
            Token::False => "False".to_owned(),
            Token::Bool => "Bool".to_owned(),
            Token::List => "List".to_owned(),
            Token::Tuple => "Tuple".to_owned(),
            Token::Dict => "Dict".to_owned(),
            Token::SetType => "Set".to_owned(),
            Token::Bytes => "Bytes".to_owned(),
            Token::Class => "Class".to_owned(),
            Token::StringLit => "String".to_owned(),
            Token::NoneLiteral => "None".to_owned(),
            Token::FunctionDefinition => "FunctionDefinition".to_owned(),
            Token::Decorator => "Decorator".to_owned(),
            Token::Final => "Final".to_owned(),
            Token::Overload => "Overload".to_owned(),
            Token::Global => "Global".to_owned(),
            Token::Addition => "Addition".to_owned(),
            Token::AddAssignment => "AddAssignment".to_owned(),
            Token::Subtraction => "Subtraction".to_owned(),
            Token::SubAssignment => "SubAssignment".to_owned(),
            Token::Multiplication => "Multiplication".to_owned(),
            Token::MultAssignment => "MultAssignment".to_owned(),
            Token::Division => "Division".to_owned(),
            Token::DivAssignment => "DivAssignment".to_owned(),
            Token::FloorDivision => "FloorDivision".to_owned(),
            Token::FloorDivAssignment => "FloorDivAssignment".to_owned(),
            Token::Modulo => "Modulo".to_owned(),
            Token::ModAssignment => "ModAssignment".to_owned(),
            Token::Exponentiation => "Exponentiation".to_owned(),
            Token::ExpAssignment => "ExpAssignment".to_owned(),
            Token::Assignment => "Assignment".to_owned(),
            Token::AssignmentExpression => "AssignmentExpression".to_owned(),
            Token::BitwiseAnd => "BitwiseAnd".to_owned(),
            Token::BitwiseAndAssignment => "BitwiseAndAssignment".to_owned(),
            Token::BitwiseOr => "BitwiseOr".to_owned(),
            Token::BitwiseOrAssignment => "BitwiseOrAssignment".to_owned(),
            Token::BitwiseXor => "BitwiseXor".to_owned(),
            Token::BitwiseXorAssignment => "BitwiseXorAssignment".to_owned(),
            Token::BitwiseNot => "BitwiseNot".to_owned(),
            Token::BitwiseLeftShift => "BitwiseLeftShift".to_owned(),
            Token::BitwiseLeftShiftAssignment => "BitwiseLeftShiftAssignment".to_owned(),
            Token::BitwiseRightShift => "BitwiseRightShift".to_owned(),
            Token::BitwiseRightShiftAssignment => "BitwiseRightShiftAssignment".to_owned(),
            Token::Function => "Function".to_owned(),
            Token::LogicalAnd => "LogicalAnd".to_owned(),
            Token::LogicalOr => "LogicalOr".to_owned(),
            Token::LogicalNot => "LogicalNot".to_owned(),
            Token::Greater => "Greater".to_owned(),
            Token::GreaterOrEquals => "GreaterOrEquals".to_owned(),
            Token::Less => "Less".to_owned(),
            Token::LessOrEquals => "LessOrEquals".to_owned(),
            Token::Equal => "Equal".to_owned(),
            Token::NotEquals => "NotEquals".to_owned(),
            Token::MemberAccess => "MemberAccess".to_owned(),
            Token::Is => "Is".to_owned(),
            Token::IsNot => "IsNot".to_owned(),
            Token::In => "In".to_owned(),
            Token::NotIn => "NotIn".to_owned(),
            Token::Yield => "Yield".to_owned(),
            Token::Async => "Async".to_owned(),
            Token::Await => "Await".to_owned(),
            Token::Lambda => "Lambda".to_owned(),
            Token::Comment => "Comment".to_owned(),
            Token::Error => "Error".to_owned(),
        }
    }
}

pub open spec fn lit_match_e(s: Seq<char>, i: int) -> Option<(Token, int)> {
    if is_lit(s, i, "@overload"@) {
        Some((Token::Overload, "@overload"@.len() as int))
    } else if is_lit(s, i, "continue"@) {
        Some((Token::Float, "continue"@.len() as int))
    } else if is_lit(s, i, "complex"@) {
        Some((Token::Complex, "complex"@.len() as int))
    } else if is_lit(s, i, "return"@) {
        Some((Token::Float, "return"@.len() as int))
    } else if is_lit(s, i, "lambda"@) {
        Some((Token::Lambda, "lambda"@.len() as int))
    } else if is_lit(s, i, "@final"@) {
        Some((Token::Final, "@final"@.len() as int))
    } else if is_lit(s, i, "is not"@) {
        Some((Token::IsNot, "is not"@.len() as int))
    } else if is_lit(s, i, "not in"@) {
        Some((Token::NotIn, "not in"@.len() as int))
    } else if is_lit(s, i, "global"@) {
        Some((Token::Global, "global"@.len() as int))
    } else if is_lit(s, i, "while"@) {
        Some((Token::Float, "while"@.len() as int))
    } else if is_lit(s, i, "break"@) {
        Some((Token::Float, "break"@.len() as int))
    } else if is_lit(s, i, "match"@) {
        Some((Token::Float, "match"@.len() as int))
    } else if is_lit(s, i, "float"@) {
        Some((Token::Float, "float"@.len() as int))
    } else if is_lit(s, i, "tuple"@) {
        Some((Token::Tuple, "tuple"@.len() as int))
    } else if is_lit(s, i, "bytes"@) {
        Some((Token::Bytes, "bytes"@.len() as int))
    } else if is_lit(s, i, "class"@) {
        Some((Token::Class, "class"@.len() as int))
    } else if is_lit(s, i, "False"@) {
        Some((Token::False, "False"@.len() as int))
    } else if is_lit(s, i, "yield"@) {
        Some((Token::Yield, "yield"@.len() as int))
    } else if is_lit(s, i, "async"@) {
        Some((Token::Async, "async"@.len() as int))
    } else if is_lit(s, i, "await"@) {
        Some((Token::Await, "await"@.len() as int))
    } else if is_lit(s, i, "pass"@) {
        Some((Token::Float, "pass"@.len() as int))
    } else if is_lit(s, i, "case"@) {
        Some((Token::Float, "case"@.len() as int))
    } else if is_lit(s, i, "elif"@) {
        Some((Token::Float, "elif"@.len() as int))
    } else if is_lit(s, i, "else"@) {
        Some((Token::Float, "else"@.len() as int))
    } else if is_lit(s, i, "True"@) {
        Some((Token::True, "True"@.len() as int))
    } else if is_lit(s, i, "bool"@) {
        Some((Token::Bool, "bool"@.len() as int))
    } else if is_lit(s, i, "list"@) {
        Some((Token::List, "list"@.len() as int))
    } else if is_lit(s, i, "dict"@) {
        Some((Token::Dict, "dict"@.len() as int))
    } else if is_lit(s, i, "None"@) {
        Some((Token::NoneLiteral, "None"@.len() as int))
    } else {
        None
    }
}

fn do_lit_match_e(s: &str, i: usize) -> (r: Option<(Token, usize)>)
    requires
        i <= s@.len(),
    ensures
        lit_res_matches(r, lit_match_e(s@, i as int)),
        match r {
            Some(p) => i + p.1 <= s@.len(),
            None => true,
        },
{
    if match_at(s, i, "@overload") {
        return Some((Token::Overload, "@overload".unicode_len()));
    }
    if match_at(s, i, "continue") {
        return Some((Token::Float, "continue".unicode_len()));
    }
    if match_at(s, i, "complex") {
        return Some((Token::Complex, "complex".unicode_len()));
    }
    if match_at(s, i, "return") {
        return Some((Token::Float, "return".unicode_len()));
    }
    if match_at(s, i, "lambda") {
        return Some((Token::Lambda, "lambda".unicode_len()));
    }
    if match_at(s, i, "@final") {
        return Some((Token::Final, "@final".unicode_len()));
    }
    if match_at(s, i, "is not") {
        return Some((Token::IsNot, "is not".unicode_len()));
    }
    if match_at(s, i, "not in") {
        return Some((Token::NotIn, "not in".unicode_len()));
    }
    if match_at(s, i, "global") {
        return Some((Token::Global, "global".unicode_len()));
    }
    if match_at(s, i, "while") {
        return Some((Token::Float, "while".unicode_len()));
    }
    if match_at(s, i, "break") {
        return Some((Token::Float, "break".unicode_len()));
    }
    if match_at(s, i, "match") {
        return Some((Token::Float, "match".unicode_len()));
    }
    if match_at(s, i, "float") {
        return Some((Token::Float, "float".unicode_len()));
    }
    if match_at(s, i, "tuple") {
        return Some((Token::Tuple, "tuple".unicode_len()));
    }
    if match_at(s, i, "bytes") {
        return Some((Token::Bytes, "bytes".unicode_len()));
    }
    if match_at(s, i, "class") {
        return Some((Token::Class, "class".unicode_len()));
    }
    if match_at(s, i, "False") {
        return Some((Token::False, "False".unicode_len()));
    }
    if match_at(s, i, "yield") {
        return Some((Token::Yield, "yield".unicode_len()));
    }
    if match_at(s, i, "async") {
        return Some((Token::Async, "async".unicode_len()));
    }
    if match_at(s, i, "await") {
        return Some((Token::Await, "await".unicode_len()));
    }
    if match_at(s, i, "pass") {
        return Some((Token::Float, "pass".unicode_len()));
    }
    if match_at(s, i, "case") {
        return Some((Token::Float, "case".unicode_len()));
    }
    if match_at(s, i, "elif") {
        return Some((Token::Float, "elif".unicode_len()));
    }
    if match_at(s, i, "else") {
        return Some((Token::Float, "else".unicode_len()));
    }
    if match_at(s, i, "True") {
        return Some((Token::True, "True".unicode_len()));
    }
    if match_at(s, i, "bool") {
        return Some((Token::Bool, "bool".unicode_len()));
    }
    if match_at(s, i, "list") {
        return Some((Token::List, "list".unicode_len()));
    }
    if match_at(s, i, "dict") {
        return Some((Token::Dict, "dict".unicode_len()));
    }
    if match_at(s, i, "None") {
        return Some((Token::NoneLiteral, "None".unicode_len()));
    }
    None
}

pub open spec fn lit_match_f(s: Seq<char>, i: int) -> Option<(Token, int)> {
    if is_lit(s, i, "for"@) {
        Some((Token::Float, "for"@.len() as int))
    } else if is_lit(s, i, "int"@) {
        Some((Token::Int, "int"@.len() as int))
    } else if is_lit(s, i, "set"@) {
        Some((Token::SetType, "set"@.len() as int))
    } else if is_lit(s, i, "def"@) {
        Some((Token::FunctionDefinition, "def"@.len() as int))
    } else if is_lit(s, i, "and"@) {
        Some((Token::LogicalAnd, "and"@.len() as int))
    } else if is_lit(s, i, "not"@) {
        Some((Token::LogicalNot, "not"@.len() as int))
    } else if is_lit(s, i, "//="@) {
        Some((Token::FloorDivAssignment, "//="@.len() as int))
    } else if is_lit(s, i, "**="@) {
        Some((Token::ExpAssignment, "**="@.len() as int))
    } else if is_lit(s, i, "<<="@) {
        Some((Token::BitwiseLeftShiftAssignment, "<<="@.len() as int))
    } else if is_lit(s, i, ">>="@) {
        Some((Token::BitwiseRightShiftAssignment, ">>="@.len() as int))
    } else if is_lit(s, i, "if"@) {
        Some((Token::Float, "if"@.len() as int))
    } else if is_lit(s, i, "is"@) {
        Some((Token::Is, "is"@.len() as int))
    } else if is_lit(s, i, "in"@) {
        Some((Token::In, "in"@.len() as int))
    } else if is_lit(s, i, "or"@) {
        Some((Token::LogicalOr, "or"@.len() as int))
    } else if is_lit(s, i, "+="@) {
        Some((Token::AddAssignment, "+="@.len() as int))
    } else if is_lit(s, i, "-="@) {
        Some((Token::SubAssignment, "-="@.len() as int))
    } else if is_lit(s, i, "*="@) {
        Some((Token::MultAssignment, "*="@.len() as int))
    } else if is_lit(s, i, "/="@) {
        Some((Token::DivAssignment, "/="@.len() as int))
    } else if is_lit(s, i, "//"@) {
        Some((Token::FloorDivision, "//"@.len() as int))
    } else if is_lit(s, i, "%="@) {
        Some((Token::ModAssignment, "%="@.len() as int))
    } else if is_lit(s, i, "**"@) {
        Some((Token::Exponentiation, "**"@.len() as int))
    } else if is_lit(s, i, ":="@) {
        Some((Token::AssignmentExpression, ":="@.len() as int))
    } else if is_lit(s, i, "&="@) {
        Some((Token::BitwiseAndAssignment, "&="@.len() as int))
    } else if is_lit(s, i, "|="@) {
        Some((Token::BitwiseOrAssignment, "|="@.len() as int))
    } else if is_lit(s, i, "^="@) {
        Some((Token::BitwiseXorAssignment, "^="@.len() as int))
    } else if is_lit(s, i, "<<"@) {
        Some((Token::BitwiseLeftShift, "<<"@.len() as int))
    } else if is_lit(s, i, ">>"@) {
        Some((Token::BitwiseRightShift, ">>"@.len() as int))
    } else if is_lit(s, i, ">="@) {
        Some((Token::GreaterOrEquals, ">="@.len() as int))
    } else if is_lit(s, i, "<="@) {
        Some((Token::LessOrEquals, "<="@.len() as int))
    } else if is_lit(s, i, "=="@) {
        Some((Token::Equal, "=="@.len() as int))
    } else if is_lit(s, i, "!="@) {
        Some((Token::NotEquals, "!="@.len() as int))
    } else {
        None
    }
}

fn do_lit_match_f(s: &str, i: usize) -> (r: Option<(Token, usize)>)
    requires
        i <= s@.len(),
    ensures
        lit_res_matches(r, lit_match_f(s@, i as int)),
        match r {
            Some(p) => i + p.1 <= s@.len(),
            None => true,
        },
{
    if match_at(s, i, "for") {
        return Some((Token::Float, "for".unicode_len()));
    }
    if match_at(s, i, "int") {
        return Some((Token::Int, "int".unicode_len()));
    }
    if match_at(s, i, "set") {
        return Some((Token::SetType, "set".unicode_len()));
    }
    if match_at(s, i, "def") {
        return Some((Token::FunctionDefinition, "def".unicode_len()));
    }
    if match_at(s, i, "and") {
        return Some((Token::LogicalAnd, "and".unicode_len()));
    }
    if match_at(s, i, "not") {
        return Some((Token::LogicalNot, "not".unicode_len()));
    }
    if match_at(s, i, "//=") {
        return Some((Token::FloorDivAssignment, "//=".unicode_len()));
    }
    if match_at(s, i, "**=") {
        return Some((Token::ExpAssignment, "**=".unicode_len()));
    }
    if match_at(s, i, "<<=") {
        return Some((Token::BitwiseLeftShiftAssignment, "<<=".unicode_len()));
    }
    if match_at(s, i, ">>=") {
        return Some((Token::BitwiseRightShiftAssignment, ">>=".unicode_len()));
    }
    if match_at(s, i, "if") {
        return Some((Token::Float, "if".unicode_len()));
    }
    if match_at(s, i, "is") {
        return Some((Token::Is, "is".unicode_len()));
    }
    if match_at(s, i, "in") {
        return Some((Token::In, "in".unicode_len()));
    }
    if match_at(s, i, "or") {
        return Some((Token::LogicalOr, "or".unicode_len()));
    }
    if match_at(s, i, "+=") {
        return Some((Token::AddAssignment, "+=".unicode_len()));
    }
    if match_at(s, i, "-=") {
        return Some((Token::SubAssignment, "-=".unicode_len()));
    }
    if match_at(s, i, "*=") {
        return Some((Token::MultAssignment, "*=".unicode_len()));
    }
    if match_at(s, i, "/=") {
        return Some((Token::DivAssignment, "/=".unicode_len()));
    }
    if match_at(s, i, "//") {
        return Some((Token::FloorDivision, "//".unicode_len()));
    }
    if match_at(s, i, "%=") {
        return Some((Token::ModAssignment, "%=".unicode_len()));
    }
    if match_at(s, i, "**") {
        return Some((Token::Exponentiation, "**".unicode_len()));
    }
    if match_at(s, i, ":=") {
        return Some((Token::AssignmentExpression, ":=".unicode_len()));
    }
    if match_at(s, i, "&=") {
        return Some((Token::BitwiseAndAssignment, "&=".unicode_len()));
    }
    if match_at(s, i, "|=") {
        return Some((Token::BitwiseOrAssignment, "|=".unicode_len()));
    }
    if match_at(s, i, "^=") {
        return Some((Token::BitwiseXorAssignment, "^=".unicode_len()));
    }
    if match_at(s, i, "<<") {
        return Some((Token::BitwiseLeftShift, "<<".unicode_len()));
    }
    if match_at(s, i, ">>") {
        return Some((Token::BitwiseRightShift, ">>".unicode_len()));
    }
    if match_at(s, i, ">=") {
        return Some((Token::GreaterOrEquals, ">=".unicode_len()));
    }
    if match_at(s, i, "<=") {
        return Some((Token::LessOrEquals, "<=".unicode_len()));
    }
    if match_at(s, i, "==") {
        return Some((Token::Equal, "==".unicode_len()));
    }
    if match_at(s, i, "!=") {
        return Some((Token::NotEquals, "!=".unicode_len()));
    }
    None
}

pub open spec fn lit_match_g(s: Seq<char>, i: int) -> Option<(Token, int)> {
    if is_lit(s, i, "@"@) {
        Some((Token::Decorator, "@"@.len() as int))
    } else if is_lit(s, i, "+"@) {
        Some((Token::Addition, "+"@.len() as int))
    } else if is_lit(s, i, "-"@) {
        Some((Token::Subtraction, "-"@.len() as int))
    } else if is_lit(s, i, "*"@) {
        Some((Token::Multiplication, "*"@.len() as int))
    } else if is_lit(s, i, "/"@) {
        Some((Token::Division, "/"@.len() as int))
    } else if is_lit(s, i, "%"@) {
        Some((Token::Modulo, "%"@.len() as int))
    } else if is_lit(s, i, "="@) {
        Some((Token::Assignment, "="@.len() as int))
    } else if is_lit(s, i, "&"@) {
        Some((Token::BitwiseAnd, "&"@.len() as int))
    } else if is_lit(s, i, "|"@) {
        Some((Token::BitwiseOr, "|"@.len() as int))
    } else if is_lit(s, i, "^"@) {
        Some((Token::BitwiseXor, "^"@.len() as int))
    } else if is_lit(s, i, "~"@) {
        Some((Token::BitwiseNot, "~"@.len() as int))
    } else if is_lit(s, i, ">"@) {
        Some((Token::Greater, ">"@.len() as int))
    } else if is_lit(s, i, "<"@) {
        Some((Token::Less, "<"@.len() as int))
    } else if is_lit(s, i, "."@) {
        Some((Token::MemberAccess, "."@.len() as int))
    } else {
        None
    }
}

fn do_lit_match_g(s: &str, i: usize) -> (r: Option<(Token, usize)>)
    requires
        i <= s@.len(),
    ensures
        lit_res_matches(r, lit_match_g(s@, i as int)),
        match r {
            Some(p) => i + p.1 <= s@.len(),
            None => true,
        },
{
    if match_at(s, i, "@") {
        return Some((Token::Decorator, "@".unicode_len()));
    }
    if match_at(s, i, "+") {
        return Some((Token::Addition, "+".unicode_len()));
    }
    if match_at(s, i, "-") {
        return Some((Token::Subtraction, "-".unicode_len()));
    }
    if match_at(s, i, "*") {
        return Some((Token::Multiplication, "*".unicode_len()));
    }
    if match_at(s, i, "/") {
        return Some((Token::Division, "/".unicode_len()));
    }
    if match_at(s, i, "%") {
        return Some((Token::Modulo, "%".unicode_len()));
    }
    if match_at(s, i, "=") {
        return Some((Token::Assignment, "=".unicode_len()));
    }
    if match_at(s, i, "&") {
        return Some((Token::BitwiseAnd, "&".unicode_len()));
    }
    if match_at(s, i, "|") {
        return Some((Token::BitwiseOr, "|".unicode_len()));
    }
    if match_at(s, i, "^") {
        return Some((Token::BitwiseXor, "^".unicode_len()));
    }
    if match_at(s, i, "~") {
        return Some((Token::BitwiseNot, "~".unicode_len()));
    }
    if match_at(s, i, ">") {
        return Some((Token::Greater, ">".unicode_len()));
    }
    if match_at(s, i, "<") {
        return Some((Token::Less, "<".unicode_len()));
    }
    if match_at(s, i, ".") {
        return Some((Token::MemberAccess, ".".unicode_len()));
    }
    None
}

/// Length of the run of decimal digits at `i`.
pub open spec fn digit_run_len(s: Seq<char>, i: int) -> int
    decreases s.len() - i,
{
    if 0 <= i < s.len() && is_digit_char(s[i]) {
        1 + digit_run_len(s, i + 1)
    } else {
        0
    }
}

fn scan_digits(s: &str, i: usize) -> (l: usize)
    requires
        i <= s@.len(),
    ensures
        i + l <= s@.len(),
        l as int == digit_run_len(s@, i as int),
{
    let n = s.unicode_len();
    let mut j: usize = i;
    while j < n
        invariant
            i <= j <= n,
            n == s@.len(),
            digit_run_len(s@, i as int) == j - i + digit_run_len(s@, j as int),
        decreases n - j,
    {
        let c = s.get_char(j);
        if !(48 <= c as u32 && c as u32 <= 57) {
            proof {
                assert(digit_run_len(s@, j as int) == 0);
            }
            return j - i;
        }
        proof {
            assert(digit_run_len(s@, j as int) == 1 + digit_run_len(s@, j + 1));
        }
        j = j + 1;
    }
    proof {
        assert(digit_run_len(s@, j as int) == 0);
    }
    j - i
}

/// Length of the run of identifier-class characters (letters, digits, underscore) at `i`.
pub open spec fn name_run_len(s: Seq<char>, i: int) -> int
    decreases s.len() - i,
{
    if 0 <= i < s.len() && is_ident_char(s[i]) {
        1 + name_run_len(s, i + 1)
    } else {
        0
    }
}

fn scan_name(s: &str, i: usize) -> (l: usize)
    requires
        i <= s@.len(),
    ensures
        i + l <= s@.len(),
        l as int == name_run_len(s@, i as int),
{
    let n = s.unicode_len();
    let mut j: usize = i;
    while j < n
        invariant
            i <= j <= n,
            n == s@.len(),
            name_run_len(s@, i as int) == j - i + name_run_len(s@, j as int),
        decreases n - j,
    {
        let c = s.get_char(j);
        if !((65 <= c as u32 && c as u32 <= 90) || (97 <= c as u32 && c as u32 <= 122) || (48 <= c as u32 && c as u32 <= 57) || c as u32 == 95) {
            proof {
                assert(name_run_len(s@, j as int) == 0);
            }
            return j - i;
        }
        proof {
            assert(name_run_len(s@, j as int) == 1 + name_run_len(s@, j + 1));
        }
        j = j + 1;
    }
    proof {
        assert(name_run_len(s@, j as int) == 0);
    }
    j - i
}

/// Length of the run of call-argument characters (identifier class, comma, space) at `i`.
pub open spec fn args_run_len(s: Seq<char>, i: int) -> int
    decreases s.len() - i,
{
    if 0 <= i < s.len() && is_args_char(s[i]) {
        1 + args_run_len(s, i + 1)
    } else {
        0
    }
}

fn scan_args(s: &str, i: usize) -> (l: usize)
    requires
        i <= s@.len(),
    ensures
        i + l <= s@.len(),
        l as int == args_run_len(s@, i as int),
{
    let n = s.unicode_len();
    let mut j: usize = i;
    while j < n
        invariant
            i <= j <= n,
            n == s@.len(),
            args_run_len(s@, i as int) == j - i + args_run_len(s@, j as int),
        decreases n - j,
    {
        let c = s.get_char(j);
        if !((65 <= c as u32 && c as u32 <= 90) || (97 <= c as u32 && c as u32 <= 122) || (48 <= c as u32 && c as u32 <= 57) || c as u32 == 95 || c as u32 == 44 || c as u32 == 32) {
            proof {
                assert(args_run_len(s@, j as int) == 0);
            }
            return j - i;
        }
        proof {
            assert(args_run_len(s@, j as int) == 1 + args_run_len(s@, j + 1));
        }
        j = j + 1;
    }
    proof {
        assert(args_run_len(s@, j as int) == 0);
    }
    j - i
}

/// Length of the run of list-display characters (letters, digits, comma) at `i`.
pub open spec fn list_run_len(s: Seq<char>, i: int) -> int
    decreases s.len() - i,
{
    if 0 <= i < s.len() && is_list_char(s[i]) {
        1 + list_run_len(s, i + 1)
    } else {
        0
    }
}

fn scan_list(s: &str, i: usize) -> (l: usize)
    requires
        i <= s@.len(),
    ensures
        i + l <= s@.len(),
        l as int == list_run_len(s@, i as int),
{
    let n = s.unicode_len();
    let mut j: usize = i;
    while j < n
        invariant
            i <= j <= n,
            n == s@.len(),
            list_run_len(s@, i as int) == j - i + list_run_len(s@, j as int),
        decreases n - j,
    {
        let c = s.get_char(j);
        if !((65 <= c as u32 && c as u32 <= 90) || (97 <= c as u32 && c as u32 <= 122) || (48 <= c as u32 && c as u32 <= 57) || c as u32 == 44) {
            proof {
                assert(list_run_len(s@, j as int) == 0);
            }
            return j - i;
        }
        proof {
            assert(list_run_len(s@, j as int) == 1 + list_run_len(s@, j + 1));
        }
        j = j + 1;
    }
    proof {
        assert(list_run_len(s@, j as int) == 0);
    }
    j - i
}

/// Length of the run of dict-display characters (letters, digits, comma, colon) at `i`.
pub open spec fn dict_run_len(s: Seq<char>, i: int) -> int
    decreases s.len() - i,
{
    if 0 <= i < s.len() && is_dict_char(s[i]) {
        1 + dict_run_len(s, i + 1)
    } else {
        0
    }
}

fn scan_dict(s: &str, i: usize) -> (l: usize)
    requires
        i <= s@.len(),
    ensures
        i + l <= s@.len(),
        l as int == dict_run_len(s@, i as int),
{
    let n = s.unicode_len();
    let mut j: usize = i;
    while j < n
        invariant
            i <= j <= n,
            n == s@.len(),
            dict_run_len(s@, i as int) == j - i + dict_run_len(s@, j as int),
        decreases n - j,
    {
        let c = s.get_char(j);
        if !((65 <= c as u32 && c as u32 <= 90) || (97 <= c as u32 && c as u32 <= 122) || (48 <= c as u32 && c as u32 <= 57) || c as u32 == 44 || c as u32 == 58) {
            proof {
                assert(dict_run_len(s@, j as int) == 0);
            }
            return j - i;
        }
        proof {
            assert(dict_run_len(s@, j as int) == 1 + dict_run_len(s@, j + 1));
        }
        j = j + 1;
    }
    proof {
        assert(dict_run_len(s@, j as int) == 0);
    }
    j - i
}

/// Length of the run of characters other than a line break at `i`.
pub open spec fn comment_run_len(s: Seq<char>, i: int) -> int
    decreases s.len() - i,
{
    if 0 <= i < s.len() && is_comment_char(s[i]) {
        1 + comment_run_len(s, i + 1)
    } else {
        0
    }
}

fn scan_comment(s: &str, i: usize) -> (l: usize)
    requires
        i <= s@.len(),
    ensures
        i + l <= s@.len(),
        l as int == comment_run_len(s@, i as int),
{
    let n = s.unicode_len();
    let mut j: usize = i;
    while j < n
        invariant
            i <= j <= n,
            n == s@.len(),
            comment_run_len(s@, i as int) == j - i + comment_run_len(s@, j as int),
        decreases n - j,
    {
        let c = s.get_char(j);
        if !!(c as u32 == 10 || c as u32 == 13) {
            proof {
                assert(comment_run_len(s@, j as int) == 0);
            }
            return j - i;
        }
        proof {
            assert(comment_run_len(s@, j as int) == 1 + comment_run_len(s@, j + 1));
        }
        j = j + 1;
    }
    proof {
        assert(comment_run_len(s@, j as int) == 0);
    }
    j - i
}

/// Length of the run of whitespace characters (space, tab, line breaks) at `i`.
pub open spec fn ws_run_len(s: Seq<char>, i: int) -> int
    decreases s.len() - i,
{
    if 0 <= i < s.len() && is_ws_char(s[i]) {
        1 + ws_run_len(s, i + 1)
    } else {
        0
    }
}

fn scan_ws(s: &str, i: usize) -> (l: usize)
    requires
        i <= s@.len(),
    ensures
        i + l <= s@.len(),
        l as int == ws_run_len(s@, i as int),
{
    let n = s.unicode_len();
    let mut j: usize = i;
    while j < n
        invariant
            i <= j <= n,
            n == s@.len(),
            ws_run_len(s@, i as int) == j - i + ws_run_len(s@, j as int),
        decreases n - j,
    {
        let c = s.get_char(j);
        if !(c as u32 == 32 || c as u32 == 9 || c as u32 == 10 || c as u32 == 13) {
            proof {
                assert(ws_run_len(s@, j as int) == 0);
            }
            return j - i;
        }
        proof {
            assert(ws_run_len(s@, j as int) == 1 + ws_run_len(s@, j + 1));
        }
        j = j + 1;
    }
    proof {
        assert(ws_run_len(s@, j as int) == 0);
    }
    j - i
}

/// Characters consumed from `j` up to and including the closing quote `q`,
/// honoring backslash escapes; negative when the string is unterminated.
pub open spec fn str_body_len(s: Seq<char>, j: int, q: char) -> int
    decreases s.len() - j,
{
    if j < 0 || j >= s.len() {
        -1
    } else if s[j] == q {
        1
    } else if s[j] == '\\' {
        if j + 1 < s.len() {
            let r = str_body_len(s, j + 2, q);
            if r < 0 {
                -1
            } else {
                2 + r
            }
        } else {
            -1
        }
    } else {
        let r = str_body_len(s, j + 1, q);
        if r < 0 {
            -1
        } else {
            1 + r
        }
    }
}

/// Length of the quoted string starting at `i`, or 0 when none starts there
/// or it is unterminated.
pub open spec fn string_len(s: Seq<char>, i: int) -> int {
    if 0 <= i < s.len() && (s[i] == '"' || s[i] == '\'') {
        let r = str_body_len(s, i + 1, s[i]);
        if r < 0 {
            0
        } else {
            1 + r
        }
    } else {
        0
    }
}

fn scan_string(s: &str, i: usize) -> (l: usize)
    requires
        i <= s@.len(),
    ensures
        i + l <= s@.len(),
        l as int == string_len(s@, i as int),
{
    let n = s.unicode_len();
    if i >= n {
        return 0;
    }
    let q = s.get_char(i);
    if !(q == '"' || q == '\'') {
        return 0;
    }
    let mut j: usize = i + 1;
    while j < n
        invariant
            i + 1 <= j <= n,
            n == s@.len(),
            s@[i as int] == q,
            q == '"' || q == '\'',
            str_body_len(s@, i + 1, q) < 0 <==> str_body_len(s@, j as int, q) < 0,
            str_body_len(s@, j as int, q) >= 0 ==> str_body_len(s@, i + 1, q) == j - i - 1
                + str_body_len(s@, j as int, q),
        decreases n - j,
    {
        let c = s.get_char(j);
        if c == q {
            proof {
                assert(str_body_len(s@, j as int, q) == 1);
            }
            return j - i + 1;
        }
        if c == '\\' {
            if j + 1 >= n {
                proof {
                    assert(str_body_len(s@, j as int, q) < 0);
                }
                return 0;
            }
            j = j + 2;
        } else {
            j = j + 1;
        }
    }
    proof {
        assert(str_body_len(s@, j as int, q) < 0);
    }
    0
}

/// Length of the floating-point literal at `i`: optional digits, a dot, then
/// at least one digit.
pub open spec fn float_len(s: Seq<char>, i: int) -> int {
    let d1 = digit_run_len(s, i);
    if 0 <= i && i + d1 < s.len() && s[i + d1] == '.' {
        let d2 = digit_run_len(s, i + d1 + 1);
        if d2 > 0 {
            d1 + 1 + d2
        } else {
            0
        }
    } else {
        0
    }
}

/// Length of the complex literal at `i`: at least one digit followed by `j`.
pub open spec fn complex_len(s: Seq<char>, i: int) -> int {
    let d = digit_run_len(s, i);
    if d > 0 && i + d < s.len() && s[i + d] == 'j' {
        d + 1
    } else {
        0
    }
}

/// Length of the bracketed list display at `i`.
pub open spec fn list_len(s: Seq<char>, i: int) -> int {
    if 0 <= i < s.len() && s[i] == '[' {
        let r = list_run_len(s, i + 1);
        if i + 1 + r < s.len() && s[i + 1 + r] == ']' {
            r + 2
        } else {
            0
        }
    } else {
        0
    }
}

/// Length of the parenthesized tuple display at `i`.
pub open spec fn tuple_len(s: Seq<char>, i: int) -> int {
    if 0 <= i < s.len() && s[i] == '(' {
        let r = list_run_len(s, i + 1);
        if i + 1 + r < s.len() && s[i + 1 + r] == ')' {
            r + 2
        } else {
            0
        }
    } else {
        0
    }
}

/// Length of the braced dict display at `i`.
pub open spec fn dict_len(s: Seq<char>, i: int) -> int {
    if 0 <= i < s.len() && s[i] == '{' {
        let r = dict_run_len(s, i + 1);
        if i + 1 + r < s.len() && s[i + 1 + r] == '}' {
            r + 2
        } else {
            0
        }
    } else {
        0
    }
}

/// Length of the call-shaped token at `i`: a name, parentheses, and a run of
/// argument characters.
pub open spec fn function_len(s: Seq<char>, i: int) -> int {
    let nm = name_run_len(s, i);
    if nm > 0 && 0 <= i && i + nm < s.len() && s[i + nm] == '(' {
        let a = args_run_len(s, i + nm + 1);
        if i + nm + 1 + a < s.len() && s[i + nm + 1 + a] == ')' {
            nm + a + 2
        } else {
            0
        }
    } else {
        0
    }
}

/// Length of the comment at `i`: a hash, the rest of the line, and the line
/// break itself when one follows.
pub open spec fn comment_len(s: Seq<char>, i: int) -> int {
    if 0 <= i < s.len() && s[i] == '#' {
        let r = comment_run_len(s, i + 1);
        let p = i + 1 + r;
        if p < s.len() && s[p] == '\n' {
            r + 2
        } else if p + 1 < s.len() && s[p] == '\r' && s[p + 1] == '\n' {
            r + 3
        } else {
            r + 1
        }
    } else {
        0
    }
}

fn length_at(s: &str, i: usize, n: usize) -> (r: (usize, usize, usize, usize, usize, usize, usize,
    usize, usize))
    requires
        i < s@.len(),
        n == s@.len(),
    ensures
        r.0 as int == string_len(s@, i as int),
        r.1 as int == comment_len(s@, i as int),
        r.2 as int == function_len(s@, i as int),
        r.3 as int == float_len(s@, i as int),
        r.4 as int == complex_len(s@, i as int),
        r.5 as int == digit_run_len(s@, i as int),
        r.6 as int == list_len(s@, i as int),
        r.7 as int == tuple_len(s@, i as int),
        r.8 as int == dict_len(s@, i as int),
        i + r.0 <= s@.len(),
        i + r.1 <= s@.len(),
        i + r.2 <= s@.len(),
        i + r.3 <= s@.len(),
        i + r.4 <= s@.len(),
        i + r.5 <= s@.len(),
        i + r.6 <= s@.len(),
        i + r.7 <= s@.len(),
        i + r.8 <= s@.len(),
{
    let strl = scan_string(s, i);
    let c0 = s.get_char(i);
    let cmtl: usize = if c0 == '#' {
        let r = scan_comment(s, i + 1);
        let p = i + 1 + r;
        if p < n && s.get_char(p) == '\n' {
            r + 2
        } else if p < n && s.get_char(p) == '\r' && p + 1 < n && s.get_char(p + 1) == '\n' {
            r + 3
        } else {
            r + 1
        }
    } else {
        0
    };
    let nm = scan_name(s, i);
    let fnl: usize = if nm > 0 && i + nm < n && s.get_char(i + nm) == '(' {
        let a = scan_args(s, i + nm + 1);
        if i + nm + 1 + a < n && s.get_char(i + nm + 1 + a) == ')' {
            nm + a + 2
        } else {
            0
        }
    } else {
        0
    };
    let d1 = scan_digits(s, i);
    let fltl: usize = if i + d1 < n && s.get_char(i + d1) == '.' {
        let d2 = scan_digits(s, i + d1 + 1);
        if d2 > 0 {
            d1 + 1 + d2
        } else {
            0
        }
    } else {
        0
    };
    let cpxl: usize = if d1 > 0 && i + d1 < n && s.get_char(i + d1) == 'j' {
        d1 + 1
    } else {
        0
    };
    let lstl: usize = if c0 == '[' {
        let r = scan_list(s, i + 1);
        if i + 1 + r < n && s.get_char(i + 1 + r) == ']' {
            r + 2
        } else {
            0
        }
    } else {
        0
    };
    let tupl: usize = if c0 == '(' {
        let r = scan_list(s, i + 1);
        if i + 1 + r < n && s.get_char(i + 1 + r) == ')' {
            r + 2
        } else {
            0
        }
    } else {
        0
    };
    let dctl: usize = if c0 == '{' {
        let r = scan_dict(s, i + 1);
        if i + 1 + r < n && s.get_char(i + 1 + r) == '}' {
            r + 2
        } else {
            0
        }
    } else {
        0
    };
    (strl, cmtl, fnl, fltl, cpxl, d1, lstl, tupl, dctl)
}

/// The longest literal of the token table matching at position `i`, with its
/// length; literals are tried in order of decreasing length, so the first
/// hit is the longest.
pub open spec fn spec_lit_match(s: Seq<char>, i: int) -> Option<(Token, int)> {
    match lit_match_e(s, i) {
        Some(p) => Some(p),
        None => match lit_match_f(s, i) {
            Some(p) => Some(p),
            None => lit_match_g(s, i),
        },
    }
}

fn do_lit_match(s: &str, i: usize) -> (r: Option<(Token, usize)>)
    requires
        i <= s@.len(),
    ensures
        lit_res_matches(r, spec_lit_match(s@, i as int)),
        match r {
            Some(p) => i + p.1 <= s@.len(),
            None => true,
        },
{
    if let Some(p) = do_lit_match_e(s, i) {
        return Some(p);
    }
    if let Some(p) = do_lit_match_f(s, i) {
        return Some(p);
    }
    do_lit_match_g(s, i)
}
/// One lexing step at position `i`: the token produced (`None` for
/// skipped whitespace) and the number of characters consumed. The longest
/// match over all rules wins; a literal wins a tie against the regex
/// classes; unmatched input consumes one character as `Token::Error`.
pub open spec fn spec_step(s: Seq<char>, i: int) -> (Option<Token>, int) {
    let lit = spec_lit_match(s, i);
    let litl: int = match lit {
        Some(p) => p.1,
        None => 0,
    };
    let strl = string_len(s, i);
    let cmtl = comment_len(s, i);
    let fnl = function_len(s, i);
    let fltl = float_len(s, i);
    let cpxl = complex_len(s, i);
    let intl = digit_run_len(s, i);
    let lstl = list_len(s, i);
    let tupl = tuple_len(s, i);
    let dctl = dict_len(s, i);
    let wsl = ws_run_len(s, i);
    if litl > 0 && litl >= strl && litl >= cmtl && litl >= fnl && litl >= fltl && litl >= cpxl && litl >= intl && litl >= lstl && litl >= tupl && litl >= dctl && litl >= wsl {
        (
            match lit {
                Some(p) => Some(p.0),
                None => None,
            },
            litl,
        )
    } else if strl > 0 && strl >= litl && strl >= cmtl && strl >= fnl && strl >= fltl && strl >= cpxl && strl >= intl && strl >= lstl && strl >= tupl && strl >= dctl && strl >= wsl {
        (Some(Token::StringLit), strl)
    } else if cmtl > 0 && cmtl >= litl && cmtl >= strl && cmtl >= fnl && cmtl >= fltl && cmtl >= cpxl && cmtl >= intl && cmtl >= lstl && cmtl >= tupl && cmtl >= dctl && cmtl >= wsl {
        (Some(Token::Comment), cmtl)
    } else if fnl > 0 && fnl >= litl && fnl >= strl && fnl >= cmtl && fnl >= fltl && fnl >= cpxl && fnl >= intl && fnl >= lstl && fnl >= tupl && fnl >= dctl && fnl >= wsl {
        (Some(Token::Function), fnl)
    } else if fltl > 0 && fltl >= litl && fltl >= strl && fltl >= cmtl && fltl >= fnl && fltl >= cpxl && fltl >= intl && fltl >= lstl && fltl >= tupl && fltl >= dctl && fltl >= wsl {
        (Some(Token::Float), fltl)
    } else if cpxl > 0 && cpxl >= litl && cpxl >= strl && cpxl >= cmtl && cpxl >= fnl && cpxl >= fltl && cpxl >= intl && cpxl >= lstl && cpxl >= tupl && cpxl >= dctl && cpxl >= wsl {
        (Some(Token::Complex), cpxl)
    } else if intl > 0 && intl >= litl && intl >= strl && intl >= cmtl && intl >= fnl && intl >= fltl && intl >= cpxl && intl >= lstl && intl >= tupl && intl >= dctl && intl >= wsl {
        (Some(Token::Int), intl)
    } else if lstl > 0 && lstl >= litl && lstl >= strl && lstl >= cmtl && lstl >= fnl && lstl >= fltl && lstl >= cpxl && lstl >= intl && lstl >= tupl && lstl >= dctl && lstl >= wsl {
        (Some(Token::List), lstl)
    } else if tupl > 0 && tupl >= litl && tupl >= strl && tupl >= cmtl && tupl >= fnl && tupl >= fltl && tupl >= cpxl && tupl >= intl && tupl >= lstl && tupl >= dctl && tupl >= wsl {
        (Some(Token::Tuple), tupl)
    } else if dctl > 0 && dctl >= litl && dctl >= strl && dctl >= cmtl && dctl >= fnl && dctl >= fltl && dctl >= cpxl && dctl >= intl && dctl >= lstl && dctl >= tupl && dctl >= wsl {
        (Some(Token::Dict), dctl)
    } else if wsl > 0 {
        (None, wsl)
    } else {
        (Some(Token::Error), 1)
    }
}

fn step(s: &str, i: usize) -> (r: (Option<Token>, usize))
    requires
        i < s@.len(),
    ensures
        r.0 == spec_step(s@, i as int).0,
        r.1 as int == spec_step(s@, i as int).1,
        1 <= r.1,
        i + r.1 <= s@.len(),
{
    let n = s.unicode_len();
    let lit = do_lit_match(s, i);
    let litl: usize = match &lit {
        Some(p) => p.1,
        None => 0,
    };
    let (strl, cmtl, fnl, fltl, cpxl, intl, lstl, tupl, dctl) = length_at(s, i, n);
    let wsl = scan_ws(s, i);
    if litl > 0 && litl >= strl && litl >= cmtl && litl >= fnl && litl >= fltl && litl >= cpxl && litl >= intl && litl >= lstl && litl >= tupl && litl >= dctl && litl >= wsl {
        match lit {
            Some(p) => (Some(p.0), p.1),
            None => (None, 0),
        }
    } else if strl > 0 && strl >= litl && strl >= cmtl && strl >= fnl && strl >= fltl && strl >= cpxl && strl >= intl && strl >= lstl && strl >= tupl && strl >= dctl && strl >= wsl {
        (Some(Token::StringLit), strl)
    } else if cmtl > 0 && cmtl >= litl && cmtl >= strl && cmtl >= fnl && cmtl >= fltl && cmtl >= cpxl && cmtl >= intl && cmtl >= lstl && cmtl >= tupl && cmtl >= dctl && cmtl >= wsl {
        (Some(Token::Comment), cmtl)
    } else if fnl > 0 && fnl >= litl && fnl >= strl && fnl >= cmtl && fnl >= fltl && fnl >= cpxl && fnl >= intl && fnl >= lstl && fnl >= tupl && fnl >= dctl && fnl >= wsl {
        (Some(Token::Function), fnl)
    } else if fltl > 0 && fltl >= litl && fltl >= strl && fltl >= cmtl && fltl >= fnl && fltl >= cpxl && fltl >= intl && fltl >= lstl && fltl >= tupl && fltl >= dctl && fltl >= wsl {
        (Some(Token::Float), fltl)
    } else if cpxl > 0 && cpxl >= litl && cpxl >= strl && cpxl >= cmtl && cpxl >= fnl && cpxl >= fltl && cpxl >= intl && cpxl >= lstl && cpxl >= tupl && cpxl >= dctl && cpxl >= wsl {
        (Some(Token::Complex), cpxl)
    } else if intl > 0 && intl >= litl && intl >= strl && intl >= cmtl && intl >= fnl && intl >= fltl && intl >= cpxl && intl >= lstl && intl >= tupl && intl >= dctl && intl >= wsl {
        (Some(Token::Int), intl)
    } else if lstl > 0 && lstl >= litl && lstl >= strl && lstl >= cmtl && lstl >= fnl && lstl >= fltl && lstl >= cpxl && lstl >= intl && lstl >= tupl && lstl >= dctl && lstl >= wsl {
        (Some(Token::List), lstl)
    } else if tupl > 0 && tupl >= litl && tupl >= strl && tupl >= cmtl && tupl >= fnl && tupl >= fltl && tupl >= cpxl && tupl >= intl && tupl >= lstl && tupl >= dctl && tupl >= wsl {
        (Some(Token::Tuple), tupl)
    } else if dctl > 0 && dctl >= litl && dctl >= strl && dctl >= cmtl && dctl >= fnl && dctl >= fltl && dctl >= cpxl && dctl >= intl && dctl >= lstl && dctl >= tupl && dctl >= wsl {
        (Some(Token::Dict), dctl)
    } else if wsl > 0 {
        (None, wsl)
    } else {
        (Some(Token::Error), 1)
    }
}

/// The characters left to lex from position `i`: the termination measure of
/// `spec_lex`.
pub open spec fn remaining(s: Seq<char>, i: int) -> int {
    if s.len() - i >= 0 {
        s.len() - i
    } else {
        0
    }
}

/// The token sequence of the Python grammar for the suffix of `s` starting
/// at position `i`.
pub open spec fn spec_lex(s: Seq<char>, i: int) -> Seq<Token>
    decreases remaining(s, i),
{
    if i < 0 || i >= s.len() {
        Seq::empty()
    } else {
        let (t, n) = spec_step(s, i);
        let adv: int = if n < 1 {
            1
        } else {
            n
        };
        let rest = spec_lex(s, i + adv);
        match t {
            Some(tok) => seq![tok] + rest,
            None => rest,
        }
    }
}

/// Converts a text fragment into its token sequence. Lexing is total: it
/// never fails, whatever the input holds.
pub fn tokenize(s: &str) -> (tokens: Vec<Token>)
    ensures
        tokens@ == spec_lex(s@, 0),
{
    let n = s.unicode_len();
    let mut tokens: Vec<Token> = Vec::new();
    let mut i: usize = 0;
    while i < n
        invariant
            i <= n,
            n == s@.len(),
            spec_lex(s@, 0) == tokens@ + spec_lex(s@, i as int),
        decreases n - i,
    {
        let (t, adv) = step(s, i);
        proof {
            let (t0, n0) = spec_step(s@, i as int);
            assert(n0 == adv as int);
            assert(spec_lex(s@, i as int) == match t0 {
                Some(tok) => seq![tok] + spec_lex(s@, i + adv),
                None => spec_lex(s@, i + adv),
            });
        }
        let ghost prev = tokens@;
        match t {
            Some(tok) => {
                tokens.push(tok);
                proof {
                    assert(tokens@ + spec_lex(s@, i + adv) =~= prev + spec_lex(s@, i as int));
                }
            },
            None => {},
        }
        i = i + adv;
    }
    proof {
        assert(spec_lex(s@, i as int) =~= Seq::empty());
        assert(tokens@ + Seq::<Token>::empty() =~= tokens@);
    }
    tokens
}

} // verus!
