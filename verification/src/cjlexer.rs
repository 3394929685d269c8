//! The combined C/C++/Java lexical grammar: a closed token set with
//! longest-match literal rules, identifier/number classes, whitespace
//! skipping, retained line breaks, and a catch-all unrecognized token.
//! Lexing never fails: unmatched input reduces to `Token::Error`.

use vstd::prelude::*;
use vstd::string::StrSliceExecFns;
use vstd::string::StringExecFns;

use crate::strutil::is_lit;
use crate::strutil::match_at;

verus! {

/// One lexical token of the combined C/C++/Java grammar. The payload type is
/// `String` in executable code and `Seq<char>` in the mathematical model;
/// identifier, number and preprocessor tokens carry their captured text.
pub enum Token<S> {
    Preprocessor(S),
    // statement: iteration
    For,
    While,
    DoWhile,
    // statement: selection/condition
    Switch,
    Case,
    DefaultCase,
    If,
    ElseIf,
    Else,
    // statement: jump
    Break,
    Continue,
    Goto,
    Return,
    // declaration: arithmetic type
    Unsigned,
    Signed,
    Char,
    Int,
    Short,
    ShortInt,
    Long,
    LongInt,
    LongLong,
    LongLongInt,
    Float,
    Double,
    LongDouble,
    Bool,
    StringType,
    // declaration: elaborated type specifier
    Enum,
    Struct,
    Union,
    Class,
    Template,
    Void,
    // declaration: storage class
    Auto,
    Extern,
    Register,
    Static,
    ThreadLocal,
    Typedef,
    Decltype,
    // declaration: type qualifier / access specifier
    Atomic,
    Const,
    Restrict,
    Volatile,
    Mutable,
    Public,
    Protected,
    Private,
    // expression: arithmetic
    Plus,
    Minus,
    Asterisk,
    Multiplication,
    Pointer,
    Divide,
    Modulo,
    // expression: assignment
    AddAssignment,
    SubAssignment,
    MultAssignment,
    DivAssignment,
    ModAssignment,
    Assignment,
    // expression: bitwise
    Ampersand,
    BitwiseAnd,
    Reference,
    BitwiseOr,
    BitwiseXor,
    BitwiseNot,
    LeftOperator,
    LeftShift,
    LeftShiftAssignment,
    RightOperator,
    RightShift,
    RightShiftAssignment,
    BitwiseAndAssignment,
    BitwiseOrAssignment,
    BitwiseXorAssignment,
    // expression: logical
    And,
    Or,
    Not,
    SizeOf,
    TypeCast,
    ConditionalOperator,
    // expression: comparison
    Greater,
    GreaterOrEquals,
    Less,
    LessOrEquals,
    Equals,
    NotEquals,
    ThreeWayComparison,
    // expression: member access
    DotOperator,
    ArrowOperator,
    // expression: increment/decrement
    Increment,
    PrefixIncrement,
    PostfixIncrement,
    Decrement,
    PrefixDecrement,
    PostfixDecrement,
    // expression: memory allocation
    New,
    Delete,
    ScopeResolution,
    // expression: predefined constant
    True,
    False,
    Null,
    Using,
    Namespace,
    // Java-only constructs
    Import,
    Annotation,
    Interface,
    Abstract,
    Final,
    Native,
    Synchronized,
    Transient,
    StrictFp,
    Assert,
    Try,
    Catch,
    Throws,
    Throw,
    UnsignedRightShiftOperator,
    Super,
    This,
    Extends,
    Implements,
    Package,
    Finally,
    Var,
    // identifiers and declarator placeholders
    Identifier(S),
    Function,
    Array,
    Number(S),
    Semicolon,
    Error,
    LineBreak,
    OpenBrace,
    CloseBrace,
    OpenParen,
    CloseParen,
    OpenBracket,
    CloseBracket,
}

impl View for Token<String> {
    type V = Token<Seq<char>>;

    open spec fn view(&self) -> Token<Seq<char>> {
        match self {
            Token::Preprocessor(s) => Token::Preprocessor(s@),
            Token::For => Token::For,
            Token::While => Token::While,
            Token::DoWhile => Token::DoWhile,
            Token::Switch => Token::Switch,
            Token::Case => Token::Case,
            Token::DefaultCase => Token::DefaultCase,
            Token::If => Token::If,
            Token::ElseIf => Token::ElseIf,
            Token::Else => Token::Else,
            Token::Break => Token::Break,
            Token::Continue => Token::Continue,
            Token::Goto => Token::Goto,
            Token::Return => Token::Return,
            Token::Unsigned => Token::Unsigned,
            Token::Signed => Token::Signed,
            Token::Char => Token::Char,
            Token::Int => Token::Int,
            Token::Short => Token::Short,
            Token::ShortInt => Token::ShortInt,
            Token::Long => Token::Long,
            Token::LongInt => Token::LongInt,
            Token::LongLong => Token::LongLong,
            Token::LongLongInt => Token::LongLongInt,
            Token::Float => Token::Float,
            Token::Double => Token::Double,
            Token::LongDouble => Token::LongDouble,
            Token::Bool => Token::Bool,
            Token::StringType => Token::StringType,
            Token::Enum => Token::Enum,
            Token::Struct => Token::Struct,
            Token::Union => Token::Union,
            Token::Class => Token::Class,
            Token::Template => Token::Template,
            Token::Void => Token::Void,
            Token::Auto => Token::Auto,
            Token::Extern => Token::Extern,
            Token::Register => Token::Register,
            Token::Static => Token::Static,
            Token::ThreadLocal => Token::ThreadLocal,
            Token::Typedef => Token::Typedef,
            Token::Decltype => Token::Decltype,
            Token::Atomic => Token::Atomic,
            Token::Const => Token::Const,
            Token::Restrict => Token::Restrict,
            Token::Volatile => Token::Volatile,
            Token::Mutable => Token::Mutable,
            Token::Public => Token::Public,
            Token::Protected => Token::Protected,
            Token::Private => Token::Private,
            Token::Plus => Token::Plus,
            Token::Minus => Token::Minus,
            Token::Asterisk => Token::Asterisk,
            Token::Multiplication => Token::Multiplication,
            Token::Pointer => Token::Pointer,
            Token::Divide => Token::Divide,
            Token::Modulo => Token::Modulo,
            Token::AddAssignment => Token::AddAssignment,
            Token::SubAssignment => Token::SubAssignment,
            Token::MultAssignment => Token::MultAssignment,
            Token::DivAssignment => Token::DivAssignment,
            Token::ModAssignment => Token::ModAssignment,
            Token::Assignment => Token::Assignment,
            Token::Ampersand => Token::Ampersand,
            Token::BitwiseAnd => Token::BitwiseAnd,
            Token::Reference => Token::Reference,
            Token::BitwiseOr => Token::BitwiseOr,
            Token::BitwiseXor => Token::BitwiseXor,
            Token::BitwiseNot => Token::BitwiseNot,
            Token::LeftOperator => Token::LeftOperator,
            Token::LeftShift => Token::LeftShift,
            Token::LeftShiftAssignment => Token::LeftShiftAssignment,
            Token::RightOperator => Token::RightOperator,
            Token::RightShift => Token::RightShift,
            Token::RightShiftAssignment => Token::RightShiftAssignment,
            Token::BitwiseAndAssignment => Token::BitwiseAndAssignment,
            Token::BitwiseOrAssignment => Token::BitwiseOrAssignment,
            Token::BitwiseXorAssignment => Token::BitwiseXorAssignment,
            Token::And => Token::And,
            Token::Or => Token::Or,
            Token::Not => Token::Not,
            Token::SizeOf => Token::SizeOf,
            Token::TypeCast => Token::TypeCast,
            Token::ConditionalOperator => Token::ConditionalOperator,
            Token::Greater => Token::Greater,
            Token::GreaterOrEquals => Token::GreaterOrEquals,
            Token::Less => Token::Less,
            Token::LessOrEquals => Token::LessOrEquals,
            Token::Equals => Token::Equals,
            Token::NotEquals => Token::NotEquals,
            Token::ThreeWayComparison => Token::ThreeWayComparison,
            Token::DotOperator => Token::DotOperator,
            Token::ArrowOperator => Token::ArrowOperator,
            Token::Increment => Token::Increment,
            Token::PrefixIncrement => Token::PrefixIncrement,
            Token::PostfixIncrement => Token::PostfixIncrement,
            Token::Decrement => Token::Decrement,
            Token::PrefixDecrement => Token::PrefixDecrement,
            Token::PostfixDecrement => Token::PostfixDecrement,
            Token::New => Token::New,
            Token::Delete => Token::Delete,
            Token::ScopeResolution => Token::ScopeResolution,
            Token::True => Token::True,
            Token::False => Token::False,
            Token::Null => Token::Null,
            Token::Using => Token::Using,
            Token::Namespace => Token::Namespace,
            Token::Import => Token::Import,
            Token::Annotation => Token::Annotation,
            Token::Interface => Token::Interface,
            Token::Abstract => Token::Abstract,
            Token::Final => Token::Final,
            Token::Native => Token::Native,
            Token::Synchronized => Token::Synchronized,
            Token::Transient => Token::Transient,
            Token::StrictFp => Token::StrictFp,
            Token::Assert => Token::Assert,
            Token::Try => Token::Try,
            Token::Catch => Token::Catch,
            Token::Throws => Token::Throws,
            Token::Throw => Token::Throw,
            Token::UnsignedRightShiftOperator => Token::UnsignedRightShiftOperator,
            Token::Super => Token::Super,
            Token::This => Token::This,
            Token::Extends => Token::Extends,
            Token::Implements => Token::Implements,
            Token::Package => Token::Package,
            Token::Finally => Token::Finally,
            Token::Var => Token::Var,
            Token::Identifier(s) => Token::Identifier(s@),
            Token::Function => Token::Function,
            Token::Array => Token::Array,
            Token::Number(s) => Token::Number(s@),
            Token::Semicolon => Token::Semicolon,
            Token::Error => Token::Error,
            Token::LineBreak => Token::LineBreak,
            Token::OpenBrace => Token::OpenBrace,
            Token::CloseBrace => Token::CloseBrace,
            Token::OpenParen => Token::OpenParen,
            Token::CloseParen => Token::CloseParen,
            Token::OpenBracket => Token::OpenBracket,
            Token::CloseBracket => Token::CloseBracket,
        }
    }
}

/// The literal form of a token: the variant name, with the captured text in
/// quotes for payload-carrying variants. It is the identity key of the
/// knowledge components built from this grammar.
pub open spec fn spec_token_name(t: Token<Seq<char>>) -> Seq<char> {
    match t {
        Token::Preprocessor(s) => "Preprocessor(\""@ + s + "\")"@,
        Token::For => "For"@,
        Token::While => "While"@,
        Token::DoWhile => "DoWhile"@,
        Token::Switch => "Switch"@,
        Token::Case => "Case"@,
        Token::DefaultCase => "Default"@,
        Token::If => "If"@,
        Token::ElseIf => "ElseIf"@,
        Token::Else => "Else"@,
        Token::Break => "Break"@,
        Token::Continue => "Continue"@,
        Token::Goto => "Goto"@,
        Token::Return => "Return"@,
        Token::Unsigned => "Unsigned"@,
        Token::Signed => "Signed"@,
        Token::Char => "Char"@,
        Token::Int => "Int"@,
        Token::Short => "Short"@,
        Token::ShortInt => "ShortInt"@,
        Token::Long => "Long"@,
        Token::LongInt => "LongInt"@,
        Token::LongLong => "LongLong"@,
        Token::LongLongInt => "LongLongInt"@,
        Token::Float => "Float"@,
        Token::Double => "Double"@,
        Token::LongDouble => "LongDouble"@,
        Token::Bool => "Bool"@,
        Token::StringType => "String"@,
        Token::Enum => "Enum"@,
        Token::Struct => "Struct"@,
        Token::Union => "Union"@,
        Token::Class => "Class"@,
        Token::Template => "Template"@,
        Token::Void => "Void"@,
        Token::Auto => "Auto"@,
        Token::Extern => "Extern"@,
        Token::Register => "Register"@,
        Token::Static => "Static"@,
        Token::ThreadLocal => "ThreadLocal"@,
        Token::Typedef => "Typedef"@,
        Token::Decltype => "Decltype"@,
        Token::Atomic => "Atomic"@,
        Token::Const => "Const"@,
        Token::Restrict => "Restrict"@,
        Token::Volatile => "Volatile"@,
        Token::Mutable => "Mutable"@,
        Token::Public => "Public"@,
        Token::Protected => "Protected"@,
        Token::Private => "Private"@,
        Token::Plus => "Plus"@,
        Token::Minus => "Minus"@,
        Token::Asterisk => "Asterisk"@,
        Token::Multiplication => "Multiplication"@,
        Token::Pointer => "Pointer"@,
        Token::Divide => "Divide"@,
        Token::Modulo => "Modulo"@,
        Token::AddAssignment => "AddAssignment"@,
        Token::SubAssignment => "SubAssignment"@,
        Token::MultAssignment => "MultAssignment"@,
        Token::DivAssignment => "DivAssignment"@,
        Token::ModAssignment => "ModAssignment"@,
        Token::Assignment => "Assignment"@,
        Token::Ampersand => "Ampersand"@,
        Token::BitwiseAnd => "BitwiseAnd"@,
        Token::Reference => "Reference"@,
        Token::BitwiseOr => "BitwiseOr"@,
        Token::BitwiseXor => "BitwiseXor"@,
        Token::BitwiseNot => "BitwiseNot"@,
        Token::LeftOperator => "LeftOperator"@,
        Token::LeftShift => "LeftShift"@,
        Token::LeftShiftAssignment => "LeftShiftAssignment"@,
        Token::RightOperator => "RightOperator"@,
        Token::RightShift => "RightShift"@,
        Token::RightShiftAssignment => "RightShiftAssignment"@,
        Token::BitwiseAndAssignment => "BitwiseAndAssignment"@,
        Token::BitwiseOrAssignment => "BitwiseOrAssignment"@,
        Token::BitwiseXorAssignment => "BitwiseXorAssignment"@,
        Token::And => "And"@,
        Token::Or => "Or"@,
        Token::Not => "Not"@,
        Token::SizeOf => "SizeOf"@,
        Token::TypeCast => "TypeCast"@,
        Token::ConditionalOperator => "ConditionalOperator"@,
        Token::Greater => "Greater"@,
        Token::GreaterOrEquals => "GreaterOrEquals"@,
        Token::Less => "Less"@,
        Token::LessOrEquals => "LessOrEquals"@,
        Token::Equals => "Equals"@,
        Token::NotEquals => "NotEquals"@,
        Token::ThreeWayComparison => "ThreeWayComparison"@,
        Token::DotOperator => "DotOperator"@,
        Token::ArrowOperator => "ArrowOperator"@,
        Token::Increment => "Increment"@,
        Token::PrefixIncrement => "PrefixIncrement"@,
        Token::PostfixIncrement => "PostfixIncrement"@,
        Token::Decrement => "Decrement"@,
        Token::PrefixDecrement => "PrefixDecrement"@,
        Token::PostfixDecrement => "PostfixDecrement"@,
        Token::New => "New"@,
        Token::Delete => "Delete"@,
        Token::ScopeResolution => "ScopeResolution"@,
        Token::True => "True"@,
        Token::False => "False"@,
        Token::Null => "Null"@,
        Token::Using => "Using"@,
        Token::Namespace => "Namespace"@,
        Token::Import => "Import"@,
        Token::Annotation => "Annotation"@,
        Token::Interface => "Interface"@,
        Token::Abstract => "Abstract"@,
        Token::Final => "Final"@,
        Token::Native => "Native"@,
        Token::Synchronized => "Synchronized"@,
        Token::Transient => "Transient"@,
        Token::StrictFp => "StrictFp"@,
        Token::Assert => "Assert"@,
        Token::Try => "Try"@,
        Token::Catch => "Catch"@,
        Token::Throws => "Throws"@,
        Token::Throw => "Throw"@,
        Token::UnsignedRightShiftOperator => "UnsignedRightShiftOperator"@,
        Token::Super => "Super"@,
        Token::This => "This"@,
        Token::Extends => "Extends"@,
        Token::Implements => "Implements"@,
        Token::Package => "Package"@,
        Token::Finally => "Finally"@,
        Token::Var => "Var"@,
        Token::Identifier(s) => "Identifier(\""@ + s + "\")"@,
        Token::Function => "Function"@,
        Token::Array => "Array"@,
        Token::Number(s) => "Number(\""@ + s + "\")"@,
        Token::Semicolon => "Semicolon"@,
        Token::Error => "Error"@,
        Token::LineBreak => "LineBreak"@,
        Token::OpenBrace => "OpenBrace"@,
        Token::CloseBrace => "CloseBrace"@,
        Token::OpenParen => "OpenParen"@,
        Token::CloseParen => "CloseParen"@,
        Token::OpenBracket => "OpenBracket"@,
        Token::CloseBracket => "CloseBracket"@,
    }
}

impl Token<String> {
    /// The literal form of the token, used as the identity key of knowledge
    /// components.
    pub fn name(&self) -> (r: String)
        ensures
            r@ == spec_token_name(self@),
    {
        match self {
            Token::Preprocessor(s) => {
                let mut r = "Preprocessor(\"".to_owned();
                r.append(s.as_str());
                r.append("\")");
                r
            },
            Token::For => "For".to_owned(),
            Token::While => "While".to_owned(),
            Token::DoWhile => "DoWhile".to_owned(),
            Token::Switch => "Switch".to_owned(),
            Token::Case => "Case".to_owned(),
            Token::DefaultCase => "Default".to_owned(),
            Token::If => "If".to_owned(),
            Token::ElseIf => "ElseIf".to_owned(),
            Token::Else => "Else".to_owned(),
            Token::Break => "Break".to_owned(),
            Token::Continue => "Continue".to_owned(),
            Token::Goto => "Goto".to_owned(),
            Token::Return => "Return".to_owned(),
            Token::Unsigned => "Unsigned".to_owned(),
            Token::Signed => "Signed".to_owned(),
            Token::Char => "Char".to_owned(),
            Token::Int => "Int".to_owned(),
            Token::Short => "Short".to_owned(),
            Token::ShortInt => "ShortInt".to_owned(),
            Token::Long => "Long".to_owned(),
            Token::LongInt => "LongInt".to_owned(),
            Token::LongLong => "LongLong".to_owned(),
            Token::LongLongInt => "LongLongInt".to_owned(),
            Token::Float => "Float".to_owned(),
            Token::Double => "Double".to_owned(),
            Token::LongDouble => "LongDouble".to_owned(),
            Token::Bool => "Bool".to_owned(),
            Token::StringType => "String".to_owned(),
            Token::Enum => "Enum".to_owned(),
            Token::Struct => "Struct".to_owned(),
            Token::Union => "Union".to_owned(),
            Token::Class => "Class".to_owned(),
            Token::Template => "Template".to_owned(),
            Token::Void => "Void".to_owned(),
            Token::Auto => "Auto".to_owned(),
            Token::Extern => "Extern".to_owned(),
            Token::Register => "Register".to_owned(),
            Token::Static => "Static".to_owned(),
            Token::ThreadLocal => "ThreadLocal".to_owned(),
            Token::Typedef => "Typedef".to_owned(),
            Token::Decltype => "Decltype".to_owned(),
            Token::Atomic => "Atomic".to_owned(),
            Token::Const => "Const".to_owned(),
            Token::Restrict => "Restrict".to_owned(),
            Token::Volatile => "Volatile".to_owned(),
            Token::Mutable => "Mutable".to_owned(),
            Token::Public => "Public".to_owned(),
            Token::Protected => "Protected".to_owned(),
            Token::Private => "Private".to_owned(),
            Token::Plus => "Plus".to_owned(),
            Token::Minus => "Minus".to_owned(),
            Token::Asterisk => "Asterisk".to_owned(),
            Token::Multiplication => "Multiplication".to_owned(),
            Token::Pointer => "Pointer".to_owned(),
            Token::Divide => "Divide".to_owned(),
            Token::Modulo => "Modulo".to_owned(),
            Token::AddAssignment => "AddAssignment".to_owned(),
            Token::SubAssignment => "SubAssignment".to_owned(),
            Token::MultAssignment => "MultAssignment".to_owned(),
            Token::DivAssignment => "DivAssignment".to_owned(),
            Token::ModAssignment => "ModAssignment".to_owned(),
            Token::Assignment => "Assignment".to_owned(),
            Token::Ampersand => "Ampersand".to_owned(),
            Token::BitwiseAnd => "BitwiseAnd".to_owned(),
            Token::Reference => "Reference".to_owned(),
            Token::BitwiseOr => "BitwiseOr".to_owned(),
            Token::BitwiseXor => "BitwiseXor".to_owned(),
            Token::BitwiseNot => "BitwiseNot".to_owned(),
            Token::LeftOperator => "LeftOperator".to_owned(),
            Token::LeftShift => "LeftShift".to_owned(),
            Token::LeftShiftAssignment => "LeftShiftAssignment".to_owned(),
            Token::RightOperator => "RightOperator".to_owned(),
            Token::RightShift => "RightShift".to_owned(),
            Token::RightShiftAssignment => "RightShiftAssignment".to_owned(),
            Token::BitwiseAndAssignment => "BitwiseAndAssignment".to_owned(),
            Token::BitwiseOrAssignment => "BitwiseOrAssignment".to_owned(),
            Token::BitwiseXorAssignment => "BitwiseXorAssignment".to_owned(),
            Token::And => "And".to_owned(),
            Token::Or => "Or".to_owned(),
            Token::Not => "Not".to_owned(),
            Token::SizeOf => "SizeOf".to_owned(),
            Token::TypeCast => "TypeCast".to_owned(),
            Token::ConditionalOperator => "ConditionalOperator".to_owned(),
            Token::Greater => "Greater".to_owned(),
            Token::GreaterOrEquals => "GreaterOrEquals".to_owned(),
            Token::Less => "Less".to_owned(),
            Token::LessOrEquals => "LessOrEquals".to_owned(),
            Token::Equals => "Equals".to_owned(),
            Token::NotEquals => "NotEquals".to_owned(),
            Token::ThreeWayComparison => "ThreeWayComparison".to_owned(),
            Token::DotOperator => "DotOperator".to_owned(),
            Token::ArrowOperator => "ArrowOperator".to_owned(),
            Token::Increment => "Increment".to_owned(),
            Token::PrefixIncrement => "PrefixIncrement".to_owned(),
            Token::PostfixIncrement => "PostfixIncrement".to_owned(),
            Token::Decrement => "Decrement".to_owned(),
            Token::PrefixDecrement => "PrefixDecrement".to_owned(),
            Token::PostfixDecrement => "PostfixDecrement".to_owned(),
            Token::New => "New".to_owned(),
            Token::Delete => "Delete".to_owned(),
            Token::ScopeResolution => "ScopeResolution".to_owned(),
            Token::True => "True".to_owned(),
            Token::False => "False".to_owned(),
            Token::Null => "Null".to_owned(),
            Token::Using => "Using".to_owned(),
            Token::Namespace => "Namespace".to_owned(),
            Token::Import => "Import".to_owned(),
            Token::Annotation => "Annotation".to_owned(),
            Token::Interface => "Interface".to_owned(),
            Token::Abstract => "Abstract".to_owned(),
            Token::Final => "Final".to_owned(),
            Token::Native => "Native".to_owned(),
            Token::Synchronized => "Synchronized".to_owned(),
            Token::Transient => "Transient".to_owned(),
            Token::StrictFp => "StrictFp".to_owned(),
            Token::Assert => "Assert".to_owned(),
            Token::Try => "Try".to_owned(),
            Token::Catch => "Catch".to_owned(),
            Token::Throws => "Throws".to_owned(),
            Token::Throw => "Throw".to_owned(),
            Token::UnsignedRightShiftOperator => "UnsignedRightShiftOperator".to_owned(),
            Token::Super => "Super".to_owned(),
            Token::This => "This".to_owned(),
            Token::Extends => "Extends".to_owned(),
            Token::Implements => "Implements".to_owned(),
            Token::Package => "Package".to_owned(),
            Token::Finally => "Finally".to_owned(),
            Token::Var => "Var".to_owned(),
            Token::Identifier(s) => {
                let mut r = "Identifier(\"".to_owned();
                r.append(s.as_str());
                r.append("\")");
                r
            },
            Token::Function => "Function".to_owned(),
            Token::Array => "Array".to_owned(),
            Token::Number(s) => {
                let mut r = "Number(\"".to_owned();
                r.append(s.as_str());
                r.append("\")");
                r
            },
            Token::Semicolon => "Semicolon".to_owned(),
            Token::Error => "Error".to_owned(),
            Token::LineBreak => "LineBreak".to_owned(),
            Token::OpenBrace => "OpenBrace".to_owned(),
            Token::CloseBrace => "CloseBrace".to_owned(),
            Token::OpenParen => "OpenParen".to_owned(),
            Token::CloseParen => "CloseParen".to_owned(),
            Token::OpenBracket => "OpenBracket".to_owned(),
            Token::CloseBracket => "CloseBracket".to_owned(),
        }
    }
}

/// A decimal digit.
pub open spec fn is_digit_char(c: char) -> bool {
    48 <= c as u32 <= 57
}

/// A character that may start an identifier: a letter or an underscore.
pub open spec fn is_ident_start_char(c: char) -> bool {
    (65 <= c as u32 <= 90) || (97 <= c as u32 <= 122) || c as u32 == 95
}

/// A character that may continue an identifier.
pub open spec fn is_ident_char(c: char) -> bool {
    is_ident_start_char(c) || is_digit_char(c)
}

/// A character of the number class: a digit or a dot.
pub open spec fn is_number_char(c: char) -> bool {
    is_digit_char(c) || c as u32 == 46
}

/// Insignificant whitespace: space or tab.
pub open spec fn is_space_char(c: char) -> bool {
    c as u32 == 32 || c as u32 == 9
}

/// A line-break character.
pub open spec fn is_break_char(c: char) -> bool {
    c as u32 == 10 || c as u32 == 13
}

/// Length of the run of identifier-continuation characters at `i`.
pub open spec fn ident_tail_len(s: Seq<char>, i: int) -> int
    decreases s.len() - i,
{
    if 0 <= i < s.len() && is_ident_char(s[i]) {
        1 + ident_tail_len(s, i + 1)
    } else {
        0
    }
}

/// Length of the identifier starting at `i`, or 0 when none starts there.
pub open spec fn ident_len(s: Seq<char>, i: int) -> int {
    if 0 <= i < s.len() && is_ident_start_char(s[i]) {
        1 + ident_tail_len(s, i + 1)
    } else {
        0
    }
}

/// Length of the run of number-class characters at `i`.
pub open spec fn number_run_len(s: Seq<char>, i: int) -> int
    decreases s.len() - i,
{
    if 0 <= i < s.len() && is_number_char(s[i]) {
        1 + number_run_len(s, i + 1)
    } else {
        0
    }
}

/// Length of the run of space characters at `i`.
pub open spec fn space_run_len(s: Seq<char>, i: int) -> int
    decreases s.len() - i,
{
    if 0 <= i < s.len() && is_space_char(s[i]) {
        1 + space_run_len(s, i + 1)
    } else {
        0
    }
}

/// Length of the run of line-break characters at `i`.
pub open spec fn break_run_len(s: Seq<char>, i: int) -> int
    decreases s.len() - i,
{
    if 0 <= i < s.len() && is_break_char(s[i]) {
        1 + break_run_len(s, i + 1)
    } else {
        0
    }
}

fn scan_ident(s: &str, i: usize) -> (l: usize)
    requires
        i <= s@.len(),
    ensures
        i + l <= s@.len(),
        l as int == ident_len(s@, i as int),
{
    let n = s.unicode_len();
    if i >= n {
        return 0;
    }
    let c = s.get_char(i);
    if !((65 <= c as u32 && c as u32 <= 90) || (97 <= c as u32 && c as u32 <= 122) || c as u32
        == 95) {
        return 0;
    }
    let mut j: usize = i + 1;
    while j < n
        invariant
            i + 1 <= j <= n,
            n == s@.len(),
            is_ident_start_char(s@[i as int]),
            ident_tail_len(s@, i + 1) == j - (i + 1) + ident_tail_len(s@, j as int),
        decreases n - j,
    {
        let c = s.get_char(j);
        if !((65 <= c as u32 && c as u32 <= 90) || (97 <= c as u32 && c as u32 <= 122) || (48 <= c
            as u32 && c as u32 <= 57) || c as u32 == 95) {
            proof {
                assert(ident_tail_len(s@, j as int) == 0);
            }
            return j - i;
        }
        proof {
            assert(ident_tail_len(s@, j as int) == 1 + ident_tail_len(s@, j + 1));
        }
        j = j + 1;
    }
    proof {
        assert(ident_tail_len(s@, j as int) == 0);
    }
    j - i
}

fn scan_number(s: &str, i: usize) -> (l: usize)
    requires
        i <= s@.len(),
    ensures
        i + l <= s@.len(),
        l as int == number_run_len(s@, i as int),
{
    let n = s.unicode_len();
    let mut j: usize = i;
    while j < n
        invariant
            i <= j <= n,
            n == s@.len(),
            number_run_len(s@, i as int) == j - i + number_run_len(s@, j as int),
        decreases n - j,
    {
        let c = s.get_char(j);
        if !((48 <= c as u32 && c as u32 <= 57) || c as u32 == 46) {
            proof {
                assert(number_run_len(s@, j as int) == 0);
            }
            return j - i;
        }
        proof {
            assert(number_run_len(s@, j as int) == 1 + number_run_len(s@, j + 1));
        }
        j = j + 1;
    }
    proof {
        assert(number_run_len(s@, j as int) == 0);
    }
    j - i
}

fn scan_space(s: &str, i: usize) -> (l: usize)
    requires
        i <= s@.len(),
    ensures
        i + l <= s@.len(),
        l as int == space_run_len(s@, i as int),
{
    let n = s.unicode_len();
    let mut j: usize = i;
    while j < n
        invariant
            i <= j <= n,
            n == s@.len(),
            space_run_len(s@, i as int) == j - i + space_run_len(s@, j as int),
        decreases n - j,
    {
        let c = s.get_char(j);
        if !(c as u32 == 32 || c as u32 == 9) {
            proof {
                assert(space_run_len(s@, j as int) == 0);
            }
            return j - i;
        }
        proof {
            assert(space_run_len(s@, j as int) == 1 + space_run_len(s@, j + 1));
        }
        j = j + 1;
    }
    proof {
        assert(space_run_len(s@, j as int) == 0);
    }
    j - i
}

fn scan_break(s: &str, i: usize) -> (l: usize)
    requires
        i <= s@.len(),
    ensures
        i + l <= s@.len(),
        l as int == break_run_len(s@, i as int),
{
    let n = s.unicode_len();
    let mut j: usize = i;
    while j < n
        invariant
            i <= j <= n,
            n == s@.len(),
            break_run_len(s@, i as int) == j - i + break_run_len(s@, j as int),
        decreases n - j,
    {
        let c = s.get_char(j);
        if !(c as u32 == 10 || c as u32 == 13) {
            proof {
                assert(break_run_len(s@, j as int) == 0);
            }
            return j - i;
        }
        proof {
            assert(break_run_len(s@, j as int) == 1 + break_run_len(s@, j + 1));
        }
        j = j + 1;
    }
    proof {
        assert(break_run_len(s@, j as int) == 0);
    }
    j - i
}

/// The executable outcome `r` of a literal-table lookup agrees with the
/// model outcome `m`.
pub open spec fn lit_res_matches(
    r: Option<(Token<String>, usize)>,
    m: Option<(Token<Seq<char>>, int)>,
) -> bool {
    match (r, m) {
        (Some(p), Some(q)) => p.0@ == q.0 && p.1 as int == q.1,
        (None, None) => true,
        _ => false,
    }
}

pub open spec fn lit_match_a(s: Seq<char>, i: int) -> Option<(Token<Seq<char>>, int)> {
    if is_lit(s, i, "reinterpret_cast"@) {
        Some((Token::TypeCast, "reinterpret_cast"@.len() as int))
    } else if is_lit(s, i, "_Thread_local"@) {
        Some((Token::ThreadLocal, "_Thread_local"@.len() as int))
    } else if is_lit(s, i, "long long int"@) {
        Some((Token::LongLongInt, "long long int"@.len() as int))
    } else if is_lit(s, i, "thread_local"@) {
        Some((Token::ThreadLocal, "thread_local"@.len() as int))
    } else if is_lit(s, i, "synchronized"@) {
        Some((Token::Synchronized, "synchronized"@.len() as int))
    } else if is_lit(s, i, "static_cast"@) {
        Some((Token::TypeCast, "static_cast"@.len() as int))
    } else if is_lit(s, i, "long double"@) {
        Some((Token::LongDouble, "long double"@.len() as int))
    } else if is_lit(s, i, "const_cast"@) {
        Some((Token::TypeCast, "const_cast"@.len() as int))
    } else if is_lit(s, i, "atomic_int"@) {
        Some((Token::Atomic, "atomic_int"@.len() as int))
    } else if is_lit(s, i, "implements"@) {
        Some((Token::Implements, "implements"@.len() as int))
    } else if is_lit(s, i, "short int"@) {
        Some((Token::ShortInt, "short int"@.len() as int))
    } else if is_lit(s, i, "long long"@) {
        Some((Token::LongLong, "long long"@.len() as int))
    } else if is_lit(s, i, "protected"@) {
        Some((Token::Protected, "protected"@.len() as int))
    } else if is_lit(s, i, "namespace"@) {
        Some((Token::Namespace, "namespace"@.len() as int))
    } else if is_lit(s, i, "interface"@) {
        Some((Token::Interface, "interface"@.len() as int))
    } else if is_lit(s, i, "transient"@) {
        Some((Token::Transient, "transient"@.len() as int))
    } else if is_lit(s, i, "#include"@) {
        Some((Token::Preprocessor("#include"@), "#include"@.len() as int))
    } else if is_lit(s, i, "continue"@) {
        Some((Token::Continue, "continue"@.len() as int))
    } else if is_lit(s, i, "unsigned"@) {
        Some((Token::Unsigned, "unsigned"@.len() as int))
    } else if is_lit(s, i, "char16_t"@) {
        Some((Token::Char, "char16_t"@.len() as int))
    } else if is_lit(s, i, "char32_t"@) {
        Some((Token::Char, "char32_t"@.len() as int))
    } else if is_lit(s, i, "register"@) {
        Some((Token::Register, "register"@.len() as int))
    } else if is_lit(s, i, "restrict"@) {
        Some((Token::Restrict, "restrict"@.len() as int))
    } else if is_lit(s, i, "volatile"@) {
        Some((Token::Volatile, "volatile"@.len() as int))
    } else if is_lit(s, i, "decltype"@) {
        Some((Token::Decltype, "decltype"@.len() as int))
    } else if is_lit(s, i, "abstract"@) {
        Some((Token::Abstract, "abstract"@.len() as int))
    } else if is_lit(s, i, "strictfp"@) {
        Some((Token::StrictFp, "strictfp"@.len() as int))
    } else if is_lit(s, i, "template"@) {
        Some((Token::Template, "template"@.len() as int))
    } else if is_lit(s, i, "long int"@) {
        Some((Token::LongInt, "long int"@.len() as int))
    } else if is_lit(s, i, "#define"@) {
        Some((Token::Preprocessor("#define"@), "#define"@.len() as int))
    } else if is_lit(s, i, "#ifndef"@) {
        Some((Token::Preprocessor("#ifndef"@), "#ifndef"@.len() as int))
    } else if is_lit(s, i, "#pragma"@) {
        Some((Token::Preprocessor("#pragma"@), "#pragma"@.len() as int))
    } else if is_lit(s, i, "wchar_t"@) {
        Some((Token::Char, "wchar_t"@.len() as int))
    } else if is_lit(s, i, "char8_t"@) {
        Some((Token::Char, "char8_t"@.len() as int))
    } else if is_lit(s, i, "default"@) {
        Some((Token::DefaultCase, "default"@.len() as int))
    } else if is_lit(s, i, "else if"@) {
        Some((Token::ElseIf, "else if"@.len() as int))
    } else if is_lit(s, i, "boolean"@) {
        Some((Token::Bool, "boolean"@.len() as int))
    } else if is_lit(s, i, "typedef"@) {
        Some((Token::Typedef, "typedef"@.len() as int))
    } else if is_lit(s, i, "mutable"@) {
        Some((Token::Mutable, "mutable"@.len() as int))
    } else if is_lit(s, i, "private"@) {
        Some((Token::Private, "private"@.len() as int))
    } else if is_lit(s, i, "_Atomic"@) {
        Some((Token::Atomic, "_Atomic"@.len() as int))
    } else if is_lit(s, i, "extends"@) {
        Some((Token::Extends, "extends"@.len() as int))
    } else if is_lit(s, i, "finally"@) {
        Some((Token::Finally, "finally"@.len() as int))
    } else if is_lit(s, i, "package"@) {
        Some((Token::Package, "package"@.len() as int))
    } else {
        None
    }
}

fn do_lit_match_a(s: &str, i: usize) -> (r: Option<(Token<String>, usize)>)
    requires
        i <= s@.len(),
    ensures
        lit_res_matches(r, lit_match_a(s@, i as int)),
        match r {
            Some(p) => i + p.1 <= s@.len(),
            None => true,
        },
{
    if match_at(s, i, "reinterpret_cast") {
        return Some((Token::TypeCast, "reinterpret_cast".unicode_len()));
    }
    if match_at(s, i, "_Thread_local") {
        return Some((Token::ThreadLocal, "_Thread_local".unicode_len()));
    }
    if match_at(s, i, "long long int") {
        return Some((Token::LongLongInt, "long long int".unicode_len()));
    }
    if match_at(s, i, "thread_local") {
        return Some((Token::ThreadLocal, "thread_local".unicode_len()));
    }
    if match_at(s, i, "synchronized") {
        return Some((Token::Synchronized, "synchronized".unicode_len()));
    }
    if match_at(s, i, "static_cast") {
        return Some((Token::TypeCast, "static_cast".unicode_len()));
    }
    if match_at(s, i, "long double") {
        return Some((Token::LongDouble, "long double".unicode_len()));
    }
    if match_at(s, i, "const_cast") {
        return Some((Token::TypeCast, "const_cast".unicode_len()));
    }
    if match_at(s, i, "atomic_int") {
        return Some((Token::Atomic, "atomic_int".unicode_len()));
    }
    if match_at(s, i, "implements") {
        return Some((Token::Implements, "implements".unicode_len()));
    }
    if match_at(s, i, "short int") {
        return Some((Token::ShortInt, "short int".unicode_len()));
    }
    if match_at(s, i, "long long") {
        return Some((Token::LongLong, "long long".unicode_len()));
    }
    if match_at(s, i, "protected") {
        return Some((Token::Protected, "protected".unicode_len()));
    }
    if match_at(s, i, "namespace") {
        return Some((Token::Namespace, "namespace".unicode_len()));
    }
    if match_at(s, i, "interface") {
        return Some((Token::Interface, "interface".unicode_len()));
    }
    if match_at(s, i, "transient") {
        return Some((Token::Transient, "transient".unicode_len()));
    }
    if match_at(s, i, "#include") {
        return Some((Token::Preprocessor("#include".to_owned()), "#include".unicode_len()));
    }
    if match_at(s, i, "continue") {
        return Some((Token::Continue, "continue".unicode_len()));
    }
    if match_at(s, i, "unsigned") {
        return Some((Token::Unsigned, "unsigned".unicode_len()));
    }
    if match_at(s, i, "char16_t") {
        return Some((Token::Char, "char16_t".unicode_len()));
    }
    if match_at(s, i, "char32_t") {
        return Some((Token::Char, "char32_t".unicode_len()));
    }
    if match_at(s, i, "register") {
        return Some((Token::Register, "register".unicode_len()));
    }
    if match_at(s, i, "restrict") {
        return Some((Token::Restrict, "restrict".unicode_len()));
    }
    if match_at(s, i, "volatile") {
        return Some((Token::Volatile, "volatile".unicode_len()));
    }
    if match_at(s, i, "decltype") {
        return Some((Token::Decltype, "decltype".unicode_len()));
    }
    if match_at(s, i, "abstract") {
        return Some((Token::Abstract, "abstract".unicode_len()));
    }
    if match_at(s, i, "strictfp") {
        return Some((Token::StrictFp, "strictfp".unicode_len()));
    }
    if match_at(s, i, "template") {
        return Some((Token::Template, "template".unicode_len()));
    }
    if match_at(s, i, "long int") {
        return Some((Token::LongInt, "long int".unicode_len()));
    }
    if match_at(s, i, "#define") {
        return Some((Token::Preprocessor("#define".to_owned()), "#define".unicode_len()));
    }
    if match_at(s, i, "#ifndef") {
        return Some((Token::Preprocessor("#ifndef".to_owned()), "#ifndef".unicode_len()));
    }
    if match_at(s, i, "#pragma") {
        return Some((Token::Preprocessor("#pragma".to_owned()), "#pragma".unicode_len()));
    }
    if match_at(s, i, "wchar_t") {
        return Some((Token::Char, "wchar_t".unicode_len()));
    }
    if match_at(s, i, "char8_t") {
        return Some((Token::Char, "char8_t".unicode_len()));
    }
    if match_at(s, i, "default") {
        return Some((Token::DefaultCase, "default".unicode_len()));
    }
    if match_at(s, i, "else if") {
        return Some((Token::ElseIf, "else if".unicode_len()));
    }
    if match_at(s, i, "boolean") {
        return Some((Token::Bool, "boolean".unicode_len()));
    }
    if match_at(s, i, "typedef") {
        return Some((Token::Typedef, "typedef".unicode_len()));
    }
    if match_at(s, i, "mutable") {
        return Some((Token::Mutable, "mutable".unicode_len()));
    }
    if match_at(s, i, "private") {
        return Some((Token::Private, "private".unicode_len()));
    }
    if match_at(s, i, "_Atomic") {
        return Some((Token::Atomic, "_Atomic".unicode_len()));
    }
    if match_at(s, i, "extends") {
        return Some((Token::Extends, "extends".unicode_len()));
    }
    if match_at(s, i, "finally") {
        return Some((Token::Finally, "finally".unicode_len()));
    }
    if match_at(s, i, "package") {
        return Some((Token::Package, "package".unicode_len()));
    }
    None
}

pub open spec fn lit_match_b(s: Seq<char>, i: int) -> Option<(Token<Seq<char>>, int)> {
    if is_lit(s, i, "#undef"@) {
        Some((Token::Preprocessor("#undef"@), "#undef"@.len() as int))
    } else if is_lit(s, i, "#ifdef"@) {
        Some((Token::Preprocessor("#ifdef"@), "#ifdef"@.len() as int))
    } else if is_lit(s, i, "#endif"@) {
        Some((Token::Preprocessor("#endif"@), "#endif"@.len() as int))
    } else if is_lit(s, i, "#error"@) {
        Some((Token::Preprocessor("#error"@), "#error"@.len() as int))
    } else if is_lit(s, i, "switch"@) {
        Some((Token::Switch, "switch"@.len() as int))
    } else if is_lit(s, i, "signed"@) {
        Some((Token::Signed, "signed"@.len() as int))
    } else if is_lit(s, i, "double"@) {
        Some((Token::Double, "double"@.len() as int))
    } else if is_lit(s, i, "String"@) {
        Some((Token::StringType, "String"@.len() as int))
    } else if is_lit(s, i, "string"@) {
        Some((Token::StringType, "string"@.len() as int))
    } else if is_lit(s, i, "struct"@) {
        Some((Token::Struct, "struct"@.len() as int))
    } else if is_lit(s, i, "extern"@) {
        Some((Token::Extern, "extern"@.len() as int))
    } else if is_lit(s, i, "static"@) {
        Some((Token::Static, "static"@.len() as int))
    } else if is_lit(s, i, "public"@) {
        Some((Token::Public, "public"@.len() as int))
    } else if is_lit(s, i, "sizeof"@) {
        Some((Token::SizeOf, "sizeof"@.len() as int))
    } else if is_lit(s, i, "delete"@) {
        Some((Token::Delete, "delete"@.len() as int))
    } else if is_lit(s, i, "import"@) {
        Some((Token::Import, "import"@.len() as int))
    } else if is_lit(s, i, "native"@) {
        Some((Token::Native, "native"@.len() as int))
    } else if is_lit(s, i, "assert"@) {
        Some((Token::Assert, "assert"@.len() as int))
    } else if is_lit(s, i, "throws"@) {
        Some((Token::Throws, "throws"@.len() as int))
    } else if is_lit(s, i, "return"@) {
        Some((Token::Return, "return"@.len() as int))
    } else if is_lit(s, i, "#else"@) {
        Some((Token::Preprocessor("#else"@), "#else"@.len() as int))
    } else if is_lit(s, i, "#elif"@) {
        Some((Token::Preprocessor("#elif"@), "#elif"@.len() as int))
    } else if is_lit(s, i, "#line"@) {
        Some((Token::Preprocessor("#line"@), "#line"@.len() as int))
    } else if is_lit(s, i, "while"@) {
        Some((Token::While, "while"@.len() as int))
    } else if is_lit(s, i, "short"@) {
        Some((Token::Short, "short"@.len() as int))
    } else if is_lit(s, i, "break"@) {
        Some((Token::Break, "break"@.len() as int))
    } else if is_lit(s, i, "float"@) {
        Some((Token::Float, "float"@.len() as int))
    } else if is_lit(s, i, "union"@) {
        Some((Token::Union, "union"@.len() as int))
    } else if is_lit(s, i, "class"@) {
        Some((Token::Class, "class"@.len() as int))
    } else if is_lit(s, i, "const"@) {
        Some((Token::Const, "const"@.len() as int))
    } else if is_lit(s, i, "false"@) {
        Some((Token::False, "false"@.len() as int))
    } else if is_lit(s, i, "using"@) {
        Some((Token::Using, "using"@.len() as int))
    } else if is_lit(s, i, "final"@) {
        Some((Token::Final, "final"@.len() as int))
    } else if is_lit(s, i, "catch"@) {
        Some((Token::Catch, "catch"@.len() as int))
    } else if is_lit(s, i, "throw"@) {
        Some((Token::Throw, "throw"@.len() as int))
    } else if is_lit(s, i, "super"@) {
        Some((Token::Super, "super"@.len() as int))
    } else if is_lit(s, i, "case"@) {
        Some((Token::Case, "case"@.len() as int))
    } else if is_lit(s, i, "elif"@) {
        Some((Token::ElseIf, "elif"@.len() as int))
    } else if is_lit(s, i, "else"@) {
        Some((Token::Else, "else"@.len() as int))
    } else if is_lit(s, i, "goto"@) {
        Some((Token::Goto, "goto"@.len() as int))
    } else if is_lit(s, i, "char"@) {
        Some((Token::Char, "char"@.len() as int))
    } else if is_lit(s, i, "long"@) {
        Some((Token::Long, "long"@.len() as int))
    } else if is_lit(s, i, "bool"@) {
        Some((Token::Bool, "bool"@.len() as int))
    } else if is_lit(s, i, "enum"@) {
        Some((Token::Enum, "enum"@.len() as int))
    } else if is_lit(s, i, "void"@) {
        Some((Token::Void, "void"@.len() as int))
    } else if is_lit(s, i, "auto"@) {
        Some((Token::Auto, "auto"@.len() as int))
    } else if is_lit(s, i, "true"@) {
        Some((Token::True, "true"@.len() as int))
    } else if is_lit(s, i, "null"@) {
        Some((Token::Null, "null"@.len() as int))
    } else if is_lit(s, i, "Null"@) {
        Some((Token::Null, "Null"@.len() as int))
    } else if is_lit(s, i, "this"@) {
        Some((Token::This, "this"@.len() as int))
    } else {
        None
    }
}

fn do_lit_match_b(s: &str, i: usize) -> (r: Option<(Token<String>, usize)>)
    requires
        i <= s@.len(),
    ensures
        lit_res_matches(r, lit_match_b(s@, i as int)),
        match r {
            Some(p) => i + p.1 <= s@.len(),
            None => true,
        },
{
    if match_at(s, i, "#undef") {
        return Some((Token::Preprocessor("#undef".to_owned()), "#undef".unicode_len()));
    }
    if match_at(s, i, "#ifdef") {
        return Some((Token::Preprocessor("#ifdef".to_owned()), "#ifdef".unicode_len()));
    }
    if match_at(s, i, "#endif") {
        return Some((Token::Preprocessor("#endif".to_owned()), "#endif".unicode_len()));
    }
    if match_at(s, i, "#error") {
        return Some((Token::Preprocessor("#error".to_owned()), "#error".unicode_len()));
    }
    if match_at(s, i, "switch") {
        return Some((Token::Switch, "switch".unicode_len()));
    }
    if match_at(s, i, "signed") {
        return Some((Token::Signed, "signed".unicode_len()));
    }
    if match_at(s, i, "double") {
        return Some((Token::Double, "double".unicode_len()));
    }
    if match_at(s, i, "String") {
        return Some((Token::StringType, "String".unicode_len()));
    }
    if match_at(s, i, "string") {
        return Some((Token::StringType, "string".unicode_len()));
    }
    if match_at(s, i, "struct") {
        return Some((Token::Struct, "struct".unicode_len()));
    }
    if match_at(s, i, "extern") {
        return Some((Token::Extern, "extern".unicode_len()));
    }
    if match_at(s, i, "static") {
        return Some((Token::Static, "static".unicode_len()));
    }
    if match_at(s, i, "public") {
        return Some((Token::Public, "public".unicode_len()));
    }
    if match_at(s, i, "sizeof") {
        return Some((Token::SizeOf, "sizeof".unicode_len()));
    }
    if match_at(s, i, "delete") {
        return Some((Token::Delete, "delete".unicode_len()));
    }
    if match_at(s, i, "import") {
        return Some((Token::Import, "import".unicode_len()));
    }
    if match_at(s, i, "native") {
        return Some((Token::Native, "native".unicode_len()));
    }
    if match_at(s, i, "assert") {
        return Some((Token::Assert, "assert".unicode_len()));
    }
    if match_at(s, i, "throws") {
        return Some((Token::Throws, "throws".unicode_len()));
    }
    if match_at(s, i, "return") {
        return Some((Token::Return, "return".unicode_len()));
    }
    if match_at(s, i, "#else") {
        return Some((Token::Preprocessor("#else".to_owned()), "#else".unicode_len()));
    }
    if match_at(s, i, "#elif") {
        return Some((Token::Preprocessor("#elif".to_owned()), "#elif".unicode_len()));
    }
    if match_at(s, i, "#line") {
        return Some((Token::Preprocessor("#line".to_owned()), "#line".unicode_len()));
    }
    if match_at(s, i, "while") {
        return Some((Token::While, "while".unicode_len()));
    }
    if match_at(s, i, "short") {
        return Some((Token::Short, "short".unicode_len()));
    }
    if match_at(s, i, "break") {
        return Some((Token::Break, "break".unicode_len()));
    }
    if match_at(s, i, "float") {
        return Some((Token::Float, "float".unicode_len()));
    }
    if match_at(s, i, "union") {
        return Some((Token::Union, "union".unicode_len()));
    }
    if match_at(s, i, "class") {
        return Some((Token::Class, "class".unicode_len()));
    }
    if match_at(s, i, "const") {
        return Some((Token::Const, "const".unicode_len()));
    }
    if match_at(s, i, "false") {
        return Some((Token::False, "false".unicode_len()));
    }
    if match_at(s, i, "using") {
        return Some((Token::Using, "using".unicode_len()));
    }
    if match_at(s, i, "final") {
        return Some((Token::Final, "final".unicode_len()));
    }
    if match_at(s, i, "catch") {
        return Some((Token::Catch, "catch".unicode_len()));
    }
    if match_at(s, i, "throw") {
        return Some((Token::Throw, "throw".unicode_len()));
    }
    if match_at(s, i, "super") {
        return Some((Token::Super, "super".unicode_len()));
    }
    if match_at(s, i, "case") {
        return Some((Token::Case, "case".unicode_len()));
    }
    if match_at(s, i, "elif") {
        return Some((Token::ElseIf, "elif".unicode_len()));
    }
    if match_at(s, i, "else") {
        return Some((Token::Else, "else".unicode_len()));
    }
    if match_at(s, i, "goto") {
        return Some((Token::Goto, "goto".unicode_len()));
    }
    if match_at(s, i, "char") {
        return Some((Token::Char, "char".unicode_len()));
    }
    if match_at(s, i, "long") {
        return Some((Token::Long, "long".unicode_len()));
    }
    if match_at(s, i, "bool") {
        return Some((Token::Bool, "bool".unicode_len()));
    }
    if match_at(s, i, "enum") {
        return Some((Token::Enum, "enum".unicode_len()));
    }
    if match_at(s, i, "void") {
        return Some((Token::Void, "void".unicode_len()));
    }
    if match_at(s, i, "auto") {
        return Some((Token::Auto, "auto".unicode_len()));
    }
    if match_at(s, i, "true") {
        return Some((Token::True, "true".unicode_len()));
    }
    if match_at(s, i, "null") {
        return Some((Token::Null, "null".unicode_len()));
    }
    if match_at(s, i, "Null") {
        return Some((Token::Null, "Null".unicode_len()));
    }
    if match_at(s, i, "this") {
        return Some((Token::This, "this".unicode_len()));
    }
    None
}

pub open spec fn lit_match_c(s: Seq<char>, i: int) -> Option<(Token<Seq<char>>, int)> {
    if is_lit(s, i, "#if"@) {
        Some((Token::Preprocessor("#if"@), "#if"@.len() as int))
    } else if is_lit(s, i, "for"@) {
        Some((Token::For, "for"@.len() as int))
    } else if is_lit(s, i, "int"@) {
        Some((Token::Int, "int"@.len() as int))
    } else if is_lit(s, i, "new"@) {
        Some((Token::New, "new"@.len() as int))
    } else if is_lit(s, i, "var"@) {
        Some((Token::Var, "var"@.len() as int))
    } else if is_lit(s, i, "try"@) {
        Some((Token::Try, "try"@.len() as int))
    } else if is_lit(s, i, "<=>"@) {
        Some((Token::ThreeWayComparison, "<=>"@.len() as int))
    } else if is_lit(s, i, ">>>"@) {
        Some((Token::UnsignedRightShiftOperator, ">>>"@.len() as int))
    } else if is_lit(s, i, "<<="@) {
        Some((Token::LeftShiftAssignment, "<<="@.len() as int))
    } else if is_lit(s, i, ">>="@) {
        Some((Token::RightShiftAssignment, ">>="@.len() as int))
    } else if is_lit(s, i, "do"@) {
        Some((Token::DoWhile, "do"@.len() as int))
    } else if is_lit(s, i, "if"@) {
        Some((Token::If, "if"@.len() as int))
    } else if is_lit(s, i, "+="@) {
        Some((Token::AddAssignment, "+="@.len() as int))
    } else if is_lit(s, i, "-="@) {
        Some((Token::SubAssignment, "-="@.len() as int))
    } else if is_lit(s, i, "*="@) {
        Some((Token::MultAssignment, "*="@.len() as int))
    } else if is_lit(s, i, "/="@) {
        Some((Token::DivAssignment, "/="@.len() as int))
    } else if is_lit(s, i, "%="@) {
        Some((Token::ModAssignment, "%="@.len() as int))
    } else if is_lit(s, i, "<<"@) {
        Some((Token::LeftOperator, "<<"@.len() as int))
    } else if is_lit(s, i, ">>"@) {
        Some((Token::RightOperator, ">>"@.len() as int))
    } else if is_lit(s, i, "&="@) {
        Some((Token::BitwiseAndAssignment, "&="@.len() as int))
    } else if is_lit(s, i, "|="@) {
        Some((Token::BitwiseOrAssignment, "|="@.len() as int))
    } else if is_lit(s, i, "^="@) {
        Some((Token::BitwiseXorAssignment, "^="@.len() as int))
    } else if is_lit(s, i, "&&"@) {
        Some((Token::And, "&&"@.len() as int))
    } else if is_lit(s, i, "||"@) {
        Some((Token::Or, "||"@.len() as int))
    } else if is_lit(s, i, ">="@) {
        Some((Token::GreaterOrEquals, ">="@.len() as int))
    } else if is_lit(s, i, "<="@) {
        Some((Token::LessOrEquals, "<="@.len() as int))
    } else if is_lit(s, i, "=="@) {
        Some((Token::Equals, "=="@.len() as int))
    } else if is_lit(s, i, "!="@) {
        Some((Token::NotEquals, "!="@.len() as int))
    } else if is_lit(s, i, "->"@) {
        Some((Token::ArrowOperator, "->"@.len() as int))
    } else if is_lit(s, i, "++"@) {
        Some((Token::Increment, "++"@.len() as int))
    } else if is_lit(s, i, "--"@) {
        Some((Token::Decrement, "--"@.len() as int))
    } else if is_lit(s, i, "::"@) {
        Some((Token::ScopeResolution, "::"@.len() as int))
    } else {
        None
    }
}

fn do_lit_match_c(s: &str, i: usize) -> (r: Option<(Token<String>, usize)>)
    requires
        i <= s@.len(),
    ensures
        lit_res_matches(r, lit_match_c(s@, i as int)),
        match r {
            Some(p) => i + p.1 <= s@.len(),
            None => true,
        },
{
    if match_at(s, i, "#if") {
        return Some((Token::Preprocessor("#if".to_owned()), "#if".unicode_len()));
    }
    if match_at(s, i, "for") {
        return Some((Token::For, "for".unicode_len()));
    }
    if match_at(s, i, "int") {
        return Some((Token::Int, "int".unicode_len()));
    }
    if match_at(s, i, "new") {
        return Some((Token::New, "new".unicode_len()));
    }
    if match_at(s, i, "var") {
        return Some((Token::Var, "var".unicode_len()));
    }
    if match_at(s, i, "try") {
        return Some((Token::Try, "try".unicode_len()));
    }
    if match_at(s, i, "<=>") {
        return Some((Token::ThreeWayComparison, "<=>".unicode_len()));
    }
    if match_at(s, i, ">>>") {
        return Some((Token::UnsignedRightShiftOperator, ">>>".unicode_len()));
    }
    if match_at(s, i, "<<=") {
        return Some((Token::LeftShiftAssignment, "<<=".unicode_len()));
    }
    if match_at(s, i, ">>=") {
        return Some((Token::RightShiftAssignment, ">>=".unicode_len()));
    }
    if match_at(s, i, "do") {
        return Some((Token::DoWhile, "do".unicode_len()));
    }
    if match_at(s, i, "if") {
        return Some((Token::If, "if".unicode_len()));
    }
    if match_at(s, i, "+=") {
        return Some((Token::AddAssignment, "+=".unicode_len()));
    }
    if match_at(s, i, "-=") {
        return Some((Token::SubAssignment, "-=".unicode_len()));
    }
    if match_at(s, i, "*=") {
        return Some((Token::MultAssignment, "*=".unicode_len()));
    }
    if match_at(s, i, "/=") {
        return Some((Token::DivAssignment, "/=".unicode_len()));
    }
    if match_at(s, i, "%=") {
        return Some((Token::ModAssignment, "%=".unicode_len()));
    }
    if match_at(s, i, "<<") {
        return Some((Token::LeftOperator, "<<".unicode_len()));
    }
    if match_at(s, i, ">>") {
        return Some((Token::RightOperator, ">>".unicode_len()));
    }
    if match_at(s, i, "&=") {
        return Some((Token::BitwiseAndAssignment, "&=".unicode_len()));
    }
    if match_at(s, i, "|=") {
        return Some((Token::BitwiseOrAssignment, "|=".unicode_len()));
    }
    if match_at(s, i, "^=") {
        return Some((Token::BitwiseXorAssignment, "^=".unicode_len()));
    }
    if match_at(s, i, "&&") {
        return Some((Token::And, "&&".unicode_len()));
    }
    if match_at(s, i, "||") {
        return Some((Token::Or, "||".unicode_len()));
    }
    if match_at(s, i, ">=") {
        return Some((Token::GreaterOrEquals, ">=".unicode_len()));
    }
    if match_at(s, i, "<=") {
        return Some((Token::LessOrEquals, "<=".unicode_len()));
    }
    if match_at(s, i, "==") {
        return Some((Token::Equals, "==".unicode_len()));
    }
    if match_at(s, i, "!=") {
        return Some((Token::NotEquals, "!=".unicode_len()));
    }
    if match_at(s, i, "->") {
        return Some((Token::ArrowOperator, "->".unicode_len()));
    }
    if match_at(s, i, "++") {
        return Some((Token::Increment, "++".unicode_len()));
    }
    if match_at(s, i, "--") {
        return Some((Token::Decrement, "--".unicode_len()));
    }
    if match_at(s, i, "::") {
        return Some((Token::ScopeResolution, "::".unicode_len()));
    }
    None
}

pub open spec fn lit_match_d(s: Seq<char>, i: int) -> Option<(Token<Seq<char>>, int)> {
    if is_lit(s, i, "+"@) {
        Some((Token::Plus, "+"@.len() as int))
    } else if is_lit(s, i, "-"@) {
        Some((Token::Minus, "-"@.len() as int))
    } else if is_lit(s, i, "*"@) {
        Some((Token::Asterisk, "*"@.len() as int))
    } else if is_lit(s, i, "/"@) {
        Some((Token::Divide, "/"@.len() as int))
    } else if is_lit(s, i, "%"@) {
        Some((Token::Modulo, "%"@.len() as int))
    } else if is_lit(s, i, "="@) {
        Some((Token::Assignment, "="@.len() as int))
    } else if is_lit(s, i, "&"@) {
        Some((Token::Ampersand, "&"@.len() as int))
    } else if is_lit(s, i, "|"@) {
        Some((Token::BitwiseOr, "|"@.len() as int))
    } else if is_lit(s, i, "^"@) {
        Some((Token::BitwiseXor, "^"@.len() as int))
    } else if is_lit(s, i, "~"@) {
        Some((Token::BitwiseNot, "~"@.len() as int))
    } else if is_lit(s, i, "!"@) {
        Some((Token::Not, "!"@.len() as int))
    } else if is_lit(s, i, "?"@) {
        Some((Token::ConditionalOperator, "?"@.len() as int))
    } else if is_lit(s, i, ">"@) {
        Some((Token::Greater, ">"@.len() as int))
    } else if is_lit(s, i, "<"@) {
        Some((Token::Less, "<"@.len() as int))
    } else if is_lit(s, i, "."@) {
        Some((Token::DotOperator, "."@.len() as int))
    } else if is_lit(s, i, ";"@) {
        Some((Token::Semicolon, ";"@.len() as int))
    } else if is_lit(s, i, "@"@) {
        Some((Token::Annotation, "@"@.len() as int))
    } else if is_lit(s, i, "{"@) {
        Some((Token::OpenBrace, "{"@.len() as int))
    } else if is_lit(s, i, "}"@) {
        Some((Token::CloseBrace, "}"@.len() as int))
    } else if is_lit(s, i, "("@) {
        Some((Token::OpenParen, "("@.len() as int))
    } else if is_lit(s, i, ")"@) {
        Some((Token::CloseParen, ")"@.len() as int))
    } else if is_lit(s, i, "["@) {
        Some((Token::OpenBracket, "["@.len() as int))
    } else if is_lit(s, i, "]"@) {
        Some((Token::CloseBracket, "]"@.len() as int))
    } else {
        None
    }
}

fn do_lit_match_d(s: &str, i: usize) -> (r: Option<(Token<String>, usize)>)
    requires
        i <= s@.len(),
    ensures
        lit_res_matches(r, lit_match_d(s@, i as int)),
        match r {
            Some(p) => i + p.1 <= s@.len(),
            None => true,
        },
{
    if match_at(s, i, "+") {
        return Some((Token::Plus, "+".unicode_len()));
    }
    if match_at(s, i, "-") {
        return Some((Token::Minus, "-".unicode_len()));
    }
    if match_at(s, i, "*") {
        return Some((Token::Asterisk, "*".unicode_len()));
    }
    if match_at(s, i, "/") {
        return Some((Token::Divide, "/".unicode_len()));
    }
    if match_at(s, i, "%") {
        return Some((Token::Modulo, "%".unicode_len()));
    }
    if match_at(s, i, "=") {
        return Some((Token::Assignment, "=".unicode_len()));
    }
    if match_at(s, i, "&") {
        return Some((Token::Ampersand, "&".unicode_len()));
    }
    if match_at(s, i, "|") {
        return Some((Token::BitwiseOr, "|".unicode_len()));
    }
    if match_at(s, i, "^") {
        return Some((Token::BitwiseXor, "^".unicode_len()));
    }
    if match_at(s, i, "~") {
        return Some((Token::BitwiseNot, "~".unicode_len()));
    }
    if match_at(s, i, "!") {
        return Some((Token::Not, "!".unicode_len()));
    }
    if match_at(s, i, "?") {
        return Some((Token::ConditionalOperator, "?".unicode_len()));
    }
    if match_at(s, i, ">") {
        return Some((Token::Greater, ">".unicode_len()));
    }
    if match_at(s, i, "<") {
        return Some((Token::Less, "<".unicode_len()));
    }
    if match_at(s, i, ".") {
        return Some((Token::DotOperator, ".".unicode_len()));
    }
    if match_at(s, i, ";") {
        return Some((Token::Semicolon, ";".unicode_len()));
    }
    if match_at(s, i, "@") {
        return Some((Token::Annotation, "@".unicode_len()));
    }
    if match_at(s, i, "{") {
        return Some((Token::OpenBrace, "{".unicode_len()));
    }
    if match_at(s, i, "}") {
        return Some((Token::CloseBrace, "}".unicode_len()));
    }
    if match_at(s, i, "(") {
        return Some((Token::OpenParen, "(".unicode_len()));
    }
    if match_at(s, i, ")") {
        return Some((Token::CloseParen, ")".unicode_len()));
    }
    if match_at(s, i, "[") {
        return Some((Token::OpenBracket, "[".unicode_len()));
    }
    if match_at(s, i, "]") {
        return Some((Token::CloseBracket, "]".unicode_len()));
    }
    None
}


/// The longest literal of the token table matching at position `i`, with its
/// length; literals are tried in order of decreasing length, so the first hit
/// is the longest.
pub open spec fn spec_lit_match(s: Seq<char>, i: int) -> Option<(Token<Seq<char>>, int)> {
    match lit_match_a(s, i) {
        Some(p) => Some(p),
        None => match lit_match_b(s, i) {
            Some(p) => Some(p),
            None => match lit_match_c(s, i) {
                Some(p) => Some(p),
                None => lit_match_d(s, i),
            },
        },
    }
}

fn do_lit_match(s: &str, i: usize) -> (r: Option<(Token<String>, usize)>)
    requires
        i <= s@.len(),
    ensures
        lit_res_matches(r, spec_lit_match(s@, i as int)),
        match r {
            Some(p) => i + p.1 <= s@.len(),
            None => true,
        },
{
    if let Some(p) = do_lit_match_a(s, i) {
        return Some(p);
    }
    if let Some(p) = do_lit_match_b(s, i) {
        return Some(p);
    }
    if let Some(p) = do_lit_match_c(s, i) {
        return Some(p);
    }
    do_lit_match_d(s, i)
}

/// The executable outcome `r` of one lexing step agrees with the model
/// outcome `m`.
pub open spec fn tok_res_matches(r: Option<Token<String>>, m: Option<Token<Seq<char>>>) -> bool {
    match (r, m) {
        (Some(a), Some(b)) => a@ == b,
        (None, None) => true,
        _ => false,
    }
}

/// One lexing step at position `i`: the token produced (`None` for skipped
/// whitespace) and the number of characters consumed. The longest match over
/// all rules wins; a literal wins a tie against the identifier and number
/// classes; unmatched input consumes one character as `Token::Error`.
pub open spec fn spec_step(s: Seq<char>, i: int) -> (Option<Token<Seq<char>>>, int) {
    let lit = spec_lit_match(s, i);
    let litl: int = match lit {
        Some(p) => p.1,
        None => 0,
    };
    let idl = ident_len(s, i);
    let nml = number_run_len(s, i);
    let wsl = space_run_len(s, i);
    let lbl = break_run_len(s, i);
    if litl > 0 && litl >= idl && litl >= nml && litl >= wsl && litl >= lbl {
        (
            match lit {
                Some(p) => Some(p.0),
                None => None,
            },
            litl,
        )
    } else if idl > 0 && idl >= nml && idl >= wsl && idl >= lbl {
        (Some(Token::Identifier(s.subrange(i, i + idl))), idl)
    } else if nml > 0 && nml >= wsl && nml >= lbl {
        (Some(Token::Number(s.subrange(i, i + nml))), nml)
    } else if lbl > 0 && lbl >= wsl {
        (Some(Token::LineBreak), lbl)
    } else if wsl > 0 {
        (None, wsl)
    } else {
        (Some(Token::Error), 1)
    }
}

fn step(s: &str, i: usize) -> (r: (Option<Token<String>>, usize))
    requires
        i < s@.len(),
    ensures
        tok_res_matches(r.0, spec_step(s@, i as int).0),
        r.1 as int == spec_step(s@, i as int).1,
        1 <= r.1,
        i + r.1 <= s@.len(),
{
    let n = s.unicode_len();
    let lit = do_lit_match(s, i);
    let litl: usize = match &lit {
        Some(p) => p.1,
        None => 0,
    };
    let idl = scan_ident(s, i);
    let nml = scan_number(s, i);
    let wsl = scan_space(s, i);
    let lbl = scan_break(s, i);
    if litl > 0 && litl >= idl && litl >= nml && litl >= wsl && litl >= lbl {
        match lit {
            Some(p) => (Some(p.0), p.1),
            None => (None, 0),
        }
    } else if idl > 0 && idl >= nml && idl >= wsl && idl >= lbl {
        let text = s.substring_char(i, i + idl);
        (Some(Token::Identifier(text.to_owned())), idl)
    } else if nml > 0 && nml >= wsl && nml >= lbl {
        let text = s.substring_char(i, i + nml);
        (Some(Token::Number(text.to_owned())), nml)
    } else if lbl > 0 && lbl >= wsl {
        (Some(Token::LineBreak), lbl)
    } else if wsl > 0 {
        (None, wsl)
    } else {
        (Some(Token::Error), 1)
    }
}

/// The characters left to lex from position `i`: the termination measure of
/// `spec_lex`.
pub open spec fn remaining(s: Seq<char>, i: int) -> int {
    if s.len() - i >= 0 {
        s.len() - i
    } else {
        0
    }
}

/// The token sequence of the combined C/C++/Java grammar for the suffix of
/// `s` starting at position `i`.
pub open spec fn spec_lex(s: Seq<char>, i: int) -> Seq<Token<Seq<char>>>
    decreases remaining(s, i),
{
    if i < 0 || i >= s.len() {
        Seq::empty()
    } else {
        let (t, n) = spec_step(s, i);
        let adv: int = if n < 1 {
            1
        } else {
            n
        };
        let rest = spec_lex(s, i + adv);
        match t {
            Some(tok) => seq![tok] + rest,
            None => rest,
        }
    }
}

/// Converts a text fragment into its token sequence. Lexing is total: it
/// never fails, whatever the input holds.
pub fn tokenize(s: &str) -> (tokens: Vec<Token<String>>)
    ensures
        tokens@.map_values(|t: Token<String>| t@) == spec_lex(s@, 0),
{
    let n = s.unicode_len();
    let mut tokens: Vec<Token<String>> = Vec::new();
    let mut i: usize = 0;
    while i < n
        invariant
            i <= n,
            n == s@.len(),
            spec_lex(s@, 0) == tokens@.map_values(|t: Token<String>| t@) + spec_lex(s@, i as int),
        decreases n - i,
    {
        let (t, adv) = step(s, i);
        proof {
            let (t0, n0) = spec_step(s@, i as int);
            assert(n0 == adv as int);
            assert(adv >= 1);
            assert(spec_lex(s@, i as int) == match t0 {
                Some(tok) => seq![tok] + spec_lex(s@, i + adv),
                None => spec_lex(s@, i + adv),
            });
        }
        let ghost prev = tokens@;
        match t {
            Some(tok) => {
                tokens.push(tok);
                proof {
                    assert(tokens@.map_values(|t: Token<String>| t@) =~= prev.map_values(
                        |t: Token<String>| t@,
                    ).push(tokens@[prev.len() as int]@));
                    assert(tokens@.map_values(|t: Token<String>| t@) + spec_lex(s@, i + adv)
                        =~= prev.map_values(|t: Token<String>| t@) + spec_lex(s@, i as int));
                }
            },
            None => {},
        }
        i = i + adv;
    }
    proof {
        assert(spec_lex(s@, i as int) =~= Seq::empty());
        assert(tokens@.map_values(|t: Token<String>| t@) + Seq::<Token<Seq<char>>>::empty()
            =~= tokens@.map_values(|t: Token<String>| t@));
    }
    tokens
}

} // verus!
