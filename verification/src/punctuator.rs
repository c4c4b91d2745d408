//! The punctuators of the language.

use vstd::prelude::*;

verus! {

/// A punctuator.
#[derive(Clone, Copy, Debug, PartialEq, Eq, Structural)]
pub enum Punctuator {
    /// `+`
    Add,
    /// `&`
    And,
    /// `=>`
    Arrow,
    /// `=`
    Assign,
    /// `+=`
    AssignAdd,
    /// `&=`
    AssignAnd,
    /// `&&=`
    AssignBoolAnd,
    /// `||=`
    AssignBoolOr,
    /// `??=`
    AssignCoalesce,
    /// `/=`
    AssignDiv,
    /// `<<=`
    AssignLeftSh,
    /// `%=`
    AssignMod,
    /// `*=`
    AssignMul,
    /// `|=`
    AssignOr,
    /// `**=`
    AssignPow,
    /// `>>=`
    AssignRightSh,
    /// `-=`
    AssignSub,
    /// `>>>=`
    AssignURightSh,
    /// `^=`
    AssignXor,
    /// `&&`
    BoolAnd,
    /// `||`
    BoolOr,
    /// `}`
    CloseBlock,
    /// `]`
    CloseBracket,
    /// `)`
    CloseParen,
    /// `??`
    Coalesce,
    /// `:`
    Colon,
    /// `,`
    Comma,
    /// `--`
    Dec,
    /// `/`
    Div,
    /// `.`
    Dot,
    /// `==`
    Eq,
    /// `>`
    GreaterThan,
    /// `>=`
    GreaterThanOrEq,
    /// `++`
    Inc,
    /// `<<`
    LeftSh,
    /// `<`
    LessThan,
    /// `<=`
    LessThanOrEq,
    /// `%`
    Mod,
    /// `*`
    Mul,
    /// `~`
    Neg,
    /// `!`
    Not,
    /// `!=`
    NotEq,
    /// `{`
    OpenBlock,
    /// `[`
    OpenBracket,
    /// `(`
    OpenParen,
    /// `?.`
    Optional,
    /// `|`
    Or,
    /// `**`
    Exp,
    /// `?`
    Question,
    /// `>>`
    RightSh,
    /// `;`
    Semicolon,
    /// `...`
    Spread,
    /// `===`
    StrictEq,
    /// `!==`
    StrictNotEq,
    /// `-`
    Sub,
    /// `>>>`
    URightSh,
    /// `^`
    Xor,
}

impl Punctuator {
    /// The punctuator as it is written in source text.
    pub open spec fn text(self) -> Seq<char> {
        match self {
            Punctuator::Add => "+"@,
            Punctuator::And => "&"@,
            Punctuator::Arrow => "=>"@,
            Punctuator::Assign => "="@,
            Punctuator::AssignAdd => "+="@,
            Punctuator::AssignAnd => "&="@,
            Punctuator::AssignBoolAnd => "&&="@,
            Punctuator::AssignBoolOr => "||="@,
            Punctuator::AssignCoalesce => "??="@,
            Punctuator::AssignDiv => "/="@,
            Punctuator::AssignLeftSh => "<<="@,
            Punctuator::AssignMod => "%="@,
            Punctuator::AssignMul => "*="@,
            Punctuator::AssignOr => "|="@,
            Punctuator::AssignPow => "**="@,
            Punctuator::AssignRightSh => ">>="@,
            Punctuator::AssignSub => "-="@,
            Punctuator::AssignURightSh => ">>>="@,
            Punctuator::AssignXor => "^="@,
            Punctuator::BoolAnd => "&&"@,
            Punctuator::BoolOr => "||"@,
            Punctuator::CloseBlock => "}"@,
            Punctuator::CloseBracket => "]"@,
            Punctuator::CloseParen => ")"@,
            Punctuator::Coalesce => "??"@,
            Punctuator::Colon => ":"@,
            Punctuator::Comma => ","@,
            Punctuator::Dec => "--"@,
            Punctuator::Div => "/"@,
            Punctuator::Dot => "."@,
            Punctuator::Eq => "=="@,
            Punctuator::GreaterThan => ">"@,
            Punctuator::GreaterThanOrEq => ">="@,
            Punctuator::Inc => "++"@,
            Punctuator::LeftSh => "<<"@,
            Punctuator::LessThan => "<"@,
            Punctuator::LessThanOrEq => "<="@,
            Punctuator::Mod => "%"@,
            Punctuator::Mul => "*"@,
            Punctuator::Neg => "~"@,
            Punctuator::Not => "!"@,
            Punctuator::NotEq => "!="@,
            Punctuator::OpenBlock => "{"@,
            Punctuator::OpenBracket => "["@,
            Punctuator::OpenParen => "("@,
            Punctuator::Optional => "?."@,
            Punctuator::Or => "|"@,
            Punctuator::Exp => "**"@,
            Punctuator::Question => "?"@,
            Punctuator::RightSh => ">>"@,
            Punctuator::Semicolon => ";"@,
            Punctuator::Spread => "..."@,
            Punctuator::StrictEq => "==="@,
            Punctuator::StrictNotEq => "!=="@,
            Punctuator::Sub => "-"@,
            Punctuator::URightSh => ">>>"@,
            Punctuator::Xor => "^"@,
        }
    }

    /// The punctuator as it is written in source text.
    pub fn as_str(self) -> (text: &'static str)
        ensures
            text@ == self.text(),
    {
        match self {
            Punctuator::Add => "+",
            Punctuator::And => "&",
            Punctuator::Arrow => "=>",
            Punctuator::Assign => "=",
            Punctuator::AssignAdd => "+=",
            Punctuator::AssignAnd => "&=",
            Punctuator::AssignBoolAnd => "&&=",
            Punctuator::AssignBoolOr => "||=",
            Punctuator::AssignCoalesce => "??=",
            Punctuator::AssignDiv => "/=",
            Punctuator::AssignLeftSh => "<<=",
            Punctuator::AssignMod => "%=",
            Punctuator::AssignMul => "*=",
            Punctuator::AssignOr => "|=",
            Punctuator::AssignPow => "**=",
            Punctuator::AssignRightSh => ">>=",
            Punctuator::AssignSub => "-=",
            Punctuator::AssignURightSh => ">>>=",
            Punctuator::AssignXor => "^=",
            Punctuator::BoolAnd => "&&",
            Punctuator::BoolOr => "||",
            Punctuator::CloseBlock => "}",
            Punctuator::CloseBracket => "]",
            Punctuator::CloseParen => ")",
            Punctuator::Coalesce => "??",
            Punctuator::Colon => ":",
            Punctuator::Comma => ",",
            Punctuator::Dec => "--",
            Punctuator::Div => "/",
            Punctuator::Dot => ".",
            Punctuator::Eq => "==",
            Punctuator::GreaterThan => ">",
            Punctuator::GreaterThanOrEq => ">=",
            Punctuator::Inc => "++",
            Punctuator::LeftSh => "<<",
            Punctuator::LessThan => "<",
            Punctuator::LessThanOrEq => "<=",
            Punctuator::Mod => "%",
            Punctuator::Mul => "*",
            Punctuator::Neg => "~",
            Punctuator::Not => "!",
            Punctuator::NotEq => "!=",
            Punctuator::OpenBlock => "{",
            Punctuator::OpenBracket => "[",
            Punctuator::OpenParen => "(",
            Punctuator::Optional => "?.",
            Punctuator::Or => "|",
            Punctuator::Exp => "**",
            Punctuator::Question => "?",
            Punctuator::RightSh => ">>",
            Punctuator::Semicolon => ";",
            Punctuator::Spread => "...",
            Punctuator::StrictEq => "===",
            Punctuator::StrictNotEq => "!==",
            Punctuator::Sub => "-",
            Punctuator::URightSh => ">>>",
            Punctuator::Xor => "^",
        }
    }
}

} // verus!
