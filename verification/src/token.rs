//! Tokens: what the parser reads.

use crate::interner::interner_strings;
use crate::interner::is_interned;
use crate::interner::resolve;
use crate::interner::resolved;
use crate::interner::symbol_text;
use crate::keyword::Keyword;
use crate::position::Span;
use crate::punctuator::Punctuator;
use boa_interner::Interner;
use boa_interner::Sym;
use vstd::prelude::*;
use vstd::string::StringExecFns;

verus! {

/// The text of one piece of a template literal.
#[derive(Clone, Copy, Debug, PartialEq, Eq)]
pub struct TemplateString {
    /// The piece as it was written.
    pub raw: Sym,
    /// The piece with its escapes read; `None` where one of them is invalid.
    pub cooked: Option<Sym>,
}

/// What a token is.
#[derive(Clone, Copy, Debug, PartialEq, Eq)]
pub enum TokenKind {
    /// `true` or `false`.
    BooleanLiteral(bool),
    /// The end of the source text.
    Eof,
    /// A name.
    Identifier(Sym),
    /// A private name, written with `#` before it.
    PrivateIdentifier(Sym),
    /// A reserved word, and whether it was written with an escape in it.
    Keyword(Keyword, bool),
    /// `null`.
    NullLiteral,
    /// A punctuator.
    Punctuator(Punctuator),
    /// A template literal without substitutions.
    TemplateNoSubstitution(TemplateString),
    /// The piece of a template literal before a substitution.
    TemplateMiddle(TemplateString),
}

/// A token: what it is and where it stands.
#[derive(Clone, Copy, Debug, PartialEq, Eq)]
pub struct Token {
    pub kind: TokenKind,
    pub span: Span,
}

impl TokenKind {
    /// Whether the table holds the string of the symbol that `text` reads.
    pub open spec fn is_known(self, strings: Seq<Seq<char>>) -> bool {
        match self {
            TokenKind::Identifier(name) => is_interned(strings, name),
            TokenKind::PrivateIdentifier(name) => is_interned(strings, name),
            TokenKind::TemplateNoSubstitution(template) => is_interned(strings, template.raw),
            TokenKind::TemplateMiddle(template) => is_interned(strings, template.raw),
            _ => true,
        }
    }

    /// The token as an error message shows it.
    pub open spec fn text(self, strings: Seq<Seq<char>>) -> Seq<char> {
        match self {
            TokenKind::BooleanLiteral(value) => if value {
                "true"@
            } else {
                "false"@
            },
            TokenKind::Eof => "end of file"@,
            TokenKind::Identifier(name) => symbol_text(strings, name),
            TokenKind::PrivateIdentifier(name) => "#"@ + symbol_text(strings, name),
            TokenKind::Keyword(word, _) => word.text(),
            TokenKind::NullLiteral => "null"@,
            TokenKind::Punctuator(punctuator) => punctuator.text(),
            TokenKind::TemplateNoSubstitution(template) => symbol_text(strings, template.raw),
            TokenKind::TemplateMiddle(template) => symbol_text(strings, template.raw),
        }
    }
}

impl Token {
    /// A token of the given kind at the given place.
    pub fn new(kind: TokenKind, span: Span) -> (token: Token)
        ensures
            token == (Token { kind, span }),
    {
        Token { kind, span }
    }

    /// Whether the table holds the string of the name that the token's text
    /// is made of, so that `to_string` can be called.
    pub fn is_known(&self, interner: &Interner) -> (known: bool)
        ensures
            known == self.kind.is_known(interner_strings(*interner)),
    {
        match self.kind {
            TokenKind::Identifier(name) => resolve(interner, name).is_some(),
            TokenKind::PrivateIdentifier(name) => resolve(interner, name).is_some(),
            TokenKind::TemplateNoSubstitution(template) => resolve(interner, template.raw).is_some(),
            TokenKind::TemplateMiddle(template) => resolve(interner, template.raw).is_some(),
            _ => true,
        }
    }

    /// The token as an error message shows it.
    pub fn to_string(&self, interner: &Interner) -> (text: String)
        requires
            self.kind.is_known(interner_strings(*interner)),
        ensures
            text@ == self.kind.text(interner_strings(*interner)),
    {
        match self.kind {
            TokenKind::BooleanLiteral(value) => if value {
                "true".to_owned()
            } else {
                "false".to_owned()
            },
            TokenKind::Eof => "end of file".to_owned(),
            TokenKind::Identifier(name) => resolved(interner, name),
            TokenKind::PrivateIdentifier(name) => {
                let name_text = resolved(interner, name);
                "#".to_owned().concat(name_text.as_str())
            },
            TokenKind::Keyword(word, _) => word.as_str().to_owned(),
            TokenKind::NullLiteral => "null".to_owned(),
            TokenKind::Punctuator(punctuator) => punctuator.as_str().to_owned(),
            TokenKind::TemplateNoSubstitution(template) => resolved(interner, template.raw),
            TokenKind::TemplateMiddle(template) => resolved(interner, template.raw),
        }
    }
}

} // verus!
