//! The reserved words of the language.

use crate::interner::can_intern;
use crate::interner::interned_symbol;
use crate::interner::interner_strings;
use crate::interner::intern_static;
use crate::interner::lookup;
use crate::interner::strings_with;
use crate::interner::symbol_index;
use crate::interner::table_len;
use boa_interner::Interner;
use boa_interner::Sym;
use vstd::prelude::*;

verus! {

/// A reserved word.
#[derive(Clone, Copy, Debug, PartialEq, Eq, Structural)]
pub enum Keyword {
    /// `await`
    Await,
    /// `async`
    Async,
    /// `break`
    Break,
    /// `case`
    Case,
    /// `catch`
    Catch,
    /// `class`
    Class,
    /// `continue`
    Continue,
    /// `const`
    Const,
    /// `debugger`
    Debugger,
    /// `default`
    Default,
    /// `delete`
    Delete,
    /// `do`
    Do,
    /// `else`
    Else,
    /// `enum`
    Enum,
    /// `export`
    Export,
    /// `extends`
    Extends,
    /// `finally`
    Finally,
    /// `for`
    For,
    /// `function`
    Function,
    /// `if`
    If,
    /// `in`
    In,
    /// `instanceof`
    InstanceOf,
    /// `import`
    Import,
    /// `let`
    Let,
    /// `new`
    New,
    /// `of`
    Of,
    /// `return`
    Return,
    /// `super`
    Super,
    /// `switch`
    Switch,
    /// `this`
    This,
    /// `throw`
    Throw,
    /// `try`
    Try,
    /// `typeof`
    TypeOf,
    /// `var`
    Var,
    /// `void`
    Void,
    /// `while`
    While,
    /// `with`
    With,
    /// `yield`
    Yield,
}

impl Keyword {
    /// The word as it is written in source text.
    pub open spec fn text(self) -> Seq<char> {
        match self {
            Keyword::Await => "await"@,
            Keyword::Async => "async"@,
            Keyword::Break => "break"@,
            Keyword::Case => "case"@,
            Keyword::Catch => "catch"@,
            Keyword::Class => "class"@,
            Keyword::Continue => "continue"@,
            Keyword::Const => "const"@,
            Keyword::Debugger => "debugger"@,
            Keyword::Default => "default"@,
            Keyword::Delete => "delete"@,
            Keyword::Do => "do"@,
            Keyword::Else => "else"@,
            Keyword::Enum => "enum"@,
            Keyword::Export => "export"@,
            Keyword::Extends => "extends"@,
            Keyword::Finally => "finally"@,
            Keyword::For => "for"@,
            Keyword::Function => "function"@,
            Keyword::If => "if"@,
            Keyword::In => "in"@,
            Keyword::InstanceOf => "instanceof"@,
            Keyword::Import => "import"@,
            Keyword::Let => "let"@,
            Keyword::New => "new"@,
            Keyword::Of => "of"@,
            Keyword::Return => "return"@,
            Keyword::Super => "super"@,
            Keyword::Switch => "switch"@,
            Keyword::This => "this"@,
            Keyword::Throw => "throw"@,
            Keyword::Try => "try"@,
            Keyword::TypeOf => "typeof"@,
            Keyword::Var => "var"@,
            Keyword::Void => "void"@,
            Keyword::While => "while"@,
            Keyword::With => "with"@,
            Keyword::Yield => "yield"@,
        }
    }

    /// The word as it is written in source text.
    pub fn as_str(self) -> (text: &'static str)
        ensures
            text@ == self.text(),
    {
        match self {
            Keyword::Await => "await",
            Keyword::Async => "async",
            Keyword::Break => "break",
            Keyword::Case => "case",
            Keyword::Catch => "catch",
            Keyword::Class => "class",
            Keyword::Continue => "continue",
            Keyword::Const => "const",
            Keyword::Debugger => "debugger",
            Keyword::Default => "default",
            Keyword::Delete => "delete",
            Keyword::Do => "do",
            Keyword::Else => "else",
            Keyword::Enum => "enum",
            Keyword::Export => "export",
            Keyword::Extends => "extends",
            Keyword::Finally => "finally",
            Keyword::For => "for",
            Keyword::Function => "function",
            Keyword::If => "if",
            Keyword::In => "in",
            Keyword::InstanceOf => "instanceof",
            Keyword::Import => "import",
            Keyword::Let => "let",
            Keyword::New => "new",
            Keyword::Of => "of",
            Keyword::Return => "return",
            Keyword::Super => "super",
            Keyword::Switch => "switch",
            Keyword::This => "this",
            Keyword::Throw => "throw",
            Keyword::Try => "try",
            Keyword::TypeOf => "typeof",
            Keyword::Var => "var",
            Keyword::Void => "void",
            Keyword::While => "while",
            Keyword::With => "with",
            Keyword::Yield => "yield",
        }
    }

    /// The symbol of the word, for a reserved word that is used as a name.
    ///
    /// The word is interned where the table does not hold it yet. `None`
    /// comes back, and the table stays as it is, only where the table is
    /// full and does not hold the word.
    pub fn to_sym(self, interner: &mut Interner) -> (symbol: Option<Sym>)
        ensures
            symbol is Some <==> can_intern(interner_strings(*old(interner)), self.text()),
            symbol matches Some(s) ==> s == interned_symbol(
                interner_strings(*old(interner)),
                self.text(),
            ) && symbol_index(s) == interner_strings(*final(interner)).index_of(self.text()),
            interner_strings(*final(interner)) == (if symbol is Some {
                strings_with(interner_strings(*old(interner)), self.text())
            } else {
                interner_strings(*old(interner))
            }),
    {
        let text = self.as_str();
        match lookup(interner, text) {
            Some(symbol) => Some(symbol),
            None => if table_len(interner) < usize::MAX {
                Some(intern_static(interner, text))
            } else {
                None
            },
        }
    }
}

} // verus!
