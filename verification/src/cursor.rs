//! The reader of the token stream.

use crate::error::ParseError;
use crate::error::ParseErrorView;
use crate::interner::interner_strings;
use crate::position::Position;
use crate::punctuator::Punctuator;
use crate::token::Token;
use crate::token::TokenKind;
use boa_interner::Interner;
use boa_interner::Sym;
use vstd::prelude::*;

verus! {

/// A reader over a list of tokens. It looks ahead without moving, hands the
/// tokens out one by one, and keeps the private names that were used, for
/// each class body that is open, in the order of their use.
pub struct Cursor {
    tokens: Vec<Token>,
    position: usize,
    private_environments: Vec<Vec<(Sym, Position)>>,
}

/// A reader, as contracts speak of it.
pub struct CursorView {
    /// All the tokens, read or not.
    pub tokens: Seq<Token>,
    /// How many of them have been read.
    pub position: int,
    /// The private names in use, outermost class body first.
    pub private_environments: Seq<Seq<(Sym, Position)>>,
}

impl CursorView {
    /// Whether the table holds the strings of the names of all the tokens
    /// that are still to be read.
    pub open spec fn names_known(self, strings: Seq<Seq<char>>) -> bool {
        forall|i: int|
            self.position <= i < self.tokens.len() ==> (#[trigger] self.tokens[i]).kind.is_known(
                strings,
            )
    }

    /// The token that stands `skip_n` tokens after the next one.
    pub open spec fn peek(self, skip_n: int) -> Option<Token> {
        if 0 <= self.position + skip_n < self.tokens.len() {
            Some(self.tokens[self.position + skip_n])
        } else {
            None
        }
    }

    /// The number of tokens that are still to be read.
    pub open spec fn remaining(self) -> nat {
        if 0 <= self.position <= self.tokens.len() {
            (self.tokens.len() - self.position) as nat
        } else {
            0
        }
    }

    /// The reader after the next token was read, if there is one.
    pub open spec fn advanced(self) -> CursorView {
        if self.peek(0) is Some {
            CursorView { position: self.position + 1, ..self }
        } else {
            self
        }
    }

    /// The reader after a use of a private name was recorded in the
    /// innermost open class body.
    pub open spec fn recorded(self, identifier: Sym, position: Position) -> CursorView {
        let innermost = self.private_environments.len() - 1;
        CursorView {
            private_environments: self.private_environments.update(
                innermost,
                self.private_environments[innermost].push((identifier, position)),
            ),
            ..self
        }
    }

    /// The reader with one more class body open.
    pub open spec fn entered(self) -> CursorView {
        CursorView { private_environments: self.private_environments.push(Seq::empty()), ..self }
    }

    /// What `expect` returns.
    pub open spec fn expect_result(
        self,
        punctuator: Punctuator,
        context: Seq<char>,
        strings: Seq<Seq<char>>,
    ) -> Result<(), ParseErrorView> {
        match self.peek(0) {
            None => Err(ParseErrorView::AbruptEnd),
            Some(token) => if token.kind == TokenKind::Punctuator(punctuator) {
                Ok(())
            } else {
                Err(
                    ParseErrorView::Unexpected {
                        expected: seq![punctuator.text()],
                        found: token.kind.text(strings),
                        span: token.span,
                        context,
                    },
                )
            },
        }
    }

    /// What `push_used_private_identifier` returns.
    pub open spec fn record_result(self, position: Position) -> Result<(), ParseErrorView> {
        if self.private_environments.len() > 0 {
            Ok(())
        } else {
            Err(
                ParseErrorView::General {
                    message: "private identifier declared outside of class"@,
                    position,
                },
            )
        }
    }
}

impl View for Cursor {
    type V = CursorView;

    closed spec fn view(&self) -> CursorView {
        CursorView {
            tokens: self.tokens@,
            position: self.position as int,
            private_environments: Seq::new(
                self.private_environments@.len(),
                |i: int| self.private_environments@[i]@,
            ),
        }
    }
}

impl Cursor {
    /// A reader at the start of `tokens`, with no class body open.
    pub fn new(tokens: Vec<Token>) -> (cursor: Cursor)
        ensures
            cursor@ == (CursorView {
                tokens: tokens@,
                position: 0,
                private_environments: Seq::empty(),
            }),
    {
        let cursor = Cursor { tokens, position: 0, private_environments: Vec::new() };
        assert(cursor@.private_environments =~= Seq::empty());
        cursor
    }

    /// The number of tokens read is a number that the machine can hold.
    pub proof fn lemma_position(self)
        ensures
            0 <= self@.position <= usize::MAX,
    {
    }

    /// How many tokens have been read.
    pub fn position(&self) -> (position: usize)
        ensures
            position == self@.position,
    {
        self.position
    }

    /// The private names in use, outermost class body first.
    pub fn private_environments(&self) -> (environments: &Vec<Vec<(Sym, Position)>>)
        ensures
            environments@.len() == self@.private_environments.len(),
            forall|i: int|
                0 <= i < environments@.len() ==> (#[trigger] environments@[i])@
                    == self@.private_environments[i],
    {
        &self.private_environments
    }

    /// Whether the table holds the strings of the names of all the tokens
    /// that are still to be read, which is what an error message needs to
    /// show any of them.
    pub fn names_known(&self, interner: &Interner) -> (known: bool)
        ensures
            known == self@.names_known(interner_strings(*interner)),
    {
        let mut index: usize = self.position;
        while index < self.tokens.len()
            invariant
                self.position <= index,
                forall|i: int|
                    self.position <= i < index ==> (#[trigger] self.tokens@[i]).kind.is_known(
                        interner_strings(*interner),
                    ),
            decreases self.tokens.len() - index,
        {
            if !self.tokens[index].is_known(interner) {
                return false;
            }
            index = index + 1;
        }
        true
    }

    /// The token that stands `skip_n` tokens after the next one, without
    /// reading it; `None` past the end.
    pub fn peek(&self, skip_n: usize) -> (token: Option<Token>)
        ensures
            token == self@.peek(skip_n as int),
    {
        if self.position < self.tokens.len() && skip_n < self.tokens.len() - self.position {
            Some(self.tokens[self.position + skip_n])
        } else {
            None
        }
    }

    /// Reads the next token; `None` at the end, where the reader stays.
    pub fn next(&mut self) -> (token: Option<Token>)
        ensures
            token == old(self)@.peek(0),
            final(self)@ == old(self)@.advanced(),
    {
        if self.position < self.tokens.len() {
            let token = self.tokens[self.position];
            self.position = self.position + 1;
            Some(token)
        } else {
            None
        }
    }

    /// Reads the next token, which has to be the given punctuator.
    ///
    /// The token is read whatever it is. At the end of the tokens the error
    /// is `AbruptEnd`; for another token it names the punctuator, the token
    /// found and `context`. The table has to hold the string of the token's
    /// name, if it has one, so that the error can show the token.
    pub fn expect(&mut self, punctuator: Punctuator, context: &'static str, interner: &Interner) -> (result:
        Result<(), ParseError>)
        requires
            old(self)@.peek(0) matches Some(token) ==> token.kind.is_known(
                interner_strings(*interner),
            ),
        ensures
            final(self)@ == old(self)@.advanced(),
            result_view(result) == old(self)@.expect_result(
                punctuator,
                context@,
                interner_strings(*interner),
            ),
    {
        match self.next() {
            None => Err(ParseError::AbruptEnd),
            Some(token) => {
                let expected = match token.kind {
                    TokenKind::Punctuator(found) => found == punctuator,
                    _ => false,
                };
                if expected {
                    Ok(())
                } else {
                    let mut expected: Vec<String> = Vec::new();
                    expected.push(punctuator.as_str().to_owned());
                    assert(crate::error::texts(expected@) =~= seq![punctuator.text()]);
                    Err(ParseError::expected(expected, token.to_string(interner), token.span, context))
                }
            },
        }
    }

    /// Opens a class body: the private names used from here on are kept
    /// apart from those of the bodies around it.
    pub fn push_private_environment(&mut self)
        ensures
            final(self)@ == old(self)@.entered(),
    {
        self.private_environments.push(Vec::new());
        assert(self@.private_environments =~= old(self)@.entered().private_environments);
    }

    /// Records the use of a private name at a place, in the innermost open
    /// class body. Outside every class body nothing is recorded and the
    /// error is a `General` one at that place.
    pub fn push_used_private_identifier(&mut self, identifier: Sym, position: Position) -> (result:
        Result<(), ParseError>)
        ensures
            result_view(result) == old(self)@.record_result(position),
            final(self)@ == (if result is Ok {
                old(self)@.recorded(identifier, position)
            } else {
                old(self)@
            }),
    {
        match self.private_environments.pop() {
            Some(mut environment) => {
                environment.push((identifier, position));
                self.private_environments.push(environment);
                assert(self@.private_environments =~= old(self)@.recorded(
                    identifier,
                    position,
                ).private_environments);
                Ok(())
            },
            None => Err(
                ParseError::general("private identifier declared outside of class", position),
            ),
        }
    }
}

/// A result with its error as contracts speak of it.
pub open spec fn result_view<T>(result: Result<T, ParseError>) -> Result<T, ParseErrorView> {
    match result {
        Ok(value) => Ok(value),
        Err(error) => Err(error@),
    }
}

} // verus!
