//! The parser of member expressions.

use crate::cursor::result_view;
use crate::cursor::Cursor;
use crate::cursor::CursorView;
use crate::error::texts;
use crate::error::ParseError;
use crate::grammar::bracketed;
use crate::grammar::continued;
use crate::grammar::key_strings;
use crate::grammar::key_symbol;
use crate::grammar::member_expression;
use crate::grammar::new_expression;
use crate::grammar::suffix_chain;
use crate::grammar::super_property;
use crate::interner::false_symbol;
use crate::interner::interner_strings;
use crate::interner::null_symbol;
use crate::interner::true_symbol;
use crate::keyword::Keyword;
use crate::node::nodes_view;
use crate::node::Call;
use crate::node::GetSuperField;
use crate::node::Node;
use crate::node::NodeView;
use crate::productions::node_outcome;
use crate::productions::Outcome;
use crate::productions::Productions;
use crate::productions::Stream;
use crate::punctuator::Punctuator;
use crate::token::Token;
use crate::token::TokenKind;
use boa_interner::Interner;
use boa_interner::Sym;
use vstd::prelude::*;

verus! {

/// The parser of a member expression.
#[derive(Clone, Copy, Debug)]
pub struct MemberExpression {
    /// An identifier that the caller has already met, if any.
    pub name: Option<Sym>,
    /// Whether `yield` expressions are allowed here.
    pub allow_yield: bool,
    /// Whether `await` expressions are allowed here.
    pub allow_await: bool,
}

/// Whether the word `new`, written without an escape, comes next.
spec fn at_new(cursor: CursorView) -> bool {
    cursor.peek(0) matches Some(token) && token.kind == TokenKind::Keyword(Keyword::New, false)
}

/// What comes of a callee that stands behind `pending` words `new`: each of
/// them, from the innermost out, takes its arguments and grows by what
/// follows.
spec fn constructed<P: Productions>(
    productions: &P,
    parser: MemberExpression,
    pending: nat,
    callee: Outcome<NodeView>,
) -> Outcome<NodeView>
    decreases pending,
{
    if pending == 0 {
        callee
    } else {
        constructed(
            productions,
            parser,
            (pending - 1) as nat,
            continued(productions, parser, new_expression(productions, parser, callee)),
        )
    }
}

/// An error stays what it is behind any number of words `new`.
proof fn lemma_constructed_failed<P: Productions>(
    productions: &P,
    parser: MemberExpression,
    pending: nat,
    callee: Outcome<NodeView>,
)
    requires
        callee.result is Err,
    ensures
        constructed(productions, parser, pending, callee) == callee,
    decreases pending,
{
    if pending > 0 {
        lemma_constructed_failed(productions, parser, (pending - 1) as nat, callee);
    }
}

/// The symbol of a token that stands as the name of a property behind a
/// dot: of a name the name itself, of a reserved word the symbol of the
/// word, of `true`, `false` and `null` their fixed symbols. `None` for a
/// token that cannot stand there, for which the table stays as it is.
pub fn property_symbol(key: Token, interner: &mut Interner) -> (name: Option<Result<Sym, ParseError>>)
    ensures
        name is Some <==> key_symbol(key, interner_strings(*old(interner))) is Some,
        name matches Some(symbol) ==> Some(result_view(symbol)) == key_symbol(
            key,
            interner_strings(*old(interner)),
        ),
        interner_strings(*final(interner)) == key_strings(key, interner_strings(*old(interner))),
{
    match key.kind {
        TokenKind::Identifier(name) => Some(Ok(name)),
        TokenKind::Keyword(word, _) => match word.to_sym(interner) {
            Some(name) => Some(Ok(name)),
            None => Some(Err(ParseError::general("symbol table is full", key.span.start))),
        },
        TokenKind::BooleanLiteral(true) => Some(Ok(true_symbol())),
        TokenKind::BooleanLiteral(false) => Some(Ok(false_symbol())),
        TokenKind::NullLiteral => Some(Ok(null_symbol())),
        _ => None,
    }
}

impl MemberExpression {
    /// A parser of member expressions. `name` is an identifier that the
    /// caller has already met, if any; the two flags say whether `yield`
    /// and `await` expressions are allowed where the expression stands.
    pub fn new(name: Option<Sym>, allow_yield: bool, allow_await: bool) -> (parser: Self)
        ensures
            parser == (MemberExpression { name, allow_yield, allow_await }),
    {
        Self { name, allow_yield, allow_await }
    }

    /// Parses the expression between brackets and the closing bracket.
    fn parse_bracketed<P: Productions>(
        self,
        cursor: &mut Cursor,
        interner: &mut Interner,
        productions: &P,
        context: &'static str,
    ) -> (result: Result<Node, ParseError>)
        requires
            Stream::of(*old(cursor), *old(interner)).known(),
        ensures
            node_outcome(result, *final(cursor), *final(interner)) == bracketed(
                productions,
                self,
                context@,
                Stream::of(*old(cursor), *old(interner)),
            ),
            Stream::of(*final(cursor), *final(interner)).follows(
                Stream::of(*old(cursor), *old(interner)),
            ),
    {
        let ghost start = Stream::of(*cursor, *interner);
        proof {
            productions.expression_follows(start, None, true, self.allow_yield, self.allow_await);
        }
        let key = productions.parse_expression(
            cursor,
            interner,
            None,
            true,
            self.allow_yield,
            self.allow_await,
        )?;
        proof {
            Stream::of(*cursor, *interner).lemma_follows_known(start);
        }
        cursor.expect(Punctuator::CloseBracket, context, interner)?;
        Ok(key)
    }

    /// Parses a property of `super`, behind the word itself.
    fn parse_super_property<P: Productions>(
        self,
        cursor: &mut Cursor,
        interner: &mut Interner,
        productions: &P,
    ) -> (result: Result<Node, ParseError>)
        requires
            Stream::of(*old(cursor), *old(interner)).known(),
        ensures
            node_outcome(result, *final(cursor), *final(interner)) == super_property(
                productions,
                self,
                Stream::of(*old(cursor), *old(interner)),
            ),
            Stream::of(*final(cursor), *final(interner)).follows(
                Stream::of(*old(cursor), *old(interner)),
            ),
    {
        let token = match cursor.next() {
            Some(token) => token,
            None => {
                return Err(ParseError::AbruptEnd);
            },
        };
        match token.kind {
            TokenKind::Punctuator(Punctuator::Dot) => {
                let key = match cursor.next() {
                    Some(key) => key,
                    None => {
                        return Err(ParseError::AbruptEnd);
                    },
                };
                match property_symbol(key, interner) {
                    Some(Ok(field)) => Ok(Node::GetSuperField(GetSuperField::Const(field))),
                    Some(Err(error)) => Err(error),
                    None => match key.kind {
                        TokenKind::PrivateIdentifier(_) => Err(
                            ParseError::general("unexpected private identifier", key.span.start),
                        ),
                        _ => Err(
                            ParseError::unexpected(
                                key.to_string(interner),
                                key.span,
                                "expected super property",
                            ),
                        ),
                    },
                }
            },
            TokenKind::Punctuator(Punctuator::OpenBracket) => {
                let expr = self.parse_bracketed(cursor, interner, productions, "super property")?;
                Ok(Node::GetSuperField(GetSuperField::Expr(Box::new(expr))))
            },
            _ => Err(
                ParseError::unexpected(token.to_string(interner), token.span, "expected super property"),
            ),
        }
    }

    /// Parses what follows `lhs` and grows it: `.name`, `.#name`, `[key]`
    /// and template literals, as long as one of them comes next.
    fn parse_suffix_chain<P: Productions>(
        self,
        base: Node,
        cursor: &mut Cursor,
        interner: &mut Interner,
        productions: &P,
    ) -> (result: Result<Node, ParseError>)
        requires
            Stream::of(*old(cursor), *old(interner)).known(),
        ensures
            node_outcome(result, *final(cursor), *final(interner)) == suffix_chain(
                productions,
                self,
                base@,
                Stream::of(*old(cursor), *old(interner)),
            ),
            Stream::of(*final(cursor), *final(interner)).follows(
                Stream::of(*old(cursor), *old(interner)),
            ),
    {
        let ghost start = Stream::of(*cursor, *interner);
        let mut lhs = base;
        loop
            invariant
                start == Stream::of(*old(cursor), *old(interner)),
                Stream::of(*cursor, *interner).known(),
                Stream::of(*cursor, *interner).follows(start),
                suffix_chain(productions, self, lhs@, Stream::of(*cursor, *interner))
                    == suffix_chain(productions, self, base@, start),
            decreases cursor@.remaining(),
        {
            let ghost here = Stream::of(*cursor, *interner);
            let token = match cursor.peek(0) {
                Some(token) => token,
                None => {
                    return Ok(lhs);
                },
            };
            match token.kind {
                TokenKind::Punctuator(Punctuator::Dot) => {
                    let _ = cursor.next();
                    let key = match cursor.next() {
                        Some(key) => key,
                        None => {
                            return Err(ParseError::AbruptEnd);
                        },
                    };
                    match property_symbol(key, interner) {
                        Some(Ok(field)) => {
                            lhs = Node::GetConstField { obj: Box::new(lhs), field };
                        },
                        Some(Err(error)) => {
                            return Err(error);
                        },
                        None => match key.kind {
                            TokenKind::PrivateIdentifier(field) => {
                                cursor.push_used_private_identifier(field, key.span.start)?;
                                lhs = Node::GetPrivateField { obj: Box::new(lhs), field };
                            },
                            _ => {
                                let mut expected: Vec<String> = Vec::new();
                                expected.push("identifier".to_owned());
                                assert(texts(expected@) =~= seq!["identifier"@]);
                                return Err(
                                    ParseError::expected(
                                        expected,
                                        key.to_string(interner),
                                        key.span,
                                        "member expression",
                                    ),
                                );
                            },
                        },
                    }
                },
                TokenKind::Punctuator(Punctuator::OpenBracket) => {
                    let _ = cursor.next();
                    let field = self.parse_bracketed(
                        cursor,
                        interner,
                        productions,
                        "member expression",
                    )?;
                    lhs = Node::GetField { obj: Box::new(lhs), field: Box::new(field) };
                },
                TokenKind::TemplateNoSubstitution(_) | TokenKind::TemplateMiddle(_) => {
                    proof {
                        productions.tagged_template_follows(
                            here,
                            self.allow_yield,
                            self.allow_await,
                            token.span.start,
                            lhs@,
                        );
                    }
                    lhs = productions.parse_tagged_template(
                        cursor,
                        interner,
                        self.allow_yield,
                        self.allow_await,
                        token.span.start,
                        lhs,
                    )?;
                },
                _ => {
                    return Ok(lhs);
                },
            }
            proof {
                Stream::of(*cursor, *interner).lemma_follows_known(here);
                Stream::of(*cursor, *interner).lemma_follows_transitive(here, start);
            }
        }
    }

    /// Whether the word `new`, written without an escape, comes next.
    fn starts_new(cursor: &Cursor) -> (new: bool)
        ensures
            new == at_new(cursor@),
    {
        match cursor.peek(0) {
            Some(token) => match token.kind {
                TokenKind::Keyword(Keyword::New, false) => true,
                _ => false,
            },
            None => false,
        }
    }

    /// Parses the arguments of `new`, if any come next, and builds the `new`
    /// expression of `callee`.
    fn parse_new_expression<P: Productions>(
        self,
        callee: Node,
        cursor: &mut Cursor,
        interner: &mut Interner,
        productions: &P,
    ) -> (result: Result<Node, ParseError>)
        requires
            Stream::of(*old(cursor), *old(interner)).known(),
        ensures
            node_outcome(result, *final(cursor), *final(interner)) == new_expression(
                productions,
                self,
                Outcome::done(callee@, Stream::of(*old(cursor), *old(interner))),
            ),
            Stream::of(*final(cursor), *final(interner)).follows(
                Stream::of(*old(cursor), *old(interner)),
            ),
    {
        let parenthesis = match cursor.peek(0) {
            Some(token) => match token.kind {
                TokenKind::Punctuator(Punctuator::OpenParen) => true,
                _ => false,
            },
            None => false,
        };
        let args = if parenthesis {
            proof {
                productions.arguments_follows(
                    Stream::of(*cursor, *interner),
                    self.allow_yield,
                    self.allow_await,
                );
            }
            productions.parse_arguments(cursor, interner, self.allow_yield, self.allow_await)?
        } else {
            let none: Vec<Node> = Vec::new();
            assert(nodes_view(none@) =~= Seq::empty());
            none
        };
        Ok(Node::New(Call { function: Box::new(callee), args }))
    }

    /// Parses a member expression that does not start with the word `new`.
    fn parse_innermost<P: Productions>(
        self,
        cursor: &mut Cursor,
        interner: &mut Interner,
        productions: &P,
    ) -> (result: Result<Node, ParseError>)
        requires
            Stream::of(*old(cursor), *old(interner)).known(),
            !at_new(old(cursor)@),
        ensures
            node_outcome(result, *final(cursor), *final(interner)) == member_expression(
                productions,
                self,
                Stream::of(*old(cursor), *old(interner)),
            ),
            Stream::of(*final(cursor), *final(interner)).follows(
                Stream::of(*old(cursor), *old(interner)),
            ),
    {
        let ghost start = Stream::of(*cursor, *interner);
        let token = match cursor.peek(0) {
            Some(token) => token,
            None => {
                return Err(ParseError::AbruptEnd);
            },
        };
        let base = match token.kind {
            TokenKind::Keyword(Keyword::New, true) | TokenKind::Keyword(Keyword::Super, true) => {
                return Err(
                    ParseError::general(
                        "keyword must not contain escaped characters",
                        token.span.start,
                    ),
                );
            },
            TokenKind::Keyword(Keyword::Super, false) => {
                let _ = cursor.next();
                self.parse_super_property(cursor, interner, productions)?
            },
            _ => {
                proof {
                    productions.primary_expression_follows(
                        start,
                        self.name,
                        self.allow_yield,
                        self.allow_await,
                    );
                }
                productions.parse_primary_expression(
                    cursor,
                    interner,
                    self.name,
                    self.allow_yield,
                    self.allow_await,
                )?
            },
        };
        let ghost here = Stream::of(*cursor, *interner);
        proof {
            here.lemma_follows_known(start);
        }
        let result = self.parse_suffix_chain(base, cursor, interner, productions);
        proof {
            Stream::of(*cursor, *interner).lemma_follows_transitive(here, start);
        }
        result
    }

    /// Parses a member expression.
    ///
    /// The tokens are read from `cursor`; the symbol of a reserved word that
    /// stands as the name of a property is asked of `interner`; the
    /// expressions that a member expression is made of come from
    /// `productions`, each with the two flags of this parser handed on
    /// unchanged. The first error ends the parse.
    ///
    /// The words `new` that an expression starts with are counted and not
    /// nested in calls, so that no chain of them is too long to be read.
    pub fn parse<P: Productions>(
        self,
        cursor: &mut Cursor,
        interner: &mut Interner,
        productions: &P,
    ) -> (result: Result<Node, ParseError>)
        requires
            Stream::of(*old(cursor), *old(interner)).known(),
        ensures
            node_outcome(result, *final(cursor), *final(interner)) == member_expression(
                productions,
                self,
                Stream::of(*old(cursor), *old(interner)),
            ),
            Stream::of(*final(cursor), *final(interner)).follows(
                Stream::of(*old(cursor), *old(interner)),
            ),
            Stream::of(*final(cursor), *final(interner)).known(),
    {
        let ghost start = Stream::of(*cursor, *interner);
        let mut pending: usize = 0;
        proof {
            cursor.lemma_position();
        }
        while Self::starts_new(cursor)
            invariant
                start == Stream::of(*old(cursor), *old(interner)),
                *interner == *old(interner),
                Stream::of(*cursor, *interner).known(),
                Stream::of(*cursor, *interner).follows(start),
                pending <= cursor@.position,
                member_expression(productions, self, start) == constructed(
                    productions,
                    self,
                    pending as nat,
                    member_expression(productions, self, Stream::of(*cursor, *interner)),
                ),
            decreases cursor@.remaining(),
        {
            let _ = cursor.next();
            proof {
                cursor.lemma_position();
            }
            pending = pending + 1;
        }
        let ghost innermost = Stream::of(*cursor, *interner);
        let mut lhs = match self.parse_innermost(cursor, interner, productions) {
            Ok(node) => node,
            Err(error) => {
                proof {
                    lemma_constructed_failed(
                        productions,
                        self,
                        pending as nat,
                        member_expression(productions, self, innermost),
                    );
                    Stream::of(*cursor, *interner).lemma_follows_transitive(innermost, start);
                    Stream::of(*cursor, *interner).lemma_follows_known(start);
                }
                return Err(error);
            },
        };
        proof {
            Stream::of(*cursor, *interner).lemma_follows_transitive(innermost, start);
            Stream::of(*cursor, *interner).lemma_follows_known(start);
        }
        while pending > 0
            invariant
                start == Stream::of(*old(cursor), *old(interner)),
                Stream::of(*cursor, *interner).known(),
                Stream::of(*cursor, *interner).follows(start),
                member_expression(productions, self, start) == constructed(
                    productions,
                    self,
                    pending as nat,
                    Outcome::done(lhs@, Stream::of(*cursor, *interner)),
                ),
            decreases pending,
        {
            let ghost callee = Outcome::done(lhs@, Stream::of(*cursor, *interner));
            let ghost before = Stream::of(*cursor, *interner);
            let call = match self.parse_new_expression(lhs, cursor, interner, productions) {
                Ok(node) => node,
                Err(error) => {
                    proof {
                        lemma_constructed_failed(
                            productions,
                            self,
                            (pending - 1) as nat,
                            new_expression(productions, self, callee),
                        );
                        Stream::of(*cursor, *interner).lemma_follows_transitive(before, start);
                        Stream::of(*cursor, *interner).lemma_follows_known(before);
                    }
                    return Err(error);
                },
            };
            let ghost between = Stream::of(*cursor, *interner);
            proof {
                between.lemma_follows_transitive(before, start);
                between.lemma_follows_known(before);
            }
            lhs = match self.parse_suffix_chain(call, cursor, interner, productions) {
                Ok(node) => node,
                Err(error) => {
                    proof {
                        lemma_constructed_failed(
                            productions,
                            self,
                            (pending - 1) as nat,
                            continued(productions, self, new_expression(productions, self, callee)),
                        );
                        Stream::of(*cursor, *interner).lemma_follows_transitive(between, start);
                        Stream::of(*cursor, *interner).lemma_follows_known(between);
                    }
                    return Err(error);
                },
            };
            proof {
                Stream::of(*cursor, *interner).lemma_follows_transitive(between, start);
                Stream::of(*cursor, *interner).lemma_follows_known(between);
            }
            pending = pending - 1;
        }
        Ok(lhs)
    }

    /// Parses a member expression where the table holds the strings of all
    /// the tokens' names, as `parse` does. Where it does not, nothing is
    /// read and `None` comes back.
    pub fn try_parse<P: Productions>(
        self,
        cursor: &mut Cursor,
        interner: &mut Interner,
        productions: &P,
    ) -> (result: Option<Result<Node, ParseError>>)
        ensures
            result is Some <==> Stream::of(*old(cursor), *old(interner)).known(),
            result matches Some(parsed) ==> node_outcome(parsed, *final(cursor), *final(interner))
                == member_expression(productions, self, Stream::of(*old(cursor), *old(interner))),
            result is None ==> *final(cursor) == *old(cursor) && *final(interner) == *old(interner),
    {
        if cursor.names_known(interner) {
            Some(self.parse(cursor, interner, productions))
        } else {
            None
        }
    }
}

} // verus!
