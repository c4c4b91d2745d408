//! What a member expression is: the tree that a stream of tokens stands
//! for, and the stream that is left behind it.

use crate::error::ParseErrorView;
use crate::interner::can_intern;
use crate::interner::interned_symbol;
use crate::interner::strings_with;
use crate::interner::sym_false;
use crate::interner::sym_null;
use crate::interner::sym_true;
use crate::keyword::Keyword;
use crate::node::CallView;
use crate::node::GetSuperFieldView;
use crate::node::NodeView;
use crate::parser::MemberExpression;
use crate::productions::Outcome;
use crate::productions::Productions;
use crate::productions::Stream;
use crate::punctuator::Punctuator;
use crate::token::Token;
use crate::token::TokenKind;
use boa_interner::Sym;
use vstd::prelude::*;

verus! {

/// The symbol of a token that stands as the name of a property behind a
/// dot: a name, a reserved word, `true`, `false` or `null`. `None` for any
/// other token.
///
/// A reserved word is interned, which fails only where the table is full
/// and does not hold the word: the error is then a `General` one at the
/// token.
pub open spec fn key_symbol(key: Token, strings: Seq<Seq<char>>) -> Option<
    Result<Sym, ParseErrorView>,
> {
    match key.kind {
        TokenKind::Identifier(name) => Some(Ok(name)),
        TokenKind::Keyword(word, _) => Some(
            if can_intern(strings, word.text()) {
                Ok(interned_symbol(strings, word.text()))
            } else {
                Err(
                    ParseErrorView::General {
                        message: "symbol table is full"@,
                        position: key.span.start,
                    },
                )
            },
        ),
        TokenKind::BooleanLiteral(value) => Some(
            Ok(
                if value {
                    sym_true()
                } else {
                    sym_false()
                },
            ),
        ),
        TokenKind::NullLiteral => Some(Ok(sym_null())),
        _ => None,
    }
}

/// The strings of the table after the symbol of a token was asked for.
pub open spec fn key_strings(key: Token, strings: Seq<Seq<char>>) -> Seq<Seq<char>> {
    match key.kind {
        TokenKind::Keyword(word, _) => if can_intern(strings, word.text()) {
            strings_with(strings, word.text())
        } else {
            strings
        },
        _ => strings,
    }
}

/// The property of `super` that the token `key` names behind `super.`;
/// `stream` is what follows the token. A private name is refused.
pub open spec fn super_dot(key: Token, stream: Stream) -> Outcome<NodeView> {
    match key_symbol(key, stream.strings) {
        Some(Ok(field)) => Outcome::done(
            NodeView::GetSuperField(GetSuperFieldView::Const(field)),
            Stream { strings: key_strings(key, stream.strings), ..stream },
        ),
        Some(Err(error)) => Outcome::failed(error, stream),
        None => if key.kind is PrivateIdentifier {
            Outcome::failed(
                ParseErrorView::General {
                    message: "unexpected private identifier"@,
                    position: key.span.start,
                },
                stream,
            )
        } else {
            Outcome::failed(
                ParseErrorView::Unexpected {
                    expected: Seq::empty(),
                    found: key.kind.text(stream.strings),
                    span: key.span,
                    context: "expected super property"@,
                },
                stream,
            )
        },
    }
}

/// The property of `obj` that the token `key` names behind `obj.`; `stream`
/// is what follows the token. The use of a private name is recorded.
pub open spec fn member_dot(obj: NodeView, key: Token, stream: Stream) -> Outcome<NodeView> {
    match key_symbol(key, stream.strings) {
        Some(Ok(field)) => Outcome::done(
            NodeView::GetConstField { obj: Box::new(obj), field },
            Stream { strings: key_strings(key, stream.strings), ..stream },
        ),
        Some(Err(error)) => Outcome::failed(error, stream),
        None => match key.kind {
            TokenKind::PrivateIdentifier(field) => match stream.cursor.record_result(
                key.span.start,
            ) {
                Ok(_) => Outcome::done(
                    NodeView::GetPrivateField { obj: Box::new(obj), field },
                    Stream { cursor: stream.cursor.recorded(field, key.span.start), ..stream },
                ),
                Err(error) => Outcome::failed(error, stream),
            },
            _ => Outcome::failed(
                ParseErrorView::Unexpected {
                    expected: seq!["identifier"@],
                    found: key.kind.text(stream.strings),
                    span: key.span,
                    context: "member expression"@,
                },
                stream,
            ),
        },
    }
}

/// An expression between brackets, up to and with the closing bracket;
/// `stream` is what follows the opening one. `context` is what an error at
/// the closing bracket says was being parsed.
pub open spec fn bracketed<P: Productions>(
    productions: &P,
    parser: MemberExpression,
    context: Seq<char>,
    stream: Stream,
) -> Outcome<NodeView> {
    let inner = productions.expression(stream, None, true, parser.allow_yield, parser.allow_await);
    match inner.result {
        Err(_) => inner,
        Ok(key) => match inner.stream.cursor.expect_result(
            Punctuator::CloseBracket,
            context,
            inner.stream.strings,
        ) {
            Ok(_) => Outcome::done(key, inner.stream.advanced()),
            Err(error) => Outcome::failed(error, inner.stream.advanced()),
        },
    }
}

/// The property of `super` that stands in `stream`, which is what follows
/// the word `super`: `.name` or `[key]`.
pub open spec fn super_property<P: Productions>(
    productions: &P,
    parser: MemberExpression,
    stream: Stream,
) -> Outcome<NodeView> {
    match stream.peek(0) {
        None => Outcome::failed(ParseErrorView::AbruptEnd, stream),
        Some(token) => match token.kind {
            TokenKind::Punctuator(Punctuator::Dot) => match stream.advanced().peek(0) {
                None => Outcome::failed(ParseErrorView::AbruptEnd, stream.advanced()),
                Some(key) => super_dot(key, stream.advanced().advanced()),
            },
            TokenKind::Punctuator(Punctuator::OpenBracket) => {
                let key = bracketed(productions, parser, "super property"@, stream.advanced());
                match key.result {
                    Ok(expr) => Outcome::done(
                        NodeView::GetSuperField(GetSuperFieldView::Expr(Box::new(expr))),
                        key.stream,
                    ),
                    Err(_) => key,
                }
            },
            _ => Outcome::failed(
                ParseErrorView::Unexpected {
                    expected: Seq::empty(),
                    found: token.kind.text(stream.strings),
                    span: token.span,
                    context: "expected super property"@,
                },
                stream.advanced(),
            ),
        },
    }
}

/// The expression that `lhs` grows into by what follows it in `stream`:
/// `.name`, `.#name`, `[key]` and template literals, each applied to all
/// that stands to its left, as long as one of them comes next.
pub open spec fn suffix_chain<P: Productions>(
    productions: &P,
    parser: MemberExpression,
    lhs: NodeView,
    stream: Stream,
) -> Outcome<NodeView>
    decreases stream.cursor.remaining(),
{
    match stream.peek(0) {
        None => Outcome::done(lhs, stream),
        Some(token) => match token.kind {
            TokenKind::Punctuator(Punctuator::Dot) => match stream.advanced().peek(0) {
                None => Outcome::failed(ParseErrorView::AbruptEnd, stream.advanced()),
                Some(key) => {
                    let access = member_dot(lhs, key, stream.advanced().advanced());
                    match access.result {
                        Ok(node) => suffix_chain(productions, parser, node, access.stream),
                        Err(_) => access,
                    }
                },
            },
            TokenKind::Punctuator(Punctuator::OpenBracket) => {
                let key = bracketed(productions, parser, "member expression"@, stream.advanced());
                match key.result {
                    Ok(field) => {
                        proof {
                            productions.expression_follows(
                                stream.advanced(),
                                None,
                                true,
                                parser.allow_yield,
                                parser.allow_await,
                            );
                        }
                        suffix_chain(
                            productions,
                            parser,
                            NodeView::GetField { obj: Box::new(lhs), field: Box::new(field) },
                            key.stream,
                        )
                    },
                    Err(_) => key,
                }
            },
            TokenKind::TemplateNoSubstitution(_) | TokenKind::TemplateMiddle(_) => {
                let tagged = productions.tagged_template(
                    stream,
                    parser.allow_yield,
                    parser.allow_await,
                    token.span.start,
                    lhs,
                );
                match tagged.result {
                    Ok(node) => {
                        proof {
                            productions.tagged_template_follows(
                                stream,
                                parser.allow_yield,
                                parser.allow_await,
                                token.span.start,
                                lhs,
                            );
                        }
                        suffix_chain(productions, parser, node, tagged.stream)
                    },
                    Err(_) => tagged,
                }
            },
            _ => Outcome::done(lhs, stream),
        },
    }
}

/// What comes of the start of a member expression once it is read: an
/// error stays, an expression grows by what follows it.
pub open spec fn continued<P: Productions>(
    productions: &P,
    parser: MemberExpression,
    base: Outcome<NodeView>,
) -> Outcome<NodeView> {
    match base.result {
        Ok(lhs) => suffix_chain(productions, parser, lhs, base.stream),
        Err(_) => base,
    }
}

/// The `new` expression of a callee that was read behind the word `new`:
/// the callee with the argument list that follows it, or with no arguments
/// where no opening parenthesis comes next.
pub open spec fn new_expression<P: Productions>(
    productions: &P,
    parser: MemberExpression,
    callee: Outcome<NodeView>,
) -> Outcome<NodeView> {
    match callee.result {
        Err(_) => callee,
        Ok(function) => if callee.stream.peek(0) matches Some(token) && token.kind
            == TokenKind::Punctuator(Punctuator::OpenParen) {
            let list = productions.arguments(
                callee.stream,
                parser.allow_yield,
                parser.allow_await,
            );
            match list.result {
                Ok(args) => Outcome::done(
                    NodeView::New(CallView { function: Box::new(function), args }),
                    list.stream,
                ),
                Err(error) => Outcome::failed(error, list.stream),
            }
        } else {
            Outcome::done(
                NodeView::New(CallView { function: Box::new(function), args: Seq::empty() }),
                callee.stream,
            )
        },
    }
}

/// The member expression at the start of `stream`, and the stream behind it.
///
/// The first token decides. The word `new` or `super` written with an
/// escape is an error. Behind `new` stands a member expression again, the
/// callee, and then its arguments if there are any. Behind `super` stands
/// one of its properties. Anything else is a primary expression. What was
/// read so far then grows by the accesses and templates that follow.
pub open spec fn member_expression<P: Productions>(
    productions: &P,
    parser: MemberExpression,
    stream: Stream,
) -> Outcome<NodeView>
    decreases stream.cursor.remaining(),
{
    match stream.peek(0) {
        None => Outcome::failed(ParseErrorView::AbruptEnd, stream),
        Some(token) => match token.kind {
            TokenKind::Keyword(Keyword::New, true) | TokenKind::Keyword(Keyword::Super, true) => {
                Outcome::failed(
                    ParseErrorView::General {
                        message: "keyword must not contain escaped characters"@,
                        position: token.span.start,
                    },
                    stream,
                )
            },
            TokenKind::Keyword(Keyword::New, false) => continued(
                productions,
                parser,
                new_expression(
                    productions,
                    parser,
                    member_expression(productions, parser, stream.advanced()),
                ),
            ),
            TokenKind::Keyword(Keyword::Super, false) => continued(
                productions,
                parser,
                super_property(productions, parser, stream.advanced()),
            ),
            _ => continued(
                productions,
                parser,
                productions.primary_expression(
                    stream,
                    parser.name,
                    parser.allow_yield,
                    parser.allow_await,
                ),
            ),
        },
    }
}

} // verus!
