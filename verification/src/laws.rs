//! What holds of every member expression, whatever the productions
//! around it are.

use crate::error::ParseErrorView;
use crate::grammar::bracketed;
use crate::grammar::continued;
use crate::grammar::member_dot;
use crate::grammar::member_expression;
use crate::grammar::new_expression;
use crate::grammar::suffix_chain;
use crate::grammar::super_dot;
use crate::grammar::super_property;
use crate::keyword::Keyword;
use crate::node::NodeView;
use crate::parser::MemberExpression;
use crate::productions::Outcome;
use crate::productions::Productions;
use crate::productions::Stream;
use crate::punctuator::Punctuator;
use crate::token::Token;
use crate::token::TokenKind;
use vstd::prelude::*;

verus! {

/// A property behind a dot leaves a stream that follows the one behind its
/// name.
pub proof fn lemma_member_dot_follows(obj: NodeView, key: Token, stream: Stream)
    ensures
        member_dot(obj, key, stream).stream.follows(stream),
{
}

/// A property of `super` behind a dot leaves a stream that follows the one
/// behind its name.
pub proof fn lemma_super_dot_follows(key: Token, stream: Stream)
    ensures
        super_dot(key, stream).stream.follows(stream),
{
}

/// An expression between brackets leaves a stream that follows the one it
/// read.
pub proof fn lemma_bracketed_follows<P: Productions>(
    productions: &P,
    parser: MemberExpression,
    context: Seq<char>,
    stream: Stream,
)
    ensures
        bracketed(productions, parser, context, stream).stream.follows(stream),
        bracketed(productions, parser, context, stream).result is Ok ==> bracketed(
            productions,
            parser,
            context,
            stream,
        ).stream.cursor.position > stream.cursor.position,
{
    productions.expression_follows(stream, None, true, parser.allow_yield, parser.allow_await);
}

/// A property of `super` leaves a stream that follows the one it read.
pub proof fn lemma_super_property_follows<P: Productions>(
    productions: &P,
    parser: MemberExpression,
    stream: Stream,
)
    ensures
        super_property(productions, parser, stream).stream.follows(stream),
{
    match stream.peek(0) {
        Some(token) => match token.kind {
            TokenKind::Punctuator(Punctuator::Dot) => match stream.advanced().peek(0) {
                Some(key) => {
                    lemma_super_dot_follows(key, stream.advanced().advanced());
                },
                None => {},
            },
            TokenKind::Punctuator(Punctuator::OpenBracket) => {
                lemma_bracketed_follows(productions, parser, "super property"@, stream.advanced());
            },
            _ => {},
        },
        None => {},
    }
}

/// What follows an expression and grows it leaves a stream that follows
/// the one it read.
pub proof fn lemma_suffix_chain_follows<P: Productions>(
    productions: &P,
    parser: MemberExpression,
    lhs: NodeView,
    stream: Stream,
)
    ensures
        suffix_chain(productions, parser, lhs, stream).stream.follows(stream),
    decreases stream.cursor.remaining(),
{
    match stream.peek(0) {
        Some(token) => match token.kind {
            TokenKind::Punctuator(Punctuator::Dot) => match stream.advanced().peek(0) {
                Some(key) => {
                    let access = member_dot(lhs, key, stream.advanced().advanced());
                    lemma_member_dot_follows(lhs, key, stream.advanced().advanced());
                    match access.result {
                        Ok(node) => {
                            lemma_suffix_chain_follows(productions, parser, node, access.stream);
                            suffix_chain(
                                productions,
                                parser,
                                node,
                                access.stream,
                            ).stream.lemma_follows_transitive(access.stream, stream);
                        },
                        Err(_) => {},
                    }
                },
                None => {},
            },
            TokenKind::Punctuator(Punctuator::OpenBracket) => {
                let key = bracketed(productions, parser, "member expression"@, stream.advanced());
                lemma_bracketed_follows(productions, parser, "member expression"@, stream.advanced());
                match key.result {
                    Ok(field) => {
                        let node = NodeView::GetField { obj: Box::new(lhs), field: Box::new(field) };
                        lemma_suffix_chain_follows(productions, parser, node, key.stream);
                        suffix_chain(
                            productions,
                            parser,
                            node,
                            key.stream,
                        ).stream.lemma_follows_transitive(key.stream, stream);
                    },
                    Err(_) => {},
                }
            },
            TokenKind::TemplateNoSubstitution(_) | TokenKind::TemplateMiddle(_) => {
                let tagged = productions.tagged_template(
                    stream,
                    parser.allow_yield,
                    parser.allow_await,
                    token.span.start,
                    lhs,
                );
                productions.tagged_template_follows(
                    stream,
                    parser.allow_yield,
                    parser.allow_await,
                    token.span.start,
                    lhs,
                );
                match tagged.result {
                    Ok(node) => {
                        lemma_suffix_chain_follows(productions, parser, node, tagged.stream);
                        suffix_chain(
                            productions,
                            parser,
                            node,
                            tagged.stream,
                        ).stream.lemma_follows_transitive(tagged.stream, stream);
                    },
                    Err(_) => {},
                }
            },
            _ => {},
        },
        None => {},
    }
}

/// The start of a member expression, grown by what follows it, leaves a
/// stream that follows the one that the start left.
pub proof fn lemma_continued_follows<P: Productions>(
    productions: &P,
    parser: MemberExpression,
    base: Outcome<NodeView>,
)
    ensures
        continued(productions, parser, base).stream.follows(base.stream),
{
    match base.result {
        Ok(lhs) => {
            lemma_suffix_chain_follows(productions, parser, lhs, base.stream);
        },
        Err(_) => {},
    }
}

/// A `new` expression leaves a stream that follows the one behind its
/// callee.
pub proof fn lemma_new_expression_follows<P: Productions>(
    productions: &P,
    parser: MemberExpression,
    callee: Outcome<NodeView>,
)
    ensures
        new_expression(productions, parser, callee).stream.follows(callee.stream),
{
    productions.arguments_follows(callee.stream, parser.allow_yield, parser.allow_await);
}

/// The reader never goes back: a member expression leaves a stream with
/// the same tokens, read at least as far as before, and a table that holds
/// what it held.
pub proof fn lemma_member_expression_follows<P: Productions>(
    productions: &P,
    parser: MemberExpression,
    stream: Stream,
)
    ensures
        member_expression(productions, parser, stream).stream.follows(stream),
    decreases stream.cursor.remaining(),
{
    match stream.peek(0) {
        Some(token) => match token.kind {
            TokenKind::Keyword(Keyword::New, true) | TokenKind::Keyword(Keyword::Super, true) => {},
            TokenKind::Keyword(Keyword::New, false) => {
                let callee = member_expression(productions, parser, stream.advanced());
                lemma_member_expression_follows(productions, parser, stream.advanced());
                let built = new_expression(productions, parser, callee);
                lemma_new_expression_follows(productions, parser, callee);
                lemma_continued_follows(productions, parser, built);
                built.stream.lemma_follows_transitive(callee.stream, stream);
                continued(productions, parser, built).stream.lemma_follows_transitive(
                    built.stream,
                    stream,
                );
            },
            TokenKind::Keyword(Keyword::Super, false) => {
                let property = super_property(productions, parser, stream.advanced());
                lemma_super_property_follows(productions, parser, stream.advanced());
                lemma_continued_follows(productions, parser, property);
                continued(productions, parser, property).stream.lemma_follows_transitive(
                    property.stream,
                    stream,
                );
            },
            _ => {
                let primary = productions.primary_expression(
                    stream,
                    parser.name,
                    parser.allow_yield,
                    parser.allow_await,
                );
                productions.primary_expression_follows(
                    stream,
                    parser.name,
                    parser.allow_yield,
                    parser.allow_await,
                );
                lemma_continued_follows(productions, parser, primary);
                continued(productions, parser, primary).stream.lemma_follows_transitive(
                    primary.stream,
                    stream,
                );
            },
        },
        None => {},
    }
}

/// The word `new` or `super`, written with an escape where a member
/// expression starts, is refused, and nothing is read.
pub proof fn lemma_escaped_keyword_refused<P: Productions>(
    productions: &P,
    parser: MemberExpression,
    stream: Stream,
)
    requires
        stream.peek(0) matches Some(token) && (token.kind == TokenKind::Keyword(Keyword::New, true)
            || token.kind == TokenKind::Keyword(Keyword::Super, true)),
    ensures
        member_expression(productions, parser, stream) == Outcome::<NodeView>::failed(
            ParseErrorView::General {
                message: "keyword must not contain escaped characters"@,
                position: stream.peek(0)->Some_0.span.start,
            },
            stream,
        ),
{
}

/// Where a member expression is to start and no token is left, the error
/// is that the tokens ended.
pub proof fn lemma_cut_short_at_start<P: Productions>(
    productions: &P,
    parser: MemberExpression,
    stream: Stream,
)
    requires
        stream.peek(0) is None,
    ensures
        member_expression(productions, parser, stream) == Outcome::<NodeView>::failed(
            ParseErrorView::AbruptEnd,
            stream,
        ),
{
}

/// Behind a dot with no token after it, whatever stands before the dot,
/// the error is that the tokens ended.
pub proof fn lemma_cut_short_behind_dot<P: Productions>(
    productions: &P,
    parser: MemberExpression,
    lhs: NodeView,
    stream: Stream,
)
    requires
        stream.peek(0) matches Some(token) && token.kind == TokenKind::Punctuator(Punctuator::Dot),
        stream.peek(1) is None,
    ensures
        suffix_chain(productions, parser, lhs, stream) == Outcome::<NodeView>::failed(
            ParseErrorView::AbruptEnd,
            stream.advanced(),
        ),
{
}

} // verus!
