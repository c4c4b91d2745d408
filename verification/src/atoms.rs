//! The productions of a language whose operands are single tokens.

use crate::cursor::Cursor;
use crate::error::texts;
use crate::error::ParseError;
use crate::error::ParseErrorView;
use crate::keyword::Keyword;
use crate::node::nodes_view;
use crate::node::Node;
use crate::node::NodeView;
use crate::position::Position;
use crate::productions::node_outcome;
use crate::productions::Outcome;
use crate::productions::Productions;
use crate::productions::Stream;
use crate::punctuator::Punctuator;
use crate::token::TokenKind;
use boa_interner::Interner;
use boa_interner::Sym;
use vstd::prelude::*;

verus! {

/// The productions of a language in which every operand is one token: a
/// name, `this`, `true`, `false` or `null`.
///
/// A primary expression and an expression are such a token, or the name
/// that the caller has already met, for which no token is read. An argument
/// list is operands between parentheses, with commas between them. A
/// template literal is its pieces, with an operand and a closing brace
/// behind each piece but the last. The flags decide nothing here.
#[derive(Clone, Copy, Debug)]
pub struct Atoms;

/// The operand that the next token is.
pub open spec fn atom(stream: Stream) -> Outcome<NodeView> {
    match stream.peek(0) {
        None => Outcome::failed(ParseErrorView::AbruptEnd, stream),
        Some(token) => match token.kind {
            TokenKind::Identifier(name) => Outcome::done(
                NodeView::Identifier(name),
                stream.advanced(),
            ),
            TokenKind::Keyword(Keyword::This, _) => Outcome::done(
                NodeView::This,
                stream.advanced(),
            ),
            TokenKind::BooleanLiteral(value) => Outcome::done(
                NodeView::Boolean(value),
                stream.advanced(),
            ),
            TokenKind::NullLiteral => Outcome::done(NodeView::Null, stream.advanced()),
            _ => Outcome::failed(
                ParseErrorView::Unexpected {
                    expected: Seq::empty(),
                    found: token.kind.text(stream.strings),
                    span: token.span,
                    context: "primary expression"@,
                },
                stream.advanced(),
            ),
        },
    }
}

/// The operand at the start of `stream`: the name already met, or else the
/// next token.
pub open spec fn operand(stream: Stream, name: Option<Sym>) -> Outcome<NodeView> {
    match name {
        Some(name) => Outcome::done(NodeView::Identifier(name), stream),
        None => atom(stream),
    }
}

/// The rest of an argument list, from the start of an argument on; `args`
/// are the arguments before it.
pub open spec fn argument_list(stream: Stream, args: Seq<NodeView>) -> Outcome<Seq<NodeView>>
    decreases stream.cursor.remaining(),
{
    let argument = atom(stream);
    match argument.result {
        Err(error) => Outcome::failed(error, argument.stream),
        Ok(node) => match argument.stream.peek(0) {
            None => Outcome::failed(ParseErrorView::AbruptEnd, argument.stream),
            Some(token) => match token.kind {
                TokenKind::Punctuator(Punctuator::CloseParen) => Outcome::done(
                    args.push(node),
                    argument.stream.advanced(),
                ),
                TokenKind::Punctuator(Punctuator::Comma) => argument_list(
                    argument.stream.advanced(),
                    args.push(node),
                ),
                _ => Outcome::failed(
                    ParseErrorView::Unexpected {
                        expected: seq![","@, ")"@],
                        found: token.kind.text(argument.stream.strings),
                        span: token.span,
                        context: "argument list"@,
                    },
                    argument.stream.advanced(),
                ),
            },
        },
    }
}

/// The argument list at the start of `stream`, parentheses and all.
pub open spec fn parenthesized(stream: Stream) -> Outcome<Seq<NodeView>> {
    match stream.cursor.expect_result(Punctuator::OpenParen, "arguments"@, stream.strings) {
        Err(error) => Outcome::failed(error, stream.advanced()),
        Ok(_) => if stream.advanced().peek(0) matches Some(token) && token.kind
            == TokenKind::Punctuator(Punctuator::CloseParen) {
            Outcome::done(Seq::empty(), stream.advanced().advanced())
        } else {
            argument_list(stream.advanced(), Seq::empty())
        },
    }
}

/// The rest of a template literal behind `tag`, from the start of a piece
/// on; `raws`, `cookeds` and `exprs` are what was read of it before.
pub open spec fn template_pieces(
    stream: Stream,
    start: Position,
    tag: NodeView,
    raws: Seq<Sym>,
    cookeds: Seq<Option<Sym>>,
    exprs: Seq<NodeView>,
) -> Outcome<NodeView>
    decreases stream.cursor.remaining(),
{
    match stream.peek(0) {
        None => Outcome::failed(ParseErrorView::AbruptEnd, stream),
        Some(token) => match token.kind {
            TokenKind::TemplateNoSubstitution(piece) => Outcome::done(
                NodeView::TaggedTemplate {
                    tag: Box::new(tag),
                    raws: raws.push(piece.raw),
                    cookeds: cookeds.push(piece.cooked),
                    exprs,
                },
                stream.advanced(),
            ),
            TokenKind::TemplateMiddle(piece) => {
                let substitution = atom(stream.advanced());
                match substitution.result {
                    Err(error) => Outcome::failed(error, substitution.stream),
                    Ok(expr) => match substitution.stream.cursor.expect_result(
                        Punctuator::CloseBlock,
                        "template literal"@,
                        substitution.stream.strings,
                    ) {
                        Err(error) => Outcome::failed(error, substitution.stream.advanced()),
                        Ok(_) => template_pieces(
                            substitution.stream.advanced(),
                            start,
                            tag,
                            raws.push(piece.raw),
                            cookeds.push(piece.cooked),
                            exprs.push(expr),
                        ),
                    },
                }
            },
            _ => Outcome::failed(
                ParseErrorView::General {
                    message: "cannot parse tagged template literal"@,
                    position: start,
                },
                stream.advanced(),
            ),
        },
    }
}

/// An operand leaves a stream that follows the one it read, and where it
/// went well it has read one token.
pub proof fn lemma_atom_follows(stream: Stream)
    ensures
        atom(stream).stream.follows(stream),
        atom(stream).result is Ok ==> atom(stream).stream.cursor.position == stream.cursor.position
            + 1,
{
}

/// The rest of an argument list leaves a stream that follows the one it
/// read.
pub proof fn lemma_argument_list_follows(stream: Stream, args: Seq<NodeView>)
    ensures
        argument_list(stream, args).stream.follows(stream),
    decreases stream.cursor.remaining(),
{
    let argument = atom(stream);
    lemma_atom_follows(stream);
    if argument.result is Ok {
        if argument.stream.peek(0) matches Some(token) && token.kind == TokenKind::Punctuator(
            Punctuator::Comma,
        ) {
            lemma_argument_list_follows(argument.stream.advanced(), args.push(argument.result->Ok_0));
        }
    }
}

/// The rest of a template literal leaves a stream that follows the one it
/// read, and where it went well it has read at least one token.
pub proof fn lemma_template_pieces_follows(
    stream: Stream,
    start: Position,
    tag: NodeView,
    raws: Seq<Sym>,
    cookeds: Seq<Option<Sym>>,
    exprs: Seq<NodeView>,
)
    ensures
        template_pieces(stream, start, tag, raws, cookeds, exprs).stream.follows(stream),
        template_pieces(stream, start, tag, raws, cookeds, exprs).result is Ok ==> template_pieces(
            stream,
            start,
            tag,
            raws,
            cookeds,
            exprs,
        ).stream.cursor.position > stream.cursor.position,
    decreases stream.cursor.remaining(),
{
    match stream.peek(0) {
        Some(token) => match token.kind {
            TokenKind::TemplateMiddle(piece) => {
                let substitution = atom(stream.advanced());
                lemma_atom_follows(stream.advanced());
                match substitution.result {
                    Ok(expr) => {
                        if substitution.stream.cursor.expect_result(
                            Punctuator::CloseBlock,
                            "template literal"@,
                            substitution.stream.strings,
                        ) is Ok {
                            lemma_template_pieces_follows(
                                substitution.stream.advanced(),
                                start,
                                tag,
                                raws.push(piece.raw),
                                cookeds.push(piece.cooked),
                                exprs.push(expr),
                            );
                        }
                    },
                    Err(_) => {},
                }
            },
            _ => {},
        },
        None => {},
    }
}

/// The trees of a list that grew by one node.
pub proof fn lemma_nodes_view_push(nodes: Seq<Node>, node: Node)
    ensures
        nodes_view(nodes.push(node)) == nodes_view(nodes).push(node@),
{
    assert(nodes_view(nodes.push(node)) =~= nodes_view(nodes).push(node@));
}

/// Reads the operand that the next token is.
fn parse_atom(cursor: &mut Cursor, interner: &Interner) -> (result: Result<Node, ParseError>)
    requires
        Stream::of(*old(cursor), *interner).known(),
    ensures
        node_outcome(result, *final(cursor), *interner) == atom(Stream::of(*old(cursor), *interner)),
{
    let token = match cursor.next() {
        Some(token) => token,
        None => {
            return Err(ParseError::AbruptEnd);
        },
    };
    match token.kind {
        TokenKind::Identifier(name) => Ok(Node::Identifier(name)),
        TokenKind::Keyword(Keyword::This, _) => Ok(Node::This),
        TokenKind::BooleanLiteral(value) => Ok(Node::Boolean(value)),
        TokenKind::NullLiteral => Ok(Node::Null),
        _ => Err(ParseError::unexpected(token.to_string(interner), token.span, "primary expression")),
    }
}

impl Productions for Atoms {
    open spec fn primary_expression(
        &self,
        stream: Stream,
        name: Option<Sym>,
        allow_yield: bool,
        allow_await: bool,
    ) -> Outcome<NodeView> {
        operand(stream, name)
    }

    open spec fn expression(
        &self,
        stream: Stream,
        name: Option<Sym>,
        allow_in: bool,
        allow_yield: bool,
        allow_await: bool,
    ) -> Outcome<NodeView> {
        operand(stream, name)
    }

    open spec fn arguments(&self, stream: Stream, allow_yield: bool, allow_await: bool) -> Outcome<
        Seq<NodeView>,
    > {
        parenthesized(stream)
    }

    open spec fn tagged_template(
        &self,
        stream: Stream,
        allow_yield: bool,
        allow_await: bool,
        start: Position,
        tag: NodeView,
    ) -> Outcome<NodeView> {
        template_pieces(stream, start, tag, Seq::empty(), Seq::empty(), Seq::empty())
    }

    proof fn primary_expression_follows(
        &self,
        stream: Stream,
        name: Option<Sym>,
        allow_yield: bool,
        allow_await: bool,
    ) {
    }

    proof fn expression_follows(
        &self,
        stream: Stream,
        name: Option<Sym>,
        allow_in: bool,
        allow_yield: bool,
        allow_await: bool,
    ) {
    }

    proof fn arguments_follows(&self, stream: Stream, allow_yield: bool, allow_await: bool) {
        lemma_argument_list_follows(stream.advanced(), Seq::empty());
    }

    proof fn tagged_template_follows(
        &self,
        stream: Stream,
        allow_yield: bool,
        allow_await: bool,
        start: Position,
        tag: NodeView,
    ) {
        lemma_template_pieces_follows(stream, start, tag, Seq::empty(), Seq::empty(), Seq::empty());
    }

    fn parse_primary_expression(
        &self,
        cursor: &mut Cursor,
        interner: &mut Interner,
        name: Option<Sym>,
        allow_yield: bool,
        allow_await: bool,
    ) -> (result: Result<Node, ParseError>) {
        match name {
            Some(name) => Ok(Node::Identifier(name)),
            None => parse_atom(cursor, interner),
        }
    }

    fn parse_expression(
        &self,
        cursor: &mut Cursor,
        interner: &mut Interner,
        name: Option<Sym>,
        allow_in: bool,
        allow_yield: bool,
        allow_await: bool,
    ) -> (result: Result<Node, ParseError>) {
        match name {
            Some(name) => Ok(Node::Identifier(name)),
            None => parse_atom(cursor, interner),
        }
    }

    fn parse_arguments(
        &self,
        cursor: &mut Cursor,
        interner: &mut Interner,
        allow_yield: bool,
        allow_await: bool,
    ) -> (result: Result<Vec<Node>, ParseError>) {
        let ghost start = Stream::of(*cursor, *interner);
        cursor.expect(Punctuator::OpenParen, "arguments", interner)?;
        let mut args: Vec<Node> = Vec::new();
        assert(nodes_view(args@) =~= Seq::empty());
        let empty = match cursor.peek(0) {
            Some(token) => match token.kind {
                TokenKind::Punctuator(Punctuator::CloseParen) => true,
                _ => false,
            },
            None => false,
        };
        if empty {
            let _ = cursor.next();
            return Ok(args);
        }
        loop
            invariant
                *interner == *old(interner),
                start == Stream::of(*old(cursor), *old(interner)),
                Stream::of(*cursor, *interner).known(),
                argument_list(Stream::of(*cursor, *interner), nodes_view(args@)) == parenthesized(
                    start,
                ),
            decreases cursor@.remaining(),
        {
            let ghost here = Stream::of(*cursor, *interner);
            proof {
                lemma_atom_follows(here);
            }
            let node = parse_atom(cursor, interner)?;
            proof {
                lemma_nodes_view_push(args@, node);
            }
            args.push(node);
            let token = match cursor.next() {
                Some(token) => token,
                None => {
                    return Err(ParseError::AbruptEnd);
                },
            };
            match token.kind {
                TokenKind::Punctuator(Punctuator::CloseParen) => {
                    return Ok(args);
                },
                TokenKind::Punctuator(Punctuator::Comma) => {},
                _ => {
                    let mut expected: Vec<String> = Vec::new();
                    expected.push(",".to_owned());
                    expected.push(")".to_owned());
                    assert(texts(expected@) =~= seq![","@, ")"@]);
                    return Err(
                        ParseError::expected(
                            expected,
                            token.to_string(interner),
                            token.span,
                            "argument list",
                        ),
                    );
                },
            }
        }
    }

    fn parse_tagged_template(
        &self,
        cursor: &mut Cursor,
        interner: &mut Interner,
        allow_yield: bool,
        allow_await: bool,
        start: Position,
        tag: Node,
    ) -> (result: Result<Node, ParseError>) {
        let ghost first = Stream::of(*cursor, *interner);
        let mut raws: Vec<Sym> = Vec::new();
        let mut cookeds: Vec<Option<Sym>> = Vec::new();
        let mut exprs: Vec<Node> = Vec::new();
        assert(nodes_view(exprs@) =~= Seq::empty());
        loop
            invariant
                *interner == *old(interner),
                first == Stream::of(*old(cursor), *old(interner)),
                Stream::of(*cursor, *interner).known(),
                template_pieces(
                    Stream::of(*cursor, *interner),
                    start,
                    tag@,
                    raws@,
                    cookeds@,
                    nodes_view(exprs@),
                ) == template_pieces(first, start, tag@, Seq::empty(), Seq::empty(), Seq::empty()),
            decreases cursor@.remaining(),
        {
            let token = match cursor.next() {
                Some(token) => token,
                None => {
                    return Err(ParseError::AbruptEnd);
                },
            };
            match token.kind {
                TokenKind::TemplateNoSubstitution(piece) => {
                    raws.push(piece.raw);
                    cookeds.push(piece.cooked);
                    return Ok(Node::TaggedTemplate { tag: Box::new(tag), raws, cookeds, exprs });
                },
                TokenKind::TemplateMiddle(piece) => {
                    raws.push(piece.raw);
                    cookeds.push(piece.cooked);
                    proof {
                        lemma_atom_follows(Stream::of(*cursor, *interner));
                    }
                    let expr = parse_atom(cursor, interner)?;
                    proof {
                        lemma_nodes_view_push(exprs@, expr);
                    }
                    exprs.push(expr);
                    cursor.expect(Punctuator::CloseBlock, "template literal", interner)?;
                },
                _ => {
                    return Err(ParseError::general("cannot parse tagged template literal", start));
                },
            }
        }
    }
}

} // verus!
