//! The productions around the member expression: what the parser hands
//! over to, and what it asks of them.

use crate::cursor::Cursor;
use crate::cursor::CursorView;
use crate::error::ParseError;
use crate::error::ParseErrorView;
use crate::interner::interner_strings;
use crate::node::nodes_view;
use crate::node::Node;
use crate::node::NodeView;
use crate::position::Position;
use crate::token::Token;
use boa_interner::Interner;
use boa_interner::Sym;
use vstd::prelude::*;

verus! {

/// Whether a table holds, at their places, all the strings that it held
/// earlier.
pub open spec fn extends(later: Seq<Seq<char>>, earlier: Seq<Seq<char>>) -> bool {
    &&& earlier.len() <= later.len()
    &&& forall|i: int| 0 <= i < earlier.len() ==> later[i] == #[trigger] earlier[i]
}

/// All that a production reads and changes: the reader and the strings of
/// the table.
pub struct Stream {
    pub cursor: CursorView,
    pub strings: Seq<Seq<char>>,
}

/// What a production leaves behind: its result, and the reader and the table
/// as they are afterwards.
pub struct Outcome<T> {
    pub result: Result<T, ParseErrorView>,
    pub stream: Stream,
}

impl Stream {
    /// The stream of a reader and a table.
    pub open spec fn of(cursor: Cursor, interner: Interner) -> Stream {
        Stream { cursor: cursor@, strings: interner_strings(interner) }
    }

    /// Whether the table holds the strings of the names of all the tokens
    /// that are still to be read.
    pub open spec fn known(self) -> bool {
        self.cursor.names_known(self.strings)
    }

    /// The token that stands `skip_n` tokens after the next one.
    pub open spec fn peek(self, skip_n: int) -> Option<Token> {
        self.cursor.peek(skip_n)
    }

    /// The stream after the next token was read, if there is one.
    pub open spec fn advanced(self) -> Stream {
        Stream { cursor: self.cursor.advanced(), ..self }
    }

    /// Whether this stream can come after `earlier`: the tokens are the
    /// same, the reader has not gone back, and the table holds what it held.
    pub open spec fn follows(self, earlier: Stream) -> bool {
        &&& self.cursor.tokens == earlier.cursor.tokens
        &&& self.cursor.position >= earlier.cursor.position
        &&& extends(self.strings, earlier.strings)
    }

    /// A stream that follows one whose names the table holds is one whose
    /// names the table holds.
    pub proof fn lemma_follows_known(self, earlier: Stream)
        requires
            self.follows(earlier),
            earlier.known(),
        ensures
            self.known(),
    {
        assert forall|i: int| self.cursor.position <= i < self.cursor.tokens.len() implies (
        #[trigger] self.cursor.tokens[i]).kind.is_known(self.strings) by {
            assert(earlier.cursor.tokens[i].kind.is_known(earlier.strings));
        }
    }

    /// What follows a stream that follows another follows that one too.
    pub proof fn lemma_follows_transitive(self, middle: Stream, earlier: Stream)
        requires
            self.follows(middle),
            middle.follows(earlier),
        ensures
            self.follows(earlier),
    {
        assert forall|i: int| 0 <= i < earlier.strings.len() implies self.strings[i] == (
        #[trigger] earlier.strings[i]) by {
            assert(middle.strings[i] == earlier.strings[i]);
        }
    }
}

impl<T> Outcome<T> {
    /// The outcome of a production that went well.
    pub open spec fn done(value: T, stream: Stream) -> Outcome<T> {
        Outcome { result: Ok(value), stream }
    }

    /// The outcome of a production that failed.
    pub open spec fn failed(error: ParseErrorView, stream: Stream) -> Outcome<T> {
        Outcome { result: Err(error), stream }
    }
}

/// The outcome of a call that returned one node.
pub open spec fn node_outcome(result: Result<Node, ParseError>, cursor: Cursor, interner: Interner) -> Outcome<
    NodeView,
> {
    Outcome {
        result: match result {
            Ok(node) => Ok(node@),
            Err(error) => Err(error@),
        },
        stream: Stream::of(cursor, interner),
    }
}

/// The outcome of a call that returned a list of nodes.
pub open spec fn nodes_outcome(
    result: Result<Vec<Node>, ParseError>,
    cursor: Cursor,
    interner: Interner,
) -> Outcome<Seq<NodeView>> {
    Outcome {
        result: match result {
            Ok(nodes) => Ok(nodes_view(nodes@)),
            Err(error) => Err(error@),
        },
        stream: Stream::of(cursor, interner),
    }
}

/// The productions that a member expression is made of besides its own:
/// the expression it starts with, the expression between brackets, the
/// arguments of `new`, and the template literal behind a tag.
///
/// Each production is a function of the stream and of what it is asked for:
/// its `spec` function says what it yields, and its `parse_` method yields
/// just that. None of them changes the tokens, goes back in them, or makes
/// the table forget a string.
pub trait Productions {
    /// What the primary expression at the start of `stream` is.
    spec fn primary_expression(
        &self,
        stream: Stream,
        name: Option<Sym>,
        allow_yield: bool,
        allow_await: bool,
    ) -> Outcome<NodeView>;

    /// What the expression at the start of `stream` is.
    spec fn expression(
        &self,
        stream: Stream,
        name: Option<Sym>,
        allow_in: bool,
        allow_yield: bool,
        allow_await: bool,
    ) -> Outcome<NodeView>;

    /// What the argument list at the start of `stream` is.
    spec fn arguments(&self, stream: Stream, allow_yield: bool, allow_await: bool) -> Outcome<
        Seq<NodeView>,
    >;

    /// What the template literal at the start of `stream` is behind `tag`.
    spec fn tagged_template(
        &self,
        stream: Stream,
        allow_yield: bool,
        allow_await: bool,
        start: Position,
        tag: NodeView,
    ) -> Outcome<NodeView>;

    /// A primary expression leaves a stream that follows the one it read.
    proof fn primary_expression_follows(
        &self,
        stream: Stream,
        name: Option<Sym>,
        allow_yield: bool,
        allow_await: bool,
    )
        ensures
            self.primary_expression(stream, name, allow_yield, allow_await).stream.follows(stream),
    ;

    /// An expression leaves a stream that follows the one it read.
    proof fn expression_follows(
        &self,
        stream: Stream,
        name: Option<Sym>,
        allow_in: bool,
        allow_yield: bool,
        allow_await: bool,
    )
        ensures
            self.expression(stream, name, allow_in, allow_yield, allow_await).stream.follows(stream),
    ;

    /// An argument list leaves a stream that follows the one it read.
    proof fn arguments_follows(&self, stream: Stream, allow_yield: bool, allow_await: bool)
        ensures
            self.arguments(stream, allow_yield, allow_await).stream.follows(stream),
    ;

    /// A tagged template leaves a stream that follows the one it read, and
    /// where it went well it has read at least one token.
    proof fn tagged_template_follows(
        &self,
        stream: Stream,
        allow_yield: bool,
        allow_await: bool,
        start: Position,
        tag: NodeView,
    )
        ensures
            self.tagged_template(stream, allow_yield, allow_await, start, tag).stream.follows(stream),
            self.tagged_template(stream, allow_yield, allow_await, start, tag).result is Ok
                ==> self.tagged_template(
                stream,
                allow_yield,
                allow_await,
                start,
                tag,
            ).stream.cursor.position > stream.cursor.position,
    ;

    /// Parses a primary expression. `name` is an identifier that the caller
    /// has already met, if any; the two flags say whether `yield` and
    /// `await` expressions are allowed here.
    fn parse_primary_expression(
        &self,
        cursor: &mut Cursor,
        interner: &mut Interner,
        name: Option<Sym>,
        allow_yield: bool,
        allow_await: bool,
    ) -> (result: Result<Node, ParseError>)
        requires
            Stream::of(*old(cursor), *old(interner)).known(),
        ensures
            node_outcome(result, *final(cursor), *final(interner)) == self.primary_expression(
                Stream::of(*old(cursor), *old(interner)),
                name,
                allow_yield,
                allow_await,
            ),
    ;

    /// Parses an expression. `allow_in` says whether the `in` operator may
    /// stand at its top level.
    fn parse_expression(
        &self,
        cursor: &mut Cursor,
        interner: &mut Interner,
        name: Option<Sym>,
        allow_in: bool,
        allow_yield: bool,
        allow_await: bool,
    ) -> (result: Result<Node, ParseError>)
        requires
            Stream::of(*old(cursor), *old(interner)).known(),
        ensures
            node_outcome(result, *final(cursor), *final(interner)) == self.expression(
                Stream::of(*old(cursor), *old(interner)),
                name,
                allow_in,
                allow_yield,
                allow_await,
            ),
    ;

    /// Parses an argument list, from its opening parenthesis to its closing
    /// one.
    fn parse_arguments(
        &self,
        cursor: &mut Cursor,
        interner: &mut Interner,
        allow_yield: bool,
        allow_await: bool,
    ) -> (result: Result<Vec<Node>, ParseError>)
        requires
            Stream::of(*old(cursor), *old(interner)).known(),
        ensures
            nodes_outcome(result, *final(cursor), *final(interner)) == self.arguments(
                Stream::of(*old(cursor), *old(interner)),
                allow_yield,
                allow_await,
            ),
    ;

    /// Parses the template literal that stands behind `tag`. `start` is the
    /// place of its first token.
    fn parse_tagged_template(
        &self,
        cursor: &mut Cursor,
        interner: &mut Interner,
        allow_yield: bool,
        allow_await: bool,
        start: Position,
        tag: Node,
    ) -> (result: Result<Node, ParseError>)
        requires
            Stream::of(*old(cursor), *old(interner)).known(),
        ensures
            node_outcome(result, *final(cursor), *final(interner)) == self.tagged_template(
                Stream::of(*old(cursor), *old(interner)),
                allow_yield,
                allow_await,
                start,
                tag@,
            ),
    ;
}

} // verus!
