//! Spelling a tree and parsing the spelling gives the tree again.

use crate::atoms::argument_list;
use crate::atoms::atom;
use crate::atoms::lemma_atom_follows;
use crate::atoms::operand;
use crate::atoms::parenthesized;
use crate::atoms::template_pieces;
use crate::atoms::Atoms;
use crate::cursor::CursorView;
use crate::error::ParseErrorView;
use crate::grammar::bracketed;
use crate::grammar::member_dot;
use crate::grammar::member_expression;
use crate::grammar::new_expression;
use crate::grammar::suffix_chain;
use crate::grammar::super_dot;
use crate::grammar::super_property;
use crate::keyword::Keyword;
use crate::node::CallView;
use crate::node::GetSuperFieldView;
use crate::node::NodeView;
use crate::parser::MemberExpression;
use crate::position::Position;
use crate::productions::Outcome;
use crate::productions::Productions;
use crate::productions::Stream;
use crate::punctuator::Punctuator;
use crate::spelling::all_operands;
use crate::spelling::argument_spelling;
use crate::spelling::is_member;
use crate::spelling::is_operand;
use crate::spelling::lemma_operand_spelling;
use crate::spelling::operand_kind;
use crate::spelling::spelling;
use crate::spelling::template_spelling;
use crate::spelling::uses_private;
use crate::token::TemplateString;
use crate::token::Token;
use crate::token::TokenKind;
use boa_interner::Sym;
use vstd::prelude::*;

verus! {

/// Whether the tokens from place `at` on are of the given kinds.
pub open spec fn spelled(tokens: Seq<Token>, at: int, kinds: Seq<TokenKind>) -> bool {
    &&& 0 <= at
    &&& at + kinds.len() <= tokens.len()
    &&& forall|i: int| 0 <= i < kinds.len() ==> (#[trigger] tokens[at + i]).kind == kinds[i]
}

/// Tokens are of the kinds of two lists in a row where they are of the
/// kinds of the first and, behind those, of the kinds of the second.
pub proof fn lemma_spelled_split(
    tokens: Seq<Token>,
    at: int,
    first: Seq<TokenKind>,
    second: Seq<TokenKind>,
)
    requires
        spelled(tokens, at, first + second),
    ensures
        spelled(tokens, at, first),
        spelled(tokens, at + first.len(), second),
{
    assert forall|i: int| 0 <= i < first.len() implies (#[trigger] tokens[at + i]).kind
        == first[i] by {
        assert((first + second)[i] == first[i]);
    }
    assert forall|i: int| 0 <= i < second.len() implies (
    #[trigger] tokens[at + first.len() + i]).kind == second[i] by {
        assert(tokens[at + (first.len() + i)].kind == (first + second)[first.len() + i]);
    }
}

/// The stream with `count` more tokens read.
pub open spec fn skipped(stream: Stream, count: nat) -> Stream {
    Stream {
        cursor: CursorView { position: stream.cursor.position + count, ..stream.cursor },
        ..stream
    }
}

/// The token at a place among tokens of given kinds is of its kind.
pub proof fn lemma_spelled_at(tokens: Seq<Token>, at: int, kinds: Seq<TokenKind>, i: int)
    requires
        spelled(tokens, at, kinds),
        0 <= i < kinds.len(),
    ensures
        0 <= at + i < tokens.len(),
        tokens[at + i].kind == kinds[i],
{
}

/// A token that is an operand is read as that operand.
pub proof fn lemma_operand_read(node: NodeView, stream: Stream)
    requires
        is_operand(node),
        spelled(stream.cursor.tokens, stream.cursor.position, seq![operand_kind(node)]),
    ensures
        atom(stream) == Outcome::done(node, skipped(stream, 1)),
{
    lemma_spelled_at(stream.cursor.tokens, stream.cursor.position, seq![operand_kind(node)], 0);
}

/// Operands with commas between them and a closing parenthesis behind them
/// are read as the arguments they are.
pub proof fn lemma_arguments_read(args: Seq<NodeView>, stream: Stream, before: Seq<NodeView>)
    requires
        args.len() > 0,
        all_operands(args),
        spelled(
            stream.cursor.tokens,
            stream.cursor.position,
            argument_spelling(args) + seq![TokenKind::Punctuator(Punctuator::CloseParen)],
        ),
    ensures
        argument_list(stream, before) == Outcome::done(
            before + args,
            skipped(stream, argument_spelling(args).len() + 1),
        ),
    decreases args.len(),
{
    let tokens = stream.cursor.tokens;
    let at = stream.cursor.position;
    let close = seq![TokenKind::Punctuator(Punctuator::CloseParen)];
    let kinds = argument_spelling(args) + close;
    assert(is_operand(args[0]));
    if args.len() == 1 {
        assert(kinds =~= seq![operand_kind(args[0])] + close);
        lemma_spelled_split(tokens, at, seq![operand_kind(args[0])], close);
        lemma_operand_read(args[0], stream);
        lemma_spelled_at(tokens, at + 1, close, 0);
        assert(before.push(args[0]) =~= before + args);
        assert(skipped(stream, 1).advanced() == skipped(stream, 2));
    } else {
        let rest = args.drop_first();
        let head = seq![operand_kind(args[0]), TokenKind::Punctuator(Punctuator::Comma)];
        assert(kinds =~= seq![operand_kind(args[0])] + (seq![
            TokenKind::Punctuator(Punctuator::Comma),
        ] + (argument_spelling(rest) + close)));
        lemma_spelled_split(
            tokens,
            at,
            seq![operand_kind(args[0])],
            seq![TokenKind::Punctuator(Punctuator::Comma)] + (argument_spelling(rest) + close),
        );
        lemma_operand_read(args[0], stream);
        lemma_spelled_split(
            tokens,
            at + 1,
            seq![TokenKind::Punctuator(Punctuator::Comma)],
            argument_spelling(rest) + close,
        );
        lemma_spelled_at(tokens, at + 1, seq![TokenKind::Punctuator(Punctuator::Comma)], 0);
        assert(skipped(stream, 1).advanced() == skipped(stream, 2));
        assert forall|i: int| 0 <= i < rest.len() implies is_operand(#[trigger] rest[i]) by {
            assert(rest[i] == args[i + 1]);
        }
        lemma_arguments_read(rest, skipped(stream, 2), before.push(args[0]));
        assert(before.push(args[0]) + rest =~= before + args);
        assert(skipped(skipped(stream, 2), argument_spelling(rest).len() + 1) == skipped(
            stream,
            argument_spelling(args).len() + 1,
        ));
    }
}

/// The pieces of a template literal, with an operand and a closing brace
/// behind each but the last, are read as the template literal they are.
pub proof fn lemma_template_read(
    raws: Seq<Sym>,
    cookeds: Seq<Option<Sym>>,
    exprs: Seq<NodeView>,
    stream: Stream,
    start: Position,
    tag: NodeView,
    raws_before: Seq<Sym>,
    cookeds_before: Seq<Option<Sym>>,
    exprs_before: Seq<NodeView>,
)
    requires
        all_operands(exprs),
        raws.len() == exprs.len() + 1,
        cookeds.len() == raws.len(),
        spelled(
            stream.cursor.tokens,
            stream.cursor.position,
            template_spelling(raws, cookeds, exprs),
        ),
    ensures
        template_pieces(stream, start, tag, raws_before, cookeds_before, exprs_before)
            == Outcome::done(
            NodeView::TaggedTemplate {
                tag: Box::new(tag),
                raws: raws_before + raws,
                cookeds: cookeds_before + cookeds,
                exprs: exprs_before + exprs,
            },
            skipped(stream, template_spelling(raws, cookeds, exprs).len()),
        ),
    decreases exprs.len(),
{
    let tokens = stream.cursor.tokens;
    let at = stream.cursor.position;
    let kinds = template_spelling(raws, cookeds, exprs);
    lemma_spelled_at(tokens, at, kinds, 0);
    if exprs.len() == 0 {
        assert(raws_before.push(raws[0]) =~= raws_before + raws);
        assert(cookeds_before.push(cookeds[0]) =~= cookeds_before + cookeds);
        assert(exprs_before =~= exprs_before + exprs);
        assert(stream.advanced() == skipped(stream, 1));
    } else {
        let rest = template_spelling(raws.drop_first(), cookeds.drop_first(), exprs.drop_first());
        let piece = seq![
            TokenKind::TemplateMiddle(TemplateString { raw: raws[0], cooked: cookeds[0] }),
        ];
        let brace = seq![TokenKind::Punctuator(Punctuator::CloseBlock)];
        let operand = seq![operand_kind(exprs[0])];
        assert(kinds =~= piece + (operand + (brace + rest)));
        lemma_spelled_split(tokens, at, piece, operand + (brace + rest));
        lemma_spelled_split(tokens, at + 1, operand, brace + rest);
        lemma_spelled_split(tokens, at + 2, brace, rest);
        assert(is_operand(exprs[0]));
        assert(stream.advanced() == skipped(stream, 1));
        lemma_operand_read(exprs[0], skipped(stream, 1));
        assert(skipped(skipped(stream, 1), 1) == skipped(stream, 2));
        lemma_spelled_at(tokens, at + 2, brace, 0);
        assert(skipped(stream, 2).advanced() == skipped(stream, 3));
        assert forall|i: int| 0 <= i < exprs.drop_first().len() implies is_operand(
            #[trigger] exprs.drop_first()[i],
        ) by {
            assert(exprs.drop_first()[i] == exprs[i + 1]);
        }
        lemma_template_read(
            raws.drop_first(),
            cookeds.drop_first(),
            exprs.drop_first(),
            skipped(stream, 3),
            start,
            tag,
            raws_before.push(raws[0]),
            cookeds_before.push(cookeds[0]),
            exprs_before.push(exprs[0]),
        );
        assert(raws_before.push(raws[0]) + raws.drop_first() =~= raws_before + raws);
        assert(cookeds_before.push(cookeds[0]) + cookeds.drop_first() =~= cookeds_before + cookeds);
        assert(exprs_before.push(exprs[0]) + exprs.drop_first() =~= exprs_before + exprs);
        assert(skipped(skipped(stream, 3), rest.len()) == skipped(stream, kinds.len()));
    }
}

/// The stream behind the tokens that spell a member expression over
/// operands, where `stream` is the one before them: the tokens are read, and
/// the uses of private names are recorded.
pub open spec fn read(node: NodeView, stream: Stream) -> Stream
    decreases node,
{
    match node {
        NodeView::New(call) => skipped(
            read(*call.function, skipped(stream, 1)),
            argument_spelling(call.args).len() + 2,
        ),
        NodeView::GetConstField { obj, .. } => skipped(read(*obj, stream), 2),
        NodeView::GetPrivateField { obj, field } => {
            let behind = read(*obj, stream);
            Stream {
                cursor: skipped(behind, 2).cursor.recorded(
                    field,
                    behind.cursor.tokens[behind.cursor.position + 1].span.start,
                ),
                ..behind
            }
        },
        NodeView::GetField { obj, .. } => skipped(read(*obj, stream), 3),
        NodeView::GetSuperField(GetSuperFieldView::Const(_)) => skipped(stream, 3),
        NodeView::GetSuperField(GetSuperFieldView::Expr(_)) => skipped(stream, 4),
        NodeView::TaggedTemplate { tag, raws, cookeds, exprs } => skipped(
            read(*tag, stream),
            template_spelling(raws, cookeds, exprs).len(),
        ),
        _ => skipped(stream, 1),
    }
}

/// Reading the tokens that spell a tree moves the reader behind them and
/// changes nothing else but what is recorded of private names.
pub proof fn lemma_read(node: NodeView, stream: Stream)
    requires
        is_member(node),
        uses_private(node) ==> stream.cursor.private_environments.len() > 0,
    ensures
        read(node, stream).cursor.tokens == stream.cursor.tokens,
        read(node, stream).cursor.position == stream.cursor.position + spelling(node).len(),
        read(node, stream).strings == stream.strings,
        read(node, stream).cursor.private_environments.len()
            == stream.cursor.private_environments.len(),
        !uses_private(node) ==> read(node, stream).cursor.private_environments
            == stream.cursor.private_environments,
    decreases node,
{
    match node {
        NodeView::New(call) => {
            lemma_read(*call.function, skipped(stream, 1));
            assert(spelling(node).len() == spelling(*call.function).len() + argument_spelling(
                call.args,
            ).len() + 3);
        },
        NodeView::GetConstField { obj, .. } => {
            lemma_read(*obj, stream);
        },
        NodeView::GetPrivateField { obj, .. } => {
            lemma_read(*obj, stream);
        },
        NodeView::GetField { obj, field } => {
            lemma_read(*obj, stream);
            assert(spelling(*field) == seq![operand_kind(*field)]);
        },
        NodeView::GetSuperField(GetSuperFieldView::Expr(key)) => {
            assert(spelling(*key) == seq![operand_kind(*key)]);
        },
        NodeView::TaggedTemplate { tag, .. } => {
            lemma_read(*tag, stream);
        },
        _ => {},
    }
}

/// A tree grows by the dot and the name that follow it.
pub proof fn lemma_grows_by_name<P: Productions>(
    productions: &P,
    parser: MemberExpression,
    obj: NodeView,
    field: Sym,
    behind: Stream,
)
    requires
        spelled(
            behind.cursor.tokens,
            behind.cursor.position,
            seq![TokenKind::Punctuator(Punctuator::Dot), TokenKind::Identifier(field)],
        ),
    ensures
        suffix_chain(productions, parser, obj, behind) == suffix_chain(
            productions,
            parser,
            NodeView::GetConstField { obj: Box::new(obj), field },
            skipped(behind, 2),
        ),
{
    let tokens = behind.cursor.tokens;
    let access = seq![TokenKind::Punctuator(Punctuator::Dot), TokenKind::Identifier(field)];
    lemma_spelled_at(tokens, behind.cursor.position, access, 0);
    lemma_spelled_at(tokens, behind.cursor.position, access, 1);
    assert(behind.advanced() == skipped(behind, 1));
    assert(skipped(behind, 1).advanced() == skipped(behind, 2));
    let key = tokens[behind.cursor.position + 1];
    assert(member_dot(obj, key, skipped(behind, 2)) == Outcome::done(
        NodeView::GetConstField { obj: Box::new(obj), field },
        skipped(behind, 2),
    ));
}

/// A tree grows by the dot and the private name that follow it, where a
/// class body is open; the use of the name is recorded.
pub proof fn lemma_grows_by_private_name<P: Productions>(
    productions: &P,
    parser: MemberExpression,
    obj: NodeView,
    field: Sym,
    behind: Stream,
)
    requires
        spelled(
            behind.cursor.tokens,
            behind.cursor.position,
            seq![TokenKind::Punctuator(Punctuator::Dot), TokenKind::PrivateIdentifier(field)],
        ),
        behind.cursor.private_environments.len() > 0,
    ensures
        suffix_chain(productions, parser, obj, behind) == suffix_chain(
            productions,
            parser,
            NodeView::GetPrivateField { obj: Box::new(obj), field },
            Stream {
                cursor: skipped(behind, 2).cursor.recorded(
                    field,
                    behind.cursor.tokens[behind.cursor.position + 1].span.start,
                ),
                ..behind
            },
        ),
{
    let tokens = behind.cursor.tokens;
    let access = seq![TokenKind::Punctuator(Punctuator::Dot), TokenKind::PrivateIdentifier(field)];
    lemma_spelled_at(tokens, behind.cursor.position, access, 0);
    lemma_spelled_at(tokens, behind.cursor.position, access, 1);
    assert(behind.advanced() == skipped(behind, 1));
    assert(skipped(behind, 1).advanced() == skipped(behind, 2));
    let key = tokens[behind.cursor.position + 1];
    assert(member_dot(obj, key, skipped(behind, 2)) == Outcome::done(
        NodeView::GetPrivateField { obj: Box::new(obj), field },
        Stream {
            cursor: skipped(behind, 2).cursor.recorded(field, key.span.start),
            ..behind
        },
    ));
}

/// The name of a property of `super` behind `super.` is read as that
/// property.
pub proof fn lemma_super_name_read<P: Productions>(
    productions: &P,
    parser: MemberExpression,
    name: Sym,
    stream: Stream,
)
    requires
        spelled(
            stream.cursor.tokens,
            stream.cursor.position,
            seq![TokenKind::Punctuator(Punctuator::Dot), TokenKind::Identifier(name)],
        ),
    ensures
        super_property(productions, parser, stream) == Outcome::done(
            NodeView::GetSuperField(GetSuperFieldView::Const(name)),
            skipped(stream, 2),
        ),
{
    let tokens = stream.cursor.tokens;
    let kinds = seq![TokenKind::Punctuator(Punctuator::Dot), TokenKind::Identifier(name)];
    lemma_spelled_at(tokens, stream.cursor.position, kinds, 0);
    lemma_spelled_at(tokens, stream.cursor.position, kinds, 1);
    assert(stream.advanced() == skipped(stream, 1));
    assert(skipped(stream, 1).advanced() == skipped(stream, 2));
    assert(super_dot(tokens[stream.cursor.position + 1], skipped(stream, 2)) == Outcome::done(
        NodeView::GetSuperField(GetSuperFieldView::Const(name)),
        skipped(stream, 2),
    ));
}

/// An operand between brackets is read as the operand.
pub proof fn lemma_bracketed_read(
    parser: MemberExpression,
    key: NodeView,
    context: Seq<char>,
    stream: Stream,
)
    requires
        is_operand(key),
        spelled(
            stream.cursor.tokens,
            stream.cursor.position,
            seq![operand_kind(key), TokenKind::Punctuator(Punctuator::CloseBracket)],
        ),
    ensures
        bracketed(&Atoms, parser, context, stream) == Outcome::done(key, skipped(stream, 2)),
{
    let tokens = stream.cursor.tokens;
    let kinds = seq![operand_kind(key), TokenKind::Punctuator(Punctuator::CloseBracket)];
    lemma_spelled_at(tokens, stream.cursor.position, kinds, 0);
    lemma_spelled_at(tokens, stream.cursor.position, kinds, 1);
    assert(spelled(tokens, stream.cursor.position, seq![operand_kind(key)]));
    lemma_operand_read(key, stream);
    assert(skipped(stream, 1).advanced() == skipped(stream, 2));
}

/// A tree grows by the operand between brackets that follows it.
pub proof fn lemma_grows_by_key(
    parser: MemberExpression,
    obj: NodeView,
    field: NodeView,
    behind: Stream,
)
    requires
        is_operand(field),
        spelled(
            behind.cursor.tokens,
            behind.cursor.position,
            seq![
                TokenKind::Punctuator(Punctuator::OpenBracket),
                operand_kind(field),
                TokenKind::Punctuator(Punctuator::CloseBracket),
            ],
        ),
    ensures
        suffix_chain(&Atoms, parser, obj, behind) == suffix_chain(
            &Atoms,
            parser,
            NodeView::GetField { obj: Box::new(obj), field: Box::new(field) },
            skipped(behind, 3),
        ),
{
    let tokens = behind.cursor.tokens;
    let open = seq![TokenKind::Punctuator(Punctuator::OpenBracket)];
    let rest = seq![operand_kind(field), TokenKind::Punctuator(Punctuator::CloseBracket)];
    assert(seq![
        TokenKind::Punctuator(Punctuator::OpenBracket),
        operand_kind(field),
        TokenKind::Punctuator(Punctuator::CloseBracket),
    ] =~= open + rest);
    lemma_spelled_split(tokens, behind.cursor.position, open, rest);
    lemma_spelled_at(tokens, behind.cursor.position, open, 0);
    assert(behind.advanced() == skipped(behind, 1));
    lemma_bracketed_read(parser, field, "member expression"@, skipped(behind, 1));
    assert(skipped(skipped(behind, 1), 2) == skipped(behind, 3));
}

/// A tree grows by the template literal that follows it.
pub proof fn lemma_grows_by_template(
    parser: MemberExpression,
    tag: NodeView,
    raws: Seq<Sym>,
    cookeds: Seq<Option<Sym>>,
    exprs: Seq<NodeView>,
    behind: Stream,
)
    requires
        all_operands(exprs),
        raws.len() == exprs.len() + 1,
        cookeds.len() == raws.len(),
        spelled(
            behind.cursor.tokens,
            behind.cursor.position,
            template_spelling(raws, cookeds, exprs),
        ),
    ensures
        suffix_chain(&Atoms, parser, tag, behind) == suffix_chain(
            &Atoms,
            parser,
            NodeView::TaggedTemplate { tag: Box::new(tag), raws, cookeds, exprs },
            skipped(behind, template_spelling(raws, cookeds, exprs).len()),
        ),
{
    let tokens = behind.cursor.tokens;
    let pieces = template_spelling(raws, cookeds, exprs);
    lemma_spelled_at(tokens, behind.cursor.position, pieces, 0);
    let first = tokens[behind.cursor.position];
    lemma_template_read(
        raws,
        cookeds,
        exprs,
        behind,
        first.span.start,
        tag,
        Seq::empty(),
        Seq::empty(),
        Seq::empty(),
    );
    assert(Seq::<Sym>::empty() + raws =~= raws);
    assert(Seq::<Option<Sym>>::empty() + cookeds =~= cookeds);
    assert(Seq::<NodeView>::empty() + exprs =~= exprs);
}

/// An argument list between parentheses is read as the arguments it holds.
pub proof fn lemma_parenthesized_read(args: Seq<NodeView>, stream: Stream)
    requires
        all_operands(args),
        spelled(
            stream.cursor.tokens,
            stream.cursor.position,
            seq![TokenKind::Punctuator(Punctuator::OpenParen)] + (argument_spelling(args) + seq![
                TokenKind::Punctuator(Punctuator::CloseParen),
            ]),
        ),
    ensures
        parenthesized(stream) == Outcome::done(
            args,
            skipped(stream, argument_spelling(args).len() + 2),
        ),
{
    let tokens = stream.cursor.tokens;
    let open = seq![TokenKind::Punctuator(Punctuator::OpenParen)];
    let close = seq![TokenKind::Punctuator(Punctuator::CloseParen)];
    let list = argument_spelling(args);
    lemma_spelled_split(tokens, stream.cursor.position, open, list + close);
    lemma_spelled_at(tokens, stream.cursor.position, open, 0);
    let inside = skipped(stream, 1);
    assert(stream.advanced() == inside);
    if args.len() == 0 {
        assert(list + close =~= close);
        lemma_spelled_at(tokens, inside.cursor.position, close, 0);
        assert(inside.advanced() == skipped(stream, 2));
        assert(args =~= Seq::empty());
    } else {
        assert(is_operand(args[0]));
        lemma_operand_spelling(args[0]);
        assert(list[0] == operand_kind(args[0]));
        lemma_spelled_at(tokens, inside.cursor.position, list + close, 0);
        lemma_arguments_read(args, inside, Seq::empty());
        assert(Seq::<NodeView>::empty() + args =~= args);
        assert(skipped(inside, list.len() + 1) == skipped(stream, list.len() + 2));
    }
}

/// A callee with its argument list behind it is read as a `new` expression.
pub proof fn lemma_new_read(
    parser: MemberExpression,
    function: NodeView,
    args: Seq<NodeView>,
    behind: Stream,
)
    requires
        all_operands(args),
        spelled(
            behind.cursor.tokens,
            behind.cursor.position,
            seq![TokenKind::Punctuator(Punctuator::OpenParen)] + (argument_spelling(args) + seq![
                TokenKind::Punctuator(Punctuator::CloseParen),
            ]),
        ),
    ensures
        suffix_chain(&Atoms, parser, function, behind) == Outcome::done(function, behind),
        new_expression(&Atoms, parser, Outcome::done(function, behind)) == Outcome::done(
            NodeView::New(CallView { function: Box::new(function), args }),
            skipped(behind, argument_spelling(args).len() + 2),
        ),
{
    let tokens = behind.cursor.tokens;
    let open = seq![TokenKind::Punctuator(Punctuator::OpenParen)];
    let close = seq![TokenKind::Punctuator(Punctuator::CloseParen)];
    lemma_spelled_split(tokens, behind.cursor.position, open, argument_spelling(args) + close);
    lemma_spelled_at(tokens, behind.cursor.position, open, 0);
    lemma_parenthesized_read(args, behind);
}

/// The key of a property of `super` between brackets is read as that
/// property.
pub proof fn lemma_super_key_read(parser: MemberExpression, key: NodeView, stream: Stream)
    requires
        is_operand(key),
        spelled(
            stream.cursor.tokens,
            stream.cursor.position,
            seq![
                TokenKind::Punctuator(Punctuator::OpenBracket),
                operand_kind(key),
                TokenKind::Punctuator(Punctuator::CloseBracket),
            ],
        ),
    ensures
        super_property(&Atoms, parser, stream) == Outcome::done(
            NodeView::GetSuperField(GetSuperFieldView::Expr(Box::new(key))),
            skipped(stream, 3),
        ),
{
    let tokens = stream.cursor.tokens;
    let open = seq![TokenKind::Punctuator(Punctuator::OpenBracket)];
    let rest = seq![operand_kind(key), TokenKind::Punctuator(Punctuator::CloseBracket)];
    assert(seq![
        TokenKind::Punctuator(Punctuator::OpenBracket),
        operand_kind(key),
        TokenKind::Punctuator(Punctuator::CloseBracket),
    ] =~= open + rest);
    lemma_spelled_split(tokens, stream.cursor.position, open, rest);
    lemma_spelled_at(tokens, stream.cursor.position, open, 0);
    assert(stream.advanced() == skipped(stream, 1));
    lemma_bracketed_read(parser, key, "super property"@, skipped(stream, 1));
    assert(skipped(skipped(stream, 1), 2) == skipped(stream, 3));
}

/// The member expression at the start of tokens that spell a tree is that
/// tree, grown by what follows the tokens.
pub proof fn lemma_member_read(parser: MemberExpression, node: NodeView, stream: Stream)
    requires
        is_member(node),
        parser.name is None,
        spelled(stream.cursor.tokens, stream.cursor.position, spelling(node)),
        uses_private(node) ==> stream.cursor.private_environments.len() > 0,
    ensures
        member_expression(&Atoms, parser, stream) == suffix_chain(
            &Atoms,
            parser,
            node,
            read(node, stream),
        ),
    decreases node,
{
    let tokens = stream.cursor.tokens;
    let at = stream.cursor.position;
    match node {
        NodeView::New(call) => {
            let function = *call.function;
            let word = seq![TokenKind::Keyword(Keyword::New, false)];
            let list = seq![TokenKind::Punctuator(Punctuator::OpenParen)] + (argument_spelling(
                call.args,
            ) + seq![TokenKind::Punctuator(Punctuator::CloseParen)]);
            assert(spelling(node) =~= word + (spelling(function) + list));
            lemma_spelled_split(tokens, at, word, spelling(function) + list);
            lemma_spelled_at(tokens, at, word, 0);
            assert(stream.advanced() == skipped(stream, 1));
            lemma_spelled_split(tokens, at + 1, spelling(function), list);
            lemma_member_read(parser, function, skipped(stream, 1));
            lemma_read(function, skipped(stream, 1));
            lemma_new_read(parser, function, call.args, read(function, skipped(stream, 1)));
        },
        NodeView::GetConstField { obj, field } => {
            let access = seq![TokenKind::Punctuator(Punctuator::Dot), TokenKind::Identifier(field)];
            lemma_spelled_split(tokens, at, spelling(*obj), access);
            lemma_member_read(parser, *obj, stream);
            lemma_read(*obj, stream);
            lemma_grows_by_name(&Atoms, parser, *obj, field, read(*obj, stream));
        },
        NodeView::GetPrivateField { obj, field } => {
            let access = seq![
                TokenKind::Punctuator(Punctuator::Dot),
                TokenKind::PrivateIdentifier(field),
            ];
            lemma_spelled_split(tokens, at, spelling(*obj), access);
            lemma_member_read(parser, *obj, stream);
            lemma_read(*obj, stream);
            lemma_grows_by_private_name(&Atoms, parser, *obj, field, read(*obj, stream));
        },
        NodeView::GetField { obj, field } => {
            lemma_operand_spelling(*field);
            let access = seq![
                TokenKind::Punctuator(Punctuator::OpenBracket),
                operand_kind(*field),
                TokenKind::Punctuator(Punctuator::CloseBracket),
            ];
            assert(spelling(node) =~= spelling(*obj) + access);
            lemma_spelled_split(tokens, at, spelling(*obj), access);
            lemma_member_read(parser, *obj, stream);
            lemma_read(*obj, stream);
            lemma_grows_by_key(parser, *obj, *field, read(*obj, stream));
        },
        NodeView::GetSuperField(GetSuperFieldView::Const(name)) => {
            let word = seq![TokenKind::Keyword(Keyword::Super, false)];
            let access = seq![TokenKind::Punctuator(Punctuator::Dot), TokenKind::Identifier(name)];
            assert(spelling(node) =~= word + access);
            lemma_spelled_split(tokens, at, word, access);
            lemma_spelled_at(tokens, at, word, 0);
            assert(stream.advanced() == skipped(stream, 1));
            lemma_super_name_read(&Atoms, parser, name, skipped(stream, 1));
            assert(skipped(skipped(stream, 1), 2) == skipped(stream, 3));
        },
        NodeView::GetSuperField(GetSuperFieldView::Expr(key)) => {
            lemma_operand_spelling(*key);
            let word = seq![TokenKind::Keyword(Keyword::Super, false)];
            let access = seq![
                TokenKind::Punctuator(Punctuator::OpenBracket),
                operand_kind(*key),
                TokenKind::Punctuator(Punctuator::CloseBracket),
            ];
            assert(spelling(node) =~= word + access);
            lemma_spelled_split(tokens, at, word, access);
            lemma_spelled_at(tokens, at, word, 0);
            assert(stream.advanced() == skipped(stream, 1));
            lemma_super_key_read(parser, *key, skipped(stream, 1));
            assert(skipped(skipped(stream, 1), 3) == skipped(stream, 4));
        },
        NodeView::TaggedTemplate { tag, raws, cookeds, exprs } => {
            lemma_spelled_split(tokens, at, spelling(*tag), template_spelling(raws, cookeds, exprs));
            lemma_member_read(parser, *tag, stream);
            lemma_read(*tag, stream);
            lemma_grows_by_template(parser, *tag, raws, cookeds, exprs, read(*tag, stream));
        },
        _ => {
            lemma_operand_spelling(node);
            lemma_spelled_at(tokens, at, spelling(node), 0);
            lemma_operand_read(node, stream);
        },
    }
}

/// Whether a member expression ends where the stream stands: what comes
/// next is no access and no template literal.
pub open spec fn ends(stream: Stream) -> bool {
    match stream.peek(0) {
        None => true,
        Some(token) => {
            &&& token.kind != TokenKind::Punctuator(Punctuator::Dot)
            &&& token.kind != TokenKind::Punctuator(Punctuator::OpenBracket)
            &&& !(token.kind is TemplateNoSubstitution)
            &&& !(token.kind is TemplateMiddle)
        },
    }
}

/// The tokens that spell a tree are parsed as that tree: with single tokens
/// as operands, the member expression at the start of tokens that spell a
/// member expression over operands, and behind which the expression ends,
/// is the tree that they spell, and all of its tokens are read.
pub proof fn lemma_spelling_parses(parser: MemberExpression, node: NodeView, stream: Stream)
    requires
        is_member(node),
        parser.name is None,
        spelled(stream.cursor.tokens, stream.cursor.position, spelling(node)),
        ends(skipped(stream, spelling(node).len())),
        uses_private(node) ==> stream.cursor.private_environments.len() > 0,
    ensures
        member_expression(&Atoms, parser, stream) == Outcome::done(node, read(node, stream)),
        read(node, stream).cursor.position == stream.cursor.position + spelling(node).len(),
{
    lemma_member_read(parser, node, stream);
    lemma_read(node, stream);
    assert(read(node, stream).peek(0) == skipped(stream, spelling(node).len()).peek(0));
}

/// The arguments that are read are operands.
pub proof fn lemma_arguments_are_operands(stream: Stream, before: Seq<NodeView>)
    requires
        all_operands(before),
    ensures
        argument_list(stream, before).result matches Ok(args) ==> all_operands(args),
    decreases stream.cursor.remaining(),
{
    let argument = atom(stream);
    lemma_atom_follows(stream);
    match argument.result {
        Ok(node) => {
            assert forall|i: int| 0 <= i < before.push(node).len() implies is_operand(
                #[trigger] before.push(node)[i],
            ) by {
                if i < before.len() {
                    assert(before.push(node)[i] == before[i]);
                }
            }
            match argument.stream.peek(0) {
                Some(token) => {
                    if token.kind == TokenKind::Punctuator(Punctuator::Comma) {
                        lemma_arguments_are_operands(argument.stream.advanced(), before.push(node));
                    }
                },
                None => {},
            }
        },
        Err(_) => {},
    }
}

/// The template literal that is read behind a member expression over
/// operands makes a member expression over operands with it.
pub proof fn lemma_template_is_member(
    stream: Stream,
    start: Position,
    tag: NodeView,
    raws: Seq<Sym>,
    cookeds: Seq<Option<Sym>>,
    exprs: Seq<NodeView>,
)
    requires
        is_member(tag),
        all_operands(exprs),
        raws.len() == exprs.len(),
        cookeds.len() == raws.len(),
    ensures
        template_pieces(stream, start, tag, raws, cookeds, exprs).result matches Ok(node)
            ==> is_member(node),
    decreases stream.cursor.remaining(),
{
    match stream.peek(0) {
        Some(token) => match token.kind {
            TokenKind::TemplateMiddle(piece) => {
                let substitution = atom(stream.advanced());
                lemma_atom_follows(stream.advanced());
                match substitution.result {
                    Ok(expr) => {
                        if substitution.stream.cursor.expect_result(
                            Punctuator::CloseBlock,
                            "template literal"@,
                            substitution.stream.strings,
                        ) is Ok {
                            assert forall|i: int| 0 <= i < exprs.push(expr).len() implies is_operand(
                                #[trigger] exprs.push(expr)[i],
                            ) by {
                                if i < exprs.len() {
                                    assert(exprs.push(expr)[i] == exprs[i]);
                                }
                            }
                            lemma_template_is_member(
                                substitution.stream.advanced(),
                                start,
                                tag,
                                raws.push(piece.raw),
                                cookeds.push(piece.cooked),
                                exprs.push(expr),
                            );
                        }
                    },
                    Err(_) => {},
                }
            },
            _ => {},
        },
        None => {},
    }
}

/// A member expression over operands that grows by what follows it stays
/// one.
pub proof fn lemma_suffix_chain_is_member(parser: MemberExpression, lhs: NodeView, stream: Stream)
    requires
        is_member(lhs),
    ensures
        suffix_chain(&Atoms, parser, lhs, stream).result matches Ok(node) ==> is_member(node),
    decreases stream.cursor.remaining(),
{
    match stream.peek(0) {
        Some(token) => match token.kind {
            TokenKind::Punctuator(Punctuator::Dot) => match stream.advanced().peek(0) {
                Some(key) => {
                    let access = member_dot(lhs, key, stream.advanced().advanced());
                    match access.result {
                        Ok(node) => {
                            lemma_suffix_chain_is_member(parser, node, access.stream);
                        },
                        Err(_) => {},
                    }
                },
                None => {},
            },
            TokenKind::Punctuator(Punctuator::OpenBracket) => {
                let key = bracketed(&Atoms, parser, "member expression"@, stream.advanced());
                match key.result {
                    Ok(field) => {
                        lemma_atom_follows(stream.advanced());
                        lemma_suffix_chain_is_member(
                            parser,
                            NodeView::GetField { obj: Box::new(lhs), field: Box::new(field) },
                            key.stream,
                        );
                    },
                    Err(_) => {},
                }
            },
            TokenKind::TemplateNoSubstitution(_) | TokenKind::TemplateMiddle(_) => {
                let tagged = Atoms.tagged_template(
                    stream,
                    parser.allow_yield,
                    parser.allow_await,
                    token.span.start,
                    lhs,
                );
                match tagged.result {
                    Ok(node) => {
                        Atoms.tagged_template_follows(
                            stream,
                            parser.allow_yield,
                            parser.allow_await,
                            token.span.start,
                            lhs,
                        );
                        lemma_template_is_member(
                            stream,
                            token.span.start,
                            lhs,
                            Seq::empty(),
                            Seq::empty(),
                            Seq::empty(),
                        );
                        lemma_suffix_chain_is_member(parser, node, tagged.stream);
                    },
                    Err(_) => {},
                }
            },
            _ => {},
        },
        None => {},
    }
}

/// What is parsed with single tokens as operands is a member expression
/// over operands.
pub proof fn lemma_parsed_is_member(parser: MemberExpression, stream: Stream)
    ensures
        member_expression(&Atoms, parser, stream).result matches Ok(node) ==> is_member(node),
    decreases stream.cursor.remaining(),
{
    match stream.peek(0) {
        Some(token) => match token.kind {
            TokenKind::Keyword(Keyword::New, true) | TokenKind::Keyword(Keyword::Super, true) => {},
            TokenKind::Keyword(Keyword::New, false) => {
                let callee = member_expression(&Atoms, parser, stream.advanced());
                lemma_parsed_is_member(parser, stream.advanced());
                match callee.result {
                    Ok(function) => {
                        let built = new_expression(&Atoms, parser, callee);
                        lemma_arguments_are_operands(callee.stream.advanced(), Seq::empty());
                        match built.result {
                            Ok(node) => {
                                lemma_suffix_chain_is_member(parser, node, built.stream);
                            },
                            Err(_) => {},
                        }
                    },
                    Err(_) => {},
                }
            },
            TokenKind::Keyword(Keyword::Super, false) => {
                let property = super_property(&Atoms, parser, stream.advanced());
                match property.result {
                    Ok(node) => {
                        lemma_suffix_chain_is_member(parser, node, property.stream);
                    },
                    Err(_) => {},
                }
            },
            _ => {
                let primary = operand(stream, parser.name);
                match primary.result {
                    Ok(node) => {
                        lemma_suffix_chain_is_member(parser, node, primary.stream);
                    },
                    Err(_) => {},
                }
            },
        },
        None => {},
    }
}

/// Whether `part` is `node` or one of the trees inside it.
pub open spec fn is_part(part: NodeView, node: NodeView) -> bool
    decreases node,
{
    part == node || match node {
        NodeView::Call(call) => is_part(part, *call.function) || exists|i: int|
            0 <= i < call.args.len() && #[trigger] is_part(part, call.args[i]),
        NodeView::New(call) => is_part(part, *call.function) || exists|i: int|
            0 <= i < call.args.len() && #[trigger] is_part(part, call.args[i]),
        NodeView::GetConstField { obj, .. } => is_part(part, *obj),
        NodeView::GetPrivateField { obj, .. } => is_part(part, *obj),
        NodeView::GetField { obj, field } => is_part(part, *obj) || is_part(part, *field),
        NodeView::GetSuperField(GetSuperFieldView::Expr(key)) => is_part(part, *key),
        NodeView::TaggedTemplate { tag, exprs, .. } => is_part(part, *tag) || exists|i: int|
            0 <= i < exprs.len() && #[trigger] is_part(part, exprs[i]),
        _ => false,
    }
}

/// The parts of a member expression over operands are member expressions
/// over operands.
pub proof fn lemma_part_is_member(part: NodeView, node: NodeView)
    requires
        is_member(node),
        is_part(part, node),
    ensures
        is_member(part),
    decreases node,
{
    reveal_with_fuel(is_part, 2);
    if part != node {
        match node {
            NodeView::New(call) => {
                if is_part(part, *call.function) {
                    lemma_part_is_member(part, *call.function);
                } else {
                    assert forall|i: int|
                        0 <= i < call.args.len() && #[trigger] is_part(
                            part,
                            call.args[i],
                        ) implies is_member(part) by {
                        assert(is_operand(call.args[i]));
                    }
                }
            },
            NodeView::GetConstField { obj, .. } => {
                lemma_part_is_member(part, *obj);
            },
            NodeView::GetPrivateField { obj, .. } => {
                lemma_part_is_member(part, *obj);
            },
            NodeView::GetField { obj, field } => {
                if is_part(part, *obj) {
                    lemma_part_is_member(part, *obj);
                }
            },
            NodeView::GetSuperField(GetSuperFieldView::Expr(key)) => {},
            NodeView::TaggedTemplate { tag, exprs, .. } => {
                if is_part(part, *tag) {
                    lemma_part_is_member(part, *tag);
                } else {
                    assert forall|i: int|
                        0 <= i < exprs.len() && #[trigger] is_part(part, exprs[i]) implies is_member(
                        part,
                    ) by {
                        assert(is_operand(exprs[i]));
                    }
                }
            },
            _ => {},
        }
    }
}

/// Spelling and parsing again gives the same tree: with single tokens as
/// operands, the tokens that spell a tree that was parsed, or a part of it,
/// are parsed as that very tree, whatever the places of the tokens are, and
/// all of them are read. A private name needs an open class body to be
/// parsed at all, the second time as the first.
pub proof fn lemma_round_trip(
    parser: MemberExpression,
    stream: Stream,
    part: NodeView,
    again: MemberExpression,
    respelled: Stream,
)
    requires
        member_expression(&Atoms, parser, stream).result matches Ok(node) && is_part(part, node),
        again.name is None,
        respelled.cursor.position == 0,
        respelled.cursor.tokens.len() == spelling(part).len(),
        spelled(respelled.cursor.tokens, 0, spelling(part)),
        uses_private(part) ==> respelled.cursor.private_environments.len() > 0,
    ensures
        member_expression(&Atoms, again, respelled).result == Ok::<NodeView, ParseErrorView>(part),
        member_expression(&Atoms, again, respelled).stream.cursor.position
            == respelled.cursor.tokens.len(),
{
    lemma_parsed_is_member(parser, stream);
    lemma_part_is_member(part, member_expression(&Atoms, parser, stream).result->Ok_0);
    lemma_spelling_parses(again, part, respelled);
}

} // verus!
