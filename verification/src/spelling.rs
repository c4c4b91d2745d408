//! The tokens that spell a tree.

use crate::keyword::Keyword;
use crate::node::nodes_view;
use crate::node::GetSuperField;
use crate::node::GetSuperFieldView;
use crate::node::Node;
use crate::node::NodeView;
use crate::punctuator::Punctuator;
use crate::token::TemplateString;
use crate::token::TokenKind;
use boa_interner::Sym;
use vstd::prelude::*;

verus! {

/// Whether a tree is one token: a name, `this`, `true`, `false` or `null`.
pub open spec fn is_operand(node: NodeView) -> bool {
    node is Identifier || node is This || node is Boolean || node is Null
}

/// The token that an operand is.
pub open spec fn operand_kind(node: NodeView) -> TokenKind {
    match node {
        NodeView::Identifier(name) => TokenKind::Identifier(name),
        NodeView::This => TokenKind::Keyword(Keyword::This, false),
        NodeView::Boolean(value) => TokenKind::BooleanLiteral(value),
        _ => TokenKind::NullLiteral,
    }
}

/// Whether all the trees of a list are operands.
pub open spec fn all_operands(nodes: Seq<NodeView>) -> bool {
    forall|i: int| 0 <= i < nodes.len() ==> is_operand(#[trigger] nodes[i])
}

/// Whether a tree is a member expression over operands: an operand, or
/// `new` before such a tree with operands as arguments, or a property of
/// `super`, or such a tree with an access or a template literal behind it,
/// where keys between brackets and substitutions are operands and a
/// template literal has one piece more than it has substitutions.
pub open spec fn is_member(node: NodeView) -> bool
    decreases node,
{
    match node {
        NodeView::Identifier(_) => true,
        NodeView::This => true,
        NodeView::Boolean(_) => true,
        NodeView::Null => true,
        NodeView::Call(_) => false,
        NodeView::New(call) => is_member(*call.function) && all_operands(call.args),
        NodeView::GetConstField { obj, .. } => is_member(*obj),
        NodeView::GetPrivateField { obj, .. } => is_member(*obj),
        NodeView::GetField { obj, field } => is_member(*obj) && is_operand(*field),
        NodeView::GetSuperField(GetSuperFieldView::Const(_)) => true,
        NodeView::GetSuperField(GetSuperFieldView::Expr(key)) => is_operand(*key),
        NodeView::TaggedTemplate { tag, raws, cookeds, exprs } => {
            &&& is_member(*tag)
            &&& all_operands(exprs)
            &&& raws.len() == exprs.len() + 1
            &&& cookeds.len() == raws.len()
        },
    }
}

/// Whether a private name is used in a member expression over operands.
pub open spec fn uses_private(node: NodeView) -> bool
    decreases node,
{
    match node {
        NodeView::New(call) => uses_private(*call.function),
        NodeView::GetConstField { obj, .. } => uses_private(*obj),
        NodeView::GetPrivateField { .. } => true,
        NodeView::GetField { obj, .. } => uses_private(*obj),
        NodeView::TaggedTemplate { tag, .. } => uses_private(*tag),
        _ => false,
    }
}

/// The tokens that spell a list of operands as arguments: the operands with
/// commas between them.
pub open spec fn argument_spelling(args: Seq<NodeView>) -> Seq<TokenKind>
    decreases args.len(),
{
    if args.len() == 0 {
        Seq::empty()
    } else if args.len() == 1 {
        seq![operand_kind(args[0])]
    } else {
        seq![operand_kind(args[0]), TokenKind::Punctuator(Punctuator::Comma)] + argument_spelling(
            args.drop_first(),
        )
    }
}

/// The tokens that spell a template literal: each piece but the last with
/// its substitution and a closing brace behind it, then the last piece.
pub open spec fn template_spelling(
    raws: Seq<Sym>,
    cookeds: Seq<Option<Sym>>,
    exprs: Seq<NodeView>,
) -> Seq<TokenKind>
    decreases exprs.len(),
{
    if exprs.len() == 0 {
        seq![TokenKind::TemplateNoSubstitution(TemplateString { raw: raws[0], cooked: cookeds[0] })]
    } else {
        seq![
            TokenKind::TemplateMiddle(TemplateString { raw: raws[0], cooked: cookeds[0] }),
            operand_kind(exprs[0]),
            TokenKind::Punctuator(Punctuator::CloseBlock),
        ] + template_spelling(raws.drop_first(), cookeds.drop_first(), exprs.drop_first())
    }
}

/// The tokens that spell a tree, in the one way that has parentheses behind
/// every `new` and a plain name behind every dot.
pub open spec fn spelling(node: NodeView) -> Seq<TokenKind>
    decreases node,
{
    match node {
        NodeView::Identifier(_) => seq![operand_kind(node)],
        NodeView::This => seq![operand_kind(node)],
        NodeView::Boolean(_) => seq![operand_kind(node)],
        NodeView::Null => seq![operand_kind(node)],
        NodeView::Call(call) => spelling(*call.function) + seq![
            TokenKind::Punctuator(Punctuator::OpenParen),
        ] + argument_spelling(call.args) + seq![TokenKind::Punctuator(Punctuator::CloseParen)],
        NodeView::New(call) => seq![TokenKind::Keyword(Keyword::New, false)] + spelling(
            *call.function,
        ) + seq![TokenKind::Punctuator(Punctuator::OpenParen)] + argument_spelling(call.args)
            + seq![TokenKind::Punctuator(Punctuator::CloseParen)],
        NodeView::GetConstField { obj, field } => spelling(*obj) + seq![
            TokenKind::Punctuator(Punctuator::Dot),
            TokenKind::Identifier(field),
        ],
        NodeView::GetPrivateField { obj, field } => spelling(*obj) + seq![
            TokenKind::Punctuator(Punctuator::Dot),
            TokenKind::PrivateIdentifier(field),
        ],
        NodeView::GetField { obj, field } => spelling(*obj) + seq![
            TokenKind::Punctuator(Punctuator::OpenBracket),
        ] + spelling(*field) + seq![TokenKind::Punctuator(Punctuator::CloseBracket)],
        NodeView::GetSuperField(GetSuperFieldView::Const(name)) => seq![
            TokenKind::Keyword(Keyword::Super, false),
            TokenKind::Punctuator(Punctuator::Dot),
            TokenKind::Identifier(name),
        ],
        NodeView::GetSuperField(GetSuperFieldView::Expr(key)) => seq![
            TokenKind::Keyword(Keyword::Super, false),
            TokenKind::Punctuator(Punctuator::OpenBracket),
        ] + spelling(*key) + seq![TokenKind::Punctuator(Punctuator::CloseBracket)],
        NodeView::TaggedTemplate { tag, raws, cookeds, exprs } => spelling(*tag)
            + template_spelling(raws, cookeds, exprs),
    }
}

/// An operand is spelled by its one token.
pub proof fn lemma_operand_spelling(node: NodeView)
    requires
        is_operand(node),
    ensures
        spelling(node) == seq![operand_kind(node)],
        !(operand_kind(node) is Punctuator),
        !(operand_kind(node) is TemplateMiddle),
        !(operand_kind(node) is TemplateNoSubstitution),
        operand_kind(node) matches TokenKind::Keyword(word, _) ==> word == Keyword::This,
{
}

/// The token that an operand is; `None` for a tree that is no operand.
fn operand_token(node: &Node) -> (kind: Option<TokenKind>)
    ensures
        kind is Some <==> is_operand(node@),
        kind matches Some(token) ==> token == operand_kind(node@),
{
    match node {
        Node::Identifier(name) => Some(TokenKind::Identifier(*name)),
        Node::This => Some(TokenKind::Keyword(Keyword::This, false)),
        Node::Boolean(value) => Some(TokenKind::BooleanLiteral(*value)),
        Node::Null => Some(TokenKind::NullLiteral),
        _ => None,
    }
}

/// Adds the tokens that spell a list of arguments; `false`, with some of
/// the tokens added, where one of them is no operand.
fn spell_arguments(args: &Vec<Node>, kinds: &mut Vec<TokenKind>) -> (operands: bool)
    ensures
        operands == all_operands(nodes_view(args@)),
        operands ==> final(kinds)@ == old(kinds)@ + argument_spelling(nodes_view(args@)),
{
    let ghost list = nodes_view(args@);
    let mut index: usize = 0;
    assert(list.skip(0) =~= list);
    while index < args.len()
        invariant
            index <= args.len(),
            list == nodes_view(args@),
            forall|i: int| 0 <= i < index ==> is_operand(#[trigger] list[i]),
            old(kinds)@ + argument_spelling(list) == kinds@ + argument_spelling(
                list.skip(index as int),
            ),
        decreases args.len() - index,
    {
        let ghost rest = list.skip(index as int);
        assert(rest[0] == list[index as int]);
        assert(rest.drop_first() =~= list.skip(index + 1));
        match operand_token(&args[index]) {
            Some(token) => {
                kinds.push(token);
                if index + 1 < args.len() {
                    kinds.push(TokenKind::Punctuator(Punctuator::Comma));
                    assert(kinds@ + argument_spelling(list.skip(index + 1)) =~= old(kinds)@
                        + argument_spelling(list));
                } else {
                    assert(argument_spelling(list.skip(index + 1)) =~= Seq::empty());
                    assert(kinds@ + argument_spelling(list.skip(index + 1)) =~= old(kinds)@
                        + argument_spelling(list));
                }
            },
            None => {
                return false;
            },
        }
        index = index + 1;
    }
    assert(argument_spelling(list.skip(index as int)) =~= Seq::empty());
    assert(kinds@ =~= old(kinds)@ + argument_spelling(list));
    true
}

/// Adds the tokens that spell a template literal; `false`, with some of the
/// tokens added, where the lists do not fit or a substitution is no operand.
fn spell_template(
    raws: &Vec<Sym>,
    cookeds: &Vec<Option<Sym>>,
    exprs: &Vec<Node>,
    kinds: &mut Vec<TokenKind>,
) -> (fits: bool)
    ensures
        fits == (all_operands(nodes_view(exprs@)) && raws@.len() == exprs@.len() + 1
            && cookeds@.len() == raws@.len()),
        fits ==> final(kinds)@ == old(kinds)@ + template_spelling(
            raws@,
            cookeds@,
            nodes_view(exprs@),
        ),
{
    if cookeds.len() != raws.len() || raws.len() == 0 || raws.len() - 1 != exprs.len() {
        return false;
    }
    let ghost list = nodes_view(exprs@);
    let mut index: usize = 0;
    assert(list.skip(0) =~= list);
    assert(raws@.skip(0) =~= raws@);
    assert(cookeds@.skip(0) =~= cookeds@);
    while index < exprs.len()
        invariant
            index <= exprs.len(),
            raws@.len() == exprs@.len() + 1,
            cookeds@.len() == raws@.len(),
            list == nodes_view(exprs@),
            forall|i: int| 0 <= i < index ==> is_operand(#[trigger] list[i]),
            old(kinds)@ + template_spelling(raws@, cookeds@, list) == kinds@ + template_spelling(
                raws@.skip(index as int),
                cookeds@.skip(index as int),
                list.skip(index as int),
            ),
        decreases exprs.len() - index,
    {
        assert(list.skip(index as int)[0] == list[index as int]);
        assert(raws@.skip(index as int).drop_first() =~= raws@.skip(index + 1));
        assert(cookeds@.skip(index as int).drop_first() =~= cookeds@.skip(index + 1));
        assert(list.skip(index as int).drop_first() =~= list.skip(index + 1));
        match operand_token(&exprs[index]) {
            Some(token) => {
                kinds.push(
                    TokenKind::TemplateMiddle(
                        TemplateString { raw: raws[index], cooked: cookeds[index] },
                    ),
                );
                kinds.push(token);
                kinds.push(TokenKind::Punctuator(Punctuator::CloseBlock));
                assert(kinds@ + template_spelling(
                    raws@.skip(index + 1),
                    cookeds@.skip(index + 1),
                    list.skip(index + 1),
                ) =~= old(kinds)@ + template_spelling(raws@, cookeds@, list));
            },
            None => {
                return false;
            },
        }
        index = index + 1;
    }
    kinds.push(
        TokenKind::TemplateNoSubstitution(TemplateString { raw: raws[index], cooked: cookeds[index] }),
    );
    assert(kinds@ =~= old(kinds)@ + template_spelling(raws@, cookeds@, list));
    true
}

/// Adds the tokens that spell a tree; `false`, with some of the tokens
/// added, where the tree is no member expression over operands.
fn spell_member(node: &Node, kinds: &mut Vec<TokenKind>) -> (member: bool)
    ensures
        member == is_member(node@),
        member ==> final(kinds)@ == old(kinds)@ + spelling(node@),
    decreases node,
{
    match node {
        Node::Call(_) => false,
        Node::New(call) => {
            kinds.push(TokenKind::Keyword(Keyword::New, false));
            if !spell_member(&call.function, kinds) {
                return false;
            }
            kinds.push(TokenKind::Punctuator(Punctuator::OpenParen));
            if !spell_arguments(&call.args, kinds) {
                return false;
            }
            kinds.push(TokenKind::Punctuator(Punctuator::CloseParen));
            assert(kinds@ =~= old(kinds)@ + spelling(node@));
            true
        },
        Node::GetConstField { obj, field } => {
            if !spell_member(obj, kinds) {
                return false;
            }
            kinds.push(TokenKind::Punctuator(Punctuator::Dot));
            kinds.push(TokenKind::Identifier(*field));
            assert(kinds@ =~= old(kinds)@ + spelling(node@));
            true
        },
        Node::GetPrivateField { obj, field } => {
            if !spell_member(obj, kinds) {
                return false;
            }
            kinds.push(TokenKind::Punctuator(Punctuator::Dot));
            kinds.push(TokenKind::PrivateIdentifier(*field));
            assert(kinds@ =~= old(kinds)@ + spelling(node@));
            true
        },
        Node::GetField { obj, field } => {
            if !spell_member(obj, kinds) {
                return false;
            }
            match operand_token(field) {
                Some(token) => {
                    proof {
                        lemma_operand_spelling(field@);
                    }
                    kinds.push(TokenKind::Punctuator(Punctuator::OpenBracket));
                    kinds.push(token);
                    kinds.push(TokenKind::Punctuator(Punctuator::CloseBracket));
                    assert(kinds@ =~= old(kinds)@ + spelling(node@));
                    true
                },
                None => false,
            }
        },
        Node::GetSuperField(GetSuperField::Const(name)) => {
            kinds.push(TokenKind::Keyword(Keyword::Super, false));
            kinds.push(TokenKind::Punctuator(Punctuator::Dot));
            kinds.push(TokenKind::Identifier(*name));
            assert(kinds@ =~= old(kinds)@ + spelling(node@));
            true
        },
        Node::GetSuperField(GetSuperField::Expr(key)) => match operand_token(key) {
            Some(token) => {
                proof {
                    lemma_operand_spelling(key@);
                }
                kinds.push(TokenKind::Keyword(Keyword::Super, false));
                kinds.push(TokenKind::Punctuator(Punctuator::OpenBracket));
                kinds.push(token);
                kinds.push(TokenKind::Punctuator(Punctuator::CloseBracket));
                assert(kinds@ =~= old(kinds)@ + spelling(node@));
                true
            },
            None => false,
        },
        Node::TaggedTemplate { tag, raws, cookeds, exprs } => {
            if !spell_member(tag, kinds) {
                return false;
            }
            assert(nodes_view(exprs@).len() == exprs@.len());
            if !spell_template(raws, cookeds, exprs, kinds) {
                return false;
            }
            assert(kinds@ =~= old(kinds)@ + spelling(node@));
            true
        },
        _ => match operand_token(node) {
            Some(token) => {
                kinds.push(token);
                assert(kinds@ =~= old(kinds)@ + spelling(node@));
                true
            },
            None => false,
        },
    }
}

/// The tokens that spell a tree, in the one way that has parentheses behind
/// every `new` and a plain name behind every dot; `None` for a tree that is
/// no member expression over operands.
pub fn spell(node: &Node) -> (kinds: Option<Vec<TokenKind>>)
    ensures
        kinds is Some <==> is_member(node@),
        kinds matches Some(list) ==> list@ == spelling(node@),
{
    let mut kinds: Vec<TokenKind> = Vec::new();
    if spell_member(node, &mut kinds) {
        assert(kinds@ =~= spelling(node@));
        Some(kinds)
    } else {
        None
    }
}

} // verus!
