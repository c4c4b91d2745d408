use boa_interner::Interner;
use member_expression::atoms::Atoms;
use member_expression::cursor::Cursor;
use member_expression::error::ParseError;
use member_expression::keyword::Keyword;
use member_expression::node::Node;
use member_expression::position::Position;
use member_expression::position::Span;
use member_expression::productions::Productions;
use member_expression::punctuator::Punctuator;
use member_expression::token::TemplateString;
use member_expression::token::Token;
use member_expression::token::TokenKind;

fn span_of(index: u32) -> Span {
    Span::new(Position::new(1, 2 * index + 1), Position::new(1, 2 * index + 2))
}

fn cursor_over(kinds: Vec<TokenKind>) -> Cursor {
    let mut tokens = Vec::new();
    let mut index = 0;
    for kind in kinds {
        tokens.push(Token::new(kind, span_of(index)));
        index += 1;
    }
    Cursor::new(tokens)
}

fn punctuator(punctuator: Punctuator) -> TokenKind {
    TokenKind::Punctuator(punctuator)
}

#[test]
fn single_tokens_are_operands() {
    let mut interner = Interner::default();
    let a = interner.get_or_intern("a");
    let cases = vec![
        (TokenKind::Identifier(a), Node::Identifier(a)),
        (TokenKind::Keyword(Keyword::This, false), Node::This),
        (TokenKind::Keyword(Keyword::This, true), Node::This),
        (TokenKind::BooleanLiteral(true), Node::Boolean(true)),
        (TokenKind::BooleanLiteral(false), Node::Boolean(false)),
        (TokenKind::NullLiteral, Node::Null),
    ];
    for (kind, node) in cases {
        let mut cursor = cursor_over(vec![kind, kind]);
        let primary = Atoms.parse_primary_expression(&mut cursor, &mut interner, None, true, false);
        assert_eq!(primary.as_ref(), Ok(&node));
        assert_eq!(cursor.position(), 1);
        let expression =
            Atoms.parse_expression(&mut cursor, &mut interner, None, false, false, true);
        assert_eq!(expression, Ok(node));
        assert_eq!(cursor.position(), 2);
    }
}

#[test]
fn other_tokens_are_no_operands() {
    let mut interner = Interner::default();
    let a = interner.get_or_intern("a");
    let cases = vec![
        (TokenKind::Keyword(Keyword::Function, false), "function"),
        (punctuator(Punctuator::OpenBlock), "{"),
        (TokenKind::PrivateIdentifier(a), "#a"),
        (TokenKind::Eof, "end of file"),
        (TokenKind::TemplateNoSubstitution(TemplateString { raw: a, cooked: None }), "a"),
    ];
    for (kind, text) in cases {
        let error = ParseError::Unexpected {
            expected: vec![],
            found: text.to_string(),
            span: span_of(0),
            context: "primary expression",
        };
        let mut cursor = cursor_over(vec![kind]);
        let primary = Atoms.parse_primary_expression(&mut cursor, &mut interner, None, false, false);
        assert_eq!(primary.as_ref(), Err(&error));
        assert_eq!(cursor.position(), 1);
        let mut cursor = cursor_over(vec![kind]);
        let expression = Atoms.parse_expression(&mut cursor, &mut interner, None, true, false, false);
        assert_eq!(expression, Err(error));
        assert_eq!(cursor.position(), 1);
    }
}

#[test]
fn operand_at_the_end_is_cut_short() {
    let mut interner = Interner::default();
    let mut cursor = cursor_over(vec![]);
    assert_eq!(
        Atoms.parse_primary_expression(&mut cursor, &mut interner, None, false, false),
        Err(ParseError::AbruptEnd)
    );
    assert_eq!(
        Atoms.parse_expression(&mut cursor, &mut interner, None, true, false, false),
        Err(ParseError::AbruptEnd)
    );
}

#[test]
fn name_already_met_is_an_operand_and_no_token_is_read() {
    let mut interner = Interner::default();
    let met = interner.get_or_intern("met");
    let mut cursor = cursor_over(vec![TokenKind::NullLiteral]);
    assert_eq!(
        Atoms.parse_primary_expression(&mut cursor, &mut interner, Some(met), false, false),
        Ok(Node::Identifier(met))
    );
    assert_eq!(
        Atoms.parse_expression(&mut cursor, &mut interner, Some(met), true, false, false),
        Ok(Node::Identifier(met))
    );
    assert_eq!(cursor.position(), 0);
}

#[test]
fn arguments_are_operands_between_parentheses() {
    let mut interner = Interner::default();
    let a = interner.get_or_intern("a");
    let mut cursor = cursor_over(vec![
        punctuator(Punctuator::OpenParen),
        punctuator(Punctuator::CloseParen),
        TokenKind::NullLiteral,
    ]);
    assert_eq!(Atoms.parse_arguments(&mut cursor, &mut interner, false, false), Ok(vec![]));
    assert_eq!(cursor.position(), 2);

    let mut cursor = cursor_over(vec![
        punctuator(Punctuator::OpenParen),
        TokenKind::Identifier(a),
        punctuator(Punctuator::CloseParen),
    ]);
    assert_eq!(
        Atoms.parse_arguments(&mut cursor, &mut interner, false, false),
        Ok(vec![Node::Identifier(a)])
    );
    assert_eq!(cursor.position(), 3);

    let mut cursor = cursor_over(vec![
        punctuator(Punctuator::OpenParen),
        TokenKind::Identifier(a),
        punctuator(Punctuator::Comma),
        TokenKind::Keyword(Keyword::This, false),
        punctuator(Punctuator::Comma),
        TokenKind::BooleanLiteral(true),
        punctuator(Punctuator::CloseParen),
        punctuator(Punctuator::CloseParen),
    ]);
    assert_eq!(
        Atoms.parse_arguments(&mut cursor, &mut interner, true, true),
        Ok(vec![Node::Identifier(a), Node::This, Node::Boolean(true)])
    );
    assert_eq!(cursor.position(), 7);
}

#[test]
fn arguments_start_with_a_parenthesis() {
    let mut interner = Interner::default();
    let a = interner.get_or_intern("a");
    let mut cursor = cursor_over(vec![TokenKind::Identifier(a), punctuator(Punctuator::CloseParen)]);
    assert_eq!(
        Atoms.parse_arguments(&mut cursor, &mut interner, false, false),
        Err(ParseError::Unexpected {
            expected: vec!["(".to_string()],
            found: "a".to_string(),
            span: span_of(0),
            context: "arguments",
        })
    );
    assert_eq!(cursor.position(), 1);
    let mut cursor = cursor_over(vec![]);
    assert_eq!(
        Atoms.parse_arguments(&mut cursor, &mut interner, false, false),
        Err(ParseError::AbruptEnd)
    );
}

#[test]
fn arguments_need_commas_and_a_closing_parenthesis() {
    let mut interner = Interner::default();
    let a = interner.get_or_intern("a");
    let mut cursor = cursor_over(vec![
        punctuator(Punctuator::OpenParen),
        TokenKind::Identifier(a),
        TokenKind::Identifier(a),
    ]);
    assert_eq!(
        Atoms.parse_arguments(&mut cursor, &mut interner, false, false),
        Err(ParseError::Unexpected {
            expected: vec![",".to_string(), ")".to_string()],
            found: "a".to_string(),
            span: span_of(2),
            context: "argument list",
        })
    );
    assert_eq!(cursor.position(), 3);

    for kinds in [
        vec![punctuator(Punctuator::OpenParen)],
        vec![punctuator(Punctuator::OpenParen), TokenKind::Identifier(a)],
        vec![
            punctuator(Punctuator::OpenParen),
            TokenKind::Identifier(a),
            punctuator(Punctuator::Comma),
        ],
    ] {
        let mut cursor = cursor_over(kinds);
        assert_eq!(
            Atoms.parse_arguments(&mut cursor, &mut interner, false, false),
            Err(ParseError::AbruptEnd)
        );
    }

    let mut cursor = cursor_over(vec![
        punctuator(Punctuator::OpenParen),
        TokenKind::Identifier(a),
        punctuator(Punctuator::Comma),
        punctuator(Punctuator::CloseParen),
    ]);
    assert_eq!(
        Atoms.parse_arguments(&mut cursor, &mut interner, false, false),
        Err(ParseError::Unexpected {
            expected: vec![],
            found: ")".to_string(),
            span: span_of(3),
            context: "primary expression",
        })
    );
}

#[test]
fn template_without_substitutions_is_one_piece() {
    let mut interner = Interner::default();
    let raw = interner.get_or_intern("raw");
    let cooked = interner.get_or_intern("cooked");
    let mut cursor = cursor_over(vec![
        TokenKind::TemplateNoSubstitution(TemplateString { raw, cooked: Some(cooked) }),
        TokenKind::NullLiteral,
    ]);
    assert_eq!(
        Atoms.parse_tagged_template(
            &mut cursor,
            &mut interner,
            false,
            false,
            Position::new(9, 9),
            Node::This
        ),
        Ok(Node::TaggedTemplate {
            tag: Box::new(Node::This),
            raws: vec![raw],
            cookeds: vec![Some(cooked)],
            exprs: vec![],
        })
    );
    assert_eq!(cursor.position(), 1);
}

#[test]
fn template_with_substitutions_keeps_pieces_and_operands_in_order() {
    let mut interner = Interner::default();
    let one = interner.get_or_intern("one");
    let two = interner.get_or_intern("two");
    let three = interner.get_or_intern("three");
    let x = interner.get_or_intern("x");
    let mut cursor = cursor_over(vec![
        TokenKind::TemplateMiddle(TemplateString { raw: one, cooked: None }),
        TokenKind::Identifier(x),
        punctuator(Punctuator::CloseBlock),
        TokenKind::TemplateMiddle(TemplateString { raw: two, cooked: Some(two) }),
        TokenKind::BooleanLiteral(false),
        punctuator(Punctuator::CloseBlock),
        TokenKind::TemplateNoSubstitution(TemplateString { raw: three, cooked: Some(one) }),
        punctuator(Punctuator::CloseBlock),
    ]);
    assert_eq!(
        Atoms.parse_tagged_template(
            &mut cursor,
            &mut interner,
            true,
            true,
            Position::new(1, 1),
            Node::Null
        ),
        Ok(Node::TaggedTemplate {
            tag: Box::new(Node::Null),
            raws: vec![one, two, three],
            cookeds: vec![None, Some(two), Some(one)],
            exprs: vec![Node::Identifier(x), Node::Boolean(false)],
        })
    );
    assert_eq!(cursor.position(), 7);
}

#[test]
fn template_that_does_not_start_with_a_piece_is_refused_at_its_start() {
    let mut interner = Interner::default();
    let mut cursor = cursor_over(vec![TokenKind::NullLiteral, TokenKind::NullLiteral]);
    assert_eq!(
        Atoms.parse_tagged_template(
            &mut cursor,
            &mut interner,
            false,
            false,
            Position::new(5, 6),
            Node::This
        ),
        Err(ParseError::General {
            message: "cannot parse tagged template literal",
            position: Position::new(5, 6),
        })
    );
    assert_eq!(cursor.position(), 1);
}

#[test]
fn template_needs_a_brace_and_a_piece_behind_each_substitution() {
    let mut interner = Interner::default();
    let raw = interner.get_or_intern("raw");
    let piece = TokenKind::TemplateMiddle(TemplateString { raw, cooked: None });
    let start = Position::new(1, 1);

    let mut cursor = cursor_over(vec![piece, TokenKind::NullLiteral, TokenKind::NullLiteral]);
    assert_eq!(
        Atoms.parse_tagged_template(&mut cursor, &mut interner, false, false, start, Node::This),
        Err(ParseError::Unexpected {
            expected: vec!["}".to_string()],
            found: "null".to_string(),
            span: span_of(2),
            context: "template literal",
        })
    );
    assert_eq!(cursor.position(), 3);

    let mut cursor = cursor_over(vec![
        piece,
        TokenKind::NullLiteral,
        punctuator(Punctuator::CloseBlock),
        TokenKind::NullLiteral,
    ]);
    assert_eq!(
        Atoms.parse_tagged_template(&mut cursor, &mut interner, false, false, start, Node::This),
        Err(ParseError::General { message: "cannot parse tagged template literal", position: start })
    );
    assert_eq!(cursor.position(), 4);

    for kinds in [
        vec![],
        vec![piece],
        vec![piece, TokenKind::NullLiteral],
        vec![piece, TokenKind::NullLiteral, punctuator(Punctuator::CloseBlock)],
    ] {
        let mut cursor = cursor_over(kinds);
        assert_eq!(
            Atoms.parse_tagged_template(&mut cursor, &mut interner, false, false, start, Node::This),
            Err(ParseError::AbruptEnd)
        );
    }

    let mut cursor = cursor_over(vec![piece, punctuator(Punctuator::CloseBlock)]);
    assert_eq!(
        Atoms.parse_tagged_template(&mut cursor, &mut interner, false, false, start, Node::This),
        Err(ParseError::Unexpected {
            expected: vec![],
            found: "}".to_string(),
            span: span_of(1),
            context: "primary expression",
        })
    );
}
