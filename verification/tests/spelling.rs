use boa_interner::Interner;
use boa_interner::Sym;
use member_expression::atoms::Atoms;
use member_expression::cursor::Cursor;
use member_expression::error::ParseError;
use member_expression::keyword::Keyword;
use member_expression::node::Call;
use member_expression::node::GetSuperField;
use member_expression::node::Node;
use member_expression::parser::MemberExpression;
use member_expression::position::Position;
use member_expression::position::Span;
use member_expression::punctuator::Punctuator;
use member_expression::spelling::spell;
use member_expression::token::TemplateString;
use member_expression::token::Token;
use member_expression::token::TokenKind;

/// The tokens of the given kinds, `step` columns apart on line `line`.
fn placed(kinds: &[TokenKind], line: u32, step: u32) -> Vec<Token> {
    let mut tokens = Vec::new();
    let mut column = 1;
    for kind in kinds {
        let span = Span::new(Position::new(line, column), Position::new(line, column + step));
        tokens.push(Token::new(*kind, span));
        column += step;
    }
    tokens
}

/// Parses the tokens inside one class body, and says how many were read.
fn parse_in_class(tokens: Vec<Token>, interner: &mut Interner) -> (Result<Node, ParseError>, usize) {
    let mut cursor = Cursor::new(tokens);
    cursor.push_private_environment();
    let parsed = MemberExpression::new(None, false, false).parse(&mut cursor, interner, &Atoms);
    (parsed, cursor.position())
}

/// Parses `kinds`, spells the tree, and parses the spelling at other places.
fn there_and_back(kinds: Vec<TokenKind>, interner: &mut Interner) -> (Node, Vec<TokenKind>) {
    let (parsed, read) = parse_in_class(placed(&kinds, 1, 1), interner);
    let node = parsed.unwrap();
    assert_eq!(read, kinds.len());
    let spelled = spell(&node).unwrap();
    let (again, read_again) = parse_in_class(placed(&spelled, 7, 3), interner);
    assert_eq!(again.as_ref(), Ok(&node));
    assert_eq!(read_again, spelled.len());
    (node, spelled)
}

fn id(interner: &mut Interner, name: &str) -> TokenKind {
    TokenKind::Identifier(interner.get_or_intern(name))
}

fn p(punctuator: Punctuator) -> TokenKind {
    TokenKind::Punctuator(punctuator)
}

fn kw(keyword: Keyword) -> TokenKind {
    TokenKind::Keyword(keyword, false)
}

#[test]
fn operands_spell_as_one_token() {
    let mut interner = Interner::default();
    let a = interner.get_or_intern("a");
    assert_eq!(spell(&Node::Identifier(a)), Some(vec![TokenKind::Identifier(a)]));
    assert_eq!(spell(&Node::This), Some(vec![kw(Keyword::This)]));
    assert_eq!(spell(&Node::Boolean(true)), Some(vec![TokenKind::BooleanLiteral(true)]));
    assert_eq!(spell(&Node::Boolean(false)), Some(vec![TokenKind::BooleanLiteral(false)]));
    assert_eq!(spell(&Node::Null), Some(vec![TokenKind::NullLiteral]));
}

#[test]
fn accesses_spell_behind_their_object() {
    let mut interner = Interner::default();
    let a = interner.get_or_intern("a");
    let b = interner.get_or_intern("b");
    let object = || Box::new(Node::Identifier(a));
    assert_eq!(
        spell(&Node::GetConstField { obj: object(), field: b }),
        Some(vec![TokenKind::Identifier(a), p(Punctuator::Dot), TokenKind::Identifier(b)])
    );
    assert_eq!(
        spell(&Node::GetPrivateField { obj: object(), field: b }),
        Some(vec![TokenKind::Identifier(a), p(Punctuator::Dot), TokenKind::PrivateIdentifier(b)])
    );
    assert_eq!(
        spell(&Node::GetField { obj: object(), field: Box::new(Node::Null) }),
        Some(vec![
            TokenKind::Identifier(a),
            p(Punctuator::OpenBracket),
            TokenKind::NullLiteral,
            p(Punctuator::CloseBracket),
        ])
    );
}

#[test]
fn new_spells_with_parentheses_and_commas() {
    let mut interner = Interner::default();
    let foo = interner.get_or_intern("Foo");
    let call = |args| Node::New(Call { function: Box::new(Node::Identifier(foo)), args });
    assert_eq!(
        spell(&call(vec![])),
        Some(vec![
            kw(Keyword::New),
            TokenKind::Identifier(foo),
            p(Punctuator::OpenParen),
            p(Punctuator::CloseParen),
        ])
    );
    assert_eq!(
        spell(&call(vec![Node::This])),
        Some(vec![
            kw(Keyword::New),
            TokenKind::Identifier(foo),
            p(Punctuator::OpenParen),
            kw(Keyword::This),
            p(Punctuator::CloseParen),
        ])
    );
    assert_eq!(
        spell(&call(vec![Node::This, Node::Null, Node::Boolean(true)])),
        Some(vec![
            kw(Keyword::New),
            TokenKind::Identifier(foo),
            p(Punctuator::OpenParen),
            kw(Keyword::This),
            p(Punctuator::Comma),
            TokenKind::NullLiteral,
            p(Punctuator::Comma),
            TokenKind::BooleanLiteral(true),
            p(Punctuator::CloseParen),
        ])
    );
}

#[test]
fn super_properties_spell_behind_the_word() {
    let mut interner = Interner::default();
    let x = interner.get_or_intern("x");
    assert_eq!(
        spell(&Node::GetSuperField(GetSuperField::Const(x))),
        Some(vec![kw(Keyword::Super), p(Punctuator::Dot), TokenKind::Identifier(x)])
    );
    assert_eq!(
        spell(&Node::GetSuperField(GetSuperField::Expr(Box::new(Node::Identifier(x))))),
        Some(vec![
            kw(Keyword::Super),
            p(Punctuator::OpenBracket),
            TokenKind::Identifier(x),
            p(Punctuator::CloseBracket),
        ])
    );
}

#[test]
fn templates_spell_piece_by_piece() {
    let mut interner = Interner::default();
    let tag = interner.get_or_intern("tag");
    let one = interner.get_or_intern("one");
    let two = interner.get_or_intern("two");
    let three = interner.get_or_intern("three");
    let node = Node::TaggedTemplate {
        tag: Box::new(Node::Identifier(tag)),
        raws: vec![one, two, three],
        cookeds: vec![Some(one), None, Some(three)],
        exprs: vec![Node::This, Node::Null],
    };
    assert_eq!(
        spell(&node),
        Some(vec![
            TokenKind::Identifier(tag),
            TokenKind::TemplateMiddle(TemplateString { raw: one, cooked: Some(one) }),
            kw(Keyword::This),
            p(Punctuator::CloseBlock),
            TokenKind::TemplateMiddle(TemplateString { raw: two, cooked: None }),
            TokenKind::NullLiteral,
            p(Punctuator::CloseBlock),
            TokenKind::TemplateNoSubstitution(TemplateString { raw: three, cooked: Some(three) }),
        ])
    );
}

#[test]
fn trees_that_the_parser_cannot_give_have_no_spelling() {
    let mut interner = Interner::default();
    let a = interner.get_or_intern("a");
    let name = || Box::new(Node::Identifier(a));
    let access = || Node::GetConstField { obj: name(), field: a };
    assert_eq!(spell(&Node::Call(Call { function: name(), args: vec![] })), None);
    assert_eq!(spell(&Node::New(Call { function: name(), args: vec![access()] })), None);
    assert_eq!(spell(&Node::GetField { obj: name(), field: Box::new(access()) }), None);
    assert_eq!(spell(&Node::GetSuperField(GetSuperField::Expr(Box::new(access())))), None);
    assert_eq!(
        spell(&Node::GetConstField {
            obj: Box::new(Node::Call(Call { function: name(), args: vec![] })),
            field: a,
        }),
        None
    );
    assert_eq!(
        spell(&Node::TaggedTemplate { tag: name(), raws: vec![], cookeds: vec![], exprs: vec![] }),
        None
    );
    assert_eq!(
        spell(&Node::TaggedTemplate {
            tag: name(),
            raws: vec![a, a],
            cookeds: vec![None, None],
            exprs: vec![],
        }),
        None
    );
    assert_eq!(
        spell(&Node::TaggedTemplate {
            tag: name(),
            raws: vec![a, a],
            cookeds: vec![None],
            exprs: vec![Node::Null],
        }),
        None
    );
    assert_eq!(
        spell(&Node::TaggedTemplate {
            tag: name(),
            raws: vec![a, a],
            cookeds: vec![None, None],
            exprs: vec![access()],
        }),
        None
    );
}

#[test]
fn spelling_and_parsing_again_gives_the_same_tree() {
    let mut interner = Interner::default();
    let raw = interner.get_or_intern("piece");
    let hidden = interner.get_or_intern("hidden");
    let kinds = vec![
        kw(Keyword::New),
        kw(Keyword::New),
        id(&mut interner, "Foo"),
        p(Punctuator::Dot),
        id(&mut interner, "bar"),
        p(Punctuator::OpenBracket),
        kw(Keyword::This),
        p(Punctuator::CloseBracket),
        p(Punctuator::OpenParen),
        id(&mut interner, "x"),
        p(Punctuator::Comma),
        TokenKind::BooleanLiteral(false),
        p(Punctuator::CloseParen),
        p(Punctuator::Dot),
        TokenKind::PrivateIdentifier(hidden),
        TokenKind::TemplateMiddle(TemplateString { raw, cooked: None }),
        TokenKind::NullLiteral,
        p(Punctuator::CloseBlock),
        TokenKind::TemplateNoSubstitution(TemplateString { raw, cooked: Some(raw) }),
        p(Punctuator::OpenParen),
        p(Punctuator::CloseParen),
        p(Punctuator::Dot),
        id(&mut interner, "last"),
    ];
    let (_, spelled) = there_and_back(kinds.clone(), &mut interner);
    assert_eq!(spelled, kinds);
}

#[test]
fn spelling_writes_what_was_left_out_or_written_otherwise() {
    let mut interner = Interner::default();
    let kinds = vec![
        kw(Keyword::New),
        kw(Keyword::New),
        id(&mut interner, "Foo"),
        p(Punctuator::Dot),
        kw(Keyword::Delete),
        p(Punctuator::Dot),
        TokenKind::BooleanLiteral(true),
        p(Punctuator::Dot),
        TokenKind::NullLiteral,
    ];
    let (node, spelled) = there_and_back(kinds, &mut interner);
    let delete = interner.get("delete").unwrap();
    assert_eq!(
        spelled,
        vec![
            kw(Keyword::New),
            kw(Keyword::New),
            id(&mut interner, "Foo"),
            p(Punctuator::Dot),
            TokenKind::Identifier(delete),
            p(Punctuator::Dot),
            TokenKind::Identifier(Sym::TRUE),
            p(Punctuator::Dot),
            TokenKind::Identifier(Sym::NULL),
            p(Punctuator::OpenParen),
            p(Punctuator::CloseParen),
            p(Punctuator::OpenParen),
            p(Punctuator::CloseParen),
        ]
    );
    match node {
        Node::New(outer) => match *outer.function {
            Node::New(inner) => assert!(inner.args.is_empty() && outer.args.is_empty()),
            other => panic!("{:?}", other),
        },
        other => panic!("{:?}", other),
    }
}

#[test]
fn parts_of_a_parsed_tree_parse_back_too() {
    let mut interner = Interner::default();
    let kinds = vec![
        kw(Keyword::New),
        kw(Keyword::Super),
        p(Punctuator::OpenBracket),
        id(&mut interner, "key"),
        p(Punctuator::CloseBracket),
        p(Punctuator::Dot),
        id(&mut interner, "make"),
        p(Punctuator::OpenParen),
        id(&mut interner, "x"),
        p(Punctuator::CloseParen),
    ];
    let (node, _) = there_and_back(kinds, &mut interner);
    let call = match node {
        Node::New(call) => call,
        other => panic!("{:?}", other),
    };
    for argument in &call.args {
        let spelled = spell(argument).unwrap();
        let (again, _) = parse_in_class(placed(&spelled, 2, 2), &mut interner);
        assert_eq!(again.as_ref(), Ok(argument));
    }
    let spelled = spell(&call.function).unwrap();
    let (again, read) = parse_in_class(placed(&spelled, 3, 1), &mut interner);
    assert_eq!(again.as_ref(), Ok(&*call.function));
    assert_eq!(read, 6);
    let object = match *call.function {
        Node::GetConstField { obj, .. } => obj,
        other => panic!("{:?}", other),
    };
    let spelled = spell(&object).unwrap();
    let (again, read) = parse_in_class(placed(&spelled, 4, 1), &mut interner);
    assert_eq!(again.as_ref(), Ok(&*object));
    assert_eq!(read, 4);
}

#[test]
fn name_already_met_is_spelled_out() {
    let mut interner = Interner::default();
    let met = interner.get_or_intern("met");
    let kinds = vec![p(Punctuator::Dot), id(&mut interner, "b")];
    let mut cursor = Cursor::new(placed(&kinds, 1, 1));
    let node = MemberExpression::new(Some(met), false, false)
        .parse(&mut cursor, &mut interner, &Atoms)
        .unwrap();
    let spelled = spell(&node).unwrap();
    assert_eq!(spelled.len(), 3);
    assert_eq!(spelled[0], TokenKind::Identifier(met));
    let (again, read) = parse_in_class(placed(&spelled, 1, 1), &mut interner);
    assert_eq!(again, Ok(node));
    assert_eq!(read, 3);
}
