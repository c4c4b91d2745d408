use boa_interner::Interner;
use boa_interner::Sym;
use member_expression::cursor::Cursor;
use member_expression::error::ParseError;
use member_expression::keyword::Keyword;
use member_expression::node::Call;
use member_expression::node::GetSuperField;
use member_expression::node::Node;
use member_expression::node::NodeView;
use member_expression::parser::MemberExpression;
use member_expression::position::Position;
use member_expression::position::Span;
use member_expression::productions::Outcome;
use member_expression::productions::Productions;
use member_expression::productions::Stream;
use member_expression::punctuator::Punctuator;
use member_expression::token::TemplateString;
use member_expression::token::Token;
use member_expression::token::TokenKind;
use std::cell::RefCell;

/// What a production was asked for.
#[derive(Debug, PartialEq, Eq, Clone)]
enum Asked {
    Primary { at: usize, name: Option<Sym>, allow_yield: bool, allow_await: bool },
    Expression { at: usize, name: Option<Sym>, allow_in: bool, allow_yield: bool, allow_await: bool },
    Arguments { at: usize, allow_yield: bool, allow_await: bool },
    Template { at: usize, allow_yield: bool, allow_await: bool, start: Position, tag: String },
}

/// Productions that read one token each, whatever it is, and keep what they
/// were asked for.
struct Recorder {
    asked: RefCell<Vec<Asked>>,
    fail_expression: bool,
}

impl Recorder {
    fn new() -> Self {
        Recorder { asked: RefCell::new(Vec::new()), fail_expression: false }
    }
}

impl Productions for Recorder {
    // Contracts alone speak of these eight members; no code calls them.
    fn primary_expression(&self, _: Stream, _: Option<Sym>, _: bool, _: bool) -> Outcome<NodeView> {
        unreachable!()
    }

    fn expression(
        &self,
        _: Stream,
        _: Option<Sym>,
        _: bool,
        _: bool,
        _: bool,
    ) -> Outcome<NodeView> {
        unreachable!()
    }

    fn arguments(&self, _: Stream, _: bool, _: bool) -> Outcome<vstd::seq::Seq<NodeView>> {
        unreachable!()
    }

    fn tagged_template(
        &self,
        _: Stream,
        _: bool,
        _: bool,
        _: Position,
        _: NodeView,
    ) -> Outcome<NodeView> {
        unreachable!()
    }

    fn primary_expression_follows(&self, _: Stream, _: Option<Sym>, _: bool, _: bool) {
        unreachable!()
    }

    fn expression_follows(&self, _: Stream, _: Option<Sym>, _: bool, _: bool, _: bool) {
        unreachable!()
    }

    fn arguments_follows(&self, _: Stream, _: bool, _: bool) {
        unreachable!()
    }

    fn tagged_template_follows(&self, _: Stream, _: bool, _: bool, _: Position, _: NodeView) {
        unreachable!()
    }

    fn parse_primary_expression(
        &self,
        cursor: &mut Cursor,
        _interner: &mut Interner,
        name: Option<Sym>,
        allow_yield: bool,
        allow_await: bool,
    ) -> Result<Node, ParseError> {
        self.asked.borrow_mut().push(Asked::Primary {
            at: cursor.position(),
            name,
            allow_yield,
            allow_await,
        });
        cursor.next();
        Ok(Node::This)
    }

    fn parse_expression(
        &self,
        cursor: &mut Cursor,
        _interner: &mut Interner,
        name: Option<Sym>,
        allow_in: bool,
        allow_yield: bool,
        allow_await: bool,
    ) -> Result<Node, ParseError> {
        self.asked.borrow_mut().push(Asked::Expression {
            at: cursor.position(),
            name,
            allow_in,
            allow_yield,
            allow_await,
        });
        cursor.next();
        if self.fail_expression {
            Err(ParseError::general("no expression", Position::new(40, 2)))
        } else {
            Ok(Node::Null)
        }
    }

    fn parse_arguments(
        &self,
        cursor: &mut Cursor,
        _interner: &mut Interner,
        allow_yield: bool,
        allow_await: bool,
    ) -> Result<Vec<Node>, ParseError> {
        self.asked.borrow_mut().push(Asked::Arguments {
            at: cursor.position(),
            allow_yield,
            allow_await,
        });
        cursor.next();
        Ok(vec![Node::Boolean(true)])
    }

    fn parse_tagged_template(
        &self,
        cursor: &mut Cursor,
        _interner: &mut Interner,
        allow_yield: bool,
        allow_await: bool,
        start: Position,
        tag: Node,
    ) -> Result<Node, ParseError> {
        self.asked.borrow_mut().push(Asked::Template {
            at: cursor.position(),
            allow_yield,
            allow_await,
            start,
            tag: format!("{:?}", tag),
        });
        cursor.next();
        Ok(Node::Call(Call { function: Box::new(tag), args: vec![] }))
    }
}

fn in_a_row(kinds: Vec<TokenKind>) -> Vec<Token> {
    let mut tokens = Vec::new();
    let mut column = 10;
    for kind in kinds {
        let span = Span::new(Position::new(3, column), Position::new(3, column + 1));
        tokens.push(Token::new(kind, span));
        column += 10;
    }
    tokens
}

fn mark(punctuator: Punctuator) -> TokenKind {
    TokenKind::Punctuator(punctuator)
}

#[test]
fn flags_and_name_are_handed_on_unchanged() {
    let mut interner = Interner::default();
    let met = interner.get_or_intern("met");
    let raw = interner.get_or_intern("raw");
    let kinds = vec![
        TokenKind::Keyword(Keyword::New, false),
        TokenKind::Eof,
        mark(Punctuator::OpenBracket),
        TokenKind::Eof,
        mark(Punctuator::CloseBracket),
        TokenKind::TemplateMiddle(TemplateString { raw, cooked: None }),
        mark(Punctuator::OpenParen),
    ];
    for (allow_yield, allow_await) in [(false, false), (false, true), (true, false), (true, true)] {
        let recorder = Recorder::new();
        let mut cursor = Cursor::new(in_a_row(kinds.clone()));
        let parsed = MemberExpression::new(Some(met), allow_yield, allow_await).parse(
            &mut cursor,
            &mut interner,
            &recorder,
        );
        let tag = Node::GetField { obj: Box::new(Node::This), field: Box::new(Node::Null) };
        assert_eq!(
            recorder.asked.into_inner(),
            vec![
                Asked::Primary { at: 1, name: Some(met), allow_yield, allow_await },
                Asked::Expression { at: 3, name: None, allow_in: true, allow_yield, allow_await },
                Asked::Template {
                    at: 5,
                    allow_yield,
                    allow_await,
                    start: Position::new(3, 60),
                    tag: format!("{:?}", tag),
                },
                Asked::Arguments { at: 6, allow_yield, allow_await },
            ]
        );
        assert_eq!(
            parsed,
            Ok(Node::New(Call {
                function: Box::new(Node::Call(Call { function: Box::new(tag), args: vec![] })),
                args: vec![Node::Boolean(true)],
            }))
        );
        assert_eq!(cursor.position(), 7);
    }
}

#[test]
fn key_of_super_is_asked_of_the_expression_production() {
    let mut interner = Interner::default();
    let kinds = vec![
        TokenKind::Keyword(Keyword::Super, false),
        mark(Punctuator::OpenBracket),
        TokenKind::Eof,
        mark(Punctuator::CloseBracket),
    ];
    let recorder = Recorder::new();
    let mut cursor = Cursor::new(in_a_row(kinds));
    let parsed =
        MemberExpression::new(None, true, false).parse(&mut cursor, &mut interner, &recorder);
    assert_eq!(
        recorder.asked.into_inner(),
        vec![Asked::Expression {
            at: 2,
            name: None,
            allow_in: true,
            allow_yield: true,
            allow_await: false,
        }]
    );
    assert_eq!(parsed, Ok(Node::GetSuperField(GetSuperField::Expr(Box::new(Node::Null)))));
}

#[test]
fn error_of_a_production_ends_the_parse_as_it_is() {
    let mut interner = Interner::default();
    let kinds = vec![
        TokenKind::Eof,
        mark(Punctuator::OpenBracket),
        TokenKind::Eof,
        mark(Punctuator::CloseBracket),
        mark(Punctuator::Dot),
    ];
    let mut recorder = Recorder::new();
    recorder.fail_expression = true;
    let mut cursor = Cursor::new(in_a_row(kinds));
    let parsed =
        MemberExpression::new(None, false, false).parse(&mut cursor, &mut interner, &recorder);
    assert_eq!(
        parsed,
        Err(ParseError::General { message: "no expression", position: Position::new(40, 2) })
    );
    assert_eq!(cursor.position(), 3);
    assert_eq!(recorder.asked.into_inner().len(), 2);
}
