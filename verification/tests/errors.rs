use member_expression::error::ParseError;
use member_expression::position::Position;
use member_expression::position::Span;

#[test]
fn expected_names_what_would_have_been_accepted() {
    let span = Span::new(Position::new(2, 3), Position::new(2, 4));
    let error = ParseError::expected(
        vec!["identifier".to_string(), "}".to_string()],
        "(".to_string(),
        span,
        "here",
    );
    assert_eq!(
        error,
        ParseError::Unexpected {
            expected: vec!["identifier".to_string(), "}".to_string()],
            found: "(".to_string(),
            span,
            context: "here",
        }
    );
}

#[test]
fn unexpected_names_nothing_that_would_have_been_accepted() {
    let span = Span::new(Position::new(2, 3), Position::new(2, 4));
    let error = ParseError::unexpected("(".to_string(), span, "expected something else");
    assert_eq!(
        error,
        ParseError::Unexpected {
            expected: vec![],
            found: "(".to_string(),
            span,
            context: "expected something else",
        }
    );
}

#[test]
fn general_keeps_message_and_place() {
    let error = ParseError::general("a rule is broken", Position::new(8, 1));
    assert_eq!(
        error,
        ParseError::General { message: "a rule is broken", position: Position::new(8, 1) }
    );
    assert!(error != ParseError::AbruptEnd);
}
