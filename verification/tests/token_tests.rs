//! Tests of the token building blocks and the error-span diagnostics.

use toy_lang::nodes::{AccessNode, BooleanNode, NoneNode};
use toy_lang::token::{Delimiter, Group, LitChar, LitInt, LitStr, Side, SourceType, Span};

#[test]
fn token_constructors_carry_their_values() {
    assert_eq!(LitInt::new(42).value, 42);
    assert_eq!(LitChar::new('x').value, 'x');
    assert_eq!(LitStr::new("text".to_string()).value, "text");
    let g = Group::new(Delimiter::Braces, Side::Left);
    assert_eq!(g.delimiter, Delimiter::Braces);
    assert_eq!(g.side, Side::Left);
    assert_eq!(BooleanNode::new(true).value, true);
    assert_eq!(AccessNode::new("var_a".to_string()).ident, "var_a");
    let _ = NoneNode {};
}

#[test]
fn span_round_trips_its_range() {
    let s = Span::new(3..9);
    assert_eq!(s.start, 3);
    assert_eq!(s.end, 9);
    let r = s.range();
    assert_eq!(r, 3..9);
}

#[test]
fn error_span_finds_row_column_and_line() {
    // positions:      0    1    2     3    4    5    6     7
    let code: Vec<char> = "ab\ncde\nf".chars().collect();
    let e = Span::new(5..6).make_error_span(&code, SourceType::Stdin);
    assert_eq!(e.row, 1);
    assert_eq!(e.col, 2);
    assert_eq!(e.line_span.start, 3);
    assert_eq!(e.line_span.end, 6);
    assert_eq!(e.code_row, "cde");
    assert_eq!(e.error_span, Span::new(5..6));

    // the first line
    let e = Span::new(0..2).make_error_span(&code, SourceType::Stdin);
    assert_eq!(e.row, 0);
    assert_eq!(e.col, 0);
    assert_eq!(e.code_row, "ab");

    // a start past the end of the text is clamped
    let e = Span::new(99..100).make_error_span(&code, SourceType::File("x".to_string()));
    assert_eq!(e.row, 2);
    assert_eq!(e.col, 1);
    assert_eq!(e.code_row, "f");
}
