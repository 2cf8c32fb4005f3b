//! Token building blocks and source-span diagnostics: operators,
//! delimiters, keywords, literal carriers, and the machinery that turns a
//! character range into a printable error span with row, column and the
//! offending line.

use vstd::prelude::*;
use core::ops::Range;

verus! {

/// The operator characters of the token stream.
#[derive(Debug, Clone, Copy, PartialEq, Eq, Structural)]
pub enum Operator {
    /// `+`
    Add,
    /// `-`
    Sub,
    /// `*`
    Mul,
    /// `/`
    Div,
    /// `==`
    Eq,
    /// `>=`
    Ge,
    /// `>`
    Gt,
    /// `<=`
    Le,
    /// `<`
    Lt,
}

/// A bracket family.
#[derive(Debug, Clone, Copy, PartialEq, Eq, Structural)]
pub enum Delimiter {
    /// `( ... )`, for grouping
    Parentheses,
    /// `{ ... }`, for scopes
    Braces,
    /// `[ ... ]`, for arrays
    Brackets,
}

/// Which side of a bracket pair a token is.
#[derive(Debug, Clone, Copy, PartialEq, Eq, Structural)]
pub enum Side {
    Left,
    Right,
}

/// The reserved words.
#[derive(Debug, Clone, Copy, PartialEq, Eq, Structural)]
pub enum Keyword {
    Fn,
    Let,
    If,
    Else,
    True,
    False,
}

/// One bracket token: its family and its side.
#[derive(Debug, Clone, Copy, PartialEq, Eq, Structural)]
pub struct Group {
    pub delimiter: Delimiter,
    pub side: Side,
}

impl Group {
    pub fn new(delimiter: Delimiter, side: Side) -> (g: Group)
        ensures
            g == (Group { delimiter, side }),
    {
        Group { delimiter, side }
    }
}

/// An integer literal token.
#[derive(Debug, Clone, Copy, PartialEq, Eq, Structural)]
pub struct LitInt {
    pub value: isize,
}

impl LitInt {
    pub fn new(value: isize) -> (l: LitInt)
        ensures
            l == (LitInt { value }),
    {
        LitInt { value }
    }
}

/// A string literal token.
#[derive(Debug)]
pub struct LitStr {
    pub value: String,
}

impl LitStr {
    pub fn new(value: String) -> (l: LitStr)
        ensures
            l.value@ == value@,
    {
        LitStr { value }
    }
}

/// A character literal token.
#[derive(Debug, Clone, Copy, PartialEq, Eq, Structural)]
pub struct LitChar {
    pub value: char,
}

impl LitChar {
    pub fn new(value: char) -> (l: LitChar)
        ensures
            l == (LitChar { value }),
    {
        LitChar { value }
    }
}

/// Where a piece of source text came from.
#[derive(Debug)]
pub enum SourceType {
    Stdin,
    File(String),
}

/// A half-open character range into the source text.
#[derive(Debug, Clone, PartialEq, Eq, Structural)]
pub struct Span {
    pub start: usize,
    pub end: usize,
}

/// Relies on std's `String::push`: appending one character appends
/// exactly that character to the string's contents.
#[verifier::external_body]
fn push_char(s: &mut String, c: char)
    ensures
        final(s)@ == old(s)@ + seq![c],
{
    s.push(c);
}

/// The number of line breaks in a piece of text.
pub open spec fn count_newlines(s: Seq<char>) -> nat
    decreases s,
{
    if s.len() == 0 {
        0
    } else {
        count_newlines(s.drop_last()) + if s.last() == '\n' {
            1nat
        } else {
            0nat
        }
    }
}

/// The index where the line containing position `p` starts: one past the
/// last line break before `p`, or the start of the text.
pub open spec fn line_start(s: Seq<char>, p: int) -> int
    decreases p,
{
    if p <= 0 {
        0
    } else if s[p - 1] == '\n' {
        p
    } else {
        line_start(s, p - 1)
    }
}

/// The index where the line containing position `p` ends: the next line
/// break at or after `p`, or the end of the text.
pub open spec fn line_end(s: Seq<char>, p: int) -> int
    decreases s.len() - p,
{
    if p >= s.len() {
        s.len() as int
    } else if s[p] == '\n' {
        p
    } else {
        line_end(s, p + 1)
    }
}

impl Span {
    pub fn new(range: Range<usize>) -> (s: Span)
        ensures
            s.start == range.start,
            s.end == range.end,
    {
        Span { start: range.start, end: range.end }
    }

    pub fn range(&self) -> (r: Range<usize>)
        ensures
            r.start == self.start,
            r.end == self.end,
    {
        self.start..self.end
    }

    /// Work the span up into a printable diagnostic: the row and column
    /// of its (clamped) start, and the full source line it begins on.
    pub fn make_error_span(&self, code: &Vec<char>, source_type: SourceType) -> (e: ErrorSpan)
        ensures
            e.error_span == *self,
            e.source_type == source_type,
            ({
                let start = if self.start <= code@.len() {
                    self.start as int
                } else {
                    code@.len() as int
                };
                &&& e.row == count_newlines(code@.take(start))
                &&& e.line_span.start == line_start(code@, start)
                &&& e.col == start - line_start(code@, start)
                &&& e.line_span.end == line_end(code@, start)
                &&& e.code_row@ == code@.subrange(line_start(code@, start), line_end(code@, start))
            }),
    {
        let start: usize = if self.start <= code.len() {
            self.start
        } else {
            code.len()
        };
        // row and column: count line breaks up to the start, and remember
        // where the current line began
        let mut row: usize = 0;
        let mut ls: usize = 0;
        let mut i: usize = 0;
        proof {
            assert(code@.take(0) =~= Seq::<char>::empty());
        }
        while i < start
            invariant
                i <= start,
                start <= code@.len(),
                row <= i,
                ls <= i,
                row == count_newlines(code@.take(i as int)),
                ls == line_start(code@, i as int),
            decreases start - i,
        {
            proof {
                assert(code@.take(i as int + 1).drop_last() =~= code@.take(i as int));
                assert(code@.take(i as int + 1).last() == code@[i as int]);
            }
            if code[i] == '\n' {
                row = row + 1;
                ls = i + 1;
            }
            i += 1;
        }
        proof {
            assert(ls <= start);
        }
        // the end of the line the span starts on
        let mut le: usize = start;
        while le < code.len() && code[le] != '\n'
            invariant
                start <= le <= code@.len(),
                line_end(code@, start as int) == line_end(code@, le as int),
            decreases code@.len() - le,
        {
            le += 1;
        }
        proof {
            assert(line_end(code@, le as int) == le as int);
        }
        // the text of that line
        let mut code_row = String::new();
        let mut j: usize = ls;
        proof {
            assert(code@.subrange(ls as int, ls as int) =~= Seq::<char>::empty());
        }
        while j < le
            invariant
                ls <= j <= le,
                le <= code@.len(),
                code_row@ == code@.subrange(ls as int, j as int),
            decreases le - j,
        {
            push_char(&mut code_row, code[j]);
            proof {
                assert(code@.subrange(ls as int, j as int + 1) =~= code@.subrange(
                    ls as int,
                    j as int,
                ).push(code@[j as int]));
            }
            j += 1;
        }
        ErrorSpan {
            error_span: Span { start: self.start, end: self.end },
            line_span: Span { start: ls, end: le },
            row,
            col: start - ls,
            code_row,
            source_type,
        }
    }
}

/// A resolved diagnostic location: the offending span, the line it lies
/// on, its row and column, the text of that line, and the source it came
/// from.
#[derive(Debug)]
pub struct ErrorSpan {
    pub error_span: Span,
    pub line_span: Span,
    pub row: usize,
    pub col: usize,
    pub code_row: String,
    pub source_type: SourceType,
}

} // verus!
