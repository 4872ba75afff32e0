//! Source positions and spans. A span is attached to (almost) every node of the
//! syntax tree; it serves diagnostics and position mapping only and is never
//! consulted by the renderer.

use vstd::prelude::*;
use crate::numeral::{dec_int, i64_to_decimal};

verus! {

/// A one-based line/column pair.
#[derive(Clone, Debug, PartialEq)]
pub struct Position {
    pub line: i64,
    pub column: i64,
}

/// The text a `Position` describes itself with.
pub open spec fn spec_position_text(p: Position) -> Seq<char> {
    "Position("@ + dec_int(p.line as int) + ", "@ + dec_int(p.column as int) + ")"@
}

impl Position {
    pub fn new(line: i64, column: i64) -> (r: Self)
        ensures
            r.line == line,
            r.column == column,
    {
        Self { line, column }
    }

    pub fn debug(&self) -> (r: String)
        ensures
            r@ == spec_position_text(*self),
    {
        let mut out = String::new();
        out.append("Position(");
        let line = i64_to_decimal(self.line);
        out.append(line.as_str());
        out.append(", ");
        let column = i64_to_decimal(self.column);
        out.append(column.as_str());
        out.append(")");
        proof {
            assert(out@ =~= spec_position_text(*self));
        }
        out
    }
}

/// A start/end position range.
#[derive(Clone, Debug, PartialEq)]
pub struct Span {
    pub start: Position,
    pub end: Position,
}

/// The text a `Span` describes itself with.
pub open spec fn spec_span_text(s: Span) -> Seq<char> {
    "Span("@ + spec_position_text(s.start) + ", "@ + spec_position_text(s.end) + ")"@
}

/// The placeholder span used when a node is built without position information.
pub open spec fn spec_unit_span() -> Span {
    Span { start: Position { line: 1, column: 1 }, end: Position { line: 1, column: 1 } }
}

impl Span {
    pub fn new(start: Position, end: Position) -> (r: Self)
        ensures
            r.start == start,
            r.end == end,
    {
        Self { start, end }
    }

    /// The span given to nodes that carry no position information.
    pub fn unit() -> (r: Self)
        ensures
            r == spec_unit_span(),
    {
        Self::new(Position::new(1, 1), Position::new(1, 1))
    }

    pub fn debug(&self) -> (r: String)
        ensures
            r@ == spec_span_text(*self),
    {
        let mut out = String::new();
        out.append("Span(");
        let start = self.start.debug();
        out.append(start.as_str());
        out.append(", ");
        let end = self.end.debug();
        out.append(end.as_str());
        out.append(")");
        proof {
            assert(out@ =~= spec_span_text(*self));
        }
        out
    }
}


// ==================== Line and column arithmetic ====================

/// The one-based line of character offset `i`: one more than the newlines
/// before it.
pub open spec fn spec_line(s: Seq<char>, i: int) -> int
    decreases i,
{
    if i <= 0 {
        1
    } else if 0 < i <= s.len() && s[i - 1] == '\n' {
        spec_line(s, i - 1) + 1
    } else {
        spec_line(s, i - 1)
    }
}

/// The one-based column of character offset `i`: one more than the
/// characters since the last newline.
pub open spec fn spec_column(s: Seq<char>, i: int) -> int
    decreases i,
{
    if i <= 0 {
        1
    } else if 0 < i <= s.len() && s[i - 1] == '\n' {
        1
    } else {
        spec_column(s, i - 1) + 1
    }
}

/// Counts saturate at the largest line number a `Position` can carry.
pub open spec fn saturated(v: int) -> int {
    if v > i64::MAX {
        i64::MAX as int
    } else {
        v
    }
}

proof fn lemma_line_column_bounds(s: Seq<char>, i: int)
    requires
        i >= 0,
    ensures
        1 <= spec_line(s, i) <= i + 1,
        1 <= spec_column(s, i) <= i + 1,
    decreases i,
{
    if i > 0 {
        lemma_line_column_bounds(s, i - 1);
    }
}

/// The position of character offset `i` in `s`, one-based, the end of each
/// line belonging to that line. Line and column saturate at the largest
/// representable value.
pub fn position_at(s: &str, i: usize) -> (p: Position)
    requires
        i <= s@.len(),
    ensures
        p.line == saturated(spec_line(s@, i as int)),
        p.column == saturated(spec_column(s@, i as int)),
{
    let cap: u64 = 9223372036854775807u64;
    let mut line: u64 = 1;
    let mut column: u64 = 1;
    let mut k: usize = 0;
    while k < i
        invariant
            0 <= k <= i <= s@.len(),
            cap == i64::MAX,
            line as int == saturated(spec_line(s@, k as int)),
            column as int == saturated(spec_column(s@, k as int)),
            1 <= line <= cap,
            1 <= column <= cap,
        decreases i - k,
    {
        proof {
            lemma_line_column_bounds(s@, k as int);
            lemma_line_column_bounds(s@, k + 1);
        }
        let c = s.get_char(k);
        if c == '\n' {
            if line < cap {
                line = line + 1;
            }
            column = 1;
        } else {
            if column < cap {
                column = column + 1;
            }
        }
        k = k + 1;
    }
    Position::new(line as i64, column as i64)
}

/// The span of the source slice from offset `start` up to `end`, exclusive.
pub fn span_at(s: &str, start: usize, end: usize) -> (r: Span)
    requires
        start <= s@.len(),
        end <= s@.len(),
    ensures
        r.start.line == saturated(spec_line(s@, start as int)),
        r.start.column == saturated(spec_column(s@, start as int)),
        r.end.line == saturated(spec_line(s@, end as int)),
        r.end.column == saturated(spec_column(s@, end as int)),
{
    Span::new(position_at(s, start), position_at(s, end))
}

} // verus!
