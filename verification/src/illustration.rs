//! The illustration grid — an immutable mapping from `(row, column)`
//! coordinates to target characters — and the parser that builds one from
//! plain text.

use vstd::prelude::*;
use vstd::string::StrSliceExecFns;

verus! {

/// Number of distinct values of a `u16` coordinate.
pub const COORD_SPACE: usize = 0x10000;

/// An immutable mapping from a grid coordinate to the target character that
/// the reveal should converge to at that coordinate.  Keys are unique; the
/// order of the entries carries no meaning.
pub struct Illustration {
    /// The `((row, column), character)` pairs of the grid.
    pub entries: Vec<((u16, u16), char)>,
}

impl Illustration {
    /// Keys are unique: no coordinate appears twice.
    pub open spec fn wf(self) -> bool {
        forall|i: int, j: int|
            0 <= i < j < self.entries@.len() ==> self.entries@[i].0 != self.entries@[j].0
    }

    /// Number of cells of the grid.
    pub fn len(&self) -> (n: usize)
        ensures
            n == self.entries@.len(),
    {
        self.entries.len()
    }

    /// The target character at a coordinate, or `None` where the grid has no
    /// cell.
    pub fn get(&self, row: u16, column: u16) -> (r: Option<char>)
        requires
            self.wf(),
        ensures
            (r is Some) <==> (exists|i: int|
                0 <= i < self.entries@.len() && self.entries@[i].0 == (row, column)),
            forall|i: int|
                0 <= i < self.entries@.len() && self.entries@[i].0 == (row, column) ==> r == Some(
                    self.entries@[i].1,
                ),
    {
        let n = self.entries.len();
        let mut i: usize = 0;
        while i < n
            invariant
                n == self.entries@.len(),
                i <= n,
                self.wf(),
                forall|j: int| 0 <= j < i ==> self.entries@[j].0 != (row, column),
            decreases n - i,
        {
            let ((r0, c0), ch) = self.entries[i];
            if r0 == row && c0 == column {
                return Some(ch);
            }
            i = i + 1;
        }
        None
    }
}

/// Whether the character at position `i` of the text becomes a grid cell.
/// Newlines separate rows, and a carriage return directly before a newline
/// belongs to the line ending, not to the line.
pub open spec fn kept(s: Seq<char>, i: int) -> bool {
    s[i] != '\n' && !(s[i] == '\r' && i + 1 < s.len() && s[i + 1] == '\n')
}

/// Row of the character at position `i`: the number of newlines before it.
pub open spec fn row_at(s: Seq<char>, i: int) -> int
    decreases i,
{
    if i <= 0 {
        0
    } else if s[i - 1] == '\n' {
        row_at(s, i - 1) + 1
    } else {
        row_at(s, i - 1)
    }
}

/// Column of the character at position `i`: the number of kept characters
/// since the last newline.
pub open spec fn col_at(s: Seq<char>, i: int) -> int
    decreases i,
{
    if i <= 0 {
        0
    } else if s[i - 1] == '\n' {
        0
    } else if kept(s, i - 1) {
        col_at(s, i - 1) + 1
    } else {
        col_at(s, i - 1)
    }
}

/// The grid entries produced by the first `n` characters of the text, in scan
/// order.  A kept character at a row or column beyond the `u16` coordinate
/// space has no representable cell and is omitted.
pub open spec fn grid_entries(s: Seq<char>, n: int) -> Seq<((u16, u16), char)>
    decreases n,
{
    if n <= 0 {
        Seq::empty()
    } else {
        let rest = grid_entries(s, n - 1);
        if kept(s, n - 1) && row_at(s, n - 1) < COORD_SPACE && col_at(s, n - 1) < COORD_SPACE {
            rest.push(((row_at(s, n - 1) as u16, col_at(s, n - 1) as u16), s[n - 1]))
        } else {
            rest
        }
    }
}

/// The grid of a whole text.
pub open spec fn grid_of(s: Seq<char>) -> Seq<((u16, u16), char)> {
    grid_entries(s, s.len() as int)
}

/// Rows never decrease along the text.
proof fn lemma_row_at_monotone(s: Seq<char>, j: int, i: int)
    requires
        0 <= j <= i,
    ensures
        row_at(s, j) <= row_at(s, i),
    decreases i - j,
{
    if j < i {
        lemma_row_at_monotone(s, j, i - 1);
    }
}

/// Row and column counters never exceed the position.
proof fn lemma_row_col_bounded(s: Seq<char>, i: int)
    requires
        0 <= i,
    ensures
        0 <= row_at(s, i) <= i,
        0 <= col_at(s, i) <= i,
    decreases i,
{
    if i > 0 {
        lemma_row_col_bounded(s, i - 1);
    }
}

/// Within one row, a later kept character stands in a strictly larger column.
proof fn lemma_col_increases_within_row(s: Seq<char>, j: int, m: int)
    requires
        0 <= j < m <= s.len(),
        kept(s, j),
        row_at(s, j) == row_at(s, m),
    ensures
        col_at(s, j) < col_at(s, m),
    decreases m,
{
    if m == j + 1 {
        // col_at(s, j + 1) == col_at(s, j) + 1 since s[j] is kept.
    } else {
        lemma_row_at_monotone(s, j, m - 1);
        // row_at(s, m - 1) is squeezed between row_at(s, j) and row_at(s, m),
        // so s[m - 1] is no newline and the column does not reset.
        lemma_col_increases_within_row(s, j, m - 1);
    }
}

/// Every grid entry comes from a kept position before `n`, with its row and
/// column as the key.
proof fn lemma_grid_entries_from_positions(s: Seq<char>, n: int)
    requires
        0 <= n <= s.len(),
    ensures
        forall|k: int|
            0 <= k < grid_entries(s, n).len() ==> exists|p: int|
                0 <= p < n && #[trigger] kept(s, p) && row_at(s, p) < COORD_SPACE && col_at(s, p)
                    < COORD_SPACE && #[trigger] grid_entries(s, n)[k] == (
                    ((row_at(s, p) as u16, col_at(s, p) as u16), s[p])),
    decreases n,
{
    if n > 0 {
        lemma_grid_entries_from_positions(s, n - 1);
        assert forall|k: int| 0 <= k < grid_entries(s, n).len() implies exists|p: int|
            0 <= p < n && #[trigger] kept(s, p) && row_at(s, p) < COORD_SPACE && col_at(s, p) < COORD_SPACE
                && #[trigger] grid_entries(s, n)[k] == (
            ((row_at(s, p) as u16, col_at(s, p) as u16), s[p])) by {
            if k < grid_entries(s, n - 1).len() {
                let p = choose|p: int|
                    0 <= p < n - 1 && kept(s, p) && row_at(s, p) < COORD_SPACE && col_at(s, p)
                        < COORD_SPACE && grid_entries(s, n - 1)[k] == (
                        ((row_at(s, p) as u16, col_at(s, p) as u16), s[p]));
                assert(grid_entries(s, n)[k] == (
                    ((row_at(s, p) as u16, col_at(s, p) as u16), s[p])));
            } else {
                assert(grid_entries(s, n)[k] == (
                    ((row_at(s, n - 1) as u16, col_at(s, n - 1) as u16), s[n - 1])));
            }
        }
    }
}

/// Two kept positions with representable coordinates never share a key.
proof fn lemma_keys_differ(s: Seq<char>, p: int, q: int)
    requires
        0 <= p < q < s.len(),
        kept(s, p),
        kept(s, q),
        row_at(s, p) < COORD_SPACE,
        col_at(s, p) < COORD_SPACE,
        row_at(s, q) < COORD_SPACE,
        col_at(s, q) < COORD_SPACE,
    ensures
        (row_at(s, p) as u16, col_at(s, p) as u16) != (row_at(s, q) as u16, col_at(s, q) as u16),
{
    lemma_row_col_bounded(s, p);
    lemma_row_col_bounded(s, q);
    if row_at(s, p) == row_at(s, q) {
        lemma_col_increases_within_row(s, p, q);
    }
}

/// The grid of a text has unique keys.
proof fn lemma_grid_entries_unique(s: Seq<char>, n: int)
    requires
        0 <= n <= s.len(),
    ensures
        forall|a: int, b: int|
            0 <= a < b < grid_entries(s, n).len() ==> grid_entries(s, n)[a].0 != grid_entries(
                s,
                n,
            )[b].0,
    decreases n,
{
    if n > 0 {
        lemma_grid_entries_unique(s, n - 1);
        lemma_grid_entries_from_positions(s, n - 1);
        if kept(s, n - 1) && row_at(s, n - 1) < COORD_SPACE && col_at(s, n - 1) < COORD_SPACE {
            let entries = grid_entries(s, n);
            assert forall|a: int, b: int|
                0 <= a < b < entries.len() implies entries[a].0 != entries[b].0 by {
                if b == entries.len() - 1 {
                    let p = choose|p: int|
                        0 <= p < n - 1 && kept(s, p) && row_at(s, p) < COORD_SPACE && col_at(s, p)
                            < COORD_SPACE && grid_entries(s, n - 1)[a] == (
                            ((row_at(s, p) as u16, col_at(s, p) as u16), s[p]));
                    lemma_keys_differ(s, p, n - 1);
                }
            }
        }
    }
}

/// Builds [`Illustration`]s from source text.
pub struct ParseIllustration;

impl ParseIllustration {
    /// Parses an [`Illustration`] from a string slice: one cell per kept
    /// character, rows numbered by line index and columns by character index
    /// within the line.  Lines end at a newline or at a carriage return
    /// directly followed by a newline.
    pub fn from_str(source: &str) -> (r: Illustration)
        ensures
            r.entries@ == grid_of(source@),
            r.wf(),
    {
        let n = source.unicode_len();
        let mut entries: Vec<((u16, u16), char)> = Vec::new();
        let mut row: usize = 0;
        let mut col: usize = 0;
        let mut i: usize = 0;
        while i < n
            invariant
                n == source@.len(),
                i <= n,
                row <= i,
                col <= i,
                row == row_at(source@, i as int),
                col == col_at(source@, i as int),
                entries@ == grid_entries(source@, i as int),
            decreases n - i,
        {
            let c = source.get_char(i);
            if c == '\n' {
                row = row + 1;
                col = 0;
            } else {
                let dropped = c == '\r' && i + 1 < n && source.get_char(i + 1) == '\n';
                if !dropped {
                    if row < COORD_SPACE && col < COORD_SPACE {
                        entries.push(((row as u16, col as u16), c));
                    }
                    col = col + 1;
                }
            }
            i = i + 1;
        }
        proof {
            lemma_grid_entries_unique(source@, n as int);
        }
        Illustration { entries }
    }
}

} // verus!
