//! Per-cell convergence state.

use vstd::prelude::*;

verus! {

/// Convergence state of one grid cell.
///
/// `row`, `column` and `required_char` are fixed at creation.  The narrowing
/// coefficient starts at 1 and is multiplied (saturating) by the configured
/// reduction factor after every sampling attempt for the cell; `ready` is set
/// exactly once, when a sampled character equals `required_char`, and is never
/// reset.
#[derive(Clone, Copy, Debug)]
pub struct CellState {
    /// Row coordinate of the cell; never mutated.
    pub row: u16,
    /// Column coordinate of the cell; never mutated.
    pub column: u16,
    /// The convergence target; never mutated.
    pub required_char: char,
    /// Divisor applied to the initial character range; always at least 1.
    pub narrowing_coefficient: u32,
    /// Whether a sampled character has already matched `required_char`.
    pub ready: bool,
}

impl CellState {
    /// A freshly created cell: coefficient 1, not yet ready.
    pub fn new(row: u16, column: u16, required_char: char) -> (r: CellState)
        ensures
            r.row == row,
            r.column == column,
            r.required_char == required_char,
            r.narrowing_coefficient == 1,
            !r.ready,
    {
        CellState { row, column, required_char, narrowing_coefficient: 1, ready: false }
    }

    /// A cell is well formed when its narrowing coefficient is at least 1.
    pub open spec fn wf(self) -> bool {
        self.narrowing_coefficient >= 1
    }
}

} // verus!
