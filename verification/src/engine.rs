//! The reveal engine: drives every cell of an illustration from its initial
//! unconverged state to `ready`, one random sampling attempt at a time, and
//! reports each attempt as an observable event.

use vstd::prelude::*;
use crate::cell::CellState;
use crate::illustration::Illustration;
use crate::random::draw_index;
use crate::sampler::{spec_lower, spec_upper, valid_scalar, RangeSampler};

verus! {

/// Default pause between two steps of a blocking run, in nanoseconds.
pub const SLEEP_NANOS_DEFAULT: u64 = 30;

/// Default half-width of the first sampling window.
pub const CHAR_RANGE_DEFAULT: u32 = 200;

/// Default factor by which the window shrinks after every attempt.
pub const CHAR_RANGE_REDUCTION_FACTOR_DEFAULT: u32 = 2;

/// Immutable configuration of a [`RevealEngine`], produced by
/// [`EngineConfigBuilder`].
#[derive(Clone, Copy, Debug)]
pub struct EngineConfig {
    /// Rendering origin: the offset a sink adds to every coordinate.
    pub start_offset: (u16, u16),
    /// Pause between two steps of a blocking run; pacing only, it has no
    /// effect on what is drawn.
    pub sleep_nanos: u64,
    /// Half-width of the sampling window on a cell's first attempt.
    pub initial_char_range: u32,
    /// Factor by which a cell's narrowing coefficient grows after every
    /// attempt; always at least 1.
    pub char_range_reduction_factor: u32,
}

impl EngineConfig {
    /// The reduction factor must be at least 1, so that the sampling window
    /// never widens again.
    pub open spec fn wf(self) -> bool {
        self.char_range_reduction_factor >= 1
    }
}

/// Accumulates the recognized engine options and produces an immutable
/// [`EngineConfig`].
#[derive(Clone, Copy, Debug)]
pub struct EngineConfigBuilder {
    /// Rendering origin for coordinate translation.
    pub start_offset: (u16, u16),
    /// Pause between steps of a blocking run, in nanoseconds.
    pub sleep_nanos: u64,
    /// Half-width of the first sampling window.
    pub initial_char_range: u32,
    /// Window reduction factor; kept at 1 or more.
    pub char_range_reduction_factor: u32,
}

impl Default for EngineConfigBuilder {
    /// The documented defaults: origin `(0, 0)`, a pause of
    /// `SLEEP_NANOS_DEFAULT` nanoseconds, a first window of
    /// `CHAR_RANGE_DEFAULT` code points to each side, and halving.
    fn default() -> (r: Self)
        ensures
            r.start_offset == (0u16, 0u16),
            r.sleep_nanos == SLEEP_NANOS_DEFAULT,
            r.initial_char_range == CHAR_RANGE_DEFAULT,
            r.char_range_reduction_factor == CHAR_RANGE_REDUCTION_FACTOR_DEFAULT,
    {
        EngineConfigBuilder {
            start_offset: (0, 0),
            sleep_nanos: SLEEP_NANOS_DEFAULT,
            initial_char_range: CHAR_RANGE_DEFAULT,
            char_range_reduction_factor: CHAR_RANGE_REDUCTION_FACTOR_DEFAULT,
        }
    }
}

impl EngineConfigBuilder {
    /// Sets the rendering origin of the upcoming configuration.
    pub fn with_start(self, start: (u16, u16)) -> (r: Self)
        ensures
            r == (Self { start_offset: start, ..self }),
    {
        Self { start_offset: start, ..self }
    }

    /// Sets the pause between steps of a blocking run.
    pub fn with_sleep_nanos(self, sleep_nanos: u64) -> (r: Self)
        ensures
            r == (Self { sleep_nanos, ..self }),
    {
        Self { sleep_nanos, ..self }
    }

    /// Sets the half-width of the first sampling window.
    pub fn with_char_range(self, char_range: u32) -> (r: Self)
        ensures
            r == (Self { initial_char_range: char_range, ..self }),
    {
        Self { initial_char_range: char_range, ..self }
    }

    /// Sets the factor by which the sampling window shrinks after every
    /// attempt.  A factor of 1 never narrows; larger factors converge faster.
    pub fn with_char_range_reduction_factor(self, factor: u32) -> (r: Self)
        requires
            factor >= 1,
        ensures
            r == (Self { char_range_reduction_factor: factor, ..self }),
    {
        Self { char_range_reduction_factor: factor, ..self }
    }

    /// Stops building and returns the immutable configuration with all the
    /// preliminarily specified fields.
    pub fn build(self) -> (r: EngineConfig)
        requires
            self.char_range_reduction_factor >= 1,
        ensures
            r.start_offset == self.start_offset,
            r.sleep_nanos == self.sleep_nanos,
            r.initial_char_range == self.initial_char_range,
            r.char_range_reduction_factor == self.char_range_reduction_factor,
            r.wf(),
    {
        EngineConfig {
            start_offset: self.start_offset,
            sleep_nanos: self.sleep_nanos,
            initial_char_range: self.initial_char_range,
            char_range_reduction_factor: self.char_range_reduction_factor,
        }
    }
}

/// Why an engine could not be constructed.
#[derive(Clone, Copy, Debug, PartialEq, Eq)]
pub enum ConfigError {
    /// The illustration holds no cell, so there is nothing to converge.
    EmptyIllustration,
}

/// The observable result of one sampling attempt.
#[derive(Clone, Copy, Debug, PartialEq, Eq)]
pub enum StepOutcome {
    /// The selected cell was already ready; nothing changed.
    Skipped,
    /// A character was drawn for the cell at the coordinate, and it missed
    /// the target.
    Sampled(u16, u16, char),
    /// The drawn character equals the target: the cell is now ready.
    Converged(u16, u16, char),
}

impl StepOutcome {
    /// Whether the outcome is an event referencing the given coordinate.
    pub open spec fn mentions(self, row: u16, column: u16) -> bool {
        match self {
            StepOutcome::Skipped => false,
            StepOutcome::Sampled(r, c, _) => r == row && c == column,
            StepOutcome::Converged(r, c, _) => r == row && c == column,
        }
    }
}

/// Consumes cell-update events and materializes them on a screen or buffer.
/// Implemented by rendering backends outside this crate's logic.
pub trait RenderSink {
    /// Writes `chr` at the grid coordinate `(row, column)`.
    fn put_char(&mut self, row: u16, column: u16, chr: char);
}

/// Pauses between two steps of a blocking run.  Implemented by hosts outside
/// this crate's logic; pacing has no effect on what is drawn.
pub trait Clock {
    /// Waits for about the given number of nanoseconds.
    fn sleep(&mut self, nanos: u64);
}

/// Multiplication on `u32` that stops at `u32::MAX` instead of overflowing.
pub open spec fn sat_mul_u32(a: u32, b: u32) -> u32 {
    if a * b > u32::MAX {
        u32::MAX
    } else {
        (a * b) as u32
    }
}

/// Half-width of a cell's current sampling window: the initial range divided
/// by the cell's narrowing coefficient.
pub open spec fn spec_vicinity(range: u32, coefficient: u32) -> int {
    range as int / coefficient as int
}

/// Saturating multiplication by a factor of at least 1 never shrinks.
pub proof fn lemma_sat_mul_grows(a: u32, b: u32)
    requires
        b >= 1,
    ensures
        sat_mul_u32(a, b) >= a,
{
    assert(a * b >= a * 1) by (nonlinear_arith)
        requires
            b >= 1,
    ;
}

/// Saturating multiplication, executable form.
fn mul_saturating(a: u32, b: u32) -> (r: u32)
    ensures
        r == sat_mul_u32(a, b),
{
    match a.checked_mul(b) {
        Some(v) => v,
        None => u32::MAX,
    }
}

/// How one sampling attempt at cell `i` transforms the engine and which
/// outcome it reports.
///
/// A ready cell is skipped and nothing changes.  Otherwise the cell's window
/// is computed from its coefficient before the attempt, the drawn character
/// lies inside that window, the coefficient grows by the configured factor
/// (saturating), and the cell becomes ready exactly if the drawn character is
/// its target.  No other cell and no configuration field changes.
pub open spec fn step_rel(
    pre: RevealEngine,
    post: RevealEngine,
    i: int,
    outcome: StepOutcome,
) -> bool {
    &&& 0 <= i < pre.cells@.len()
    &&& if pre.cells@[i].ready {
        post == pre && outcome == StepOutcome::Skipped
    } else {
        let cell = pre.cells@[i];
        let vic = spec_vicinity(pre.config.initial_char_range, cell.narrowing_coefficient);
        &&& post.config == pre.config
        &&& post.cells@ == pre.cells@.update(i, post.cells@[i])
        &&& post.cells@[i].row == cell.row
        &&& post.cells@[i].column == cell.column
        &&& post.cells@[i].required_char == cell.required_char
        &&& post.cells@[i].narrowing_coefficient == sat_mul_u32(
            cell.narrowing_coefficient,
            pre.config.char_range_reduction_factor,
        )
        &&& match outcome {
            StepOutcome::Skipped => false,
            StepOutcome::Sampled(r, c, ch) => {
                &&& r == cell.row
                &&& c == cell.column
                &&& ch != cell.required_char
                &&& spec_lower(cell.required_char, vic) <= ch as int <= spec_upper(
                    cell.required_char,
                    vic,
                )
                &&& valid_scalar(ch as int)
                &&& !post.cells@[i].ready
            },
            StepOutcome::Converged(r, c, ch) => {
                &&& r == cell.row
                &&& c == cell.column
                &&& ch == cell.required_char
                &&& valid_scalar(ch as int)
                &&& post.cells@[i].ready
            },
        }
    }
}

/// Owns the convergence state of every cell of an illustration and advances
/// it one random sampling attempt at a time.
pub struct RevealEngine {
    /// One convergence state per illustration cell.
    pub cells: Vec<CellState>,
    /// The immutable configuration the engine was constructed with.
    pub config: EngineConfig,
}

impl RevealEngine {
    /// A well-formed engine: a valid configuration, at least one cell, every
    /// coefficient at least 1, and no coordinate twice.
    pub open spec fn wf(self) -> bool {
        &&& self.config.wf()
        &&& self.cells@.len() >= 1
        &&& forall|i: int| 0 <= i < self.cells@.len() ==> (#[trigger] self.cells@[i]).wf()
        &&& forall|i: int, j: int|
            0 <= i < j < self.cells@.len() ==> (
            self.cells@[i].row,
            self.cells@[i].column,
            ) != (self.cells@[j].row, self.cells@[j].column)
    }

    /// Every cell has converged.
    pub open spec fn spec_complete(self) -> bool {
        forall|i: int| 0 <= i < self.cells@.len() ==> (#[trigger] self.cells@[i]).ready
    }

    /// Builds one engine over the illustration: one cell per entry, all with
    /// coefficient 1 and not ready.  An empty illustration has nothing to
    /// converge and is rejected with [`ConfigError::EmptyIllustration`].
    pub fn construct(illustration: &Illustration, config: EngineConfig) -> (r: Result<
        RevealEngine,
        ConfigError,
    >)
        requires
            illustration.wf(),
            config.wf(),
        ensures
            (r is Err) <==> illustration.entries@.len() == 0,
            r is Err ==> r == Result::<RevealEngine, ConfigError>::Err(
                ConfigError::EmptyIllustration,
            ),
            r matches Ok(engine) ==> {
                &&& engine.wf()
                &&& engine.config == config
                &&& engine.cells@.len() == illustration.entries@.len()
                &&& forall|i: int|
                    0 <= i < engine.cells@.len() ==> {
                        let c = #[trigger] engine.cells@[i];
                        &&& c.row == illustration.entries@[i].0.0
                        &&& c.column == illustration.entries@[i].0.1
                        &&& c.required_char == illustration.entries@[i].1
                        &&& c.narrowing_coefficient == 1
                        &&& !c.ready
                    }
            },
    {
        let n = illustration.len();
        if n == 0 {
            return Err(ConfigError::EmptyIllustration);
        }
        let mut cells: Vec<CellState> = Vec::new();
        let mut i: usize = 0;
        while i < n
            invariant
                n == illustration.entries@.len(),
                i <= n,
                illustration.wf(),
                cells@.len() == i,
                forall|j: int|
                    0 <= j < i ==> {
                        let c = #[trigger] cells@[j];
                        &&& c.row == illustration.entries@[j].0.0
                        &&& c.column == illustration.entries@[j].0.1
                        &&& c.required_char == illustration.entries@[j].1
                        &&& c.narrowing_coefficient == 1
                        &&& !c.ready
                    },
            decreases n - i,
        {
            let ((row, column), chr) = illustration.entries[i];
            cells.push(CellState::new(row, column, chr));
            i = i + 1;
        }
        Ok(RevealEngine { cells, config })
    }

    /// True exactly when every cell is ready.
    pub fn is_complete(&self) -> (r: bool)
        ensures
            r == self.spec_complete(),
    {
        let n = self.cells.len();
        let mut i: usize = 0;
        while i < n
            invariant
                n == self.cells@.len(),
                i <= n,
                forall|j: int| 0 <= j < i ==> (#[trigger] self.cells@[j]).ready,
            decreases n - i,
        {
            if !self.cells[i].ready {
                return false;
            }
            i = i + 1;
        }
        true
    }

    /// One sampling attempt at the cell with index `idx`.
    ///
    /// A ready cell is skipped without any change.  Otherwise a character is
    /// drawn from the cell's current window, the cell's coefficient grows by
    /// the configured factor, and the attempt is reported as `Converged` when
    /// the drawn character is the target, else as `Sampled`.  Readiness is
    /// never reset, and no event ever references the coordinate of a cell
    /// that was already ready.
    pub fn step_at(&mut self, idx: usize, rng: &mut rand::rngs::StdRng) -> (outcome: StepOutcome)
        requires
            old(self).wf(),
            idx < old(self).cells@.len(),
        ensures
            final(self).wf(),
            step_rel(*old(self), *final(self), idx as int, outcome),
            final(self).cells@.len() == old(self).cells@.len(),
            final(self).config == old(self).config,
            forall|j: int|
                0 <= j < old(self).cells@.len() ==> {
                    let c0 = old(self).cells@[j];
                    let c1 = #[trigger] final(self).cells@[j];
                    c1.row == c0.row && c1.column == c0.column && c1.required_char
                        == c0.required_char
                },
            forall|j: int|
                0 <= j < old(self).cells@.len() && old(self).cells@[j].ready ==> (
                #[trigger] final(self).cells@[j]).ready,
            forall|j: int|
                0 <= j < old(self).cells@.len() && (#[trigger] old(self).cells@[j]).ready
                    ==> !outcome.mentions(old(self).cells@[j].row, old(self).cells@[j].column),
    {
        let cell = self.cells[idx];
        if cell.ready {
            return StepOutcome::Skipped;
        }
        let vicinity = self.config.initial_char_range / cell.narrowing_coefficient;
        let drawn = RangeSampler::sample(cell.required_char, vicinity, rng);
        let converged = drawn == cell.required_char;
        self.cells[idx] = CellState {
            row: cell.row,
            column: cell.column,
            required_char: cell.required_char,
            narrowing_coefficient: mul_saturating(
                cell.narrowing_coefficient,
                self.config.char_range_reduction_factor,
            ),
            ready: converged,
        };
        proof {
            lemma_sat_mul_grows(
                cell.narrowing_coefficient,
                self.config.char_range_reduction_factor,
            );
        }
        if converged {
            StepOutcome::Converged(cell.row, cell.column, drawn)
        } else {
            StepOutcome::Sampled(cell.row, cell.column, drawn)
        }
    }

    /// One sampling attempt: selects a cell uniformly at random, with
    /// replacement, from the whole cell collection — cells already ready
    /// included, which costs a wasted `Skipped` attempt but keeps selection
    /// cheap — and advances it as [`Self::step_at`] describes.
    pub fn step(&mut self, rng: &mut rand::rngs::StdRng) -> (outcome: StepOutcome)
        requires
            old(self).wf(),
        ensures
            final(self).wf(),
            exists|i: int| step_rel(*old(self), *final(self), i, outcome),
            final(self).cells@.len() == old(self).cells@.len(),
            final(self).config == old(self).config,
            forall|j: int|
                0 <= j < old(self).cells@.len() ==> {
                    let c0 = old(self).cells@[j];
                    let c1 = #[trigger] final(self).cells@[j];
                    c1.row == c0.row && c1.column == c0.column && c1.required_char
                        == c0.required_char
                },
            forall|j: int|
                0 <= j < old(self).cells@.len() && old(self).cells@[j].ready ==> (
                #[trigger] final(self).cells@[j]).ready,
            forall|j: int|
                0 <= j < old(self).cells@.len() && (#[trigger] old(self).cells@[j]).ready
                    ==> !outcome.mentions(old(self).cells@[j].row, old(self).cells@[j].column),
    {
        let idx = draw_index(rng, self.cells.len());
        self.step_at(idx, rng)
    }

    /// Performs up to `max_steps` sampling attempts, pausing on the clock
    /// before each one and forwarding every non-skipped outcome to the sink,
    /// and stops as soon as the reveal is complete.  Returns whether it is.
    ///
    /// Completion is reached almost surely but depends on the random draws,
    /// so a single call performs a bounded number of attempts; a host that
    /// wants certain completion keeps calling until the result is true.
    pub fn run<S: RenderSink, C: Clock>(
        &mut self,
        rng: &mut rand::rngs::StdRng,
        sink: &mut S,
        clock: &mut C,
        max_steps: usize,
    ) -> (done: bool)
        requires
            old(self).wf(),
        ensures
            final(self).wf(),
            done == final(self).spec_complete(),
            final(self).cells@.len() == old(self).cells@.len(),
            final(self).config == old(self).config,
            forall|j: int|
                0 <= j < old(self).cells@.len() ==> {
                    let c0 = old(self).cells@[j];
                    let c1 = #[trigger] final(self).cells@[j];
                    c1.row == c0.row && c1.column == c0.column && c1.required_char
                        == c0.required_char
                },
            forall|j: int|
                0 <= j < old(self).cells@.len() && old(self).cells@[j].ready ==> (
                #[trigger] final(self).cells@[j]).ready,
    {
        let mut steps: usize = 0;
        while steps < max_steps
            invariant
                self.wf(),
                self.cells@.len() == old(self).cells@.len(),
                self.config == old(self).config,
                steps <= max_steps,
                forall|j: int|
                    0 <= j < old(self).cells@.len() ==> {
                        let c0 = old(self).cells@[j];
                        let c1 = #[trigger] self.cells@[j];
                        c1.row == c0.row && c1.column == c0.column && c1.required_char
                            == c0.required_char
                    },
                forall|j: int|
                    0 <= j < old(self).cells@.len() && old(self).cells@[j].ready ==> (
                    #[trigger] self.cells@[j]).ready,
            decreases max_steps - steps,
        {
            if self.is_complete() {
                return true;
            }
            clock.sleep(self.config.sleep_nanos);
            let outcome = self.step(rng);
            match outcome {
                StepOutcome::Skipped => (),
                StepOutcome::Sampled(row, column, chr) => sink.put_char(row, column, chr),
                StepOutcome::Converged(row, column, chr) => sink.put_char(row, column, chr),
            }
            steps = steps + 1;
        }
        self.is_complete()
    }
}

} // verus!
