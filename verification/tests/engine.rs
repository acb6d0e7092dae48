use chaorder::engine::{
    Clock, ConfigError, EngineConfigBuilder, RenderSink, RevealEngine, StepOutcome,
    CHAR_RANGE_DEFAULT, CHAR_RANGE_REDUCTION_FACTOR_DEFAULT, SLEEP_NANOS_DEFAULT,
};
use chaorder::illustration::ParseIllustration;
use rand::SeedableRng;

fn seeded(seed: u64) -> rand::rngs::StdRng {
    rand::rngs::StdRng::seed_from_u64(seed)
}

#[test]
fn builder_has_documented_defaults() {
    let config = EngineConfigBuilder::default().build();
    assert_eq!(config.start_offset, (0, 0));
    assert_eq!(config.sleep_nanos, SLEEP_NANOS_DEFAULT);
    assert_eq!(config.initial_char_range, CHAR_RANGE_DEFAULT);
    assert_eq!(
        config.char_range_reduction_factor,
        CHAR_RANGE_REDUCTION_FACTOR_DEFAULT
    );
}

#[test]
fn builder_sets_every_option() {
    let config = EngineConfigBuilder::default()
        .with_start((3, 4))
        .with_sleep_nanos(1000)
        .with_char_range(50)
        .with_char_range_reduction_factor(3)
        .build();
    assert_eq!(config.start_offset, (3, 4));
    assert_eq!(config.sleep_nanos, 1000);
    assert_eq!(config.initial_char_range, 50);
    assert_eq!(config.char_range_reduction_factor, 3);
}

#[test]
fn empty_illustration_is_rejected() {
    let illustration = ParseIllustration::from_str("");
    let config = EngineConfigBuilder::default().build();
    let result = RevealEngine::construct(&illustration, config);
    assert!(matches!(result, Err(ConfigError::EmptyIllustration)));
}

#[test]
fn construct_builds_one_cell_per_entry() {
    let illustration = ParseIllustration::from_str("AB\nCD");
    let config = EngineConfigBuilder::default().build();
    let engine = RevealEngine::construct(&illustration, config).unwrap();
    assert_eq!(engine.cells.len(), 4);
    for cell in &engine.cells {
        assert_eq!(cell.narrowing_coefficient, 1);
        assert!(!cell.ready);
    }
    assert!(!engine.is_complete());
}

#[test]
fn single_cell_scenario_converges_deterministically() {
    // Illustration {(0,0): 'A'}, initial range 2, factor 2: the first draw
    // comes from the window [63, 67] ('A' = 65 plus or minus 2), the second
    // from [64, 66], and once the vicinity reaches 0 the window is [65, 65],
    // so the third attempt at the latest converges on 'A'.
    let illustration = ParseIllustration::from_str("A");
    let config = EngineConfigBuilder::default()
        .with_char_range(2)
        .with_char_range_reduction_factor(2)
        .build();
    let mut engine = RevealEngine::construct(&illustration, config).unwrap();
    let mut rng = seeded(11);
    let windows = [(63u32, 67u32), (64, 66), (65, 65)];
    let mut converged = false;
    for window in windows {
        assert!(!converged);
        let outcome = engine.step(&mut rng);
        match outcome {
            StepOutcome::Sampled(row, column, chr) => {
                assert_eq!((row, column), (0, 0));
                assert!((window.0..=window.1).contains(&(chr as u32)));
                assert_ne!(chr, 'A');
            }
            StepOutcome::Converged(row, column, chr) => {
                assert_eq!((row, column), (0, 0));
                assert_eq!(chr, 'A');
                converged = true;
            }
            StepOutcome::Skipped => panic!("no cell was ready yet"),
        }
        if converged {
            break;
        }
    }
    assert!(converged);
    assert!(engine.is_complete());
}

#[test]
fn coefficient_doubles_after_every_attempt() {
    let illustration = ParseIllustration::from_str("A");
    let config = EngineConfigBuilder::default()
        .with_char_range(200)
        .with_char_range_reduction_factor(2)
        .build();
    let mut engine = RevealEngine::construct(&illustration, config).unwrap();
    let mut rng = seeded(5);
    let mut expected: u32 = 1;
    for _ in 0..8 {
        if engine.cells[0].ready {
            break;
        }
        engine.step_at(0, &mut rng);
        expected = expected.saturating_mul(2);
        assert_eq!(engine.cells[0].narrowing_coefficient, expected);
    }
}

#[test]
fn vicinity_is_non_increasing_and_reaches_zero() {
    // With range 200 and factor 2 the vicinity sequence is
    // 200, 100, 50, 25, 12, 6, 3, 1, 0: non-increasing, and zero after
    // 8 attempts (the first power of 2 above 200 is 256).
    let illustration = ParseIllustration::from_str("A");
    let config = EngineConfigBuilder::default()
        .with_char_range(200)
        .with_char_range_reduction_factor(2)
        .build();
    let mut engine = RevealEngine::construct(&illustration, config).unwrap();
    let mut rng = seeded(12);
    let mut last_vicinity = u32::MAX;
    for _ in 0..8 {
        if engine.cells[0].ready {
            return;
        }
        let vicinity = 200 / engine.cells[0].narrowing_coefficient;
        assert!(vicinity <= last_vicinity);
        last_vicinity = vicinity;
        engine.step_at(0, &mut rng);
    }
    assert_eq!(200 / engine.cells[0].narrowing_coefficient, 0);
}

#[test]
fn coefficient_saturates_instead_of_overflowing() {
    let illustration = ParseIllustration::from_str("A");
    let config = EngineConfigBuilder::default()
        .with_char_range(0)
        .with_char_range_reduction_factor(u32::MAX)
        .build();
    let mut engine = RevealEngine::construct(&illustration, config).unwrap();
    let mut rng = seeded(6);
    // With range 0 the first attempt converges, but the coefficient is still
    // multiplied; a second forced attempt on the cell is skipped.
    let outcome = engine.step_at(0, &mut rng);
    assert!(matches!(outcome, StepOutcome::Converged(0, 0, 'A')));
    assert_eq!(engine.cells[0].narrowing_coefficient, u32::MAX);
    let outcome = engine.step_at(0, &mut rng);
    assert!(matches!(outcome, StepOutcome::Skipped));
    assert_eq!(engine.cells[0].narrowing_coefficient, u32::MAX);
}

#[test]
fn four_cells_converge_and_no_fifth_coordinate_appears() {
    let coords = [(0, 0), (0, 1), (1, 0), (1, 1)];
    let targets = ['A', 'B', 'C', 'D'];
    let illustration = ParseIllustration::from_str("AB\nCD");
    let config = EngineConfigBuilder::default().build();
    let mut engine = RevealEngine::construct(&illustration, config).unwrap();
    let mut rng = seeded(7);
    let mut steps = 0u32;
    while !engine.is_complete() {
        assert!(steps < 100_000, "the reveal must converge");
        match engine.step(&mut rng) {
            StepOutcome::Skipped => {}
            StepOutcome::Sampled(row, column, _) => {
                assert!(coords.contains(&(row, column)));
            }
            StepOutcome::Converged(row, column, chr) => {
                let at = coords
                    .iter()
                    .position(|&c| c == (row, column))
                    .expect("a fifth coordinate must never appear");
                assert_eq!(chr, targets[at]);
            }
        }
        steps += 1;
    }
    for cell in &engine.cells {
        assert!(cell.ready);
    }
}

#[test]
fn ready_cells_are_only_ever_skipped() {
    let illustration = ParseIllustration::from_str("AB\nCD");
    let config = EngineConfigBuilder::default()
        .with_char_range(8)
        .build();
    let mut engine = RevealEngine::construct(&illustration, config).unwrap();
    let mut rng = seeded(8);
    let mut ready: Vec<(u16, u16)> = Vec::new();
    let mut steps = 0u32;
    while !engine.is_complete() && steps < 100_000 {
        match engine.step(&mut rng) {
            StepOutcome::Skipped => {}
            StepOutcome::Sampled(row, column, _) => {
                assert!(!ready.contains(&(row, column)));
            }
            StepOutcome::Converged(row, column, _) => {
                assert!(!ready.contains(&(row, column)));
                ready.push((row, column));
            }
        }
        steps += 1;
    }
    assert_eq!(ready.len(), 4);
}

#[test]
fn same_seed_gives_the_same_reveal() {
    let config = EngineConfigBuilder::default().with_char_range(20).build();
    let mut outcomes: Vec<Vec<StepOutcome>> = Vec::new();
    for _ in 0..2 {
        let illustration = ParseIllustration::from_str("AB\nCD");
        let mut engine = RevealEngine::construct(&illustration, config).unwrap();
        let mut rng = seeded(9);
        let mut run: Vec<StepOutcome> = Vec::new();
        let mut steps = 0u32;
        while !engine.is_complete() && steps < 100_000 {
            run.push(engine.step(&mut rng));
            steps += 1;
        }
        assert!(engine.is_complete());
        outcomes.push(run);
    }
    assert_eq!(outcomes[0], outcomes[1]);
}

struct RecordingSink {
    events: Vec<(u16, u16, char)>,
}

impl RenderSink for RecordingSink {
    fn put_char(&mut self, row: u16, column: u16, chr: char) {
        self.events.push((row, column, chr));
    }
}

struct CountingClock {
    pauses: u64,
}

impl Clock for CountingClock {
    fn sleep(&mut self, _nanos: u64) {
        self.pauses += 1;
    }
}

#[test]
fn run_forwards_every_non_skipped_outcome_to_the_sink() {
    let illustration = ParseIllustration::from_str("AB\nCD");
    let config = EngineConfigBuilder::default().with_char_range(16).build();
    let mut engine = RevealEngine::construct(&illustration, config).unwrap();
    let mut rng = seeded(10);
    let mut sink = RecordingSink { events: Vec::new() };
    let mut clock = CountingClock { pauses: 0 };
    let mut done = false;
    let mut rounds = 0u32;
    while !done {
        assert!(rounds < 1_000, "the reveal must converge");
        done = engine.run(&mut rng, &mut sink, &mut clock, 1_000);
        rounds += 1;
    }
    assert!(engine.is_complete());
    assert!(clock.pauses > 0);
    // At least one event per cell, and the last event of every coordinate
    // paints the target character.
    let coords = [(0, 0, 'A'), (0, 1, 'B'), (1, 0, 'C'), (1, 1, 'D')];
    for (row, column, target) in coords {
        let last = sink
            .events
            .iter()
            .rev()
            .find(|e| (e.0, e.1) == (row, column))
            .expect("every cell gets at least one event");
        assert_eq!(last.2, target);
    }
}
