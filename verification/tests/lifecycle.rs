use std::sync::Arc;

use arrow::array::{Array, ArrayBuilder, FixedSizeListBuilder, PrimitiveBuilder};
use arrow::datatypes::Float64Type;

use nutpie::error::ControlError;
use nutpie::progress::ProgressType;
use nutpie::sampler::{InterruptFlag, PySampler, SamplerState};
use nutpie::settings::PyNutsSettings;

#[derive(Debug)]
struct DensityError;

impl std::fmt::Display for DensityError {
    fn fmt(&self, f: &mut std::fmt::Formatter<'_>) -> std::fmt::Result {
        f.write_str("density evaluation failed")
    }
}

impl std::error::Error for DensityError {}

impl nuts_rs::LogpError for DensityError {
    fn is_recoverable(&self) -> bool {
        false
    }
}

/// A standard-normal density; `spin` adds busy work per evaluation so that a
/// job can be made slow on purpose, `fail` makes every evaluation fail.
#[derive(Clone)]
struct TestDensity {
    dim: usize,
    spin: u64,
    fail: bool,
}

impl nuts_rs::CpuLogpFunc for &TestDensity {
    type LogpError = DensityError;
    type TransformParams = ();

    fn dim(&self) -> usize {
        self.dim
    }

    fn logp(&mut self, position: &[f64], gradient: &mut [f64]) -> Result<f64, DensityError> {
        if self.fail {
            return Err(DensityError);
        }
        let mut waste = 0.0f64;
        let mut k = 0u64;
        while k < self.spin {
            waste += (k as f64) * 1e-300;
            k += 1;
        }
        let mut logp = waste * 0.0;
        for (p, g) in position.iter().zip(gradient.iter_mut()) {
            logp -= 0.5 * p * p;
            *g = -p;
        }
        Ok(logp)
    }
}

/// Collects post-tuning draws into a fixed-size-list array; tuning draws are
/// skipped so that the draws buffer holds exactly the requested draws.
struct VectorDraws {
    draws: FixedSizeListBuilder<PrimitiveBuilder<Float64Type>>,
    skip_remaining: usize,
}

impl VectorDraws {
    fn new(dim: usize, skip: usize) -> Self {
        Self {
            draws: FixedSizeListBuilder::new(PrimitiveBuilder::new(), dim as i32),
            skip_remaining: skip,
        }
    }
}

impl nuts_rs::DrawStorage for VectorDraws {
    fn append_value(&mut self, point: &[f64]) -> anyhow::Result<()> {
        if self.skip_remaining > 0 {
            self.skip_remaining -= 1;
            return Ok(());
        }
        self.draws.values().append_slice(point);
        self.draws.append(true);
        Ok(())
    }

    fn finalize(mut self) -> anyhow::Result<Arc<dyn Array>> {
        Ok(ArrayBuilder::finish(&mut self.draws))
    }

    fn inspect(&self) -> anyhow::Result<Arc<dyn Array>> {
        Ok(ArrayBuilder::finish_cloned(&self.draws))
    }
}

struct TestModel {
    density: TestDensity,
}

impl nuts_rs::Model for TestModel {
    type Math<'model> = nuts_rs::CpuMath<&'model TestDensity>;
    type DrawStorage<'model, S: nuts_rs::Settings> = VectorDraws;

    fn new_trace<'model, S: nuts_rs::Settings, R: rand::Rng + ?Sized>(
        &'model self,
        _rng: &mut R,
        _chain_id: u64,
        settings: &'model S,
    ) -> anyhow::Result<VectorDraws> {
        Ok(VectorDraws::new(self.density.dim, settings.hint_num_tune()))
    }

    fn math(&self) -> anyhow::Result<Self::Math<'_>> {
        Ok(nuts_rs::CpuMath::new(&self.density))
    }

    fn init_position<R: rand::Rng + ?Sized>(
        &self,
        _rng: &mut R,
        position: &mut [f64],
    ) -> anyhow::Result<()> {
        for x in position.iter_mut() {
            *x = 0.5;
        }
        Ok(())
    }
}

fn quick_settings(chains: usize, tune: u64, draws: u64) -> PyNutsSettings {
    let mut s = PyNutsSettings::new_diag(Some(42));
    s.set_num_chains(chains);
    s.set_num_tune(tune);
    s.set_num_draws(draws);
    s
}

fn start(settings: &PyNutsSettings, cores: usize, dim: usize, spin: u64, fail: bool) -> PySampler {
    let model = TestModel { density: TestDensity { dim, spin, fail } };
    PySampler::from_model(settings, cores, model, ProgressType::none()).unwrap()
}

#[test]
fn two_chains_fifty_draws_complete_and_extract() {
    let settings = quick_settings(2, 50, 50);
    let mut sampler = start(&settings, 2, 3, 0, false);
    let interrupt = InterruptFlag::new();
    sampler.wait(None, &interrupt).unwrap();
    assert!(!sampler.is_empty());
    let chains = sampler.extract_results().unwrap();
    assert_eq!(chains.len(), 2);
    for chain in &chains {
        assert_eq!(chain.draws.len(), 50);
        assert!(chain.stats.len() > 0);
    }
}

#[test]
fn extract_succeeds_at_most_once() {
    let settings = quick_settings(2, 30, 30);
    let mut sampler = start(&settings, 2, 2, 0, false);
    let interrupt = InterruptFlag::new();
    sampler.wait(None, &interrupt).unwrap();
    assert!(sampler.extract_results().is_ok());
    assert!(matches!(sampler.extract_results(), Err(ControlError::NotFinished)));
    assert!(matches!(sampler.extract_results(), Err(ControlError::NotFinished)));
}

#[test]
fn extract_while_running_is_refused_and_harmless() {
    let settings = quick_settings(2, 500, 500);
    let mut sampler = start(&settings, 2, 4, 20_000, false);
    assert!(matches!(sampler.extract_results(), Err(ControlError::NotFinished)));
    assert!(!sampler.is_empty());
    let _ = sampler.abort();
}

#[test]
fn short_timeout_fails_then_longer_wait_succeeds() {
    let settings = quick_settings(2, 300, 300);
    let mut sampler = start(&settings, 2, 4, 20_000, false);
    let interrupt = InterruptFlag::new();
    let res = sampler.wait(Some(20), &interrupt);
    assert!(matches!(res, Err(ControlError::Timeout)));
    // The job is still running: an unbounded wait completes it normally.
    assert!(!sampler.is_empty());
    sampler.wait(None, &interrupt).unwrap();
    let chains = sampler.extract_results().unwrap();
    assert_eq!(chains.len(), 2);
}

#[test]
fn interrupt_stops_the_wait_but_not_the_job() {
    let settings = quick_settings(2, 500, 500);
    let mut sampler = start(&settings, 2, 4, 20_000, false);
    let interrupt = InterruptFlag::new();
    interrupt.raise();
    let res = sampler.wait(None, &interrupt);
    assert!(matches!(res, Err(ControlError::Interrupted)));
    // The job is untouched: still running, still abortable.
    assert!(!sampler.is_empty());
    interrupt.clear();
    sampler.abort().unwrap();
    assert!(sampler.is_finished().unwrap());
}

#[test]
fn abort_settles_a_running_job() {
    let settings = quick_settings(2, 500, 500);
    let mut sampler = start(&settings, 2, 4, 20_000, false);
    sampler.abort().unwrap();
    assert!(!sampler.is_empty());
    assert!(sampler.is_finished().unwrap());
    match sampler.extract_results() {
        Ok(chains) => {
            for chain in &chains {
                assert!((chain.draws.len() as u64) < 500);
            }
        },
        Err(e) => assert!(matches!(e, ControlError::NoTrace)),
    }
}

#[test]
fn chain_order_is_preserved_after_immediate_abort() {
    let settings = quick_settings(3, 400, 400);
    let mut sampler = start(&settings, 3, 4, 20_000, false);
    let _ = sampler.abort();
    if let Ok(chains) = sampler.extract_results() {
        let ids: Vec<u64> = chains.iter().map(|c| c.chain_id).collect();
        for pair in ids.windows(2) {
            assert!(pair[0] < pair[1]);
        }
        for id in ids {
            assert!(id < 3);
        }
    }
}

#[test]
fn poll_is_idempotent_on_settled_jobs() {
    let settings = quick_settings(1, 20, 20);
    let mut sampler = start(&settings, 1, 2, 0, false);
    let interrupt = InterruptFlag::new();
    sampler.wait(None, &interrupt).unwrap();
    assert!(sampler.is_finished().unwrap());
    assert!(sampler.is_finished().unwrap());
    assert!(sampler.is_finished().unwrap());
    // The trace survives the repeated polls.
    assert!(sampler.extract_results().is_ok());

    let mut never_started = PySampler { state: SamplerState::Empty };
    assert!(never_started.is_finished().unwrap());
    assert!(never_started.is_finished().unwrap());
    assert!(never_started.is_empty());
}

#[test]
fn poll_eventually_reports_completion() {
    let settings = quick_settings(1, 20, 20);
    let mut sampler = start(&settings, 1, 2, 0, false);
    let mut polls: u64 = 0;
    loop {
        if sampler.is_finished().unwrap() {
            break;
        }
        polls += 1;
        assert!(polls < 200_000);
    }
    assert!(sampler.extract_results().is_ok());
}

#[test]
fn pause_and_resume_are_accepted_while_running() {
    let settings = quick_settings(2, 500, 500);
    let mut sampler = start(&settings, 2, 4, 20_000, false);
    sampler.pause().unwrap();
    sampler.resume().unwrap();
    let _ = sampler.abort();
    // Settled: both are successful no-ops now.
    sampler.pause().unwrap();
    sampler.resume().unwrap();
}

#[test]
fn inspect_snapshots_a_running_job_only() {
    let settings = quick_settings(2, 500, 500);
    let mut sampler = start(&settings, 2, 4, 20_000, false);
    let snapshot = sampler.inspect().unwrap();
    assert!(snapshot.len() <= 2);
    assert!(!sampler.is_empty());
    let _ = sampler.abort();
    assert!(matches!(sampler.inspect(), Err(ControlError::NotRunning)));
}

#[test]
fn failing_model_surfaces_a_worker_error() {
    let settings = quick_settings(1, 20, 20);
    let mut sampler = start(&settings, 1, 2, 0, true);
    let interrupt = InterruptFlag::new();
    let res = sampler.wait(None, &interrupt);
    assert!(matches!(res, Err(ControlError::Worker(_))));
    assert!(!sampler.is_empty());
    assert!(matches!(sampler.extract_results(), Err(ControlError::NoTrace)));
}

#[test]
fn extract_without_any_output_reports_no_trace() {
    let mut sampler = PySampler { state: SamplerState::Finished(None) };
    assert!(matches!(sampler.extract_results(), Err(ControlError::NoTrace)));
    // The slot was consumed: a second attempt is a state mismatch.
    assert!(sampler.is_empty());
    assert!(matches!(sampler.extract_results(), Err(ControlError::NotFinished)));
}

#[test]
fn immediate_abort_leaves_a_well_defined_finished_state() {
    let settings = quick_settings(2, 200, 200);
    let mut sampler = start(&settings, 2, 3, 5_000, false);
    let _ = sampler.abort();
    assert!(!sampler.is_empty());
    assert!(sampler.is_finished().unwrap());
    match sampler.extract_results() {
        Ok(chains) => {
            for chain in &chains {
                assert!((chain.draws.len() as u64) < 200);
            }
        },
        Err(e) => assert!(matches!(e, ControlError::NoTrace)),
    }
}

#[test]
fn poll_on_a_busy_job_reports_not_finished_and_keeps_it_running() {
    let settings = quick_settings(2, 500, 500);
    let mut sampler = start(&settings, 2, 4, 20_000, false);
    assert!(!sampler.is_finished().unwrap());
    assert!(!sampler.is_empty());
    let _ = sampler.abort();
}

#[test]
fn wait_is_a_no_op_on_a_settled_job() {
    let settings = quick_settings(1, 20, 20);
    let mut sampler = start(&settings, 1, 2, 0, false);
    let interrupt = InterruptFlag::new();
    sampler.wait(None, &interrupt).unwrap();
    // Further waits succeed without touching the finished state.
    sampler.wait(None, &interrupt).unwrap();
    sampler.wait(Some(1), &interrupt).unwrap();
    assert!(sampler.extract_results().is_ok());
}
