//! Trusted boundary to the external sampling engine and the host facilities.
//!
//! Every function here is an `external_body` wrapper around exactly one call
//! into an outside crate (or std, where vstd gives it no specification); its
//! contract states only what the callee's source shows.  Everything that can
//! be checked is checked in the verified modules around these wrappers.

use vstd::prelude::*;

use rand::RngCore;

use crate::settings::{DiagOptions, LowRankOptions, TransformOptions};

verus! {

#[verifier::external_type_specification]
#[verifier::external_body]
pub struct ExSampler(nuts_rs::Sampler);

#[verifier::external_type_specification]
#[verifier::external_body]
pub struct ExChainOutput(nuts_rs::ChainOutput);

#[verifier::external_type_specification]
#[verifier::external_body]
pub struct ExProgressCallback(nuts_rs::ProgressCallback);

#[verifier::external_type_specification]
#[verifier::external_body]
#[verifier::reject_recursive_types(A)]
pub struct ExNutsSettings<A: core::fmt::Debug + Copy + core::default::Default>(
    nuts_rs::NutsSettings<A>,
);

#[verifier::external_type_specification]
#[verifier::external_body]
#[verifier::reject_recursive_types(S)]
pub struct ExEuclideanAdaptOptions<S: core::fmt::Debug + core::default::Default>(
    nuts_rs::EuclideanAdaptOptions<S>,
);

#[verifier::external_type_specification]
#[verifier::external_body]
pub struct ExDiagAdaptExpSettings(nuts_rs::DiagAdaptExpSettings);

#[verifier::external_type_specification]
#[verifier::external_body]
pub struct ExLowRankSettings(nuts_rs::LowRankSettings);

#[verifier::external_type_specification]
#[verifier::external_body]
pub struct ExTransformedSettings(nuts_rs::TransformedSettings);

#[verifier::external_type_specification]
#[verifier::external_body]
pub struct ExInstant(std::time::Instant);

/// One step of a bounded wait on the worker, as the engine reports it.
pub enum WaitOutcome {
    /// The job completed; the per-chain outputs are handed over in start order.
    Completed(Vec<nuts_rs::ChainOutput>),
    /// The slice elapsed first; the handle comes back still running.
    TimedOut(nuts_rs::Sampler),
    /// The worker failed; the message and whatever partial output it salvaged.
    Failed(String, Option<Vec<nuts_rs::ChainOutput>>),
}

/// Relies on rand's thread-local generator: one fresh 64-bit value; nothing is
/// promised of it.
#[verifier::external_body]
pub(crate) fn random_seed() -> (r: u64) {
    rand::rng().next_u64()
}

/// Relies on nuts_rs::DiagGradNutsSettings::default and its public fields:
/// mirrors the facade's top-level sampling fields into the engine's diagonal
/// settings; the rest keep the engine's defaults.
#[verifier::external_body]
pub(crate) fn diag_engine_settings(s: &DiagOptions) -> (r: nuts_rs::DiagGradNutsSettings) {
    let mut t = nuts_rs::DiagGradNutsSettings::default();
    t.seed = s.seed;
    t.num_tune = s.num_tune;
    t.num_chains = s.num_chains;
    t.num_draws = s.num_draws;
    t.maxdepth = s.maxdepth;
    t.store_gradient = s.store_gradient;
    t.store_unconstrained = s.store_unconstrained;
    t.store_divergences = s.store_divergences;
    t.max_energy_error = bytemuck::cast(s.max_energy_error_bits);
    t
}

/// Relies on the public adaptation fields of nuts_rs::DiagGradNutsSettings:
/// mirrors the facade's adaptation fields into the engine's diagonal settings.
#[verifier::external_body]
pub(crate) fn diag_engine_adapt(t: &mut nuts_rs::DiagGradNutsSettings, s: &DiagOptions) {
    t.adapt_options.dual_average_options.initial_step = bytemuck::cast(s.initial_step_bits);
    t.adapt_options.dual_average_options.target_accept = bytemuck::cast(s.target_accept_bits);
    t.adapt_options.mass_matrix_switch_freq = s.mass_matrix_switch_freq;
    t.adapt_options.early_mass_matrix_switch_freq = s.early_mass_matrix_switch_freq;
    t.adapt_options.mass_matrix_options.store_mass_matrix = s.store_mass_matrix;
    t.adapt_options.mass_matrix_options.use_grad_based_estimate = s.use_grad_based_estimate;
}

/// Relies on nuts_rs::LowRankNutsSettings::default and its public fields:
/// mirrors the facade's top-level sampling fields into the engine's low-rank
/// settings; the rest keep the engine's defaults.
#[verifier::external_body]
pub(crate) fn low_rank_engine_settings(s: &LowRankOptions) -> (r: nuts_rs::LowRankNutsSettings) {
    let mut t = nuts_rs::LowRankNutsSettings::default();
    t.seed = s.seed;
    t.num_tune = s.num_tune;
    t.num_chains = s.num_chains;
    t.num_draws = s.num_draws;
    t.maxdepth = s.maxdepth;
    t.store_gradient = s.store_gradient;
    t.store_unconstrained = s.store_unconstrained;
    t.store_divergences = s.store_divergences;
    t.max_energy_error = bytemuck::cast(s.max_energy_error_bits);
    t
}

/// Relies on the public adaptation fields of nuts_rs::LowRankNutsSettings:
/// mirrors the facade's adaptation fields into the engine's low-rank settings.
#[verifier::external_body]
pub(crate) fn low_rank_engine_adapt(t: &mut nuts_rs::LowRankNutsSettings, s: &LowRankOptions) {
    t.adapt_options.dual_average_options.initial_step = bytemuck::cast(s.initial_step_bits);
    t.adapt_options.dual_average_options.target_accept = bytemuck::cast(s.target_accept_bits);
    t.adapt_options.mass_matrix_switch_freq = s.mass_matrix_switch_freq;
    t.adapt_options.early_mass_matrix_switch_freq = s.early_mass_matrix_switch_freq;
    t.adapt_options.mass_matrix_options.store_mass_matrix = s.store_mass_matrix;
    t.adapt_options.mass_matrix_options.eigval_cutoff = bytemuck::cast(s.eigval_cutoff_bits);
    t.adapt_options.mass_matrix_options.gamma = bytemuck::cast(s.gamma_bits);
}

/// Relies on nuts_rs::TransformedNutsSettings::default and its public fields:
/// mirrors every facade field into the engine's transforming settings; the
/// rest keep the engine's defaults.
#[verifier::external_body]
pub(crate) fn transform_engine_settings(s: &TransformOptions) -> (r:
    nuts_rs::TransformedNutsSettings) {
    let mut t = nuts_rs::TransformedNutsSettings::default();
    t.seed = s.seed;
    t.num_tune = s.num_tune;
    t.num_chains = s.num_chains;
    t.num_draws = s.num_draws;
    t.maxdepth = s.maxdepth;
    t.store_gradient = s.store_gradient;
    t.store_unconstrained = s.store_unconstrained;
    t.store_divergences = s.store_divergences;
    t.max_energy_error = bytemuck::cast(s.max_energy_error_bits);
    t.adapt_options.dual_average_options.initial_step = bytemuck::cast(s.initial_step_bits);
    t.adapt_options.dual_average_options.target_accept = bytemuck::cast(s.target_accept_bits);
    t
}

/// Relies on nuts_rs::Sampler::new: spawns the controller thread, which builds
/// the worker pool and starts one chain per `settings.num_chains()`, reporting
/// progress through `callback` if one is given.  Startup failures the engine
/// detects on its controller thread surface later, through the handle's wait
/// and abort operations.
#[verifier::external_body]
pub(crate) fn spawn_sampler<M: nuts_rs::Model, S: nuts_rs::Settings>(
    model: M,
    settings: S,
    cores: usize,
    callback: Option<nuts_rs::ProgressCallback>,
) -> (r: Result<nuts_rs::Sampler, String>) {
    nuts_rs::Sampler::new(model, settings, cores, callback).map_err(|e| e.to_string())
}

/// Relies on nuts_rs::Sampler::wait_timeout: blocks the caller for at most
/// `timeout_ms` milliseconds; hands back either the finished job's chains in
/// start order, the still-running handle, or the worker's error together with
/// whatever partial output was salvaged.
#[verifier::external_body]
pub(crate) fn engine_wait_timeout(s: nuts_rs::Sampler, timeout_ms: u64) -> (r: WaitOutcome) {
    match s.wait_timeout(std::time::Duration::from_millis(timeout_ms)) {
        nuts_rs::SamplerWaitResult::Trace(trace) => WaitOutcome::Completed(trace.chains),
        nuts_rs::SamplerWaitResult::Timeout(sampler) => WaitOutcome::TimedOut(sampler),
        nuts_rs::SamplerWaitResult::Err(err, trace) => WaitOutcome::Failed(
            err.to_string(),
            trace.map(|t| t.chains),
        ),
    }
}

/// Relies on nuts_rs::Sampler::pause: asks the worker to pause all chains;
/// fails if the worker rejects or cannot acknowledge the request.
#[verifier::external_body]
pub(crate) fn engine_pause(s: &mut nuts_rs::Sampler) -> (r: Result<(), String>) {
    s.pause().map_err(|e| e.to_string())
}

/// Relies on nuts_rs::Sampler::resume: asks the worker to resume all chains;
/// fails if the worker rejects or cannot acknowledge the request.
#[verifier::external_body]
pub(crate) fn engine_resume(s: &mut nuts_rs::Sampler) -> (r: Result<(), String>) {
    s.resume().map_err(|e| e.to_string())
}

/// Relies on nuts_rs::Sampler::abort: stops the worker and joins its threads;
/// hands back the worker's own stop result and whatever chains it produced
/// before stopping, in start order.
#[verifier::external_body]
pub(crate) fn engine_abort(s: nuts_rs::Sampler) -> (r: (Result<(), String>, Option<
    Vec<nuts_rs::ChainOutput>,
>)) {
    let (result, trace) = s.abort();
    (result.map_err(|e| e.to_string()), trace.map(|t| t.chains))
}

/// Relies on nuts_rs::Sampler::inspect_trace: takes a non-destructive snapshot
/// of the in-progress chains, in start order, without altering the worker.
#[verifier::external_body]
pub(crate) fn engine_inspect(s: &mut nuts_rs::Sampler) -> (r: Result<
    Vec<nuts_rs::ChainOutput>,
    String,
>) {
    s.inspect_trace().map(|t| t.chains).map_err(|e| e.to_string())
}

/// Relies on nuts_rs::ProgressCallback's public fields: packages a rate limit
/// with a reporting sink.  Terminal and host-callback rendering are outside
/// this crate's scope, so the sink itself discards the snapshots.
#[verifier::external_body]
pub(crate) fn engine_progress_callback(rate_ms: u64) -> (r: nuts_rs::ProgressCallback) {
    nuts_rs::ProgressCallback {
        rate: std::time::Duration::from_millis(rate_ms),
        callback: Box::new(|_elapsed, _progress| {}),
    }
}

/// Relies on std::time::Instant::now: a point on the monotonic clock.
#[verifier::external_body]
pub(crate) fn clock_now() -> (r: std::time::Instant) {
    std::time::Instant::now()
}

/// Relies on std::time::Instant::elapsed: the milliseconds since `start`,
/// saturated into u64; nothing is promised of the clock's progress.
#[verifier::external_body]
pub(crate) fn elapsed_ms(start: &std::time::Instant) -> (r: u64) {
    u64::try_from(start.elapsed().as_millis()).unwrap_or(u64::MAX)
}

} // verus!
