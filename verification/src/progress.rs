//! Progress-reporting policies.
//!
//! A closed set of policies — no reporting, a rate-limited terminal display,
//! or a rate-limited host callback — each convertible into the one opaque
//! callback value the worker consumes.  The rendering sinks themselves
//! (terminal drawing, host-language callbacks) are outside this crate's
//! scope; what is modelled and verified is the policy data and its dispatch
//! into the engine's callback value.

use vstd::prelude::*;

use crate::engine;

verus! {

/// One progress-reporting policy.
pub enum ProgressType {
    /// Invoke a host-bound callback at most once per `rate_ms`, rendered
    /// through `template`, sized for `n_cores` workers.
    Callback { rate_ms: u64, n_cores: usize, template: String },
    /// Rate-limited terminal progress display.
    Indicatif { rate_ms: u64 },
    /// No reporting at all.
    Silent,
}

impl ProgressType {
    /// Rate-limited terminal display, refreshed at most once per `rate_ms`.
    pub fn indicatif(rate_ms: u64) -> (r: ProgressType)
        ensures
            r matches ProgressType::Indicatif { rate_ms: ms } && ms == rate_ms,
    {
        ProgressType::Indicatif { rate_ms }
    }

    /// No reporting.
    pub fn none() -> (r: ProgressType)
        ensures
            r is Silent,
    {
        ProgressType::Silent
    }

    /// A host-bound callback policy with its refresh rate, display template
    /// and expected worker count.
    pub fn template_callback(rate_ms: u64, template: String, n_cores: usize) -> (r: ProgressType)
        ensures
            r matches ProgressType::Callback { rate_ms: ms, n_cores: n, template: t } && ms
                == rate_ms && n == n_cores && t == template,
    {
        ProgressType::Callback { rate_ms, n_cores, template }
    }

    /// Convert the policy into the engine's callback value: the silent policy
    /// yields none, the reporting policies yield one carrying their rate
    /// limit.  None of the backends available here can fail to initialize.
    pub fn into_callback(self) -> (r: Option<nuts_rs::ProgressCallback>)
        ensures
            self is Silent <==> r is None,
    {
        match self {
            ProgressType::Callback { rate_ms, n_cores: _, template: _ } => {
                Some(engine::engine_progress_callback(rate_ms))
            },
            ProgressType::Indicatif { rate_ms } => {
                Some(engine::engine_progress_callback(rate_ms))
            },
            ProgressType::Silent => None,
        }
    }
}

} // verus!
