//! Settings facade over the three adaptation strategies.
//!
//! One user-facing object exposes a flat property surface; a property that the
//! active adaptation variant does not carry fails with a [`SettingsError`]
//! instead of silently defaulting.  Fractional engine parameters (step size,
//! acceptance target, thresholds) are held as IEEE-754 bit patterns so that
//! the facade stores and returns them exactly; the trusted conversion to the
//! engine's own settings turns them back into floating-point values.

use vstd::prelude::*;

use crate::error::{AdaptVariant, SettingsError, SettingsOption};

verus! {

/// IEEE-754 bit pattern of 0.1, the default initial step size.
pub const DEFAULT_INITIAL_STEP_BITS: u64 = 0x3FB9_9999_9999_999A;

/// IEEE-754 bit pattern of 0.8, the default target acceptance probability.
pub const DEFAULT_TARGET_ACCEPT_BITS: u64 = 0x3FE9_9999_9999_999A;

/// IEEE-754 bit pattern of 1000.0, the default energy-error divergence threshold.
pub const DEFAULT_MAX_ENERGY_ERROR_BITS: u64 = 0x408F_4000_0000_0000;

/// IEEE-754 bit pattern of 20.0, the divergence threshold of the transforming variant.
pub const DEFAULT_TRANSFORM_MAX_ENERGY_ERROR_BITS: u64 = 0x4034_0000_0000_0000;

/// IEEE-754 bit pattern of 100.0, the default low-rank eigenvalue cutoff.
pub const DEFAULT_EIGVAL_CUTOFF_BITS: u64 = 0x4059_0000_0000_0000;

/// IEEE-754 bit pattern of 0.00001, the default low-rank gamma regularisation.
pub const DEFAULT_GAMMA_BITS: u64 = 0x3EE4_F8B5_88E3_68F1;

pub const DEFAULT_NUM_DRAWS: u64 = 1000;
pub const DEFAULT_MAXDEPTH: u64 = 10;
pub const DEFAULT_NUM_CHAINS: usize = 6;
pub const DEFAULT_NUM_TUNE_DIAG: u64 = 400;
pub const DEFAULT_NUM_TUNE_LOW_RANK: u64 = 800;
pub const DEFAULT_NUM_TUNE_TRANSFORM: u64 = 1500;
pub const DEFAULT_TRANSFORM_NUM_CHAINS: usize = 1;
pub const DEFAULT_MASS_MATRIX_SWITCH_FREQ: u64 = 80;
pub const DEFAULT_EARLY_MASS_MATRIX_SWITCH_FREQ: u64 = 10;

/// Settings of the diagonal mass-matrix adaptation strategy.
#[derive(Clone, Copy, Debug, PartialEq, Eq, Structural)]
pub struct DiagOptions {
    pub seed: u64,
    pub num_tune: u64,
    pub num_chains: usize,
    pub num_draws: u64,
    pub maxdepth: u64,
    pub store_gradient: bool,
    pub store_unconstrained: bool,
    pub store_divergences: bool,
    pub max_energy_error_bits: u64,
    pub initial_step_bits: u64,
    pub target_accept_bits: u64,
    pub mass_matrix_switch_freq: u64,
    pub early_mass_matrix_switch_freq: u64,
    pub store_mass_matrix: bool,
    pub use_grad_based_estimate: bool,
}

/// Settings of the low-rank mass-matrix adaptation strategy.
#[derive(Clone, Copy, Debug, PartialEq, Eq, Structural)]
pub struct LowRankOptions {
    pub seed: u64,
    pub num_tune: u64,
    pub num_chains: usize,
    pub num_draws: u64,
    pub maxdepth: u64,
    pub store_gradient: bool,
    pub store_unconstrained: bool,
    pub store_divergences: bool,
    pub max_energy_error_bits: u64,
    pub initial_step_bits: u64,
    pub target_accept_bits: u64,
    pub mass_matrix_switch_freq: u64,
    pub early_mass_matrix_switch_freq: u64,
    pub store_mass_matrix: bool,
    pub eigval_cutoff_bits: u64,
    pub gamma_bits: u64,
}

/// Settings of the parameter-transforming adaptation strategy.
#[derive(Clone, Copy, Debug, PartialEq, Eq, Structural)]
pub struct TransformOptions {
    pub seed: u64,
    pub num_tune: u64,
    pub num_chains: usize,
    pub num_draws: u64,
    pub maxdepth: u64,
    pub store_gradient: bool,
    pub store_unconstrained: bool,
    pub store_divergences: bool,
    pub max_energy_error_bits: u64,
    pub initial_step_bits: u64,
    pub target_accept_bits: u64,
}

/// The tagged union over the three adaptation strategies.
#[derive(Clone, Copy, Debug, PartialEq, Eq, Structural)]
pub enum Settings {
    Diag(DiagOptions),
    LowRank(LowRankOptions),
    Transforming(TransformOptions),
}

/// All fields of a diagonal settings object except the seed hold their defaults.
pub open spec fn diag_defaults_except_seed(d: DiagOptions) -> bool {
    &&& d.num_tune == DEFAULT_NUM_TUNE_DIAG
    &&& d.num_chains == DEFAULT_NUM_CHAINS
    &&& d.num_draws == DEFAULT_NUM_DRAWS
    &&& d.maxdepth == DEFAULT_MAXDEPTH
    &&& !d.store_gradient
    &&& !d.store_unconstrained
    &&& !d.store_divergences
    &&& d.max_energy_error_bits == DEFAULT_MAX_ENERGY_ERROR_BITS
    &&& d.initial_step_bits == DEFAULT_INITIAL_STEP_BITS
    &&& d.target_accept_bits == DEFAULT_TARGET_ACCEPT_BITS
    &&& d.mass_matrix_switch_freq == DEFAULT_MASS_MATRIX_SWITCH_FREQ
    &&& d.early_mass_matrix_switch_freq == DEFAULT_EARLY_MASS_MATRIX_SWITCH_FREQ
    &&& !d.store_mass_matrix
    &&& d.use_grad_based_estimate
}

/// All fields of a low-rank settings object except the seed hold their defaults.
pub open spec fn low_rank_defaults_except_seed(d: LowRankOptions) -> bool {
    &&& d.num_tune == DEFAULT_NUM_TUNE_LOW_RANK
    &&& d.num_chains == DEFAULT_NUM_CHAINS
    &&& d.num_draws == DEFAULT_NUM_DRAWS
    &&& d.maxdepth == DEFAULT_MAXDEPTH
    &&& !d.store_gradient
    &&& !d.store_unconstrained
    &&& !d.store_divergences
    &&& d.max_energy_error_bits == DEFAULT_MAX_ENERGY_ERROR_BITS
    &&& d.initial_step_bits == DEFAULT_INITIAL_STEP_BITS
    &&& d.target_accept_bits == DEFAULT_TARGET_ACCEPT_BITS
    &&& d.mass_matrix_switch_freq == DEFAULT_MASS_MATRIX_SWITCH_FREQ
    &&& d.early_mass_matrix_switch_freq == DEFAULT_EARLY_MASS_MATRIX_SWITCH_FREQ
    &&& !d.store_mass_matrix
    &&& d.eigval_cutoff_bits == DEFAULT_EIGVAL_CUTOFF_BITS
    &&& d.gamma_bits == DEFAULT_GAMMA_BITS
}

/// All fields of a transforming settings object except the seed hold their defaults.
pub open spec fn transform_defaults_except_seed(d: TransformOptions) -> bool {
    &&& d.num_tune == DEFAULT_NUM_TUNE_TRANSFORM
    &&& d.num_chains == DEFAULT_TRANSFORM_NUM_CHAINS
    &&& d.num_draws == DEFAULT_NUM_DRAWS
    &&& d.maxdepth == DEFAULT_MAXDEPTH
    &&& !d.store_gradient
    &&& !d.store_unconstrained
    &&& !d.store_divergences
    &&& d.max_energy_error_bits == DEFAULT_TRANSFORM_MAX_ENERGY_ERROR_BITS
    &&& d.initial_step_bits == DEFAULT_INITIAL_STEP_BITS
    &&& d.target_accept_bits == DEFAULT_TARGET_ACCEPT_BITS
}

/// The user-facing settings object.
#[derive(Clone, Copy, Debug, PartialEq, Eq, Structural)]
pub struct PyNutsSettings {
    pub inner: Settings,
}

impl PyNutsSettings {
    /// Diagonal-adaptation settings; a missing seed is drawn from the process-wide
    /// random source.
    pub fn new_diag(seed: Option<u64>) -> (r: PyNutsSettings)
        ensures
            r.inner matches Settings::Diag(d) && diag_defaults_except_seed(d) && (seed matches Some(
                v,
            ) ==> d.seed == v),
    {
        let seed_val: u64 = match seed {
            Some(v) => v,
            None => crate::engine::random_seed(),
        };
        PyNutsSettings {
            inner: Settings::Diag(
                DiagOptions {
                    seed: seed_val,
                    num_tune: DEFAULT_NUM_TUNE_DIAG,
                    num_chains: DEFAULT_NUM_CHAINS,
                    num_draws: DEFAULT_NUM_DRAWS,
                    maxdepth: DEFAULT_MAXDEPTH,
                    store_gradient: false,
                    store_unconstrained: false,
                    store_divergences: false,
                    max_energy_error_bits: DEFAULT_MAX_ENERGY_ERROR_BITS,
                    initial_step_bits: DEFAULT_INITIAL_STEP_BITS,
                    target_accept_bits: DEFAULT_TARGET_ACCEPT_BITS,
                    mass_matrix_switch_freq: DEFAULT_MASS_MATRIX_SWITCH_FREQ,
                    early_mass_matrix_switch_freq: DEFAULT_EARLY_MASS_MATRIX_SWITCH_FREQ,
                    store_mass_matrix: false,
                    use_grad_based_estimate: true,
                },
            ),
        }
    }

    /// Low-rank-adaptation settings; a missing seed is drawn from the process-wide
    /// random source.
    pub fn new_low_rank(seed: Option<u64>) -> (r: PyNutsSettings)
        ensures
            r.inner matches Settings::LowRank(d) && low_rank_defaults_except_seed(d) && (
            seed matches Some(v) ==> d.seed == v),
    {
        let seed_val: u64 = match seed {
            Some(v) => v,
            None => crate::engine::random_seed(),
        };
        PyNutsSettings {
            inner: Settings::LowRank(
                LowRankOptions {
                    seed: seed_val,
                    num_tune: DEFAULT_NUM_TUNE_LOW_RANK,
                    num_chains: DEFAULT_NUM_CHAINS,
                    num_draws: DEFAULT_NUM_DRAWS,
                    maxdepth: DEFAULT_MAXDEPTH,
                    store_gradient: false,
                    store_unconstrained: false,
                    store_divergences: false,
                    max_energy_error_bits: DEFAULT_MAX_ENERGY_ERROR_BITS,
                    initial_step_bits: DEFAULT_INITIAL_STEP_BITS,
                    target_accept_bits: DEFAULT_TARGET_ACCEPT_BITS,
                    mass_matrix_switch_freq: DEFAULT_MASS_MATRIX_SWITCH_FREQ,
                    early_mass_matrix_switch_freq: DEFAULT_EARLY_MASS_MATRIX_SWITCH_FREQ,
                    store_mass_matrix: false,
                    eigval_cutoff_bits: DEFAULT_EIGVAL_CUTOFF_BITS,
                    gamma_bits: DEFAULT_GAMMA_BITS,
                },
            ),
        }
    }

    /// Transforming-adaptation settings; a missing seed is drawn from the
    /// process-wide random source.
    pub fn new_transform_adapt(seed: Option<u64>) -> (r: PyNutsSettings)
        ensures
            r.inner matches Settings::Transforming(d) && transform_defaults_except_seed(d) && (
            seed matches Some(v) ==> d.seed == v),
    {
        let seed_val: u64 = match seed {
            Some(v) => v,
            None => crate::engine::random_seed(),
        };
        PyNutsSettings {
            inner: Settings::Transforming(
                TransformOptions {
                    seed: seed_val,
                    num_tune: DEFAULT_NUM_TUNE_TRANSFORM,
                    num_chains: DEFAULT_TRANSFORM_NUM_CHAINS,
                    num_draws: DEFAULT_NUM_DRAWS,
                    maxdepth: DEFAULT_MAXDEPTH,
                    store_gradient: false,
                    store_unconstrained: false,
                    store_divergences: false,
                    max_energy_error_bits: DEFAULT_TRANSFORM_MAX_ENERGY_ERROR_BITS,
                    initial_step_bits: DEFAULT_INITIAL_STEP_BITS,
                    target_accept_bits: DEFAULT_TARGET_ACCEPT_BITS,
                },
            ),
        }
    }
}

impl PyNutsSettings {
    /// Number of tuning draws.
    pub fn num_tune(&self) -> (r: u64)
        ensures
            ({ match self.inner {
                Settings::Diag(d) => r == d.num_tune,
                Settings::LowRank(d) => r == d.num_tune,
                Settings::Transforming(d) => r == d.num_tune,
            } }),
    {
        match &self.inner {
            Settings::Diag(d) => d.num_tune,
            Settings::LowRank(d) => d.num_tune,
            Settings::Transforming(d) => d.num_tune,
        }
    }

    /// Set: Number of tuning draws.
    pub fn set_num_tune(&mut self, val: u64)
        ensures
            ({ match old(self).inner {
                Settings::Diag(d) => final(self).inner == Settings::Diag(DiagOptions { num_tune: val, ..d }),
                Settings::LowRank(d) => final(self).inner == Settings::LowRank(LowRankOptions { num_tune: val, ..d }),
                Settings::Transforming(d) => final(self).inner == Settings::Transforming(TransformOptions { num_tune: val, ..d }),
            } }),
    {
        match self.inner {
            Settings::Diag(mut d) => {
                d.num_tune = val;
                self.inner = Settings::Diag(d);
            },
            Settings::LowRank(mut d) => {
                d.num_tune = val;
                self.inner = Settings::LowRank(d);
            },
            Settings::Transforming(mut d) => {
                d.num_tune = val;
                self.inner = Settings::Transforming(d);
            },
        }
    }

    /// Number of chains the worker starts.
    pub fn num_chains(&self) -> (r: usize)
        ensures
            ({ match self.inner {
                Settings::Diag(d) => r == d.num_chains,
                Settings::LowRank(d) => r == d.num_chains,
                Settings::Transforming(d) => r == d.num_chains,
            } }),
    {
        match &self.inner {
            Settings::Diag(d) => d.num_chains,
            Settings::LowRank(d) => d.num_chains,
            Settings::Transforming(d) => d.num_chains,
        }
    }

    /// Set: Number of chains the worker starts.
    pub fn set_num_chains(&mut self, val: usize)
        ensures
            ({ match old(self).inner {
                Settings::Diag(d) => final(self).inner == Settings::Diag(DiagOptions { num_chains: val, ..d }),
                Settings::LowRank(d) => final(self).inner == Settings::LowRank(LowRankOptions { num_chains: val, ..d }),
                Settings::Transforming(d) => final(self).inner == Settings::Transforming(TransformOptions { num_chains: val, ..d }),
            } }),
    {
        match self.inner {
            Settings::Diag(mut d) => {
                d.num_chains = val;
                self.inner = Settings::Diag(d);
            },
            Settings::LowRank(mut d) => {
                d.num_chains = val;
                self.inner = Settings::LowRank(d);
            },
            Settings::Transforming(mut d) => {
                d.num_chains = val;
                self.inner = Settings::Transforming(d);
            },
        }
    }

    /// Number of draws after tuning.
    pub fn num_draws(&self) -> (r: u64)
        ensures
            ({ match self.inner {
                Settings::Diag(d) => r == d.num_draws,
                Settings::LowRank(d) => r == d.num_draws,
                Settings::Transforming(d) => r == d.num_draws,
            } }),
    {
        match &self.inner {
            Settings::Diag(d) => d.num_draws,
            Settings::LowRank(d) => d.num_draws,
            Settings::Transforming(d) => d.num_draws,
        }
    }

    /// Set: Number of draws after tuning.
    pub fn set_num_draws(&mut self, val: u64)
        ensures
            ({ match old(self).inner {
                Settings::Diag(d) => final(self).inner == Settings::Diag(DiagOptions { num_draws: val, ..d }),
                Settings::LowRank(d) => final(self).inner == Settings::LowRank(LowRankOptions { num_draws: val, ..d }),
                Settings::Transforming(d) => final(self).inner == Settings::Transforming(TransformOptions { num_draws: val, ..d }),
            } }),
    {
        match self.inner {
            Settings::Diag(mut d) => {
                d.num_draws = val;
                self.inner = Settings::Diag(d);
            },
            Settings::LowRank(mut d) => {
                d.num_draws = val;
                self.inner = Settings::LowRank(d);
            },
            Settings::Transforming(mut d) => {
                d.num_draws = val;
                self.inner = Settings::Transforming(d);
            },
        }
    }

    /// Maximum tree depth per draw.
    pub fn maxdepth(&self) -> (r: u64)
        ensures
            ({ match self.inner {
                Settings::Diag(d) => r == d.maxdepth,
                Settings::LowRank(d) => r == d.maxdepth,
                Settings::Transforming(d) => r == d.maxdepth,
            } }),
    {
        match &self.inner {
            Settings::Diag(d) => d.maxdepth,
            Settings::LowRank(d) => d.maxdepth,
            Settings::Transforming(d) => d.maxdepth,
        }
    }

    /// Set: Maximum tree depth per draw.
    pub fn set_maxdepth(&mut self, val: u64)
        ensures
            ({ match old(self).inner {
                Settings::Diag(d) => final(self).inner == Settings::Diag(DiagOptions { maxdepth: val, ..d }),
                Settings::LowRank(d) => final(self).inner == Settings::LowRank(LowRankOptions { maxdepth: val, ..d }),
                Settings::Transforming(d) => final(self).inner == Settings::Transforming(TransformOptions { maxdepth: val, ..d }),
            } }),
    {
        match self.inner {
            Settings::Diag(mut d) => {
                d.maxdepth = val;
                self.inner = Settings::Diag(d);
            },
            Settings::LowRank(mut d) => {
                d.maxdepth = val;
                self.inner = Settings::LowRank(d);
            },
            Settings::Transforming(mut d) => {
                d.maxdepth = val;
                self.inner = Settings::Transforming(d);
            },
        }
    }

    /// Whether gradients are stored with the draws.
    pub fn store_gradient(&self) -> (r: bool)
        ensures
            ({ match self.inner {
                Settings::Diag(d) => r == d.store_gradient,
                Settings::LowRank(d) => r == d.store_gradient,
                Settings::Transforming(d) => r == d.store_gradient,
            } }),
    {
        match &self.inner {
            Settings::Diag(d) => d.store_gradient,
            Settings::LowRank(d) => d.store_gradient,
            Settings::Transforming(d) => d.store_gradient,
        }
    }

    /// Set: Whether gradients are stored with the draws.
    pub fn set_store_gradient(&mut self, val: bool)
        ensures
            ({ match old(self).inner {
                Settings::Diag(d) => final(self).inner == Settings::Diag(DiagOptions { store_gradient: val, ..d }),
                Settings::LowRank(d) => final(self).inner == Settings::LowRank(LowRankOptions { store_gradient: val, ..d }),
                Settings::Transforming(d) => final(self).inner == Settings::Transforming(TransformOptions { store_gradient: val, ..d }),
            } }),
    {
        match self.inner {
            Settings::Diag(mut d) => {
                d.store_gradient = val;
                self.inner = Settings::Diag(d);
            },
            Settings::LowRank(mut d) => {
                d.store_gradient = val;
                self.inner = Settings::LowRank(d);
            },
            Settings::Transforming(mut d) => {
                d.store_gradient = val;
                self.inner = Settings::Transforming(d);
            },
        }
    }

    /// Whether unconstrained draws are stored.
    pub fn store_unconstrained(&self) -> (r: bool)
        ensures
            ({ match self.inner {
                Settings::Diag(d) => r == d.store_unconstrained,
                Settings::LowRank(d) => r == d.store_unconstrained,
                Settings::Transforming(d) => r == d.store_unconstrained,
            } }),
    {
        match &self.inner {
            Settings::Diag(d) => d.store_unconstrained,
            Settings::LowRank(d) => d.store_unconstrained,
            Settings::Transforming(d) => d.store_unconstrained,
        }
    }

    /// Set: Whether unconstrained draws are stored.
    pub fn set_store_unconstrained(&mut self, val: bool)
        ensures
            ({ match old(self).inner {
                Settings::Diag(d) => final(self).inner == Settings::Diag(DiagOptions { store_unconstrained: val, ..d }),
                Settings::LowRank(d) => final(self).inner == Settings::LowRank(LowRankOptions { store_unconstrained: val, ..d }),
                Settings::Transforming(d) => final(self).inner == Settings::Transforming(TransformOptions { store_unconstrained: val, ..d }),
            } }),
    {
        match self.inner {
            Settings::Diag(mut d) => {
                d.store_unconstrained = val;
                self.inner = Settings::Diag(d);
            },
            Settings::LowRank(mut d) => {
                d.store_unconstrained = val;
                self.inner = Settings::LowRank(d);
            },
            Settings::Transforming(mut d) => {
                d.store_unconstrained = val;
                self.inner = Settings::Transforming(d);
            },
        }
    }

    /// Whether divergence details are stored.
    pub fn store_divergences(&self) -> (r: bool)
        ensures
            ({ match self.inner {
                Settings::Diag(d) => r == d.store_divergences,
                Settings::LowRank(d) => r == d.store_divergences,
                Settings::Transforming(d) => r == d.store_divergences,
            } }),
    {
        match &self.inner {
            Settings::Diag(d) => d.store_divergences,
            Settings::LowRank(d) => d.store_divergences,
            Settings::Transforming(d) => d.store_divergences,
        }
    }

    /// Set: Whether divergence details are stored.
    pub fn set_store_divergences(&mut self, val: bool)
        ensures
            ({ match old(self).inner {
                Settings::Diag(d) => final(self).inner == Settings::Diag(DiagOptions { store_divergences: val, ..d }),
                Settings::LowRank(d) => final(self).inner == Settings::LowRank(LowRankOptions { store_divergences: val, ..d }),
                Settings::Transforming(d) => final(self).inner == Settings::Transforming(TransformOptions { store_divergences: val, ..d }),
            } }),
    {
        match self.inner {
            Settings::Diag(mut d) => {
                d.store_divergences = val;
                self.inner = Settings::Diag(d);
            },
            Settings::LowRank(mut d) => {
                d.store_divergences = val;
                self.inner = Settings::LowRank(d);
            },
            Settings::Transforming(mut d) => {
                d.store_divergences = val;
                self.inner = Settings::Transforming(d);
            },
        }
    }

    /// Energy-error divergence threshold, as an IEEE-754 bit pattern.
    pub fn max_energy_error(&self) -> (r: u64)
        ensures
            ({ match self.inner {
                Settings::Diag(d) => r == d.max_energy_error_bits,
                Settings::LowRank(d) => r == d.max_energy_error_bits,
                Settings::Transforming(d) => r == d.max_energy_error_bits,
            } }),
    {
        match &self.inner {
            Settings::Diag(d) => d.max_energy_error_bits,
            Settings::LowRank(d) => d.max_energy_error_bits,
            Settings::Transforming(d) => d.max_energy_error_bits,
        }
    }

    /// Set: Energy-error divergence threshold, as an IEEE-754 bit pattern.
    pub fn set_max_energy_error(&mut self, val: u64)
        ensures
            ({ match old(self).inner {
                Settings::Diag(d) => final(self).inner == Settings::Diag(DiagOptions { max_energy_error_bits: val, ..d }),
                Settings::LowRank(d) => final(self).inner == Settings::LowRank(LowRankOptions { max_energy_error_bits: val, ..d }),
                Settings::Transforming(d) => final(self).inner == Settings::Transforming(TransformOptions { max_energy_error_bits: val, ..d }),
            } }),
    {
        match self.inner {
            Settings::Diag(mut d) => {
                d.max_energy_error_bits = val;
                self.inner = Settings::Diag(d);
            },
            Settings::LowRank(mut d) => {
                d.max_energy_error_bits = val;
                self.inner = Settings::LowRank(d);
            },
            Settings::Transforming(mut d) => {
                d.max_energy_error_bits = val;
                self.inner = Settings::Transforming(d);
            },
        }
    }

    /// Initial step size of the dual-averaging block, as an IEEE-754 bit pattern.
    pub fn initial_step(&self) -> (r: u64)
        ensures
            ({ match self.inner {
                Settings::Diag(d) => r == d.initial_step_bits,
                Settings::LowRank(d) => r == d.initial_step_bits,
                Settings::Transforming(d) => r == d.initial_step_bits,
            } }),
    {
        match &self.inner {
            Settings::Diag(d) => d.initial_step_bits,
            Settings::LowRank(d) => d.initial_step_bits,
            Settings::Transforming(d) => d.initial_step_bits,
        }
    }

    /// Set: Initial step size of the dual-averaging block, as an IEEE-754 bit pattern.
    pub fn set_initial_step(&mut self, val: u64)
        ensures
            ({ match old(self).inner {
                Settings::Diag(d) => final(self).inner == Settings::Diag(DiagOptions { initial_step_bits: val, ..d }),
                Settings::LowRank(d) => final(self).inner == Settings::LowRank(LowRankOptions { initial_step_bits: val, ..d }),
                Settings::Transforming(d) => final(self).inner == Settings::Transforming(TransformOptions { initial_step_bits: val, ..d }),
            } }),
    {
        match self.inner {
            Settings::Diag(mut d) => {
                d.initial_step_bits = val;
                self.inner = Settings::Diag(d);
            },
            Settings::LowRank(mut d) => {
                d.initial_step_bits = val;
                self.inner = Settings::LowRank(d);
            },
            Settings::Transforming(mut d) => {
                d.initial_step_bits = val;
                self.inner = Settings::Transforming(d);
            },
        }
    }

    /// Target acceptance probability of the dual-averaging block, as an IEEE-754 bit pattern.
    pub fn target_accept(&self) -> (r: u64)
        ensures
            ({ match self.inner {
                Settings::Diag(d) => r == d.target_accept_bits,
                Settings::LowRank(d) => r == d.target_accept_bits,
                Settings::Transforming(d) => r == d.target_accept_bits,
            } }),
    {
        match &self.inner {
            Settings::Diag(d) => d.target_accept_bits,
            Settings::LowRank(d) => d.target_accept_bits,
            Settings::Transforming(d) => d.target_accept_bits,
        }
    }

    /// Set: Target acceptance probability of the dual-averaging block, as an IEEE-754 bit pattern.
    pub fn set_target_accept(&mut self, val: u64)
        ensures
            ({ match old(self).inner {
                Settings::Diag(d) => final(self).inner == Settings::Diag(DiagOptions { target_accept_bits: val, ..d }),
                Settings::LowRank(d) => final(self).inner == Settings::LowRank(LowRankOptions { target_accept_bits: val, ..d }),
                Settings::Transforming(d) => final(self).inner == Settings::Transforming(TransformOptions { target_accept_bits: val, ..d }),
            } }),
    {
        match self.inner {
            Settings::Diag(mut d) => {
                d.target_accept_bits = val;
                self.inner = Settings::Diag(d);
            },
            Settings::LowRank(mut d) => {
                d.target_accept_bits = val;
                self.inner = Settings::LowRank(d);
            },
            Settings::Transforming(mut d) => {
                d.target_accept_bits = val;
                self.inner = Settings::Transforming(d);
            },
        }
    }

    /// Mass-matrix window switch frequency (an alias of `mass_matrix_switch_freq`); diagonal and low-rank variants only.
    pub fn window_switch_freq(&self) -> (r: Result<u64, SettingsError>)
        ensures
            ({ match self.inner {
                Settings::Diag(d) => r == Ok::<u64, SettingsError>(d.mass_matrix_switch_freq),
                Settings::LowRank(d) => r == Ok::<u64, SettingsError>(d.mass_matrix_switch_freq),
                Settings::Transforming(_) => r == Err::<u64, SettingsError>(SettingsError { option_name: SettingsOption::WindowSwitchFreq, variant: AdaptVariant::Transforming }),
            } }),
    {
        match &self.inner {
            Settings::Diag(d) => Ok(d.mass_matrix_switch_freq),
            Settings::LowRank(d) => Ok(d.mass_matrix_switch_freq),
            Settings::Transforming(_) => Err(SettingsError { option_name: SettingsOption::WindowSwitchFreq, variant: AdaptVariant::Transforming }),
        }
    }

    /// Set: Mass-matrix window switch frequency (an alias of `mass_matrix_switch_freq`); diagonal and low-rank variants only.
    pub fn set_window_switch_freq(&mut self, val: u64) -> (r: Result<(), SettingsError>)
        ensures
            ({ match old(self).inner {
                Settings::Diag(d) => r == Ok::<(), SettingsError>(()) && final(self).inner == Settings::Diag(DiagOptions { mass_matrix_switch_freq: val, ..d }),
                Settings::LowRank(d) => r == Ok::<(), SettingsError>(()) && final(self).inner == Settings::LowRank(LowRankOptions { mass_matrix_switch_freq: val, ..d }),
                Settings::Transforming(_) => *final(self) == *old(self) && r == Err::<(), SettingsError>(SettingsError { option_name: SettingsOption::WindowSwitchFreq, variant: AdaptVariant::Transforming }),
            } }),
    {
        match self.inner {
            Settings::Diag(mut d) => {
                d.mass_matrix_switch_freq = val;
                self.inner = Settings::Diag(d);
                Ok(())
            },
            Settings::LowRank(mut d) => {
                d.mass_matrix_switch_freq = val;
                self.inner = Settings::LowRank(d);
                Ok(())
            },
            Settings::Transforming(_) => Err(SettingsError { option_name: SettingsOption::WindowSwitchFreq, variant: AdaptVariant::Transforming }),
        }
    }

    /// Early-window mass-matrix switch frequency; diagonal and low-rank variants only.
    pub fn early_window_switch_freq(&self) -> (r: Result<u64, SettingsError>)
        ensures
            ({ match self.inner {
                Settings::Diag(d) => r == Ok::<u64, SettingsError>(d.early_mass_matrix_switch_freq),
                Settings::LowRank(d) => r == Ok::<u64, SettingsError>(d.early_mass_matrix_switch_freq),
                Settings::Transforming(_) => r == Err::<u64, SettingsError>(SettingsError { option_name: SettingsOption::EarlyWindowSwitchFreq, variant: AdaptVariant::Transforming }),
            } }),
    {
        match &self.inner {
            Settings::Diag(d) => Ok(d.early_mass_matrix_switch_freq),
            Settings::LowRank(d) => Ok(d.early_mass_matrix_switch_freq),
            Settings::Transforming(_) => Err(SettingsError { option_name: SettingsOption::EarlyWindowSwitchFreq, variant: AdaptVariant::Transforming }),
        }
    }

    /// Set: Early-window mass-matrix switch frequency; diagonal and low-rank variants only.
    pub fn set_early_window_switch_freq(&mut self, val: u64) -> (r: Result<(), SettingsError>)
        ensures
            ({ match old(self).inner {
                Settings::Diag(d) => r == Ok::<(), SettingsError>(()) && final(self).inner == Settings::Diag(DiagOptions { early_mass_matrix_switch_freq: val, ..d }),
                Settings::LowRank(d) => r == Ok::<(), SettingsError>(()) && final(self).inner == Settings::LowRank(LowRankOptions { early_mass_matrix_switch_freq: val, ..d }),
                Settings::Transforming(_) => *final(self) == *old(self) && r == Err::<(), SettingsError>(SettingsError { option_name: SettingsOption::EarlyWindowSwitchFreq, variant: AdaptVariant::Transforming }),
            } }),
    {
        match self.inner {
            Settings::Diag(mut d) => {
                d.early_mass_matrix_switch_freq = val;
                self.inner = Settings::Diag(d);
                Ok(())
            },
            Settings::LowRank(mut d) => {
                d.early_mass_matrix_switch_freq = val;
                self.inner = Settings::LowRank(d);
                Ok(())
            },
            Settings::Transforming(_) => Err(SettingsError { option_name: SettingsOption::EarlyWindowSwitchFreq, variant: AdaptVariant::Transforming }),
        }
    }

    /// Whether the adapted mass matrix is stored; diagonal and low-rank variants only.
    pub fn store_mass_matrix(&self) -> (r: Result<bool, SettingsError>)
        ensures
            ({ match self.inner {
                Settings::Diag(d) => r == Ok::<bool, SettingsError>(d.store_mass_matrix),
                Settings::LowRank(d) => r == Ok::<bool, SettingsError>(d.store_mass_matrix),
                Settings::Transforming(_) => r == Err::<bool, SettingsError>(SettingsError { option_name: SettingsOption::StoreMassMatrix, variant: AdaptVariant::Transforming }),
            } }),
    {
        match &self.inner {
            Settings::Diag(d) => Ok(d.store_mass_matrix),
            Settings::LowRank(d) => Ok(d.store_mass_matrix),
            Settings::Transforming(_) => Err(SettingsError { option_name: SettingsOption::StoreMassMatrix, variant: AdaptVariant::Transforming }),
        }
    }

    /// Set: Whether the adapted mass matrix is stored; diagonal and low-rank variants only.
    pub fn set_store_mass_matrix(&mut self, val: bool) -> (r: Result<(), SettingsError>)
        ensures
            ({ match old(self).inner {
                Settings::Diag(d) => r == Ok::<(), SettingsError>(()) && final(self).inner == Settings::Diag(DiagOptions { store_mass_matrix: val, ..d }),
                Settings::LowRank(d) => r == Ok::<(), SettingsError>(()) && final(self).inner == Settings::LowRank(LowRankOptions { store_mass_matrix: val, ..d }),
                Settings::Transforming(_) => *final(self) == *old(self) && r == Err::<(), SettingsError>(SettingsError { option_name: SettingsOption::StoreMassMatrix, variant: AdaptVariant::Transforming }),
            } }),
    {
        match self.inner {
            Settings::Diag(mut d) => {
                d.store_mass_matrix = val;
                self.inner = Settings::Diag(d);
                Ok(())
            },
            Settings::LowRank(mut d) => {
                d.store_mass_matrix = val;
                self.inner = Settings::LowRank(d);
                Ok(())
            },
            Settings::Transforming(_) => Err(SettingsError { option_name: SettingsOption::StoreMassMatrix, variant: AdaptVariant::Transforming }),
        }
    }

    /// Whether the mass-matrix estimate uses gradients; diagonal variant only.
    pub fn use_grad_based_mass_matrix(&self) -> (r: Result<bool, SettingsError>)
        ensures
            ({ match self.inner {
                Settings::Diag(d) => r == Ok::<bool, SettingsError>(d.use_grad_based_estimate),
                Settings::LowRank(_) => r == Err::<bool, SettingsError>(SettingsError { option_name: SettingsOption::UseGradBasedMassMatrix, variant: AdaptVariant::LowRank }),
                Settings::Transforming(_) => r == Err::<bool, SettingsError>(SettingsError { option_name: SettingsOption::UseGradBasedMassMatrix, variant: AdaptVariant::Transforming }),
            } }),
    {
        match &self.inner {
            Settings::Diag(d) => Ok(d.use_grad_based_estimate),
            Settings::LowRank(_) => Err(SettingsError { option_name: SettingsOption::UseGradBasedMassMatrix, variant: AdaptVariant::LowRank }),
            Settings::Transforming(_) => Err(SettingsError { option_name: SettingsOption::UseGradBasedMassMatrix, variant: AdaptVariant::Transforming }),
        }
    }

    /// Set: Whether the mass-matrix estimate uses gradients; diagonal variant only.
    pub fn set_use_grad_based_mass_matrix(&mut self, val: bool) -> (r: Result<(), SettingsError>)
        ensures
            ({ match old(self).inner {
                Settings::Diag(d) => r == Ok::<(), SettingsError>(()) && final(self).inner == Settings::Diag(DiagOptions { use_grad_based_estimate: val, ..d }),
                Settings::LowRank(_) => *final(self) == *old(self) && r == Err::<(), SettingsError>(SettingsError { option_name: SettingsOption::UseGradBasedMassMatrix, variant: AdaptVariant::LowRank }),
                Settings::Transforming(_) => *final(self) == *old(self) && r == Err::<(), SettingsError>(SettingsError { option_name: SettingsOption::UseGradBasedMassMatrix, variant: AdaptVariant::Transforming }),
            } }),
    {
        match self.inner {
            Settings::Diag(mut d) => {
                d.use_grad_based_estimate = val;
                self.inner = Settings::Diag(d);
                Ok(())
            },
            Settings::LowRank(_) => Err(SettingsError { option_name: SettingsOption::UseGradBasedMassMatrix, variant: AdaptVariant::LowRank }),
            Settings::Transforming(_) => Err(SettingsError { option_name: SettingsOption::UseGradBasedMassMatrix, variant: AdaptVariant::Transforming }),
        }
    }

    /// Mass-matrix switch frequency; diagonal and low-rank variants only.
    pub fn mass_matrix_switch_freq(&self) -> (r: Result<u64, SettingsError>)
        ensures
            ({ match self.inner {
                Settings::Diag(d) => r == Ok::<u64, SettingsError>(d.mass_matrix_switch_freq),
                Settings::LowRank(d) => r == Ok::<u64, SettingsError>(d.mass_matrix_switch_freq),
                Settings::Transforming(_) => r == Err::<u64, SettingsError>(SettingsError { option_name: SettingsOption::MassMatrixSwitchFreq, variant: AdaptVariant::Transforming }),
            } }),
    {
        match &self.inner {
            Settings::Diag(d) => Ok(d.mass_matrix_switch_freq),
            Settings::LowRank(d) => Ok(d.mass_matrix_switch_freq),
            Settings::Transforming(_) => Err(SettingsError { option_name: SettingsOption::MassMatrixSwitchFreq, variant: AdaptVariant::Transforming }),
        }
    }

    /// Set: Mass-matrix switch frequency; diagonal and low-rank variants only.
    pub fn set_mass_matrix_switch_freq(&mut self, val: u64) -> (r: Result<(), SettingsError>)
        ensures
            ({ match old(self).inner {
                Settings::Diag(d) => r == Ok::<(), SettingsError>(()) && final(self).inner == Settings::Diag(DiagOptions { mass_matrix_switch_freq: val, ..d }),
                Settings::LowRank(d) => r == Ok::<(), SettingsError>(()) && final(self).inner == Settings::LowRank(LowRankOptions { mass_matrix_switch_freq: val, ..d }),
                Settings::Transforming(_) => *final(self) == *old(self) && r == Err::<(), SettingsError>(SettingsError { option_name: SettingsOption::MassMatrixSwitchFreq, variant: AdaptVariant::Transforming }),
            } }),
    {
        match self.inner {
            Settings::Diag(mut d) => {
                d.mass_matrix_switch_freq = val;
                self.inner = Settings::Diag(d);
                Ok(())
            },
            Settings::LowRank(mut d) => {
                d.mass_matrix_switch_freq = val;
                self.inner = Settings::LowRank(d);
                Ok(())
            },
            Settings::Transforming(_) => Err(SettingsError { option_name: SettingsOption::MassMatrixSwitchFreq, variant: AdaptVariant::Transforming }),
        }
    }

    /// Eigenvalue cutoff of the low-rank mass matrix, as an IEEE-754 bit pattern; low-rank variant only.
    pub fn mass_matrix_eigval_cutoff(&self) -> (r: Result<u64, SettingsError>)
        ensures
            ({ match self.inner {
                Settings::Diag(_) => r == Err::<u64, SettingsError>(SettingsError { option_name: SettingsOption::MassMatrixEigvalCutoff, variant: AdaptVariant::Diag }),
                Settings::LowRank(d) => r == Ok::<u64, SettingsError>(d.eigval_cutoff_bits),
                Settings::Transforming(_) => r == Err::<u64, SettingsError>(SettingsError { option_name: SettingsOption::MassMatrixEigvalCutoff, variant: AdaptVariant::Transforming }),
            } }),
    {
        match &self.inner {
            Settings::Diag(_) => Err(SettingsError { option_name: SettingsOption::MassMatrixEigvalCutoff, variant: AdaptVariant::Diag }),
            Settings::LowRank(d) => Ok(d.eigval_cutoff_bits),
            Settings::Transforming(_) => Err(SettingsError { option_name: SettingsOption::MassMatrixEigvalCutoff, variant: AdaptVariant::Transforming }),
        }
    }

    /// Set: Eigenvalue cutoff of the low-rank mass matrix, as an IEEE-754 bit pattern; low-rank variant only.
    pub fn set_mass_matrix_eigval_cutoff(&mut self, val: u64) -> (r: Result<(), SettingsError>)
        ensures
            ({ match old(self).inner {
                Settings::Diag(_) => *final(self) == *old(self) && r == Err::<(), SettingsError>(SettingsError { option_name: SettingsOption::MassMatrixEigvalCutoff, variant: AdaptVariant::Diag }),
                Settings::LowRank(d) => r == Ok::<(), SettingsError>(()) && final(self).inner == Settings::LowRank(LowRankOptions { eigval_cutoff_bits: val, ..d }),
                Settings::Transforming(_) => *final(self) == *old(self) && r == Err::<(), SettingsError>(SettingsError { option_name: SettingsOption::MassMatrixEigvalCutoff, variant: AdaptVariant::Transforming }),
            } }),
    {
        match self.inner {
            Settings::Diag(_) => Err(SettingsError { option_name: SettingsOption::MassMatrixEigvalCutoff, variant: AdaptVariant::Diag }),
            Settings::LowRank(mut d) => {
                d.eigval_cutoff_bits = val;
                self.inner = Settings::LowRank(d);
                Ok(())
            },
            Settings::Transforming(_) => Err(SettingsError { option_name: SettingsOption::MassMatrixEigvalCutoff, variant: AdaptVariant::Transforming }),
        }
    }

    /// Gamma regularisation of the low-rank mass matrix, as an IEEE-754 bit pattern; low-rank variant only.
    pub fn mass_matrix_gamma(&self) -> (r: Result<u64, SettingsError>)
        ensures
            ({ match self.inner {
                Settings::Diag(_) => r == Err::<u64, SettingsError>(SettingsError { option_name: SettingsOption::MassMatrixGamma, variant: AdaptVariant::Diag }),
                Settings::LowRank(d) => r == Ok::<u64, SettingsError>(d.gamma_bits),
                Settings::Transforming(_) => r == Err::<u64, SettingsError>(SettingsError { option_name: SettingsOption::MassMatrixGamma, variant: AdaptVariant::Transforming }),
            } }),
    {
        match &self.inner {
            Settings::Diag(_) => Err(SettingsError { option_name: SettingsOption::MassMatrixGamma, variant: AdaptVariant::Diag }),
            Settings::LowRank(d) => Ok(d.gamma_bits),
            Settings::Transforming(_) => Err(SettingsError { option_name: SettingsOption::MassMatrixGamma, variant: AdaptVariant::Transforming }),
        }
    }

    /// Set: Gamma regularisation of the low-rank mass matrix, as an IEEE-754 bit pattern; low-rank variant only.
    pub fn set_mass_matrix_gamma(&mut self, val: u64) -> (r: Result<(), SettingsError>)
        ensures
            ({ match old(self).inner {
                Settings::Diag(_) => *final(self) == *old(self) && r == Err::<(), SettingsError>(SettingsError { option_name: SettingsOption::MassMatrixGamma, variant: AdaptVariant::Diag }),
                Settings::LowRank(d) => r == Ok::<(), SettingsError>(()) && final(self).inner == Settings::LowRank(LowRankOptions { gamma_bits: val, ..d }),
                Settings::Transforming(_) => *final(self) == *old(self) && r == Err::<(), SettingsError>(SettingsError { option_name: SettingsOption::MassMatrixGamma, variant: AdaptVariant::Transforming }),
            } }),
    {
        match self.inner {
            Settings::Diag(_) => Err(SettingsError { option_name: SettingsOption::MassMatrixGamma, variant: AdaptVariant::Diag }),
            Settings::LowRank(mut d) => {
                d.gamma_bits = val;
                self.inner = Settings::LowRank(d);
                Ok(())
            },
            Settings::Transforming(_) => Err(SettingsError { option_name: SettingsOption::MassMatrixGamma, variant: AdaptVariant::Transforming }),
        }
    }
}

impl PyNutsSettings {
    /// Alias of [`PyNutsSettings::new_diag`], under the user-facing strategy name.
    #[allow(non_snake_case)]
    pub fn Diag(seed: Option<u64>) -> (r: PyNutsSettings)
        ensures
            r.inner matches Settings::Diag(d) && diag_defaults_except_seed(d) && (seed matches Some(
                v,
            ) ==> d.seed == v),
    {
        PyNutsSettings::new_diag(seed)
    }

    /// Alias of [`PyNutsSettings::new_low_rank`], under the user-facing strategy name.
    #[allow(non_snake_case)]
    pub fn LowRank(seed: Option<u64>) -> (r: PyNutsSettings)
        ensures
            r.inner matches Settings::LowRank(d) && low_rank_defaults_except_seed(d) && (
            seed matches Some(v) ==> d.seed == v),
    {
        PyNutsSettings::new_low_rank(seed)
    }

    /// Alias of [`PyNutsSettings::new_transform_adapt`], under the user-facing
    /// strategy name.
    #[allow(non_snake_case)]
    pub fn Transform(seed: Option<u64>) -> (r: PyNutsSettings)
        ensures
            r.inner matches Settings::Transforming(d) && transform_defaults_except_seed(d) && (
            seed matches Some(v) ==> d.seed == v),
    {
        PyNutsSettings::new_transform_adapt(seed)
    }
}

} // verus!
