//! Error taxonomy of the control plane.
//!
//! Configuration errors (an option that the active adaptation variant does not
//! support) are kept apart from lifecycle errors (startup, worker failure,
//! timeout, interruption, state mismatch), so that a caller can always tell
//! "still running, try again" from "the job failed".

use vstd::prelude::*;

verus! {

broadcast use vstd::string::to_string_from_display_ensures_for_str;

/// The three adaptation strategies a settings object can be built for.
#[derive(Clone, Copy, Debug, PartialEq, Eq, Structural)]
pub enum AdaptVariant {
    Diag,
    LowRank,
    Transforming,
}

/// The variant-specific options of the settings facade.
#[derive(Clone, Copy, Debug, PartialEq, Eq, Structural)]
pub enum SettingsOption {
    WindowSwitchFreq,
    EarlyWindowSwitchFreq,
    StoreMassMatrix,
    UseGradBasedMassMatrix,
    MassMatrixSwitchFreq,
    MassMatrixEigvalCutoff,
    MassMatrixGamma,
}

/// A variant-specific option was read or written on a settings object whose
/// active variant does not carry it.
#[derive(Clone, Copy, Debug, PartialEq, Eq, Structural)]
pub struct SettingsError {
    pub option_name: SettingsOption,
    pub variant: AdaptVariant,
}

pub open spec fn option_text(o: SettingsOption) -> Seq<char> {
    match o {
        SettingsOption::WindowSwitchFreq => "window_switch_freq"@,
        SettingsOption::EarlyWindowSwitchFreq => "early_window_switch_freq"@,
        SettingsOption::StoreMassMatrix => "store_mass_matrix"@,
        SettingsOption::UseGradBasedMassMatrix => "use_grad_based_mass_matrix"@,
        SettingsOption::MassMatrixSwitchFreq => "mass_matrix_switch_freq"@,
        SettingsOption::MassMatrixEigvalCutoff => "mass_matrix_eigval_cutoff"@,
        SettingsOption::MassMatrixGamma => "mass_matrix_gamma"@,
    }
}

pub open spec fn variant_text(v: AdaptVariant) -> Seq<char> {
    match v {
        AdaptVariant::Diag => "diag"@,
        AdaptVariant::LowRank => "low-rank"@,
        AdaptVariant::Transforming => "transforming"@,
    }
}

impl SettingsError {
    /// The name of the option that was unavailable.
    pub fn option_text(&self) -> (r: &'static str)
        ensures
            r@ == option_text(self.option_name),
    {
        match self.option_name {
            SettingsOption::WindowSwitchFreq => "window_switch_freq",
            SettingsOption::EarlyWindowSwitchFreq => "early_window_switch_freq",
            SettingsOption::StoreMassMatrix => "store_mass_matrix",
            SettingsOption::UseGradBasedMassMatrix => "use_grad_based_mass_matrix",
            SettingsOption::MassMatrixSwitchFreq => "mass_matrix_switch_freq",
            SettingsOption::MassMatrixEigvalCutoff => "mass_matrix_eigval_cutoff",
            SettingsOption::MassMatrixGamma => "mass_matrix_gamma",
        }
    }

    /// The name of the adaptation variant the option was unavailable for.
    pub fn variant_text(&self) -> (r: &'static str)
        ensures
            r@ == variant_text(self.variant),
    {
        match self.variant {
            AdaptVariant::Diag => "diag",
            AdaptVariant::LowRank => "low-rank",
            AdaptVariant::Transforming => "transforming",
        }
    }
}

/// A failure of one lifecycle operation on the sampler controller.
#[derive(Clone, Debug, PartialEq, Eq)]
pub enum ControlError {
    /// The worker could not be started.
    Start(String),
    /// The worker itself reported a failure.
    Worker(String),
    /// A bounded `wait` elapsed before the job completed; the job keeps running.
    Timeout,
    /// An external interrupt was observed during `wait`; the job keeps running.
    Interrupted,
    /// Results were requested while the job was not finished, or were already taken.
    NotFinished,
    /// The job finished without producing any output.
    NoTrace,
    /// A running job was required, but the job was finished or already gone.
    NotRunning,
}

pub open spec fn control_error_text(e: ControlError) -> Seq<char> {
    match e {
        ControlError::Start(m) => m@,
        ControlError::Worker(m) => m@,
        ControlError::Timeout => "Timeout while waiting for sampler to finish"@,
        ControlError::Interrupted => "Sampler wait was interrupted"@,
        ControlError::NotFinished => "Sampler is not finished"@,
        ControlError::NoTrace => "Sampler failed and did not produce a trace"@,
        ControlError::NotRunning => "Sampler is not running"@,
    }
}

impl ControlError {
    /// A human-readable description of the failure.
    pub fn message(&self) -> (r: String)
        ensures
            r@ == control_error_text(*self),
    {
        match self {
            ControlError::Start(m) => m.clone(),
            ControlError::Worker(m) => m.clone(),
            ControlError::Timeout => "Timeout while waiting for sampler to finish".to_string(),
            ControlError::Interrupted => "Sampler wait was interrupted".to_string(),
            ControlError::NotFinished => "Sampler is not finished".to_string(),
            ControlError::NoTrace => "Sampler failed and did not produce a trace".to_string(),
            ControlError::NotRunning => "Sampler is not running".to_string(),
        }
    }
}

} // verus!
