use nutpie::error::{AdaptVariant, SettingsOption};
use nutpie::settings::{PyNutsSettings, Settings};

fn seeded_diag() -> PyNutsSettings {
    PyNutsSettings::new_diag(Some(42))
}

fn seeded_low_rank() -> PyNutsSettings {
    PyNutsSettings::new_low_rank(Some(42))
}

fn seeded_transform() -> PyNutsSettings {
    PyNutsSettings::new_transform_adapt(Some(42))
}

#[test]
fn explicit_seed_is_stored_exactly() {
    match seeded_diag().inner {
        Settings::Diag(d) => assert_eq!(d.seed, 42),
        _ => panic!("wrong variant"),
    }
    match seeded_low_rank().inner {
        Settings::LowRank(d) => assert_eq!(d.seed, 42),
        _ => panic!("wrong variant"),
    }
    match seeded_transform().inner {
        Settings::Transforming(d) => assert_eq!(d.seed, 42),
        _ => panic!("wrong variant"),
    }
}

#[test]
fn missing_seed_still_yields_defaults() {
    let s = PyNutsSettings::new_diag(None);
    assert_eq!(s.num_tune(), 400);
    assert_eq!(s.num_chains(), 6);
    assert_eq!(s.num_draws(), 1000);
    let s = PyNutsSettings::new_low_rank(None);
    assert_eq!(s.num_tune(), 800);
    let s = PyNutsSettings::new_transform_adapt(None);
    assert_eq!(s.num_tune(), 1500);
    assert_eq!(s.num_chains(), 1);
}

#[test]
fn static_constructor_aliases_match() {
    assert!(matches!(PyNutsSettings::Diag(Some(7)).inner, Settings::Diag(d) if d.seed == 7));
    assert!(matches!(PyNutsSettings::LowRank(Some(7)).inner, Settings::LowRank(d) if d.seed == 7));
    assert!(
        matches!(PyNutsSettings::Transform(Some(7)).inner, Settings::Transforming(d) if d.seed == 7)
    );
}

#[test]
fn defaults_match_the_engine() {
    let d = nuts_rs::DiagGradNutsSettings::default();
    assert_eq!(d.num_tune, 400);
    assert_eq!(d.num_draws, 1000);
    assert_eq!(d.maxdepth, 10);
    assert_eq!(d.num_chains, 6);
    assert!(!d.store_gradient);
    assert!(!d.store_unconstrained);
    assert!(!d.store_divergences);
    assert_eq!(d.adapt_options.mass_matrix_switch_freq, 80);
    assert_eq!(d.adapt_options.early_mass_matrix_switch_freq, 10);
    assert!(!d.adapt_options.mass_matrix_options.store_mass_matrix);
    assert!(d.adapt_options.mass_matrix_options.use_grad_based_estimate);
    let lr = nuts_rs::LowRankNutsSettings::default();
    assert_eq!(lr.num_tune, 800);
    let tr = nuts_rs::TransformedNutsSettings::default();
    assert_eq!(tr.num_tune, 1500);
    assert_eq!(tr.num_chains, 1);
}

#[test]
fn bit_pattern_constants_match_the_engine_defaults() {
    let d = nuts_rs::DiagGradNutsSettings::default();
    assert_eq!(
        f64::from_bits(nutpie::settings::DEFAULT_INITIAL_STEP_BITS),
        d.adapt_options.dual_average_options.initial_step
    );
    assert_eq!(
        f64::from_bits(nutpie::settings::DEFAULT_TARGET_ACCEPT_BITS),
        d.adapt_options.dual_average_options.target_accept
    );
    assert_eq!(
        f64::from_bits(nutpie::settings::DEFAULT_MAX_ENERGY_ERROR_BITS),
        d.max_energy_error
    );
    let lr = nuts_rs::LowRankNutsSettings::default();
    assert_eq!(
        f64::from_bits(nutpie::settings::DEFAULT_EIGVAL_CUTOFF_BITS),
        lr.adapt_options.mass_matrix_options.eigval_cutoff
    );
    assert_eq!(
        f64::from_bits(nutpie::settings::DEFAULT_GAMMA_BITS),
        lr.adapt_options.mass_matrix_options.gamma
    );
    let tr = nuts_rs::TransformedNutsSettings::default();
    assert_eq!(
        f64::from_bits(nutpie::settings::DEFAULT_TRANSFORM_MAX_ENERGY_ERROR_BITS),
        tr.max_energy_error
    );
}

#[test]
fn common_fields_round_trip_on_every_variant() {
    for mut s in [seeded_diag(), seeded_low_rank(), seeded_transform()] {
        s.set_num_tune(123);
        assert_eq!(s.num_tune(), 123);
        s.set_num_chains(3);
        assert_eq!(s.num_chains(), 3);
        s.set_num_draws(77);
        assert_eq!(s.num_draws(), 77);
        s.set_maxdepth(5);
        assert_eq!(s.maxdepth(), 5);
        s.set_store_gradient(true);
        assert!(s.store_gradient());
        s.set_store_unconstrained(true);
        assert!(s.store_unconstrained());
        s.set_store_divergences(true);
        assert!(s.store_divergences());
        s.set_max_energy_error(7.5f64.to_bits());
        assert_eq!(f64::from_bits(s.max_energy_error()), 7.5);
        s.set_initial_step(0.25f64.to_bits());
        assert_eq!(f64::from_bits(s.initial_step()), 0.25);
        s.set_target_accept(0.9f64.to_bits());
        assert_eq!(f64::from_bits(s.target_accept()), 0.9);
    }
}

#[test]
fn variant_fields_round_trip_where_supported() {
    for mut s in [seeded_diag(), seeded_low_rank()] {
        s.set_window_switch_freq(64).unwrap();
        assert_eq!(s.window_switch_freq().unwrap(), 64);
        // The window switch frequency and the mass-matrix switch frequency are
        // two names of the same stored value.
        assert_eq!(s.mass_matrix_switch_freq().unwrap(), 64);
        s.set_mass_matrix_switch_freq(32).unwrap();
        assert_eq!(s.window_switch_freq().unwrap(), 32);
        s.set_early_window_switch_freq(4).unwrap();
        assert_eq!(s.early_window_switch_freq().unwrap(), 4);
        s.set_store_mass_matrix(true).unwrap();
        assert!(s.store_mass_matrix().unwrap());
    }
    let mut s = seeded_diag();
    s.set_use_grad_based_mass_matrix(false).unwrap();
    assert!(!s.use_grad_based_mass_matrix().unwrap());
    let mut s = seeded_low_rank();
    s.set_mass_matrix_eigval_cutoff(50.0f64.to_bits()).unwrap();
    assert_eq!(f64::from_bits(s.mass_matrix_eigval_cutoff().unwrap()), 50.0);
    s.set_mass_matrix_gamma(1e-4f64.to_bits()).unwrap();
    assert_eq!(f64::from_bits(s.mass_matrix_gamma().unwrap()), 1e-4);
}

#[test]
fn wrong_variant_access_fails_with_the_documented_error() {
    // Every (option, unsupported-variant) pair, getter and setter alike.
    let mut tr = seeded_transform();
    let err = tr.window_switch_freq().unwrap_err();
    assert_eq!(err.option_name, SettingsOption::WindowSwitchFreq);
    assert_eq!(err.variant, AdaptVariant::Transforming);
    assert_eq!(err.option_text(), "window_switch_freq");
    assert_eq!(err.variant_text(), "transforming");
    assert_eq!(tr.set_window_switch_freq(1).unwrap_err(), err);

    let err = tr.early_window_switch_freq().unwrap_err();
    assert_eq!(err.option_name, SettingsOption::EarlyWindowSwitchFreq);
    assert_eq!(err.variant, AdaptVariant::Transforming);
    assert_eq!(tr.set_early_window_switch_freq(1).unwrap_err(), err);

    let err = tr.store_mass_matrix().unwrap_err();
    assert_eq!(err.option_name, SettingsOption::StoreMassMatrix);
    assert_eq!(err.variant, AdaptVariant::Transforming);
    assert_eq!(tr.set_store_mass_matrix(true).unwrap_err(), err);

    let err = tr.use_grad_based_mass_matrix().unwrap_err();
    assert_eq!(err.option_name, SettingsOption::UseGradBasedMassMatrix);
    assert_eq!(err.variant, AdaptVariant::Transforming);
    assert_eq!(tr.set_use_grad_based_mass_matrix(true).unwrap_err(), err);

    let err = tr.mass_matrix_switch_freq().unwrap_err();
    assert_eq!(err.option_name, SettingsOption::MassMatrixSwitchFreq);
    assert_eq!(err.variant, AdaptVariant::Transforming);
    assert_eq!(tr.set_mass_matrix_switch_freq(1).unwrap_err(), err);

    let err = tr.mass_matrix_eigval_cutoff().unwrap_err();
    assert_eq!(err.option_name, SettingsOption::MassMatrixEigvalCutoff);
    assert_eq!(err.variant, AdaptVariant::Transforming);
    assert_eq!(tr.set_mass_matrix_eigval_cutoff(1).unwrap_err(), err);

    let err = tr.mass_matrix_gamma().unwrap_err();
    assert_eq!(err.option_name, SettingsOption::MassMatrixGamma);
    assert_eq!(err.variant, AdaptVariant::Transforming);
    assert_eq!(tr.set_mass_matrix_gamma(1).unwrap_err(), err);

    let mut lr = seeded_low_rank();
    let err = lr.use_grad_based_mass_matrix().unwrap_err();
    assert_eq!(err.option_name, SettingsOption::UseGradBasedMassMatrix);
    assert_eq!(err.variant, AdaptVariant::LowRank);
    assert_eq!(err.variant_text(), "low-rank");
    assert_eq!(lr.set_use_grad_based_mass_matrix(true).unwrap_err(), err);

    let mut di = seeded_diag();
    let err = di.mass_matrix_eigval_cutoff().unwrap_err();
    assert_eq!(err.option_name, SettingsOption::MassMatrixEigvalCutoff);
    assert_eq!(err.variant, AdaptVariant::Diag);
    assert_eq!(err.variant_text(), "diag");
    assert_eq!(di.set_mass_matrix_eigval_cutoff(1).unwrap_err(), err);

    let err = di.mass_matrix_gamma().unwrap_err();
    assert_eq!(err.option_name, SettingsOption::MassMatrixGamma);
    assert_eq!(err.variant, AdaptVariant::Diag);
    assert_eq!(di.set_mass_matrix_gamma(1).unwrap_err(), err);
}

#[test]
fn failed_write_leaves_the_settings_unchanged() {
    let mut tr = seeded_transform();
    let before = tr;
    assert!(tr.set_window_switch_freq(9).is_err());
    assert!(tr.set_store_mass_matrix(true).is_err());
    assert!(tr.set_mass_matrix_gamma(9).is_err());
    assert_eq!(tr, before);
}
