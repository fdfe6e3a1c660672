use astro_tfc::ephemeris::bodies::{
    analytical_body, body_name_to_id, default_bodies, naif_id, select_body_source, AnalyticalBody, BodySource,
};
use astro_tfc::ephemeris::config::EphemerisMode;
use astro_tfc::ephemeris::spice::naif_ids;
use astro_tfc::ephemeris::spice::{KernelLoadStep, SpiceContext, SpiceError, SpiceKernelConfig};
use astro_tfc::ephemeris::validation::MissionStrategyType;

#[test]
fn test_spice_config_default() {
    let config = SpiceKernelConfig::default();
    assert_eq!(config.kernel_files.len(), 4);
    assert_eq!(config.frame, "J2000");
    assert_eq!(config.abcorr, "LT+S");
}

#[test]
fn test_naif_ids() {
    assert_eq!(naif_ids::EARTH, 399);
    assert_eq!(naif_ids::MOON, 301);
    assert_eq!(naif_ids::SUN, 10);
}

#[test]
fn default_config_lists_kernels_in_load_order() {
    let config = SpiceKernelConfig::default();
    assert_eq!(config.kernel_dir, "~/kernels");
    assert_eq!(
        config.kernel_files,
        vec!["naif0012.tls", "de440.bsp", "gm_de440.tpc", "pck00010.tpc"]
    );
    assert!(!config.verbose);
}

#[test]
fn remaining_naif_ids() {
    assert_eq!(naif_ids::MARS, 499);
    assert_eq!(naif_ids::VENUS, 299);
    assert_eq!(naif_ids::JUPITER, 599);
    assert_eq!(naif_ids::SATURN, 699);
    assert_eq!(naif_ids::SSB, 0);
}

#[test]
fn new_context_is_not_loaded_and_keeps_config() {
    let mut config = SpiceKernelConfig::default();
    config.frame = "ECLIPJ2000".to_string();
    let ctx = SpiceContext::new(config);
    assert!(!ctx.is_loaded());
    assert_eq!(ctx.config().frame, "ECLIPJ2000");
    assert_eq!(ctx.config().kernel_files.len(), 4);
}

#[test]
fn queries_before_loading_fail_with_not_loaded() {
    let ctx = SpiceContext::new(SpiceKernelConfig::default());
    assert_eq!(ctx.ensure_loaded(), Err(SpiceError::NotLoaded));
}

#[test]
fn finishing_the_load_marks_the_context_loaded() {
    let mut ctx = SpiceContext::new(SpiceKernelConfig::default());
    ctx.finish_loading(4);
    assert!(ctx.is_loaded());
    assert_eq!(ctx.ensure_loaded(), Ok(()));
    assert_eq!(ctx.config().abcorr, "LT+S");
}

#[test]
fn set_verbose_changes_only_verbosity() {
    let mut ctx = SpiceContext::new(SpiceKernelConfig::default());
    ctx.set_verbose(true);
    assert!(ctx.config().verbose);
    assert!(!ctx.is_loaded());
    assert_eq!(ctx.config().kernel_dir, "~/kernels");
    ctx.set_verbose(false);
    assert!(!ctx.config().verbose);
}

#[test]
fn kernel_directory_without_tilde_is_unchanged() {
    let mut config = SpiceKernelConfig::default();
    config.kernel_dir = "/data/spice/kernels".to_string();
    let ctx = SpiceContext::new(config);
    assert_eq!(ctx.kernel_directory(), "/data/spice/kernels");
}

#[test]
fn kernel_directory_with_user_name_after_tilde_is_unchanged() {
    let mut config = SpiceKernelConfig::default();
    config.kernel_dir = "~other/kernels".to_string();
    let ctx = SpiceContext::new(config);
    assert_eq!(ctx.kernel_directory(), "~other/kernels");
}

#[test]
fn kernel_directory_with_tilde_keeps_the_rest_of_the_path() {
    let ctx = SpiceContext::new(SpiceKernelConfig::default());
    let dir = ctx.kernel_directory();
    assert!(dir.ends_with("/kernels"));
    assert!(!dir.starts_with('~'));
}

#[test]
fn naif_codes_of_known_bodies() {
    assert_eq!(naif_id("SUN"), Some(10));
    assert_eq!(naif_id("EARTH"), Some(399));
    assert_eq!(naif_id("MOON"), Some(301));
    assert_eq!(naif_id("MARS"), Some(499));
    assert_eq!(naif_id("JUPITER"), Some(599));
    assert_eq!(naif_id("VENUS"), Some(299));
    assert_eq!(naif_id("SATURN"), None);
    assert_eq!(naif_id("earth"), None);
}

#[test]
fn unknown_body_id_is_a_kernel_error_naming_it() {
    assert_eq!(body_name_to_id("MOON"), Ok(301));
    assert_eq!(
        body_name_to_id("PLUTO"),
        Err(SpiceError::KernelLoad("ID no encontrado: PLUTO".to_string()))
    );
}

#[test]
fn analytical_model_covers_four_bodies() {
    assert_eq!(analytical_body("EARTH"), Some(AnalyticalBody::Earth));
    assert_eq!(analytical_body("MOON"), Some(AnalyticalBody::Moon));
    assert_eq!(analytical_body("SUN"), Some(AnalyticalBody::Sun));
    assert_eq!(analytical_body("MARS"), Some(AnalyticalBody::Mars));
    assert_eq!(analytical_body("JUPITER"), None);
}

#[test]
fn spice_mode_needs_a_loaded_context() {
    assert_eq!(
        select_body_source(EphemerisMode::Spice, "MOON", false),
        Err(SpiceError::NotLoaded)
    );
    assert_eq!(
        select_body_source(EphemerisMode::Spice, "MOON", true),
        Ok(BodySource::Spice(301))
    );
    assert_eq!(
        select_body_source(EphemerisMode::Spice, "CERES", true),
        Err(SpiceError::KernelLoad("ID no encontrado: CERES".to_string()))
    );
}

#[test]
fn analytical_mode_ignores_spice() {
    assert_eq!(
        select_body_source(EphemerisMode::Analytical, "MARS", true),
        Ok(BodySource::Analytical(AnalyticalBody::Mars))
    );
    assert_eq!(
        select_body_source(EphemerisMode::Analytical, "VENUS", true),
        Err(SpiceError::KernelLoad("Cuerpo no encontrado: VENUS".to_string()))
    );
}

#[test]
fn hybrid_mode_takes_primaries_from_spice_when_available() {
    assert_eq!(
        select_body_source(EphemerisMode::Hybrid, "EARTH", true),
        Ok(BodySource::Spice(399))
    );
    assert_eq!(
        select_body_source(EphemerisMode::Hybrid, "EARTH", false),
        Ok(BodySource::Analytical(AnalyticalBody::Earth))
    );
    assert_eq!(
        select_body_source(EphemerisMode::Hybrid, "MARS", true),
        Ok(BodySource::Analytical(AnalyticalBody::Mars))
    );
    assert_eq!(
        select_body_source(EphemerisMode::Hybrid, "JUPITER", true),
        Err(SpiceError::KernelLoad("Cuerpo no encontrado: JUPITER".to_string()))
    );
}

#[test]
fn only_analytical_mode_skips_the_kernels() {
    assert!(EphemerisMode::Spice.uses_spice_kernels());
    assert!(EphemerisMode::Hybrid.uses_spice_kernels());
    assert!(!EphemerisMode::Analytical.uses_spice_kernels());
}

#[test]
fn strategy_labels_name_the_reference_missions() {
    assert_eq!(MissionStrategyType::LowThrustSpiral.label(), "Low Thrust Spiral (SMART-1)");
    assert_eq!(MissionStrategyType::BallisticDirect.label(), "Ballistic Direct (GRAIL)");
    assert_eq!(MissionStrategyType::BallisticCapture.label(), "Ballistic Capture (CAPSTONE)");
    assert_eq!(MissionStrategyType::HybridTugChemical.label(), "Hybrid TUG+Chemical (L-RAIL)");
}

#[test]
fn default_bodies_all_have_naif_codes() {
    let bodies = default_bodies();
    assert_eq!(bodies, vec!["SUN", "EARTH", "MOON", "MARS", "JUPITER", "VENUS"]);
    for b in &bodies {
        assert!(naif_id(b).is_some());
    }
}

#[test]
fn loading_furnishes_kernels_in_order_then_finishes() {
    let ctx = SpiceContext::new(SpiceKernelConfig::default());
    assert_eq!(ctx.next_load_step(0), KernelLoadStep::Furnish(0));
    assert_eq!(ctx.next_load_step(3), KernelLoadStep::Furnish(3));
    assert_eq!(ctx.next_load_step(4), KernelLoadStep::Finish);
}

#[test]
fn verbosity_never_changes_the_loaded_flag() {
    let mut ctx = SpiceContext::new(SpiceKernelConfig::default());
    ctx.set_verbose(true);
    assert!(!ctx.is_loaded());
    ctx.finish_loading(4);
    ctx.set_verbose(false);
    assert!(ctx.is_loaded());
}

#[test]
fn kernel_directory_with_backslash_after_tilde_keeps_the_rest() {
    let mut config = SpiceKernelConfig::default();
    config.kernel_dir = "~\\kernels".to_string();
    let ctx = SpiceContext::new(config);
    assert!(ctx.kernel_directory().ends_with("\\kernels"));
}
