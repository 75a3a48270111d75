use evolution_sim::cell::new;
use evolution_sim::config::{check_parent, validate, ConfigError};
use evolution_sim::gene::Gene;

#[test]
fn good_settings_pass() {
    assert_eq!(validate(1, 1, 1, 1), Ok(()));
    assert_eq!(validate(128, 64, 300, 16), Ok(()));
}

#[test]
fn empty_grid_is_refused() {
    assert_eq!(validate(0, 64, 300, 16), Err(ConfigError::GridWidth));
    assert_eq!(validate(128, 0, 300, 16), Err(ConfigError::GridHeight));
}

#[test]
fn empty_generation_is_refused() {
    assert_eq!(validate(128, 64, 0, 16), Err(ConfigError::StepsPerGen));
}

#[test]
fn empty_genome_is_refused() {
    assert_eq!(validate(128, 64, 300, 0), Err(ConfigError::GenomeLength));
}

#[test]
fn first_fault_is_reported() {
    assert_eq!(validate(0, 0, 0, 0), Err(ConfigError::GridWidth));
    assert_eq!(validate(1, 0, 0, 0), Err(ConfigError::GridHeight));
    assert_eq!(validate(1, 1, 0, 0), Err(ConfigError::StepsPerGen));
}

#[test]
fn parent_of_another_length_is_refused() {
    let (_, _, parent) = new(vec![Gene { bits: 1 }, Gene { bits: 2 }, Gene { bits: 3 }], 0, 10);
    assert_eq!(check_parent(&parent, 3), Ok(()));
    assert_eq!(check_parent(&parent, 2), Err(ConfigError::GenomeMismatch));
    assert_eq!(check_parent(&parent, 4), Err(ConfigError::GenomeMismatch));
}

#[test]
fn each_error_names_its_setting() {
    assert_eq!(ConfigError::GridWidth.message(), "grid width must be at least 1");
    assert_eq!(ConfigError::GridHeight.message(), "grid height must be at least 1");
    assert_eq!(ConfigError::StepsPerGen.message(), "steps per generation must be at least 1");
    assert_eq!(ConfigError::GenomeLength.message(), "genome length must be at least 1");
    assert_eq!(
        ConfigError::GenomeMismatch.message(),
        "a parent's genome has not the configured length"
    );
}
