//! The settings of a run, checked before any cell is born.
//!
//! The functions that bear and move cells take it that the grid has places,
//! that a generation has ticks and that a genome has genes. A run whose
//! settings say otherwise is turned down here, with the setting at fault.
use crate::cell::OtherData;
use crate::{GridValueT, TimeT};
use vstd::prelude::*;

verus! {

/// The setting that is at fault.
#[derive(Debug, Clone, Copy, PartialEq, Eq, Structural)]
pub enum ConfigError {
    /// The grid has no columns.
    GridWidth,
    /// The grid has no rows.
    GridHeight,
    /// A generation has no ticks.
    StepsPerGen,
    /// A genome has no genes.
    GenomeLength,
    /// A parent's genome has not the length that the run was set up with.
    GenomeMismatch,
}

/// The first setting at fault, in the order width, height, ticks, genes, or
/// none where all four are positive.
pub open spec fn settings_fault(
    gridWidth: GridValueT,
    gridHeight: GridValueT,
    stepsPerGen: TimeT,
    genomeLength: usize,
) -> Option<ConfigError> {
    if gridWidth == 0 {
        Some(ConfigError::GridWidth)
    } else if gridHeight == 0 {
        Some(ConfigError::GridHeight)
    } else if stepsPerGen == 0 {
        Some(ConfigError::StepsPerGen)
    } else if genomeLength == 0 {
        Some(ConfigError::GenomeLength)
    } else {
        None
    }
}

impl ConfigError {
    /// What the error says in words.
    pub open spec fn text(self) -> Seq<char> {
        match self {
            ConfigError::GridWidth => "grid width must be at least 1"@,
            ConfigError::GridHeight => "grid height must be at least 1"@,
            ConfigError::StepsPerGen => "steps per generation must be at least 1"@,
            ConfigError::GenomeLength => "genome length must be at least 1"@,
            ConfigError::GenomeMismatch => "a parent's genome has not the configured length"@,
        }
    }

    /// What the error says in words.
    pub fn message(&self) -> (r: &'static str)
        ensures
            r@ == self.text(),
    {
        match *self {
            ConfigError::GridWidth => "grid width must be at least 1",
            ConfigError::GridHeight => "grid height must be at least 1",
            ConfigError::StepsPerGen => "steps per generation must be at least 1",
            ConfigError::GenomeLength => "genome length must be at least 1",
            ConfigError::GenomeMismatch => "a parent's genome has not the configured length",
        }
    }
}

/// Checks the settings of a run: all four must be positive. The error names
/// the first that is not.
pub fn validate(
    gridWidth: GridValueT,
    gridHeight: GridValueT,
    stepsPerGen: TimeT,
    genomeLength: usize,
) -> (r: Result<(), ConfigError>)
    ensures
        r == match settings_fault(gridWidth, gridHeight, stepsPerGen, genomeLength) {
            Some(e) => Err::<(), ConfigError>(e),
            None => Ok::<(), ConfigError>(()),
        },
{
    if gridWidth == 0 {
        Err(ConfigError::GridWidth)
    } else if gridHeight == 0 {
        Err(ConfigError::GridHeight)
    } else if stepsPerGen == 0 {
        Err(ConfigError::StepsPerGen)
    } else if genomeLength == 0 {
        Err(ConfigError::GenomeLength)
    } else {
        Ok(())
    }
}

/// Checks that a parent's genome has the length that the run was set up
/// with.
pub fn check_parent(parent: &OtherData, genomeLength: usize) -> (r: Result<(), ConfigError>)
    ensures
        r.is_ok() <==> parent@.genome.len() == genomeLength,
        r.is_err() ==> r == Err::<(), ConfigError>(ConfigError::GenomeMismatch),
{
    if parent.getGenome().len() == genomeLength {
        Ok(())
    } else {
        Err(ConfigError::GenomeMismatch)
    }
}

} // verus!
