//! Genetics and behaviour of the cells of an evolution simulation.
//!
//! A cell carries a genome of packed genes. From the genome come its colour
//! and its neural network; from the network's outputs comes, tick by tick, a
//! step on the grid. New cells are born at random, or from one or two parents
//! with single-bit mutations.
#![allow(non_snake_case)]
#![allow(non_camel_case_types)]

use vstd::prelude::*;

pub mod cell;
pub mod color;
pub mod config;
pub mod direction;
pub mod gene;
pub mod mutation;
mod random;
pub mod step;

verus! {

/// A coordinate on the grid, and a width or height of it.
pub type GridValueT = usize;

/// A count of simulation ticks.
pub type TimeT = usize;

} // verus!
