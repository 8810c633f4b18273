//! A two-dimensional Ising spin lattice driven by single-site Metropolis updates.
//!
//! The lattice is a square grid of spins, each `-1` or `+1`, with open
//! boundaries: a site on the edge counts its own spin in place of every
//! neighbour it lacks. Energies are integers, expressed in units of the
//! exchange constant. The real-valued coupling and temperature belong to the
//! caller, who evaluates the Boltzmann factor and hands the two resulting
//! comparisons to [`Lattice::metropolis_algo_calculation`].

pub mod grid;
pub mod random;
pub mod lattice;
pub mod laws;
pub mod config;

pub use crate::lattice::Lattice;
