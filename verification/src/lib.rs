//! A Monte Carlo simulator of simplified Bell-type entangled-particle
//! measurement experiments.
//!
//! A `Particle` carries a spin that a measurement collapses to up or down,
//! depending on one of three fixed detector orientations. The `spooky`
//! protocol models entanglement-style anti-correlation; the
//! `hidden_information` protocol models a classical pre-agreed strategy.
//! Experiment runners aggregate many trials and report how often the two
//! measured spins differ.
//!
//! All randomness is drawn from an injectable, seedable [`random_source::RandomSource`]
//! that yields uniform draws over a fixed integer grid on the unit interval,
//! so every protocol step has an exact, deterministic specification in terms
//! of the source's state.

pub mod experiment;
pub mod laws;
pub mod particle;
pub mod random_source;
