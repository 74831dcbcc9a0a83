//! Keyboard-driven controller for a terminal version-control client.
//!
//! The controller owns the state of the client and decides what every key and
//! every answer of the repository does to it. It never touches the terminal
//! or the repository: a function that needs the repository returns a
//! [`step::Step`] naming the one call to make, and the event loop hands the
//! result of that call to the function that takes it, until the step is
//! `Idle`.
//!
//! - [`app`]: the state and its small mutators.
//! - [`model`]: the state as plain values and every transition as a function
//!   on it; the contracts of the executable code speak of these.
//! - [`input`]: the input router and the three dialogs.
//! - [`refresh`]: what the repository reports replaces the lists.
//! - [`step`]: the protocol with the event loop.
//! - [`git`], [`credentials`], [`display`], [`text`]: the shaping of
//!   repository data, the order in which credentials are tried, what the
//!   screens show for a value, and the text operations under them.
//! - [`laws`]: what holds of the controller whatever the input.

pub mod app;
pub mod credentials;
pub mod display;
pub mod git;
pub mod input;
pub mod laws;
pub mod model;
pub mod refresh;
pub mod step;
pub mod text;
pub mod view;
