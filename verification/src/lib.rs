//! A single two-state quantum system (a qubit) measured by a directional
//! apparatus.
//!
//! One measurement decides a binary [`QubitReading`] and collapses the qubit
//! onto the axis of the apparatus: onto the direction of the apparatus when
//! the reading is `Up`, onto the diametrically opposite direction when it is
//! `Down`.
//!
//! The engine never computes with an orientation, it only moves one of the two
//! directions of the apparatus into the qubit. Orientations are therefore a
//! type parameter. A caller that works in radians derives the opposite
//! direction and the Born-rule probability of `Up` in its own arithmetic,
//! draws one sample from its random source, and hands the engine the one fact
//! the decision rests on: whether the sample fell below that probability.

pub mod measure;
pub mod reading;
pub mod system;

pub use measure::measure_qubit;
pub use measure::MeasureError;
pub use reading::QubitReading;
pub use system::Apparatus;
pub use system::Qubit;
