//! The measurement engine.

use vstd::prelude::*;
use crate::reading::QubitReading;
use crate::system::Apparatus;
use crate::system::Qubit;

verus! {

/// Why a measurement did not take place.
#[derive(PartialEq, Eq, Structural, Copy, Clone, Debug)]
pub enum MeasureError {
    /// The random source had no sample left to give.
    SourceExhausted,
}

/// What a measurement returns for a draw.
///
/// `draw` is `None` when the random source gave no sample, and otherwise
/// tells whether the sample fell strictly below the probability of `Up`.
pub open spec fn measured_reading(draw: Option<bool>) -> Result<QubitReading, MeasureError> {
    match draw {
        Some(below) => Ok(QubitReading::of_sample(below)),
        None => Err(MeasureError::SourceExhausted),
    }
}

/// The qubit after a measurement: collapsed onto the end of the axis that the
/// reading points to, or left as it was when no sample could be drawn.
pub open spec fn measured_qubit<T>(
    apparatus: Apparatus<T>,
    before: Qubit<T>,
    draw: Option<bool>,
) -> Qubit<T> {
    match draw {
        Some(below) => Qubit::collapsed(apparatus, QubitReading::of_sample(below)),
        None => before,
    }
}

/// Measures the qubit along the axis of the apparatus.
///
/// `draw` carries the one sample that the measurement consumes: `None` when
/// the random source was exhausted, `Some(below)` when it gave a sample, with
/// `below` telling whether that sample was strictly less than the probability
/// of `Up` for the present separation of apparatus and qubit.
///
/// With a sample the reading is `Up` and the qubit takes the direction of the
/// apparatus if `below` holds; otherwise the reading is `Down` and the qubit
/// takes the opposite direction. Without a sample the measurement fails with
/// `SourceExhausted` and the qubit is untouched.
pub fn measure_qubit<T: Copy>(
    apparatus: &Apparatus<T>,
    qubit: &mut Qubit<T>,
    draw: Option<bool>,
) -> (outcome: Result<QubitReading, MeasureError>)
    ensures
        outcome == measured_reading(draw),
        *final(qubit) == measured_qubit(*apparatus, *old(qubit), draw),
        draw == Some(true) ==> (outcome == Ok::<QubitReading, MeasureError>(QubitReading::Up)
            && final(qubit).direction == apparatus.direction),
        draw == Some(false) ==> (outcome == Ok::<QubitReading, MeasureError>(QubitReading::Down)
            && final(qubit).direction == apparatus.opposite),
        draw is None ==> (outcome == Err::<QubitReading, MeasureError>(
            MeasureError::SourceExhausted,
        ) && *final(qubit) == *old(qubit)),
        outcome is Ok ==> (final(qubit).direction == apparatus.direction || final(qubit).direction
            == apparatus.opposite),
        (outcome is Ok && *final(qubit) == *old(qubit)) ==> (old(qubit).direction
            == apparatus.direction || old(qubit).direction == apparatus.opposite),
{
    match draw {
        Some(below) => {
            let reading = QubitReading::from_sample(below);
            qubit.collapse(apparatus, reading);
            Ok(reading)
        },
        None => Err(MeasureError::SourceExhausted),
    }
}

/// A measurement is complete: with a sample drawn, the qubit it leaves behind
/// depends on the apparatus and the sample alone, not on the qubit it found.
pub proof fn measurement_forgets_prior_state<T>(
    apparatus: Apparatus<T>,
    one: Qubit<T>,
    other: Qubit<T>,
    below: bool,
)
    ensures
        measured_qubit(apparatus, one, Some(below)) == measured_qubit(
            apparatus,
            other,
            Some(below),
        ),
{
}

/// A measurement is idempotent: measuring again along the same axis, with a
/// draw that falls the same way, leaves the qubit where the first measurement
/// put it.
pub proof fn measurement_is_idempotent<T>(
    apparatus: Apparatus<T>,
    before: Qubit<T>,
    draw: Option<bool>,
)
    ensures
        measured_qubit(apparatus, measured_qubit(apparatus, before, draw), draw) == measured_qubit(
            apparatus,
            before,
            draw,
        ),
{
}

/// Collapse consistency: a measurement that took place leaves the qubit on
/// one of the two ends of the apparatus axis, on the direction of the
/// apparatus when the reading is `Up` and on the opposite direction when it is
/// `Down`, and it leaves the qubit as it was only if the qubit already stood
/// on one of the two.
pub proof fn measurement_collapses_onto_axis<T>(
    apparatus: Apparatus<T>,
    before: Qubit<T>,
    below: bool,
)
    ensures
        measured_qubit(apparatus, before, Some(below)).direction == apparatus.direction
            || measured_qubit(apparatus, before, Some(below)).direction == apparatus.opposite,
        measured_reading(Some(below)) == Ok::<QubitReading, MeasureError>(QubitReading::Up)
            ==> measured_qubit(apparatus, before, Some(below)).direction == apparatus.direction,
        measured_reading(Some(below)) == Ok::<QubitReading, MeasureError>(QubitReading::Down)
            ==> measured_qubit(apparatus, before, Some(below)).direction == apparatus.opposite,
        measured_qubit(apparatus, before, Some(below)) == before ==> (before.direction
            == apparatus.direction || before.direction == apparatus.opposite),
{
}

/// Exhaustion: a measurement fails exactly when no sample could be drawn, the
/// failure is `SourceExhausted`, and the qubit is then as it was.
pub proof fn exhaustion_leaves_qubit<T>(
    apparatus: Apparatus<T>,
    before: Qubit<T>,
    draw: Option<bool>,
)
    ensures
        measured_reading(draw) is Err <==> draw is None,
        draw is None ==> (measured_reading(draw) == Err::<QubitReading, MeasureError>(
            MeasureError::SourceExhausted,
        ) && measured_qubit(apparatus, before, draw) == before),
{
}

} // verus!
