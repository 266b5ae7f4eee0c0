//! The two parties of a measurement: the apparatus and the qubit.

use vstd::prelude::*;
use crate::reading::QubitReading;

verus! {

/// A measurement axis, given by its two ends: the direction the apparatus
/// points in and the direction diametrically opposite to it.
///
/// A measurement only reads an apparatus.
#[derive(Debug)]
pub struct Apparatus<T> {
    pub direction: T,
    pub opposite: T,
}

/// The internal state of the two-level system: the direction it points in.
///
/// A measurement replaces it by one of the two ends of the apparatus axis.
#[derive(Debug)]
pub struct Qubit<T> {
    pub direction: T,
}

impl<T> Apparatus<T> {
    /// The end of the axis that a reading points to: the direction of the
    /// apparatus for `Up`, the opposite direction for `Down`.
    pub open spec fn end(self, reading: QubitReading) -> T {
        match reading {
            QubitReading::Up => self.direction,
            QubitReading::Down => self.opposite,
        }
    }
}

impl<T> Qubit<T> {
    /// The qubit as a measurement with the given reading leaves it, whatever
    /// it was before.
    pub open spec fn collapsed(apparatus: Apparatus<T>, reading: QubitReading) -> Qubit<T> {
        Qubit { direction: apparatus.end(reading) }
    }
}

impl<T: Copy> Qubit<T> {
    /// Collapses the qubit onto the end of the apparatus axis that the
    /// reading points to.
    pub fn collapse(&mut self, apparatus: &Apparatus<T>, reading: QubitReading)
        ensures
            *final(self) == Qubit::collapsed(*apparatus, reading),
            reading == QubitReading::Up ==> final(self).direction == apparatus.direction,
            reading == QubitReading::Down ==> final(self).direction == apparatus.opposite,
    {
        match reading {
            QubitReading::Up => {
                self.direction = apparatus.direction;
            },
            QubitReading::Down => {
                self.direction = apparatus.opposite;
            },
        }
    }
}

} // verus!
