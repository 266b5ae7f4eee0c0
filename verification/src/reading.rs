//! The outcome of a measurement.

use vstd::prelude::*;

verus! {

/// What a measurement reads off the qubit: aligned with the apparatus (`Up`)
/// or opposed to it (`Down`).
#[derive(PartialEq, Eq, Structural, Copy, Clone, Debug)]
pub enum QubitReading {
    Up,
    Down,
}

impl QubitReading {
    /// The reading that one sample decides: `Up` exactly when the sample fell
    /// strictly below the probability of `Up`.
    pub open spec fn of_sample(below: bool) -> QubitReading {
        if below {
            QubitReading::Up
        } else {
            QubitReading::Down
        }
    }

    /// The word under which a reading is reported.
    pub open spec fn label_text(self) -> Seq<char> {
        match self {
            QubitReading::Up => "Up"@,
            QubitReading::Down => "Down"@,
        }
    }

    /// The line that reports a reading: its word, then `" measured"`.
    pub open spec fn report_text(self) -> Seq<char> {
        self.label_text() + " measured"@
    }

    /// Decides the reading from whether the sample fell below the probability
    /// of `Up`.
    pub fn from_sample(below: bool) -> (reading: QubitReading)
        ensures
            reading == QubitReading::of_sample(below),
            below <==> reading == QubitReading::Up,
    {
        if below {
            QubitReading::Up
        } else {
            QubitReading::Down
        }
    }

    /// The word under which this reading is reported: `"Up"` or `"Down"`.
    pub fn label(self) -> (word: &'static str)
        ensures
            word@ == self.label_text(),
    {
        match self {
            QubitReading::Up => "Up",
            QubitReading::Down => "Down",
        }
    }

    /// The line that reports this reading: `"Up measured"` or
    /// `"Down measured"`.
    pub fn report(self) -> (line: &'static str)
        ensures
            line@ == self.report_text(),
    {
        proof {
            reveal_strlit("Up");
            reveal_strlit("Down");
            reveal_strlit(" measured");
            reveal_strlit("Up measured");
            reveal_strlit("Down measured");
            assert("Up measured"@ =~= "Up"@ + " measured"@);
            assert("Down measured"@ =~= "Down"@ + " measured"@);
        }
        match self {
            QubitReading::Up => "Up measured",
            QubitReading::Down => "Down measured",
        }
    }
}

} // verus!
