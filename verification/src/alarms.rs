//! The hazard functions of the system as alert sources.

use crate::source::TawsAlertSource;
use vstd::prelude::*;

verus! {

/// The hazard functions that raise alerts.
#[derive(Copy, Clone, Debug, PartialEq, Eq, Structural, Hash)]
pub enum Alarms {
    /// Excessive rate of descent.
    Mode1,
    /// Excessive closure rate to terrain.
    Mode2,
    /// Forward looking terrain avoidance.
    FLTA,
}

impl TawsAlertSource for Alarms {
    /// The position of the function in the declaration: 0 for `Mode1`, 1 for `Mode2`, 2
    /// for `FLTA`.
    open spec fn spec_ordinal(self) -> usize {
        match self {
            Alarms::Mode1 => 0,
            Alarms::Mode2 => 1,
            Alarms::FLTA => 2,
        }
    }

    proof fn lemma_ordinal_injective(a: Alarms, b: Alarms) {
    }

    fn ordinal(&self) -> (r: usize) {
        match self {
            Alarms::Mode1 => 0,
            Alarms::Mode2 => 1,
            Alarms::FLTA => 2,
        }
    }

    fn from_ordinal(ordinal: usize) -> (r: Option<Self>) {
        if ordinal == 0 {
            Some(Alarms::Mode1)
        } else if ordinal == 1 {
            Some(Alarms::Mode2)
        } else if ordinal == 2 {
            Some(Alarms::FLTA)
        } else {
            None
        }
    }
}

} // verus!
