//! The severity scale of alerts.

use core::cmp::Ordering;
use vstd::prelude::*;
use vstd::std_specs::cmp::PartialOrdSpecImpl;

verus! {

/// Severity of an alert. The variants are declared from the most severe to the least
/// severe one; a level is *more severe* than another exactly if its rank is smaller.
#[derive(Copy, Clone, Debug, PartialEq, Eq, Structural, Ord)]
pub enum AlertLevel {
    /// Conditions that require immediate flight crew awareness and immediate flight crew
    /// response.
    Warning,
    /// Conditions that require immediate flight crew awareness and a less urgent subsequent
    /// flight crew response than a warning.
    Caution,
    /// An annunciation which does not represent a threat but still requires awareness by
    /// the crew.
    Annunciation,
}

impl AlertLevel {
    /// The rank of the level: 0 for `Warning`, 1 for `Caution`, 2 for `Annunciation`.
    pub open spec fn spec_rank(self) -> u8 {
        match self {
            AlertLevel::Warning => 0,
            AlertLevel::Caution => 1,
            AlertLevel::Annunciation => 2,
        }
    }

    /// Whether `self` is at least as severe as `threshold`.
    pub open spec fn meets(self, threshold: AlertLevel) -> bool {
        self.spec_rank() <= threshold.spec_rank()
    }

    /// The level of the given rank, if there is one.
    pub open spec fn spec_from_rank(rank: u8) -> Option<AlertLevel> {
        if rank == 0 {
            Some(AlertLevel::Warning)
        } else if rank == 1 {
            Some(AlertLevel::Caution)
        } else if rank == 2 {
            Some(AlertLevel::Annunciation)
        } else {
            None
        }
    }

    /// The rank of the level.
    #[verifier::when_used_as_spec(spec_rank)]
    pub fn rank(self) -> (r: u8)
        ensures
            r == self.spec_rank(),
            r <= 2,
    {
        match self {
            AlertLevel::Warning => 0,
            AlertLevel::Caution => 1,
            AlertLevel::Annunciation => 2,
        }
    }

    /// The level of the given rank, or `None` if no level has that rank.
    pub fn from_rank(rank: u8) -> (r: Option<AlertLevel>)
        ensures
            r == AlertLevel::spec_from_rank(rank),
            r is Some <==> rank <= 2,
            r matches Some(level) ==> level.spec_rank() == rank,
    {
        if rank == 0 {
            Some(AlertLevel::Warning)
        } else if rank == 1 {
            Some(AlertLevel::Caution)
        } else if rank == 2 {
            Some(AlertLevel::Annunciation)
        } else {
            None
        }
    }

    /// A level is found again from its rank.
    pub proof fn lemma_rank_round_trip(self)
        ensures
            AlertLevel::spec_from_rank(self.spec_rank()) == Some(self),
    {
    }
}

impl PartialOrd for AlertLevel {
    fn partial_cmp(&self, other: &AlertLevel) -> (r: Option<Ordering>) {
        let a: u8 = self.rank();
        let b: u8 = other.rank();
        if a < b {
            Some(Ordering::Less)
        } else if a == b {
            Some(Ordering::Equal)
        } else {
            Some(Ordering::Greater)
        }
    }
}

impl PartialOrdSpecImpl for AlertLevel {
    open spec fn obeys_partial_cmp_spec() -> bool {
        true
    }

    /// Levels are ordered by rank: the more severe level is the smaller one.
    open spec fn partial_cmp_spec(&self, other: &AlertLevel) -> Option<Ordering> {
        if self.spec_rank() < other.spec_rank() {
            Some(Ordering::Less)
        } else if self.spec_rank() == other.spec_rank() {
            Some(Ordering::Equal)
        } else {
            Some(Ordering::Greater)
        }
    }
}

} // verus!
