//! Mode 1: excessive rate of descent.

use crate::alarms::Alarms;
use crate::alert::Alert;
use crate::envelope::{envelope_contains, Breakpoint, Envelope};
use crate::level::AlertLevel;
use crate::processor::{Alarm, FunctionalityProcessor};
use crate::state::AircraftState;
use vstd::prelude::*;

verus! {

/// The breakpoints of the caution envelope, as altitude above ground in feet and rate of
/// descent in feet per minute.
pub open spec fn caution_breakpoints() -> Seq<Breakpoint> {
    seq![(1560i32, 100i32), (2200i32, 630i32), (5700i32, 2200i32), (5701i32, 2200i32)]
}

/// The breakpoints of the caution envelope for a steep approach.
pub open spec fn caution_steep_approach_breakpoints() -> Seq<Breakpoint> {
    seq![
        (1798i32, 150i32),
        (1944i32, 300i32),
        (3233i32, 1078i32),
        (6226i32, 2075i32),
        (6227i32, 2075i32),
    ]
}

/// The breakpoints of the warning envelope.
pub open spec fn warning_breakpoints() -> Seq<Breakpoint> {
    seq![(1600i32, 100i32), (1850i32, 300i32), (10100i32, 1958i32), (10101i32, 1958i32)]
}

/// The breakpoints of the warning envelope for a steep approach.
pub open spec fn warning_steep_approach_breakpoints() -> Seq<Breakpoint> {
    seq![(1908i32, 150i32), (2050i32, 300i32), (10300i32, 1958i32), (10301i32, 1958i32)]
}

/// The level at which Mode 1 alerts in `state`, if it alerts. With a steep approach
/// selected the envelopes for the steep approach decide, without it the other two. Of the
/// two envelopes the caution envelope is tested first: a state within both gives a caution.
pub open spec fn mode_1_level(state: AircraftState) -> Option<AlertLevel> {
    let altitude = state.altitude_ground as int;
    let rate_of_descent = -(state.climb_rate as int);
    if state.steep_approach {
        if envelope_contains(caution_steep_approach_breakpoints(), altitude, rate_of_descent) {
            Some(AlertLevel::Caution)
        } else if envelope_contains(
            warning_steep_approach_breakpoints(),
            altitude,
            rate_of_descent,
        ) {
            Some(AlertLevel::Warning)
        } else {
            None
        }
    } else {
        if envelope_contains(caution_breakpoints(), altitude, rate_of_descent) {
            Some(AlertLevel::Caution)
        } else if envelope_contains(warning_breakpoints(), altitude, rate_of_descent) {
            Some(AlertLevel::Warning)
        } else {
            None
        }
    }
}

/// The alert that Mode 1 raises in `state`, if it raises one.
pub open spec fn mode_1_alert(state: AircraftState) -> Option<Alert<Alarms>> {
    match mode_1_level(state) {
        Some(level) => Some(Alert { source: Alarms::Mode1, level }),
        None => None,
    }
}

/// The caution envelope.
fn caution_envelope() -> (envelope: Envelope)
    ensures
        envelope@ == caution_breakpoints(),
{
    let points: Vec<Breakpoint> = vec![
        (1560i32, 100i32),
        (2200i32, 630i32),
        (5700i32, 2200i32),
        (5701i32, 2200i32),
    ];
    // The altitudes increase strictly, so that the envelope is made.
    Envelope::new(points).unwrap()
}

/// The caution envelope for a steep approach.
fn caution_steep_approach_envelope() -> (envelope: Envelope)
    ensures
        envelope@ == caution_steep_approach_breakpoints(),
{
    let points: Vec<Breakpoint> = vec![
        (1798i32, 150i32),
        (1944i32, 300i32),
        (3233i32, 1078i32),
        (6226i32, 2075i32),
        (6227i32, 2075i32),
    ];
    // The altitudes increase strictly, so that the envelope is made.
    Envelope::new(points).unwrap()
}

/// The warning envelope.
fn warning_envelope() -> (envelope: Envelope)
    ensures
        envelope@ == warning_breakpoints(),
{
    let points: Vec<Breakpoint> = vec![
        (1600i32, 100i32),
        (1850i32, 300i32),
        (10100i32, 1958i32),
        (10101i32, 1958i32),
    ];
    // The altitudes increase strictly, so that the envelope is made.
    Envelope::new(points).unwrap()
}

/// The warning envelope for a steep approach.
fn warning_steep_approach_envelope() -> (envelope: Envelope)
    ensures
        envelope@ == warning_steep_approach_breakpoints(),
{
    let points: Vec<Breakpoint> = vec![
        (1908i32, 150i32),
        (2050i32, 300i32),
        (10300i32, 1958i32),
        (10301i32, 1958i32),
    ];
    // The altitudes increase strictly, so that the envelope is made.
    Envelope::new(points).unwrap()
}

/// Mode 1 alerts on an excessive rate of descent: a rate of descent that is, for the
/// altitude above ground, within the caution or the warning envelope.
///
/// It is armed and not inhibited when it is made.
pub struct Mode1 {
    armed: bool,
    inhibited: bool,
    caution_envelope: Envelope,
    caution_envelope_steep_approach: Envelope,
    warning_envelope: Envelope,
    warning_envelope_steep_approach: Envelope,
}

impl Mode1 {
    #[verifier::type_invariant]
    spec fn well_formed(&self) -> bool {
        &&& self.caution_envelope@ == caution_breakpoints()
        &&& self.caution_envelope_steep_approach@ == caution_steep_approach_breakpoints()
        &&& self.warning_envelope@ == warning_breakpoints()
        &&& self.warning_envelope_steep_approach@ == warning_steep_approach_breakpoints()
    }
}

impl Default for Mode1 {
    /// Mode 1, armed and not inhibited.
    fn default() -> (mode_1: Self)
        ensures
            mode_1.armed(),
            !mode_1.inhibited(),
    {
        Self {
            armed: true,
            inhibited: false,
            caution_envelope: caution_envelope(),
            caution_envelope_steep_approach: caution_steep_approach_envelope(),
            warning_envelope: warning_envelope(),
            warning_envelope_steep_approach: warning_steep_approach_envelope(),
        }
    }
}

impl Alarm for Mode1 {
    closed spec fn armed(&self) -> bool {
        self.armed
    }

    closed spec fn inhibited(&self) -> bool {
        self.inhibited
    }

    fn is_armed(&self) -> (armed: bool) {
        self.armed
    }

    fn is_inhibited(&self) -> (inhibited: bool) {
        self.inhibited
    }

    fn inhibit(&mut self)
        ensures
            final(self).inhibited(),
    {
        proof {
            use_type_invariant(&*self);
        }
        self.inhibited = true;
    }

    fn uninhibit(&mut self) {
        proof {
            use_type_invariant(&*self);
        }
        self.inhibited = false;
    }
}

impl FunctionalityProcessor for Mode1 {
    /// Mode 1 raises the alert that its envelopes give for the state.
    open spec fn raises(&self, state: AircraftState) -> Option<Alert<Alarms>> {
        mode_1_alert(state)
    }

    fn process(&mut self, state: &AircraftState) -> (alert: Option<Alert<Alarms>>) {
        proof {
            use_type_invariant(&*self);
        }
        if !self.armed || self.inhibited {
            return None;
        }
        let altitude: i64 = state.altitude_ground as i64;
        // The rate of descent is the vertical rate, positive when the aircraft descends.
        let rate_of_descent: i64 = 0i64 - state.climb_rate as i64;
        let level = if state.steep_approach {
            if self.caution_envelope_steep_approach.contains(altitude, rate_of_descent) {
                Some(AlertLevel::Caution)
            } else if self.warning_envelope_steep_approach.contains(altitude, rate_of_descent) {
                Some(AlertLevel::Warning)
            } else {
                None
            }
        } else {
            if self.caution_envelope.contains(altitude, rate_of_descent) {
                Some(AlertLevel::Caution)
            } else if self.warning_envelope.contains(altitude, rate_of_descent) {
                Some(AlertLevel::Warning)
            } else {
                None
            }
        };
        match level {
            Some(level) => Some(Alert::new(Alarms::Mode1, level)),
            None => None,
        }
    }
}

} // verus!
