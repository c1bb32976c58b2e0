//! Mode 2: excessive closure rate to terrain.

use crate::alarms::Alarms;
use crate::alert::Alert;
use crate::processor::{Alarm, FunctionalityProcessor};
use crate::state::AircraftState;
use vstd::prelude::*;

verus! {

/// Mode 2 is not available yet: it is never armed, cannot be inhibited, and raises no
/// alert.
#[derive(Debug)]
pub struct Mode2();

impl Alarm for Mode2 {
    open spec fn armed(&self) -> bool {
        false
    }

    open spec fn inhibited(&self) -> bool {
        false
    }

    fn is_armed(&self) -> (armed: bool) {
        false
    }

    fn is_inhibited(&self) -> (inhibited: bool) {
        false
    }

    fn inhibit(&mut self) {
    }

    fn uninhibit(&mut self) {
    }
}

impl FunctionalityProcessor for Mode2 {
    open spec fn raises(&self, state: AircraftState) -> Option<Alert<Alarms>> {
        None
    }

    fn process(&mut self, _state: &AircraftState) -> (alert: Option<Alert<Alarms>>) {
        None
    }
}

} // verus!
