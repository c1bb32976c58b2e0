//! What every hazard function offers: the arm and inhibit state machine, and the look at
//! one aircraft state.

use crate::alarms::Alarms;
use crate::alert::Alert;
use crate::alerts::{merged, merged_order, Alerts};
use crate::source::TawsAlertSource;
use crate::state::AircraftState;
use vstd::prelude::*;

verus! {

/// The arm and inhibit state machine of a hazard function.
///
/// An armed function is either active or inhibited: `inhibit` takes it from active to
/// inhibited, `uninhibit` back. Neither changes whether the function is armed. Of a
/// function that is not armed, only that is promised.
pub trait Alarm {
    /// Whether the function is armed, that is switched on by the equipment.
    spec fn armed(&self) -> bool;

    /// Whether the function is inhibited, that is kept from raising alerts.
    spec fn inhibited(&self) -> bool;

    /// Returns whether this function is armed.
    fn is_armed(&self) -> (armed: bool)
        ensures
            armed == self.armed(),
    ;

    /// Returns whether this function is inhibited.
    fn is_inhibited(&self) -> (inhibited: bool)
        ensures
            inhibited == self.inhibited(),
    ;

    /// Inhibits this function.
    fn inhibit(&mut self)
        ensures
            final(self).armed() == old(self).armed(),
            old(self).armed() ==> final(self).inhibited(),
    ;

    /// Takes the inhibition from this function.
    fn uninhibit(&mut self)
        ensures
            final(self).armed() == old(self).armed(),
            !final(self).inhibited(),
    ;
}

/// A hazard function: it looks at the state of the aircraft and raises at most one alert.
///
/// A function raises alerts only while it is armed and not inhibited. `process` on a
/// function that is not armed or is inhibited does nothing and returns `None`.
pub trait FunctionalityProcessor: Alarm {
    /// The alert that the function, armed and not inhibited, raises in `state`.
    spec fn raises(&self, state: AircraftState) -> Option<Alert<Alarms>>;

    /// Looks at `state` and returns the alert that it gives rise to, if any. Returns
    /// `None` if the function is not armed or is inhibited.
    fn process(&mut self, state: &AircraftState) -> (alert: Option<Alert<Alarms>>)
        ensures
            alert == (if old(self).armed() && !old(self).inhibited() {
                old(self).raises(*state)
            } else {
                None
            }),
            final(self).armed() == old(self).armed(),
            final(self).inhibited() == old(self).inhibited(),
    ;
}

/// The alert that `processor` returns for `state`, as it is: the one that it raises if it is
/// armed and not inhibited, and none otherwise.
pub open spec fn emitted<P: FunctionalityProcessor + ?Sized>(
    processor: &P,
    state: AircraftState,
) -> Option<Alert<Alarms>> {
    if processor.armed() && !processor.inhibited() {
        processor.raises(state)
    } else {
        None
    }
}

/// One tick of one hazard function: if the function is armed and not inhibited, it looks
/// at `state`, and the alert that it raises is merged into `alerts`. A function that is not
/// armed or is inhibited is not called, and `alerts` stay as they are.
pub fn process_tick<P: FunctionalityProcessor + ?Sized>(
    processor: &mut P,
    state: &AircraftState,
    alerts: &mut Alerts<Alarms>,
)
    ensures
        final(processor).armed() == old(processor).armed(),
        final(processor).inhibited() == old(processor).inhibited(),
        final(alerts)@ == match emitted(old(processor), *state) {
            Some(alert) => merged(old(alerts)@, alert.source.spec_ordinal(), alert.level),
            None => old(alerts)@,
        },
        final(alerts).storage_order() == match emitted(old(processor), *state) {
            Some(alert) => merged_order(
                old(alerts)@,
                old(alerts).storage_order(),
                alert.source.spec_ordinal(),
            ),
            None => old(alerts).storage_order(),
        },
{
    if processor.is_armed() && !processor.is_inhibited() {
        match processor.process(state) {
            Some(alert) => {
                alerts.insert(alert);
            },
            None => {},
        }
    }
}

} // verus!
