//! A single alert.

use crate::level::AlertLevel;
use crate::source::TawsAlertSource;
use vstd::prelude::*;
use vstd::std_specs::convert::FromSpecImpl;

verus! {

/// An alert: the source that raised it and its severity.
#[derive(Copy, Debug, PartialEq, Eq)]
pub struct Alert<AlertSource: TawsAlertSource> {
    /// The source, that is the TAWS functionality, which emitted this alert.
    pub source: AlertSource,
    /// The severity of this alert.
    pub level: AlertLevel,
}

impl<AlertSource: TawsAlertSource> Alert<AlertSource> {
    /// Creates a new alert with the given source and level.
    pub fn new(source: AlertSource, level: AlertLevel) -> (alert: Self)
        ensures
            alert == (Alert { source, level }),
    {
        Alert { source, level }
    }

    /// The source of the alert.
    pub fn source(&self) -> (source: AlertSource)
        ensures
            source == self.source,
    {
        self.source
    }

    /// The severity of the alert.
    pub fn level(&self) -> (level: AlertLevel)
        ensures
            level == self.level,
    {
        self.level
    }
}

impl<AlertSource: TawsAlertSource> Clone for Alert<AlertSource> {
    fn clone(&self) -> (alert: Self)
        ensures
            alert == *self,
    {
        *self
    }
}

impl<AlertSource: TawsAlertSource> From<(AlertSource, AlertLevel)> for Alert<AlertSource> {
    fn from(alert: (AlertSource, AlertLevel)) -> (r: Self) {
        Self::new(alert.0, alert.1)
    }
}

impl<AlertSource: TawsAlertSource> FromSpecImpl<(AlertSource, AlertLevel)> for Alert<AlertSource> {
    open spec fn obeys_from_spec() -> bool {
        true
    }

    /// The pair's first component becomes the source, its second the level.
    open spec fn from_spec(alert: (AlertSource, AlertLevel)) -> Self {
        Alert { source: alert.0, level: alert.1 }
    }
}

impl<AlertSource: TawsAlertSource> From<Alert<AlertSource>> for (AlertSource, AlertLevel) {
    fn from(alert: Alert<AlertSource>) -> (r: Self) {
        (alert.source, alert.level)
    }
}

impl<AlertSource: TawsAlertSource> FromSpecImpl<Alert<AlertSource>> for (AlertSource, AlertLevel) {
    open spec fn obeys_from_spec() -> bool {
        true
    }

    /// The source becomes the pair's first component, the level its second.
    open spec fn from_spec(alert: Alert<AlertSource>) -> Self {
        (alert.source, alert.level)
    }
}

} // verus!
