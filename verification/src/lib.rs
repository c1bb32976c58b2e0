//! Alerting core of a Terrain Awareness and Warning System.
//!
//! A hazard function looks at the state of the aircraft once per tick and raises at most
//! one alert. The crate holds what lies between the hazard functions and the crew:
//!
//! - [`Envelope`]: the boundary over altitude and rate of descent beyond which a hazard
//!   exists;
//! - [`Alarm`] and [`FunctionalityProcessor`]: what every hazard function offers, with
//!   [`Mode1`] as the function that alerts on an excessive rate of descent;
//! - [`Alerts`]: the alerts that were raised, at most one per source, the most severe one;
//! - [`AlertSourcePrioritization`] and [`PrioritizedAlerts`]: the stored alerts that are
//!   to be presented, in the order of the priority of their sources.
//!
//! The collections have a fixed capacity and nothing in the crate allocates once the
//! envelopes and tables are made. Numbers are whole numbers throughout.

pub mod alarms;
pub mod alert;
pub mod alerts;
pub mod envelope;
pub mod level;
pub mod mode_1;
pub mod mode_2;
pub mod prioritization;
pub mod processor;
pub mod source;
pub mod state;
mod storage;

pub use alarms::Alarms;
pub use alert::Alert;
pub use alerts::{Alerts, AlertsIter};
pub use envelope::{Envelope, InvalidEnvelope};
pub use level::AlertLevel;
pub use mode_1::Mode1;
pub use mode_2::Mode2;
pub use prioritization::{AlertSourcePrioritization, PrioritizedAlerts};
pub use processor::{process_tick, Alarm, FunctionalityProcessor};
pub use source::{TawsAlertSource, MAX_NUM_ALERT_SOURCES};
pub use state::AircraftState;
