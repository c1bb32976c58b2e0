use opentaws::{
    Alert, AlertLevel, AlertSourcePrioritization, Alerts, TawsAlertSource, MAX_NUM_ALERT_SOURCES,
};

/// A source set that is as large as a collection of alerts.
#[derive(Copy, Clone, Debug, PartialEq, Eq)]
struct Wide(usize);

impl TawsAlertSource for Wide {
    fn spec_ordinal(self) -> usize {
        self.0
    }

    fn lemma_ordinal_injective(_a: Self, _b: Self) {}

    fn ordinal(&self) -> usize {
        self.0
    }

    fn from_ordinal(ordinal: usize) -> Option<Self> {
        if ordinal < MAX_NUM_ALERT_SOURCES {
            Some(Wide(ordinal))
        } else {
            None
        }
    }
}

fn level_for(ordinal: usize) -> AlertLevel {
    AlertLevel::from_rank((ordinal % 3) as u8).unwrap()
}

#[test]
fn capacity_is_64() {
    assert_eq!(MAX_NUM_ALERT_SOURCES, 64);
}

#[test]
fn every_source_has_room() {
    let mut alerts: Alerts<Wide> = Alerts::default();
    // Descending, so that the storage order differs from the order of the ordinals.
    for ordinal in (0..MAX_NUM_ALERT_SOURCES).rev() {
        alerts.insert(Alert::new(Wide(ordinal), level_for(ordinal)));
    }
    for ordinal in 0..MAX_NUM_ALERT_SOURCES {
        assert_eq!(
            alerts.get(Wide(ordinal)),
            Some(Alert::new(Wide(ordinal), level_for(ordinal)))
        );
    }
    // A full collection still takes alerts of the sources that it holds.
    for ordinal in 0..MAX_NUM_ALERT_SOURCES {
        alerts.insert(Alert::new(Wide(ordinal), AlertLevel::Warning));
    }
    let mut iter = alerts.into_iter();
    for ordinal in (0..MAX_NUM_ALERT_SOURCES).rev() {
        assert_eq!(
            iter.next(),
            Some(Alert::new(Wide(ordinal), AlertLevel::Warning))
        );
    }
    assert_eq!(iter.next(), None);
}

#[test]
fn prioritized_alerts_can_fill_every_slot() {
    let mut alerts: Alerts<Wide> = Alerts::default();
    let mut table = Vec::new();
    for ordinal in 0..MAX_NUM_ALERT_SOURCES {
        alerts.insert(Alert::new(Wide(ordinal), AlertLevel::Caution));
        table.push((Wide(MAX_NUM_ALERT_SOURCES - 1 - ordinal), AlertLevel::Caution));
    }
    let table = AlertSourcePrioritization::new(table).unwrap();
    let prioritized = alerts.prioritize(&table);
    for idx in 0..MAX_NUM_ALERT_SOURCES {
        assert_eq!(
            prioritized.index(idx),
            Some(&Alert::new(
                Wide(MAX_NUM_ALERT_SOURCES - 1 - idx),
                AlertLevel::Caution
            ))
        );
    }
    assert_eq!(prioritized.index(MAX_NUM_ALERT_SOURCES), None);
}
