//! The order in which stored alerts are presented.

use crate::alert::Alert;
use crate::alerts::{active_alert, Alerts, StoredAlerts};
use crate::level::AlertLevel;
use crate::source::{TawsAlertSource, MAX_NUM_ALERT_SOURCES};
use vstd::prelude::*;

verus! {

/// The alerts that a prioritization table selects from stored alerts: for each entry of the
/// table, in the order of the table, the alert of the entry's source if it is stored and at
/// least as severe as the entry's level.
pub open spec fn prioritized_alerts<AlertSource: TawsAlertSource>(
    table: Seq<(AlertSource, AlertLevel)>,
    alerts: StoredAlerts,
) -> Seq<Alert<AlertSource>> {
    table.filter_map(|entry: (AlertSource, AlertLevel)| active_alert(alerts, entry.0, entry.1))
}

/// The selected alerts are at most as many as the entries of the table.
pub proof fn lemma_prioritized_alerts_len<AlertSource: TawsAlertSource>(
    table: Seq<(AlertSource, AlertLevel)>,
    alerts: StoredAlerts,
)
    ensures
        prioritized_alerts(table, alerts).len() <= table.len(),
    decreases table.len(),
{
    if table.len() > 0 {
        lemma_prioritized_alerts_len(table.drop_last(), alerts);
    }
}

/// What a table selects after one more entry: what it selected before, and the alert of
/// the new entry's source if that is active at the entry's level.
proof fn lemma_prioritized_alerts_push<AlertSource: TawsAlertSource>(
    table: Seq<(AlertSource, AlertLevel)>,
    entry: (AlertSource, AlertLevel),
    alerts: StoredAlerts,
)
    ensures
        prioritized_alerts(table.push(entry), alerts) == match active_alert(
            alerts,
            entry.0,
            entry.1,
        ) {
            Some(alert) => prioritized_alerts(table, alerts).push(alert),
            None => prioritized_alerts(table, alerts),
        },
{
    let longer = table.push(entry);
    assert(longer.drop_last() =~= table);
    match active_alert(alerts, entry.0, entry.1) {
        Some(alert) => {
            assert(prioritized_alerts(table, alerts) + seq![alert] =~= prioritized_alerts(
                table,
                alerts,
            ).push(alert));
        },
        None => {},
    }
}

/// A prioritization table: the sources in the order of their priority, the first one
/// first, each with the least severe level at which its alert is presented.
///
/// A table has at most [`MAX_NUM_ALERT_SOURCES`] entries.
pub struct AlertSourcePrioritization<AlertSource: TawsAlertSource> {
    table: Vec<(AlertSource, AlertLevel)>,
}

impl<AlertSource: TawsAlertSource> View for AlertSourcePrioritization<AlertSource> {
    type V = Seq<(AlertSource, AlertLevel)>;

    /// The entries of the table, the one of the highest priority first.
    closed spec fn view(&self) -> Seq<(AlertSource, AlertLevel)> {
        self.table@
    }
}

impl<AlertSource: TawsAlertSource> AlertSourcePrioritization<AlertSource> {
    #[verifier::type_invariant]
    spec fn well_formed(&self) -> bool {
        self.table@.len() <= MAX_NUM_ALERT_SOURCES
    }

    /// Makes a table of the given entries, or returns `None` if they are more than
    /// [`MAX_NUM_ALERT_SOURCES`].
    pub fn new(table: Vec<(AlertSource, AlertLevel)>) -> (prioritization: Option<Self>)
        ensures
            match prioritization {
                Some(prioritization) => prioritization@ == table@ && table@.len()
                    <= MAX_NUM_ALERT_SOURCES,
                None => table@.len() > MAX_NUM_ALERT_SOURCES,
            },
    {
        if table.len() <= MAX_NUM_ALERT_SOURCES {
            Some(AlertSourcePrioritization { table })
        } else {
            None
        }
    }
}

/// The alerts to present, the one of the highest priority first.
pub struct PrioritizedAlerts<AlertSource: TawsAlertSource> {
    prioritized: [Option<Alert<AlertSource>>; MAX_NUM_ALERT_SOURCES],
    len: usize,
}

impl<AlertSource: TawsAlertSource> View for PrioritizedAlerts<AlertSource> {
    type V = Seq<Alert<AlertSource>>;

    /// The alerts to present, in the order of their priority.
    closed spec fn view(&self) -> Seq<Alert<AlertSource>> {
        Seq::new(self.len as nat, |i: int| self.prioritized@[i].unwrap())
    }
}

impl<AlertSource: TawsAlertSource> PrioritizedAlerts<AlertSource> {
    #[verifier::type_invariant]
    spec fn well_formed(&self) -> bool {
        &&& self.len <= MAX_NUM_ALERT_SOURCES
        &&& forall|i: int|
            0 <= i < MAX_NUM_ALERT_SOURCES ==> (i < self.len <==> (
            #[trigger] self.prioritized@[i]) is Some)
    }

    /// The alert at position `idx`, if there is one.
    pub open spec fn spec_index(&self, idx: usize) -> Option<Alert<AlertSource>> {
        if idx < self@.len() {
            Some(self@[idx as int])
        } else {
            None
        }
    }

    /// The alert at position `idx`: position 0 holds the alert of the highest priority.
    /// Returns `None` if there are not more than `idx` alerts.
    pub fn index(&self, idx: usize) -> (alert: Option<&Alert<AlertSource>>)
        ensures
            match alert {
                Some(alert) => self.spec_index(idx) == Some(*alert),
                None => self.spec_index(idx) is None,
            },
    {
        proof {
            use_type_invariant(self);
        }
        if idx >= MAX_NUM_ALERT_SOURCES {
            return None;
        }
        self.prioritized[idx].as_ref()
    }
}

impl<AlertSource: TawsAlertSource> Alerts<AlertSource> {
    /// Selects the stored alerts that are to be presented, and orders them by priority: for
    /// each entry of the table, in the order of the table, the alert of the entry's source
    /// if it is stored and at least as severe as the entry's level.
    pub fn prioritize(&self, prioritization: &AlertSourcePrioritization<AlertSource>) -> (
        prioritized: PrioritizedAlerts<AlertSource>)
        ensures
            prioritized@ == prioritized_alerts(prioritization@, self@),
            prioritized@.len() <= prioritization@.len() <= MAX_NUM_ALERT_SOURCES,
    {
        proof {
            use_type_invariant(prioritization);
        }
        let table = &prioritization.table;
        let mut slots: [Option<Alert<AlertSource>>; MAX_NUM_ALERT_SOURCES] =
            [None; MAX_NUM_ALERT_SOURCES];
        let mut count: usize = 0;
        let mut i: usize = 0;
        while i < table.len()
            invariant
                i <= table.len(),
                table.len() <= MAX_NUM_ALERT_SOURCES,
                count <= i,
                forall|k: int|
                    0 <= k < MAX_NUM_ALERT_SOURCES ==> (k < count <==> (
                    #[trigger] slots@[k]) is Some),
                Seq::new(count as nat, |k: int| slots@[k].unwrap()) == prioritized_alerts(
                    table@.take(i as int),
                    self@,
                ),
            decreases table.len() - i,
        {
            let entry = table[i];
            let ghost selected = Seq::new(count as nat, |k: int| slots@[k].unwrap());
            proof {
                assert(table@.take(i as int + 1) =~= table@.take(i as int).push(entry));
                lemma_prioritized_alerts_push(table@.take(i as int), entry, self@);
            }
            match self.get_min(entry.0, entry.1) {
                Some(alert) => {
                    slots[count] = Some(alert);
                    count = count + 1;
                    proof {
                        assert(Seq::new(count as nat, |k: int| slots@[k].unwrap())
                            =~= selected.push(alert));
                    }
                },
                None => {},
            }
            i = i + 1;
        }
        proof {
            assert(table@.take(i as int) =~= table@);
        }
        PrioritizedAlerts { prioritized: slots, len: count }
    }
}

/// Prioritizing the same stored alerts by the same table again gives the same alerts, at
/// the same positions.
pub proof fn lemma_prioritize_idempotent<AlertSource: TawsAlertSource>(
    first: PrioritizedAlerts<AlertSource>,
    second: PrioritizedAlerts<AlertSource>,
    table: Seq<(AlertSource, AlertLevel)>,
    alerts: StoredAlerts,
)
    requires
        first@ == prioritized_alerts(table, alerts),
        second@ == prioritized_alerts(table, alerts),
    ensures
        first@ == second@,
        forall|idx: usize| first.spec_index(idx) == second.spec_index(idx),
{
}

} // verus!
