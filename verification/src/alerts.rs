//! The collection of alerts: at most one per source, the most severe one.

use crate::alert::Alert;
use crate::level::AlertLevel;
use crate::source::{TawsAlertSource, MAX_NUM_ALERT_SOURCES};
use crate::storage::{map_entries, map_entry_at, map_get, map_insert, map_new, AlertMap};
use core::marker::PhantomData;
use vstd::pervasive::unreached;
use vstd::prelude::*;

verus! {

/// What a collection of alerts holds: the level of the alert of each source that has one,
/// by the ordinal of the source.
pub type StoredAlerts = Map<usize, AlertLevel>;

/// Whether `alerts` hold an alert for the source with ordinal `ordinal` that is at least as
/// severe as `threshold`.
pub open spec fn is_active(alerts: StoredAlerts, ordinal: usize, threshold: AlertLevel) -> bool {
    alerts.contains_key(ordinal) && alerts[ordinal].meets(threshold)
}

/// The alert of `source` as `alerts` hold it, if it is at least as severe as `threshold`.
pub open spec fn active_alert<AlertSource: TawsAlertSource>(
    alerts: StoredAlerts,
    source: AlertSource,
    threshold: AlertLevel,
) -> Option<Alert<AlertSource>> {
    if is_active(alerts, source.spec_ordinal(), threshold) {
        Some(Alert { source, level: alerts[source.spec_ordinal()] })
    } else {
        None
    }
}

/// The alerts after an alert of level `level` from the source with ordinal `ordinal` was
/// merged into `alerts`: the alert is dropped if the source has a strictly more severe one,
/// and takes the source's place otherwise.
pub open spec fn merged(alerts: StoredAlerts, ordinal: usize, level: AlertLevel) -> StoredAlerts {
    if alerts.contains_key(ordinal) && !level.meets(alerts[ordinal]) {
        alerts
    } else {
        alerts.insert(ordinal, level)
    }
}

/// The storage order after an alert from the source with ordinal `ordinal` was merged into
/// `alerts`, stored in the order `order`: a source that had no alert becomes the last one.
pub open spec fn merged_order(alerts: StoredAlerts, order: Seq<usize>, ordinal: usize) -> Seq<
    usize,
> {
    if alerts.contains_key(ordinal) {
        order
    } else {
        order.push(ordinal)
    }
}

/// Whether `order` lists the sources that have an alert in `alerts`, each of them once: the
/// storage order of every collection does.
pub open spec fn lists_each_once(order: Seq<usize>, alerts: StoredAlerts) -> bool {
    &&& order.no_duplicates()
    &&& order.len() <= MAX_NUM_ALERT_SOURCES
    &&& forall|ordinal: usize| order.contains(ordinal) <==> alerts.contains_key(ordinal)
}

/// Whether some source has the ordinal `ordinal`.
spec fn has_source<AlertSource: TawsAlertSource>(ordinal: usize) -> bool {
    exists|source: AlertSource| #[trigger] source.spec_ordinal() == ordinal
}

/// The level that a rank stored in the map stands for.
spec fn level_of(rank: u8) -> AlertLevel {
    AlertLevel::spec_from_rank(rank).unwrap()
}

/// Whether position `i` of the map's entries holds the key `key`.
spec fn key_at(raw: Seq<(usize, u8)>, key: usize, i: int) -> bool {
    0 <= i < raw.len() && raw[i].0 == key
}

/// The stored alerts that the entries of the map stand for.
spec fn alerts_of(raw: Seq<(usize, u8)>) -> StoredAlerts {
    Map::new(
        |key: usize| exists|i: int| key_at(raw, key, i),
        |key: usize| level_of(raw[choose|i: int| key_at(raw, key, i)].1),
    )
}

/// The keys of the map's entries, in the order of the entries.
spec fn order_of(raw: Seq<(usize, u8)>) -> Seq<usize> {
    Seq::new(raw.len(), |i: int| raw[i].0)
}

/// No key occurs twice.
spec fn distinct_keys(raw: Seq<(usize, u8)>) -> bool {
    forall|i: int, j: int| 0 <= i < j < raw.len() ==> raw[i].0 != raw[j].0
}

/// What holds of the entries of the map of every collection: no key occurs twice, and each
/// entry holds the ordinal of some source and the rank of some level.
spec fn valid_entries<AlertSource: TawsAlertSource>(raw: Seq<(usize, u8)>) -> bool {
    &&& distinct_keys(raw)
    &&& forall|i: int|
        0 <= i < raw.len() ==> {
            &&& (#[trigger] raw[i]).0 < MAX_NUM_ALERT_SOURCES
            &&& raw[i].1 <= 2
            &&& has_source::<AlertSource>(raw[i].0)
        }
}

/// Entries with pairwise different keys below `bound` are at most `bound` many.
proof fn lemma_distinct_keys_fit(raw: Seq<(usize, u8)>, bound: nat)
    requires
        distinct_keys(raw),
        forall|i: int| 0 <= i < raw.len() ==> (#[trigger] raw[i]).0 < bound,
    ensures
        raw.len() <= bound,
    decreases bound,
{
    if raw.len() == 0 {
    } else if bound == 0 {
        assert(raw[0].0 < bound);
    } else {
        let top = (bound - 1) as nat;
        if exists|i: int| 0 <= i < raw.len() && (#[trigger] raw[i]).0 == top {
            let at = choose|i: int| 0 <= i < raw.len() && (#[trigger] raw[i]).0 == top;
            let rest = raw.remove(at);
            // Without the entry that holds `top`, the keys lie below `top`.
            lemma_distinct_keys_fit(rest, top);
        } else {
            lemma_distinct_keys_fit(raw, top);
        }
    }
}

/// Where the keys are pairwise different, the entry of a key gives its stored level.
proof fn lemma_key_found(raw: Seq<(usize, u8)>, key: usize, i: int)
    requires
        distinct_keys(raw),
        key_at(raw, key, i),
    ensures
        alerts_of(raw).contains_key(key),
        alerts_of(raw)[key] == level_of(raw[i].1),
{
}

/// A key that no entry holds has no stored level, and there is room for it.
proof fn lemma_key_missing(raw: Seq<(usize, u8)>, key: usize)
    requires
        distinct_keys(raw),
        forall|i: int| 0 <= i < raw.len() ==> (#[trigger] raw[i]).0 < MAX_NUM_ALERT_SOURCES,
        forall|i: int| 0 <= i < raw.len() ==> (#[trigger] raw[i]).0 != key,
        key < MAX_NUM_ALERT_SOURCES,
    ensures
        !alerts_of(raw).contains_key(key),
        raw.len() < MAX_NUM_ALERT_SOURCES,
{
    // With the key appended, the keys are still pairwise different and in range.
    lemma_distinct_keys_fit(raw.push((key, 0u8)), MAX_NUM_ALERT_SOURCES as nat);
}

/// What the map stands for after the value of the key at position `at` was set to `rank`.
proof fn lemma_entry_updated(raw: Seq<(usize, u8)>, at: int, key: usize, rank: u8)
    requires
        distinct_keys(raw),
        key_at(raw, key, at),
    ensures
        distinct_keys(raw.update(at, (key, rank))),
        alerts_of(raw.update(at, (key, rank))) == alerts_of(raw).insert(key, level_of(rank)),
        order_of(raw.update(at, (key, rank))) == order_of(raw),
{
    let after = raw.update(at, (key, rank));
    assert forall|other: usize|
        alerts_of(after).contains_key(other) <==> alerts_of(raw).insert(
            key,
            level_of(rank),
        ).contains_key(other) by {
        if alerts_of(after).contains_key(other) {
            let p = choose|p: int| key_at(after, other, p);
            assert(key_at(raw, other, p));
        }
        if alerts_of(raw).contains_key(other) {
            let p = choose|p: int| key_at(raw, other, p);
            assert(key_at(after, other, p));
        }
    }
    assert forall|other: usize| alerts_of(after).contains_key(other) implies alerts_of(
        after,
    )[other] == alerts_of(raw).insert(key, level_of(rank))[other] by {
        let p = choose|p: int| key_at(after, other, p);
        lemma_key_found(after, other, p);
        if other != key {
            lemma_key_found(raw, other, p);
        } else {
            lemma_key_found(after, key, at);
        }
    }
}

/// What the map stands for after an entry with a new key was appended.
proof fn lemma_entry_appended(raw: Seq<(usize, u8)>, key: usize, rank: u8)
    requires
        distinct_keys(raw),
        forall|i: int| 0 <= i < raw.len() ==> (#[trigger] raw[i]).0 != key,
    ensures
        distinct_keys(raw.push((key, rank))),
        alerts_of(raw.push((key, rank))) == alerts_of(raw).insert(key, level_of(rank)),
        order_of(raw.push((key, rank))) == order_of(raw).push(key),
{
    let after = raw.push((key, rank));
    let last = raw.len() as int;
    assert(key_at(after, key, last));
    assert forall|other: usize|
        alerts_of(after).contains_key(other) <==> alerts_of(raw).insert(
            key,
            level_of(rank),
        ).contains_key(other) by {
        if alerts_of(after).contains_key(other) && other != key {
            let p = choose|p: int| key_at(after, other, p);
            assert(key_at(raw, other, p));
        }
        if alerts_of(raw).contains_key(other) {
            let p = choose|p: int| key_at(raw, other, p);
            assert(key_at(after, other, p));
        }
    }
    assert forall|other: usize| alerts_of(after).contains_key(other) implies alerts_of(
        after,
    )[other] == alerts_of(raw).insert(key, level_of(rank))[other] by {
        let p = choose|p: int| key_at(after, other, p);
        lemma_key_found(after, other, p);
        if other != key {
            lemma_key_found(raw, other, p);
        } else {
            lemma_key_found(after, key, last);
        }
    }
}

/// A set of alerts, at most one for each source: the most severe one that was inserted.
///
/// The collection has room for as many alerts as there can be sources, so that an
/// insertion never fails for want of room.
#[derive(Debug)]
pub struct Alerts<AlertSource: TawsAlertSource> {
    alerts: AlertMap,
    sources: PhantomData<AlertSource>,
}

impl<AlertSource: TawsAlertSource> View for Alerts<AlertSource> {
    type V = StoredAlerts;

    /// The level of the alert that is stored for each source, by the source's ordinal.
    closed spec fn view(&self) -> StoredAlerts {
        alerts_of(map_entries(self.alerts))
    }
}

impl<AlertSource: TawsAlertSource> Default for Alerts<AlertSource> {
    /// The empty collection.
    fn default() -> (alerts: Self)
        ensures
            alerts@ == Map::<usize, AlertLevel>::empty(),
            alerts.storage_order() == Seq::<usize>::empty(),
    {
        Alerts { alerts: map_new(), sources: PhantomData }
    }
}

impl<AlertSource: TawsAlertSource> Alerts<AlertSource> {
    #[verifier::type_invariant]
    spec fn well_formed(&self) -> bool {
        valid_entries::<AlertSource>(map_entries(self.alerts))
    }

    /// The ordinals of the sources that have an alert, in storage order: a source takes its
    /// place when its first alert is stored, and keeps it.
    pub closed spec fn storage_order(&self) -> Seq<usize> {
        order_of(map_entries(self.alerts))
    }

    /// The alert that is stored for `alert_src`, or `None` if none is.
    pub fn get(&self, alert_src: AlertSource) -> (alert: Option<Alert<AlertSource>>)
        ensures
            alert == match self@.get(alert_src.spec_ordinal()) {
                Some(level) => Some(Alert { source: alert_src, level }),
                None => None,
            },
    {
        proof {
            use_type_invariant(self);
        }
        let ghost raw = map_entries(self.alerts);
        let key: usize = alert_src.ordinal();
        match map_get(&self.alerts, key) {
            Some(rank) => {
                proof {
                    let i = choose|i: int| 0 <= i < raw.len() && raw[i] == (key, rank);
                    lemma_key_found(raw, key, i);
                }
                match AlertLevel::from_rank(rank) {
                    Some(level) => Some(Alert::new(alert_src, level)),
                    None => unreached(),
                }
            },
            None => {
                proof {
                    lemma_key_missing(raw, key);
                }
                None
            },
        }
    }

    /// Merges `new_alert` into the collection. The alert is stored if none is stored for
    /// its source, or if the stored one is not more severe than it; otherwise the
    /// collection is left as it is.
    pub fn insert(&mut self, new_alert: Alert<AlertSource>)
        ensures
            final(self)@ == merged(old(self)@, new_alert.source.spec_ordinal(), new_alert.level),
            final(self).storage_order() == merged_order(
                old(self)@,
                old(self).storage_order(),
                new_alert.source.spec_ordinal(),
            ),
    {
        proof {
            use_type_invariant(&*self);
        }
        let ghost raw = map_entries(self.alerts);
        let key: usize = new_alert.source.ordinal();
        let rank: u8 = new_alert.level.rank();
        let current = map_get(&self.alerts, key);
        let replaces = match current {
            Some(stored) => rank <= stored,
            None => true,
        };
        proof {
            new_alert.level.lemma_rank_round_trip();
            match current {
                Some(stored) => {
                    let i = choose|i: int| 0 <= i < raw.len() && raw[i] == (key, stored);
                    lemma_key_found(raw, key, i);
                },
                None => {
                    lemma_key_missing(raw, key);
                },
            }
        }
        if replaces {
            let result = map_insert(&mut self.alerts, key, rank);
            proof {
                let after = map_entries(self.alerts);
                // The new entry holds the ordinal of the alert's source.
                assert(has_source::<AlertSource>(key));
                match result {
                    Ok(Some(replaced)) => {
                        let i = choose|i: int|
                            0 <= i < raw.len() && #[trigger] raw[i] == (key, replaced) && after
                                == raw.update(i, (key, rank));
                        lemma_entry_updated(raw, i, key, rank);
                    },
                    Ok(None) => {
                        lemma_entry_appended(raw, key, rank);
                    },
                    Err(_) => {},
                }
            }
            // The collection has room for every source: see `lemma_key_missing`.
            if result.is_err() {
                unreached::<()>();
            }
        }
    }

    /// Whether an alert is stored for `alert_src` that is at least as severe as
    /// `min_level`.
    pub fn is_alert_active(&self, alert_src: AlertSource, min_level: AlertLevel) -> (active: bool)
        ensures
            active == is_active(self@, alert_src.spec_ordinal(), min_level),
    {
        match self.get(alert_src) {
            Some(alert) => alert.level.rank() <= min_level.rank(),
            None => false,
        }
    }

    /// The alert that is stored for `alert_src` if it is at least as severe as `min_level`,
    /// and `None` otherwise.
    pub fn get_min(&self, alert_src: AlertSource, min_level: AlertLevel) -> (alert: Option<
        Alert<AlertSource>,
    >)
        ensures
            alert == active_alert(self@, alert_src, min_level),
    {
        match self.get(alert_src) {
            Some(alert) => {
                if alert.level.rank() <= min_level.rank() {
                    Some(alert)
                } else {
                    None
                }
            },
            None => None,
        }
    }

    /// Starts a walk through the stored alerts, in storage order. The walk meets each
    /// source that has an alert once.
    pub fn into_iter(&self) -> (iter: AlertsIter<'_, AlertSource>)
        ensures
            iter.alerts() == self@,
            iter.remaining() == self.storage_order(),
            lists_each_once(self.storage_order(), self@),
    {
        AlertsIter::new(self)
    }
}

/// A walk through the alerts of a collection, in storage order.
pub struct AlertsIter<'a, AlertSource: TawsAlertSource> {
    alerts: &'a Alerts<AlertSource>,
    position: usize,
}

impl<'a, AlertSource: TawsAlertSource> AlertsIter<'a, AlertSource> {
    #[verifier::type_invariant]
    spec fn well_formed(&self) -> bool {
        self.position <= map_entries(self.alerts.alerts).len()
    }

    /// The alerts of the collection that is walked through.
    pub closed spec fn alerts(&self) -> StoredAlerts {
        self.alerts@
    }

    /// The ordinals of the sources whose alerts the walk has not reached yet, in the order
    /// in which it will reach them.
    pub closed spec fn remaining(&self) -> Seq<usize> {
        self.alerts.storage_order().skip(self.position as int)
    }

    /// A walk that starts at the first stored alert of `alerts`.
    fn new(alerts: &'a Alerts<AlertSource>) -> (iter: Self)
        ensures
            iter.alerts() == alerts@,
            iter.remaining() == alerts.storage_order(),
            lists_each_once(alerts.storage_order(), alerts@),
    {
        proof {
            use_type_invariant(alerts);
            let raw = map_entries(alerts.alerts);
            let order = order_of(raw);
            lemma_distinct_keys_fit(raw, MAX_NUM_ALERT_SOURCES as nat);
            assert forall|ordinal: usize| order.contains(ordinal) <==> alerts@.contains_key(
                ordinal,
            ) by {
                if order.contains(ordinal) {
                    let i = choose|i: int| 0 <= i < order.len() && order[i] == ordinal;
                    assert(key_at(raw, ordinal, i));
                }
                if alerts@.contains_key(ordinal) {
                    let i = choose|i: int| key_at(raw, ordinal, i);
                    assert(order[i] == ordinal);
                }
            }
        }
        AlertsIter { alerts, position: 0 }
    }

    /// The next stored alert, or `None` when the walk has reached the end.
    pub fn next(&mut self) -> (alert: Option<Alert<AlertSource>>)
        ensures
            final(self).alerts() == old(self).alerts(),
            match alert {
                Some(alert) => {
                    &&& old(self).remaining().len() > 0
                    &&& alert.source.spec_ordinal() == old(self).remaining()[0]
                    &&& old(self).alerts().contains_key(old(self).remaining()[0])
                    &&& alert.level == old(self).alerts()[old(self).remaining()[0]]
                    &&& final(self).remaining() == old(self).remaining().skip(1)
                },
                None => old(self).remaining().len() == 0 && final(self).remaining() == old(
                    self,
                ).remaining(),
            },
    {
        proof {
            use_type_invariant(&*self);
            use_type_invariant(self.alerts);
        }
        let ghost raw = map_entries(self.alerts.alerts);
        let ghost order = order_of(raw);
        let ghost at = self.position as int;
        match map_entry_at(&self.alerts.alerts, self.position) {
            Some((key, rank)) => {
                proof {
                    lemma_distinct_keys_fit(raw, MAX_NUM_ALERT_SOURCES as nat);
                    lemma_key_found(raw, key, at);
                }
                match (AlertSource::from_ordinal(key), AlertLevel::from_rank(rank)) {
                    (Some(source), Some(level)) => {
                        self.position = self.position + 1;
                        Some(Alert::new(source, level))
                    },
                    _ => {
                        // Every stored ordinal is that of a source, and every stored
                        // rank that of a level.
                        unreached()
                    },
                }
            },
            None => None,
        }
    }
}

/// Of two alerts of one source, the more severe one stays: merging the less severe alert
/// after the more severe one changes nothing, and merging the more severe alert after the
/// less severe one leaves the more severe one stored.
pub proof fn lemma_most_severe_wins(
    alerts: StoredAlerts,
    ordinal: usize,
    severe: AlertLevel,
    mild: AlertLevel,
)
    requires
        severe.spec_rank() < mild.spec_rank(),
    ensures
        merged(merged(alerts, ordinal, severe), ordinal, mild) == merged(alerts, ordinal, severe),
        merged(alerts, ordinal, mild)[ordinal] == mild ==> merged(
            merged(alerts, ordinal, mild),
            ordinal,
            severe,
        )[ordinal] == severe,
        !alerts.contains_key(ordinal) ==> {
            &&& merged(merged(alerts, ordinal, severe), ordinal, mild)[ordinal] == severe
            &&& merged(merged(alerts, ordinal, mild), ordinal, severe)[ordinal] == severe
        },
{
}

/// After a merge the source has an alert: the more severe of the merged one and the one
/// that was stored. The alerts of the other sources are as before.
pub proof fn lemma_merged(alerts: StoredAlerts, ordinal: usize, level: AlertLevel)
    ensures
        merged(alerts, ordinal, level).contains_key(ordinal),
        merged(alerts, ordinal, level)[ordinal] == (if alerts.contains_key(ordinal)
            && !level.meets(alerts[ordinal]) {
            alerts[ordinal]
        } else {
            level
        }),
        merged(alerts, ordinal, level)[ordinal].meets(level),
        forall|other: usize|
            other != ordinal ==> merged(alerts, ordinal, level).get(other) == alerts.get(other),
{
}

/// An alert that is active at a threshold is active at every less severe threshold.
pub proof fn lemma_active_monotonic(
    alerts: StoredAlerts,
    ordinal: usize,
    threshold: AlertLevel,
    milder: AlertLevel,
)
    requires
        is_active(alerts, ordinal, threshold),
        threshold.spec_rank() <= milder.spec_rank(),
    ensures
        is_active(alerts, ordinal, milder),
{
}

} // verus!
