use opentaws::{
    process_tick, AircraftState, Alarm, Alarms, Alert, AlertLevel, AlertSourcePrioritization,
    Alerts, Envelope, FunctionalityProcessor, Mode1, Mode2, TawsAlertSource,
};

fn state(altitude_ground: i32, rate_of_descent: i32, steep_approach: bool) -> AircraftState {
    AircraftState {
        timestamp: 0,
        altitude_ground,
        climb_rate: -rate_of_descent,
        steep_approach,
    }
}

fn caution() -> Option<Alert<Alarms>> {
    Some(Alert::new(Alarms::Mode1, AlertLevel::Caution))
}

fn warning() -> Option<Alert<Alarms>> {
    Some(Alert::new(Alarms::Mode1, AlertLevel::Warning))
}

#[test]
fn mode_1_is_armed_and_not_inhibited_at_first() {
    let mode_1 = Mode1::default();
    assert!(mode_1.is_armed());
    assert!(!mode_1.is_inhibited());
}

#[test]
fn inhibit_and_uninhibit() {
    let mut mode_1 = Mode1::default();
    mode_1.inhibit();
    assert!(mode_1.is_inhibited());
    assert!(mode_1.is_armed());
    mode_1.inhibit();
    assert!(mode_1.is_inhibited());
    mode_1.uninhibit();
    assert!(!mode_1.is_inhibited());
    assert!(mode_1.is_armed());
    mode_1.uninhibit();
    assert!(!mode_1.is_inhibited());
}

#[test]
fn low_altitude_with_high_rate_of_descent() {
    // The point lies within the warning envelope ...
    let warning_envelope =
        Envelope::new(vec![(1600, 100), (1850, 300), (10100, 1958), (10101, 1958)]).unwrap();
    assert!(warning_envelope.contains(100, 1500));
    // ... and within the caution envelope, which is tested first.
    let caution_envelope =
        Envelope::new(vec![(1560, 100), (2200, 630), (5700, 2200), (5701, 2200)]).unwrap();
    assert!(caution_envelope.contains(100, 1500));
    let mut mode_1 = Mode1::default();
    assert_eq!(mode_1.process(&state(100, 1500, false)), caution());
}

#[test]
fn within_the_warning_envelope_only() {
    let mut mode_1 = Mode1::default();
    assert_eq!(mode_1.process(&state(3000, 700, false)), warning());
}

#[test]
fn normal_approach_boundaries() {
    let mut mode_1 = Mode1::default();
    // At 3000 ft the caution boundary is 630 + 1570 * 800 / 3500 = 988.86 ft/min, the
    // warning boundary 300 + 1658 * 1150 / 8250 = 531.12 ft/min.
    assert_eq!(mode_1.process(&state(3000, 989, false)), caution());
    assert_eq!(mode_1.process(&state(3000, 988, false)), warning());
    assert_eq!(mode_1.process(&state(3000, 532, false)), warning());
    assert_eq!(mode_1.process(&state(3000, 531, false)), None);
    // Up to 1560 ft both boundaries are at 100 ft/min.
    assert_eq!(mode_1.process(&state(0, 100, false)), caution());
    assert_eq!(mode_1.process(&state(0, 99, false)), None);
    assert_eq!(mode_1.process(&state(1560, 100, false)), caution());
    assert_eq!(mode_1.process(&state(1560, 99, false)), None);
    // From 5700 ft on the caution boundary stays at 2200 ft/min.
    assert_eq!(mode_1.process(&state(5700, 2200, false)), caution());
    assert_eq!(mode_1.process(&state(5701, 2200, false)), caution());
    assert_eq!(mode_1.process(&state(20000, 2200, false)), caution());
    assert_eq!(mode_1.process(&state(20000, 2199, false)), warning());
    // From 10100 ft on the warning boundary stays at 1958 ft/min.
    assert_eq!(mode_1.process(&state(20000, 1958, false)), warning());
    assert_eq!(mode_1.process(&state(20000, 1957, false)), None);
}

#[test]
fn steep_approach_boundaries() {
    let mut mode_1 = Mode1::default();
    // At 2000 ft the caution boundary for a steep approach is
    // 300 + 778 * 56 / 1289 = 333.80 ft/min.
    assert_eq!(mode_1.process(&state(2000, 400, true)), caution());
    assert_eq!(mode_1.process(&state(2000, 334, true)), caution());
    // The warning boundary for a steep approach is 150 + 150 * 92 / 142 = 247.18 ft/min.
    assert_eq!(mode_1.process(&state(2000, 333, true)), warning());
    assert_eq!(mode_1.process(&state(2000, 248, true)), warning());
    assert_eq!(mode_1.process(&state(2000, 247, true)), None);
    // Without the steep approach the same state is within the warning envelope only.
    assert_eq!(mode_1.process(&state(2000, 400, false)), warning());
    // Up to 1798 ft both boundaries for a steep approach are at 150 ft/min.
    assert_eq!(mode_1.process(&state(100, 150, true)), caution());
    assert_eq!(mode_1.process(&state(100, 149, true)), None);
    assert_eq!(mode_1.process(&state(100, 149, false)), caution());
    // At 5000 ft: caution from 1078 + 997 * 1767 / 2993 = 1666.61 ft/min, warning from
    // 300 + 1658 * 2950 / 8250 = 892.86 ft/min.
    assert_eq!(mode_1.process(&state(5000, 1667, true)), caution());
    assert_eq!(mode_1.process(&state(5000, 1666, true)), warning());
    assert_eq!(mode_1.process(&state(5000, 893, true)), warning());
    assert_eq!(mode_1.process(&state(5000, 892, true)), None);
}

#[test]
fn climbing_aircraft_raises_nothing() {
    let mut mode_1 = Mode1::default();
    for altitude in [i32::MIN, -100, 0, 100, 3000, 20000, i32::MAX] {
        for steep_approach in [false, true] {
            let climbing = AircraftState {
                timestamp: 7,
                altitude_ground: altitude,
                climb_rate: 500,
                steep_approach,
            };
            assert_eq!(mode_1.process(&climbing), None);
            let level = AircraftState {
                climb_rate: 0,
                ..climbing
            };
            assert_eq!(mode_1.process(&level), None);
        }
    }
}

#[test]
fn extreme_rates() {
    let mut mode_1 = Mode1::default();
    let falling = AircraftState {
        timestamp: 0,
        altitude_ground: 3000,
        climb_rate: i32::MIN,
        steep_approach: false,
    };
    assert_eq!(mode_1.process(&falling), caution());
    let rising = AircraftState {
        climb_rate: i32::MAX,
        ..falling
    };
    assert_eq!(mode_1.process(&rising), None);
}

#[test]
fn process_leaves_the_flags_alone() {
    let mut mode_1 = Mode1::default();
    assert_eq!(mode_1.process(&state(100, 1500, false)), caution());
    assert!(mode_1.is_armed());
    assert!(!mode_1.is_inhibited());
    mode_1.inhibit();
    assert_eq!(mode_1.process(&state(100, 1500, false)), None);
    assert!(mode_1.is_armed());
    assert!(mode_1.is_inhibited());
}

#[test]
fn inhibited_mode_1_raises_nothing() {
    let mut mode_1 = Mode1::default();
    mode_1.inhibit();
    assert_eq!(mode_1.process(&state(100, 1500, false)), None);
    assert_eq!(mode_1.process(&state(3000, 700, false)), None);
    assert_eq!(mode_1.process(&state(2000, 400, true)), None);
    mode_1.uninhibit();
    assert_eq!(mode_1.process(&state(3000, 700, false)), warning());
}

#[test]
fn tick_merges_the_alert() {
    let mut mode_1 = Mode1::default();
    let mut alerts: Alerts<Alarms> = Alerts::default();
    process_tick(&mut mode_1, &state(3000, 500, false), &mut alerts);
    assert_eq!(alerts.get(Alarms::Mode1), None);
    process_tick(&mut mode_1, &state(3000, 989, false), &mut alerts);
    assert_eq!(alerts.get(Alarms::Mode1), caution());
    process_tick(&mut mode_1, &state(3000, 700, false), &mut alerts);
    assert_eq!(alerts.get(Alarms::Mode1), warning());
    // A less severe alert does not take the place of the stored one.
    process_tick(&mut mode_1, &state(3000, 989, false), &mut alerts);
    assert_eq!(alerts.get(Alarms::Mode1), warning());
    process_tick(&mut mode_1, &state(3000, 0, false), &mut alerts);
    assert_eq!(alerts.get(Alarms::Mode1), warning());
    assert_eq!(alerts.get(Alarms::Mode2), None);
    assert_eq!(alerts.get(Alarms::FLTA), None);
}

#[test]
fn tick_passes_over_an_inhibited_function() {
    let mut mode_1 = Mode1::default();
    let mut alerts: Alerts<Alarms> = Alerts::default();
    mode_1.inhibit();
    process_tick(&mut mode_1, &state(100, 1500, false), &mut alerts);
    assert_eq!(alerts.get(Alarms::Mode1), None);
    assert!(alerts.into_iter().next().is_none());
    assert!(mode_1.is_inhibited());
    mode_1.uninhibit();
    process_tick(&mut mode_1, &state(100, 1500, false), &mut alerts);
    assert_eq!(alerts.get(Alarms::Mode1), caution());
}

/// A function that counts how often it is asked to look at a state.
struct Counting {
    armed: bool,
    inhibited: bool,
    calls: usize,
}

impl Alarm for Counting {
    fn armed(&self) -> bool {
        self.armed
    }

    fn inhibited(&self) -> bool {
        self.inhibited
    }

    fn is_armed(&self) -> bool {
        self.armed
    }

    fn is_inhibited(&self) -> bool {
        self.inhibited
    }

    fn inhibit(&mut self) {
        self.inhibited = true;
    }

    fn uninhibit(&mut self) {
        self.inhibited = false;
    }
}

impl FunctionalityProcessor for Counting {
    fn raises(&self, _state: AircraftState) -> Option<Alert<Alarms>> {
        Some(Alert::new(Alarms::FLTA, AlertLevel::Warning))
    }

    fn process(&mut self, state: &AircraftState) -> Option<Alert<Alarms>> {
        self.calls += 1;
        self.raises(*state)
    }
}

#[test]
fn tick_does_not_call_an_inhibited_or_unarmed_function() {
    let mut alerts: Alerts<Alarms> = Alerts::default();
    let mut inhibited = Counting { armed: true, inhibited: true, calls: 0 };
    process_tick(&mut inhibited, &state(0, 0, false), &mut alerts);
    assert_eq!(inhibited.calls, 0);
    assert_eq!(alerts.get(Alarms::FLTA), None);

    let mut unarmed = Counting { armed: false, inhibited: false, calls: 0 };
    process_tick(&mut unarmed, &state(0, 0, false), &mut alerts);
    assert_eq!(unarmed.calls, 0);
    assert_eq!(alerts.get(Alarms::FLTA), None);

    let mut active = Counting { armed: true, inhibited: false, calls: 0 };
    process_tick(&mut active, &state(0, 0, false), &mut alerts);
    assert_eq!(active.calls, 1);
    assert_eq!(
        alerts.get(Alarms::FLTA),
        Some(Alert::new(Alarms::FLTA, AlertLevel::Warning))
    );
}

#[test]
fn mode_2_is_never_armed() {
    let mut mode_2 = Mode2();
    assert!(!mode_2.is_armed());
    assert!(!mode_2.is_inhibited());
    mode_2.inhibit();
    assert!(!mode_2.is_armed());
    mode_2.uninhibit();
    assert!(!mode_2.is_armed());
    assert!(!mode_2.is_inhibited());
    assert_eq!(mode_2.process(&state(100, 1500, false)), None);
    let mut alerts: Alerts<Alarms> = Alerts::default();
    process_tick(&mut mode_2, &state(100, 1500, false), &mut alerts);
    assert!(alerts.into_iter().next().is_none());
}

#[test]
fn alarms_are_sources() {
    assert_eq!(Alarms::Mode1.ordinal(), 0);
    assert_eq!(Alarms::Mode2.ordinal(), 1);
    assert_eq!(Alarms::FLTA.ordinal(), 2);
    assert_eq!(Alarms::from_ordinal(0), Some(Alarms::Mode1));
    assert_eq!(Alarms::from_ordinal(1), Some(Alarms::Mode2));
    assert_eq!(Alarms::from_ordinal(2), Some(Alarms::FLTA));
    assert_eq!(Alarms::from_ordinal(3), None);
    assert_eq!(Alarms::from_ordinal(usize::MAX), None);
}

#[test]
fn alerts_of_the_functions_are_prioritized() {
    let table = AlertSourcePrioritization::new(vec![
        (Alarms::FLTA, AlertLevel::Caution),
        (Alarms::Mode1, AlertLevel::Warning),
        (Alarms::Mode2, AlertLevel::Caution),
    ])
    .unwrap();
    let mut mode_1 = Mode1::default();
    let mut alerts: Alerts<Alarms> = Alerts::default();
    process_tick(&mut mode_1, &state(3000, 989, false), &mut alerts);
    // A caution of Mode 1 stays below the threshold of its slot.
    assert_eq!(alerts.prioritize(&table).index(0), None);
    process_tick(&mut mode_1, &state(3000, 700, false), &mut alerts);
    alerts.insert(Alert::new(Alarms::FLTA, AlertLevel::Caution));
    let prioritized = alerts.prioritize(&table);
    assert_eq!(
        prioritized.index(0),
        Some(&Alert::new(Alarms::FLTA, AlertLevel::Caution))
    );
    assert_eq!(
        prioritized.index(1),
        Some(&Alert::new(Alarms::Mode1, AlertLevel::Warning))
    );
    assert_eq!(prioritized.index(2), None);
}
