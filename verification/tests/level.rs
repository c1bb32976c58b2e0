use opentaws::AlertLevel;

#[test]
fn ranks() {
    assert_eq!(AlertLevel::Warning.rank(), 0);
    assert_eq!(AlertLevel::Caution.rank(), 1);
    assert_eq!(AlertLevel::Annunciation.rank(), 2);
}

#[test]
fn levels_from_ranks() {
    assert_eq!(AlertLevel::from_rank(0), Some(AlertLevel::Warning));
    assert_eq!(AlertLevel::from_rank(1), Some(AlertLevel::Caution));
    assert_eq!(AlertLevel::from_rank(2), Some(AlertLevel::Annunciation));
    assert_eq!(AlertLevel::from_rank(3), None);
    assert_eq!(AlertLevel::from_rank(255), None);
}

#[test]
fn order_follows_rank() {
    let levels = [
        AlertLevel::Warning,
        AlertLevel::Caution,
        AlertLevel::Annunciation,
    ];
    for a in levels {
        for b in levels {
            assert_eq!(a < b, a.rank() < b.rank());
            assert_eq!(a <= b, a.rank() <= b.rank());
            assert_eq!(a > b, a.rank() > b.rank());
            assert_eq!(a >= b, a.rank() >= b.rank());
            assert_eq!(a == b, a.rank() == b.rank());
            assert_eq!(a.partial_cmp(&b), Some(a.rank().cmp(&b.rank())));
            assert_eq!(a.cmp(&b), a.rank().cmp(&b.rank()));
        }
    }
}
