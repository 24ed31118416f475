use tower_game::bars::{player_health, tower_health, BarOwner, BarPair, Health};

#[test]
fn first_sync_makes_bars() {
    let mut o = BarOwner::new(Health { current: 60, max: 100 });
    assert!(o.sync());
    assert_eq!(
        o.bars,
        Some(BarPair { background_width: 100, foreground_width: 60 })
    );
}

#[test]
fn second_sync_makes_no_second_pair() {
    let mut o = BarOwner::new(Health::full(100));
    assert!(o.sync());
    let after_first = o;
    assert!(!o.sync());
    assert_eq!(o, after_first);
}

#[test]
fn foreground_follows_health_including_zero_and_max() {
    let mut o = BarOwner::new(Health::full(100));
    o.sync();
    for v in [0u32, 37, 100] {
        o.set_health(v);
        assert!(!o.sync());
        assert_eq!(
            o.bars,
            Some(BarPair { background_width: 100, foreground_width: v })
        );
    }
}

#[test]
fn health_is_clamped_to_max() {
    let mut h = Health::full(50);
    h.set_current(80);
    assert_eq!(h.current, 50);
    h.set_current(0);
    assert_eq!(h.current, 0);
}

#[test]
fn spawn_healths() {
    assert_eq!(player_health(), Health { current: 100, max: 100 });
    assert_eq!(tower_health(), Health { current: 240, max: 240 });
}
