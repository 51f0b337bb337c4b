use hsv_pwm::debounce::{Debouncer, DEBOUNCE_TIME};

#[test]
fn starts_ready() {
    let d = Debouncer::new();
    assert!(d.is_ready());
    assert_eq!(d.remaining(), 0);
}

#[test]
fn accepted_edge_arms_the_cooldown() {
    let mut d = Debouncer::new();
    assert!(d.on_edge());
    assert_eq!(d.remaining(), DEBOUNCE_TIME);
    assert!(!d.is_ready());
}

#[test]
fn burst_within_one_window_is_accepted_once() {
    let mut d = Debouncer::new();
    let mut accepted = 0;
    if d.on_edge() {
        accepted += 1;
    }
    for _ in 0..20 {
        d.tick(4_000);
        if d.on_edge() {
            accepted += 1;
        }
    }
    d.tick(DEBOUNCE_TIME - 80_001);
    if d.on_edge() {
        accepted += 1;
    }
    assert_eq!(accepted, 1);
    assert_eq!(d.remaining(), 1);
}

#[test]
fn dropped_edge_does_not_rearm() {
    let mut d = Debouncer::new();
    d.on_edge();
    d.tick(60_000);
    assert!(!d.on_edge());
    assert_eq!(d.remaining(), 40_000);
}

#[test]
fn edge_after_cooldown_is_accepted() {
    let mut d = Debouncer::new();
    d.on_edge();
    d.tick(DEBOUNCE_TIME);
    assert!(d.is_ready());
    assert!(d.on_edge());
    d.tick(u32::MAX);
    assert!(d.on_edge());
}

#[test]
fn expire_makes_ready() {
    let mut d = Debouncer::new();
    d.on_edge();
    d.expire();
    assert!(d.is_ready());
    assert!(d.on_edge());
}
