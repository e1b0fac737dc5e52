use pacman_core::speed::{CharacterSpeed, FULL_SPEED};

fn hits_after(speed: u32, ticks: u64) -> u64 {
    let mut s = CharacterSpeed::new(speed);
    let mut hits = 0;
    for _ in 0..ticks {
        s.tick();
        if !s.should_miss() {
            hits += 1;
        }
    }
    hits
}

#[test]
fn new_starts_a_fresh_cadence() {
    let s = CharacterSpeed::new(80);
    assert_eq!(s.speed, 80);
    assert_eq!(s.advancement_counter, 0);
    assert_eq!(s.missed_counter, 0);
    assert!(!s.should_miss);
    assert_eq!(FULL_SPEED, 105);
}

#[test]
fn first_ticks_at_eighty() {
    let mut s = CharacterSpeed::new(80);
    let mut pattern = Vec::new();
    for _ in 0..9 {
        s.tick();
        pattern.push(s.should_miss);
    }
    assert_eq!(pattern, vec![true, false, false, false, true, false, false, false, true]);
    assert_eq!(s.advancement_counter, 9);
    assert_eq!(s.missed_counter, 3);
}

#[test]
fn full_speed_never_misses() {
    let mut s = CharacterSpeed::new(105);
    for _ in 0..1000 {
        s.tick();
        assert!(!s.should_miss());
    }
    assert_eq!(s.missed_counter, 0);
}

#[test]
fn zero_speed_always_misses() {
    let mut s = CharacterSpeed::new(0);
    for _ in 0..1000 {
        s.tick();
        assert!(s.should_miss());
    }
    assert_eq!(s.missed_counter, 1000);
}

#[test]
fn set_speed_unchanged_keeps_the_counters() {
    let mut s = CharacterSpeed::new(75);
    s.tick();
    s.tick();
    let before = s;
    s.set_speed(75);
    assert_eq!(s, before);
}

#[test]
fn set_speed_changed_resets_the_counters() {
    let mut s = CharacterSpeed::new(75);
    s.tick();
    assert!(s.should_miss);
    s.set_speed(40);
    assert_eq!(s, CharacterSpeed::new(40));
}

#[test]
fn speed_half_over_ten_thousand_ticks() {
    let hits = hits_after(50, 10_000);
    assert_eq!(hits, 4761);
    let ratio = hits as f64 / 10_000.0;
    assert!((ratio - 0.4762).abs() < 0.001);
}

#[test]
fn hits_are_the_whole_part_of_the_share() {
    for speed in [0u32, 5, 40, 45, 50, 55, 60, 75, 80, 85, 90, 95, 100, 105] {
        for ticks in [1u64, 2, 3, 20, 21, 104, 105, 106, 1000] {
            assert_eq!(hits_after(speed, ticks), speed as u64 * ticks / 105);
        }
    }
}

#[test]
fn hit_ratio_converges() {
    for speed in [40u32, 75, 95] {
        let ticks = 100_000u64;
        let ratio = hits_after(speed, ticks) as f64 / ticks as f64;
        assert!((ratio - speed as f64 / 105.0).abs() < 1.0 / ticks as f64 + 1e-12);
    }
}
