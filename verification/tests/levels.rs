use pacman_core::ghost::GhostId;
use pacman_core::levels::{BonusSymbol, Levels, GLOBAL_MODE_STAGES};

fn at(current: usize) -> Levels {
    Levels { advancements: current, current, hard_mode: false }
}

#[test]
fn default_is_before_the_first_level() {
    assert_eq!(Levels::default(), Levels { advancements: 0, current: 0, hard_mode: false });
}

#[test]
fn next_counts_up() {
    let mut l = Levels::default();
    l.next();
    assert_eq!(l, Levels { advancements: 1, current: 1, hard_mode: false });
    l.next();
    assert_eq!(l, Levels { advancements: 2, current: 2, hard_mode: false });
}

#[test]
fn next_skips_rows_in_hard_mode() {
    let mut l = Levels { advancements: 0, current: 0, hard_mode: true };
    let mut rows = Vec::new();
    for _ in 0..6 {
        l.next();
        rows.push(l.current);
    }
    assert_eq!(rows, vec![2, 4, 5, 7, 8, 9]);
    assert_eq!(l.advancements, 6);
    let mut l = Levels { advancements: 10, current: 18, hard_mode: true };
    l.next();
    assert_eq!(l.current, 21);
    assert_eq!(l.advancements, 11);
}

#[test]
fn reset_keeps_hard_mode() {
    let mut l = Levels { advancements: 7, current: 9, hard_mode: true };
    l.reset();
    assert_eq!(l, Levels { advancements: 0, current: 0, hard_mode: true });
}

#[test]
fn player_speeds() {
    assert_eq!(at(1).player_speed(), 80);
    assert_eq!(at(2).player_speed(), 90);
    assert_eq!(at(4).player_speed(), 90);
    assert_eq!(at(5).player_speed(), 100);
    assert_eq!(at(20).player_speed(), 100);
    assert_eq!(at(21).player_speed(), 90);
    assert_eq!(at(1).player_frite_speed(), 90);
    assert_eq!(at(3).player_frite_speed(), 95);
    assert_eq!(at(5).player_frite_speed(), 100);
}

#[test]
fn ghost_speeds() {
    assert_eq!(at(1).ghost_normal_speed(), 75);
    assert_eq!(at(4).ghost_normal_speed(), 85);
    assert_eq!(at(5).ghost_normal_speed(), 95);
    assert_eq!(at(1).ghost_tunnel_speed(), 40);
    assert_eq!(at(2).ghost_tunnel_speed(), 45);
    assert_eq!(at(9).ghost_tunnel_speed(), 50);
    assert_eq!(at(1).ghost_frite_speed(), 50);
    assert_eq!(at(3).ghost_frite_speed(), 55);
    assert_eq!(at(7).ghost_frite_speed(), 60);
}

#[test]
fn elroy_tables() {
    let dots_1: Vec<usize> = (1..=20).map(|c| at(c).elroy_1_dots()).collect();
    assert_eq!(
        dots_1,
        vec![20, 30, 40, 40, 40, 50, 50, 50, 60, 60, 60, 80, 80, 80, 100, 100, 100, 100, 120, 120]
    );
    let dots_2: Vec<usize> = (1..=20).map(|c| at(c).elroy_2_dots()).collect();
    assert_eq!(
        dots_2,
        vec![10, 15, 20, 20, 20, 25, 25, 25, 30, 30, 30, 40, 40, 40, 50, 50, 50, 50, 60, 60]
    );
    assert_eq!(at(1).elroy_1_speed(), 80);
    assert_eq!(at(2).elroy_1_speed(), 90);
    assert_eq!(at(5).elroy_1_speed(), 100);
    assert_eq!(at(1).elroy_2_speed(), 85);
    assert_eq!(at(4).elroy_2_speed(), 95);
    assert_eq!(at(5).elroy_2_speed(), 105);
}

#[test]
fn frite_durations() {
    let seconds: Vec<u64> = (1..=20).map(|c| at(c).frite_duration()).collect();
    assert_eq!(seconds, vec![6, 5, 4, 3, 2, 5, 2, 2, 1, 5, 2, 1, 1, 3, 1, 1, 0, 1, 0, 0]);
    assert_eq!(at(1).number_of_frite_flashes(), 5);
    assert_eq!(at(8).number_of_frite_flashes(), 5);
    assert_eq!(at(9).number_of_frite_flashes(), 3);
    assert_eq!(at(10).number_of_frite_flashes(), 0);
}

#[test]
fn global_mode_schedule_in_sixtieths() {
    let stages = |c: usize| -> Vec<Option<u64>> {
        (0..8).map(|i| at(c).ghost_switch_global_mode(i)).collect()
    };
    assert_eq!(
        stages(1),
        vec![Some(420), Some(1200), Some(420), Some(1200), Some(300), Some(1200), Some(300), None]
    );
    assert_eq!(
        stages(3),
        vec![Some(420), Some(1200), Some(420), Some(1200), Some(300), Some(61980), Some(1), None]
    );
    assert_eq!(
        stages(5),
        vec![Some(300), Some(1200), Some(300), Some(1200), Some(300), Some(62220), Some(1), None]
    );
    assert_eq!(GLOBAL_MODE_STAGES, 7);
    assert_eq!(at(30).ghost_switch_global_mode(usize::MAX), None);
}

#[test]
fn home_exit_dots_table() {
    assert_eq!(at(1).home_exit_dots(GhostId::Pinky, true), 7);
    assert_eq!(at(1).home_exit_dots(GhostId::Inky, false), 30);
    assert_eq!(at(2).home_exit_dots(GhostId::Inky, false), 0);
    assert_eq!(at(1).home_exit_dots(GhostId::Inky, true), 10);
    assert_eq!(at(1).home_exit_dots(GhostId::Clyde, false), 60);
    assert_eq!(at(2).home_exit_dots(GhostId::Clyde, false), 50);
    assert_eq!(at(3).home_exit_dots(GhostId::Clyde, false), 0);
    assert_eq!(at(3).home_exit_dots(GhostId::Clyde, true), 15);
}

#[test]
fn exit_home_durations() {
    assert_eq!(at(1).ghost_exit_home_duration(), 4);
    assert_eq!(at(4).ghost_exit_home_duration(), 4);
    assert_eq!(at(5).ghost_exit_home_duration(), 3);
}

#[test]
fn bonus_symbols_by_advancement() {
    let symbols: Vec<BonusSymbol> = (1..=14)
        .map(|n| Levels { advancements: n, current: n, hard_mode: false }.bonus_symbol())
        .collect();
    assert_eq!(
        symbols,
        vec![
            BonusSymbol::Cherries,
            BonusSymbol::Strawberry,
            BonusSymbol::Peach,
            BonusSymbol::Peach,
            BonusSymbol::Apple,
            BonusSymbol::Apple,
            BonusSymbol::Grapes,
            BonusSymbol::Grapes,
            BonusSymbol::Galaxian,
            BonusSymbol::Galaxian,
            BonusSymbol::Bell,
            BonusSymbol::Bell,
            BonusSymbol::Key,
            BonusSymbol::Key,
        ]
    );
}

#[test]
fn level_counter_shows_the_last_seven() {
    assert_eq!(Levels::default().level_counter_bonus_symbols(), Vec::<BonusSymbol>::new());
    assert_eq!(
        at(3).level_counter_bonus_symbols(),
        vec![BonusSymbol::Peach, BonusSymbol::Strawberry, BonusSymbol::Cherries]
    );
    assert_eq!(
        at(9).level_counter_bonus_symbols(),
        vec![
            BonusSymbol::Galaxian,
            BonusSymbol::Grapes,
            BonusSymbol::Grapes,
            BonusSymbol::Apple,
            BonusSymbol::Apple,
            BonusSymbol::Peach,
            BonusSymbol::Peach,
        ]
    );
}

#[test]
fn bonus_symbol_points() {
    assert_eq!(BonusSymbol::Cherries.points(), 100);
    assert_eq!(BonusSymbol::Strawberry.points(), 300);
    assert_eq!(BonusSymbol::Peach.points(), 500);
    assert_eq!(BonusSymbol::Apple.points(), 700);
    assert_eq!(BonusSymbol::Grapes.points(), 1000);
    assert_eq!(BonusSymbol::Galaxian.points(), 2000);
    assert_eq!(BonusSymbol::Bell.points(), 3000);
    assert_eq!(BonusSymbol::Key.points(), 5000);
}
