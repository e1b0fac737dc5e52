use pacman_core::events::{GhostEaten, PelletEaten};
use pacman_core::ghost::GhostId;
use pacman_core::levels::BonusSymbol;
use pacman_core::location::Location;
use pacman_core::points::{
    bonus_symbol_due, can_update_points, ghost_points, update_points, GhostsEatenCounter, Points,
    ALL_GHOSTS_BONUS, PELLET_POINTS, POWER_PELLET_POINTS,
};

fn eaten(who: GhostId, eaten_ghosts: usize) -> GhostEaten {
    GhostEaten { who, eaten_ghosts }
}

#[test]
fn points_constants() {
    assert_eq!(PELLET_POINTS, 10);
    assert_eq!(POWER_PELLET_POINTS, 50);
    assert_eq!(ALL_GHOSTS_BONUS, 12000);
}

#[test]
fn ghost_points_double() {
    assert_eq!(ghost_points(0), 200);
    assert_eq!(ghost_points(1), 400);
    assert_eq!(ghost_points(2), 800);
    assert_eq!(ghost_points(3), 1600);
}

#[test]
fn award_raises_the_high_score_with_the_score() {
    let mut p = Points::new(100);
    assert_eq!(p, Points { score: 0, high_score: 100 });
    p.award(60);
    assert_eq!(p, Points { score: 60, high_score: 100 });
    p.award(40);
    assert_eq!(p, Points { score: 100, high_score: 100 });
    p.award(10);
    assert_eq!(p, Points { score: 110, high_score: 110 });
}

#[test]
fn pellets_score_ten_and_fifty() {
    let mut p = Points::new(0);
    let mut c = GhostsEatenCounter::new();
    p.pellet_eaten(&PelletEaten { power: false }, &mut c);
    assert_eq!(p.score, 10);
    assert_eq!(c, GhostsEatenCounter::new());
    p.pellet_eaten(&PelletEaten { power: true }, &mut c);
    assert_eq!(p.score, 60);
    assert_eq!(c, GhostsEatenCounter { power_pellets: 1, after_latest: 0, after_earlier: 0 });
}

#[test]
fn ghosts_are_counted_by_power_pellet() {
    let mut c = GhostsEatenCounter::new();
    c.power_pellet_eaten();
    c.ghost_eaten();
    c.ghost_eaten();
    assert_eq!(c, GhostsEatenCounter { power_pellets: 1, after_latest: 2, after_earlier: 0 });
    assert_eq!(c.total(), 2);
    c.power_pellet_eaten();
    assert_eq!(c, GhostsEatenCounter { power_pellets: 2, after_latest: 0, after_earlier: 2 });
    c.ghost_eaten();
    assert_eq!(c.total(), 3);
}

#[test]
fn update_points_scores_a_tick() {
    let mut p = Points::new(1000);
    let mut c = GhostsEatenCounter::new();
    update_points(
        &mut p,
        &vec![PelletEaten { power: false }, PelletEaten { power: true }],
        &vec![eaten(GhostId::Blinky, 0), eaten(GhostId::Inky, 1)],
        &mut c,
    );
    assert_eq!(p, Points { score: 660, high_score: 1000 });
    assert_eq!(c, GhostsEatenCounter { power_pellets: 1, after_latest: 2, after_earlier: 0 });
    update_points(&mut p, &Vec::new(), &vec![eaten(GhostId::Pinky, 2)], &mut c);
    assert_eq!(p, Points { score: 1460, high_score: 1460 });
    update_points(&mut p, &Vec::new(), &Vec::new(), &mut c);
    assert_eq!(p, Points { score: 1460, high_score: 1460 });
}

#[test]
fn sixteenth_ghost_brings_the_bonus() {
    let mut p = Points::new(0);
    let mut c = GhostsEatenCounter::new();
    for _ in 0..4 {
        update_points(
            &mut p,
            &vec![PelletEaten { power: true }],
            &vec![
                eaten(GhostId::Blinky, 0),
                eaten(GhostId::Pinky, 1),
                eaten(GhostId::Inky, 2),
                eaten(GhostId::Clyde, 3),
            ],
            &mut c,
        );
    }
    assert_eq!(c.total(), 16);
    assert_eq!(p.score, 4 * (50 + 200 + 400 + 800 + 1600) + 12000);
    assert_eq!(p.high_score, p.score);
}

#[test]
fn fifteen_ghosts_bring_no_bonus() {
    let mut p = Points::new(0);
    let mut c = GhostsEatenCounter::new();
    for round in 0..4 {
        let mut ghosts = vec![eaten(GhostId::Blinky, 0), eaten(GhostId::Pinky, 1), eaten(GhostId::Inky, 2)];
        if round < 3 {
            ghosts.push(eaten(GhostId::Clyde, 3));
        }
        update_points(&mut p, &vec![PelletEaten { power: true }], &ghosts, &mut c);
    }
    assert_eq!(c.total(), 15);
    assert_eq!(p.score, 4 * (50 + 200 + 400 + 800) + 3 * 1600);
}

#[test]
fn fruit_is_eaten_where_it_lies() {
    let mut p = Points::new(0);
    let fruit = Location::new(108, 104);
    assert!(!p.bonus_symbol_collision(Location::new(107, 104), fruit, BonusSymbol::Apple));
    assert_eq!(p.score, 0);
    assert!(p.bonus_symbol_collision(fruit, fruit, BonusSymbol::Apple));
    assert_eq!(p, Points { score: 700, high_score: 700 });
}

#[test]
fn fruit_appears_at_seventy_and_a_hundred_and_seventy() {
    let due: Vec<usize> = (0..300).filter(|n| bonus_symbol_due(*n)).collect();
    assert_eq!(due, vec![70, 170]);
}

#[test]
fn can_update_points_tells_what_can_be_scored() {
    let p = Points::new(0);
    let fresh = GhostsEatenCounter::new();
    let power = vec![PelletEaten { power: true }];
    let ghost = vec![eaten(GhostId::Blinky, 0)];
    assert!(can_update_points(&p, &Vec::new(), &Vec::new(), &fresh));
    assert!(can_update_points(&p, &power, &ghost, &fresh));
    assert!(!can_update_points(&p, &Vec::new(), &ghost, &fresh));
    assert!(!can_update_points(&p, &power, &vec![eaten(GhostId::Blinky, 4)], &fresh));
    let full = GhostsEatenCounter { power_pellets: 4, after_latest: 0, after_earlier: 0 };
    assert!(!can_update_points(&p, &power, &Vec::new(), &full));
    assert!(can_update_points(&p, &vec![PelletEaten { power: false }], &ghost, &full));
    let rich = Points { score: u32::MAX - 49, high_score: u32::MAX };
    assert!(can_update_points(&rich, &vec![PelletEaten { power: false }], &Vec::new(), &fresh));
    assert!(!can_update_points(&rich, &power, &Vec::new(), &fresh));
    let rich = Points { score: u32::MAX - 19, high_score: u32::MAX };
    assert!(can_update_points(&rich, &vec![PelletEaten { power: false }], &Vec::new(), &fresh));
    assert!(!can_update_points(
        &rich,
        &vec![PelletEaten { power: false }, PelletEaten { power: false }],
        &Vec::new(),
        &fresh
    ));
    let rich = Points { score: u32::MAX - 249, high_score: u32::MAX };
    assert!(!can_update_points(&rich, &power, &ghost, &fresh));
    let rich = Points { score: u32::MAX - 250, high_score: u32::MAX };
    assert!(can_update_points(&rich, &power, &ghost, &fresh));
    let mut p = rich;
    let mut c = fresh;
    update_points(&mut p, &power, &ghost, &mut c);
    assert_eq!(p, Points { score: u32::MAX, high_score: u32::MAX });
    let broken = GhostsEatenCounter { power_pellets: 0, after_latest: 1, after_earlier: 0 };
    assert!(!can_update_points(&p, &Vec::new(), &Vec::new(), &broken));
}

#[test]
fn counter_checks() {
    assert!(GhostsEatenCounter::new().wf());
    assert!(!GhostsEatenCounter::new().can_count_ghost());
    let c = GhostsEatenCounter { power_pellets: 2, after_latest: 255, after_earlier: 255 };
    assert!(c.wf());
    assert!(!c.can_count_ghost());
    assert!(!GhostsEatenCounter { power_pellets: 5, after_latest: 0, after_earlier: 0 }.wf());
    assert!(!GhostsEatenCounter { power_pellets: 1, after_latest: 0, after_earlier: 256 }.wf());
}
