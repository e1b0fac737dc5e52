use pacman_core::direction::Direction;
use pacman_core::ghost::{GhostDirections, GhostId, GhostMode, GhostState};
use pacman_core::ghost_mode::GhostPelletEatenCounter;
use pacman_core::ghost_move::{
    ghost_tile_change_detection, in_tunnel, move_ghosts, update_ghost_speed, HOME_SPEED,
};
use pacman_core::levels::Levels;
use pacman_core::location::Location;
use pacman_core::speed::CharacterSpeed;

fn level(current: usize) -> Levels {
    Levels { advancements: current, current, hard_mode: false }
}

fn ghost(id: GhostId, mode: GhostMode, x: i32, y: i32, current: Direction) -> GhostState {
    GhostState {
        id,
        location: Location::new(x, y),
        directions: GhostDirections { current, planned: None },
        speed: CharacterSpeed::new(105),
        mode,
    }
}

fn speed_of(g: GhostState, remaining: usize, pause_finished: bool, current: usize) -> u32 {
    let mut g = g;
    g.update_speed(remaining, pause_finished, &level(current));
    g.speed.speed
}

fn moved(g: GhostState, halted: bool) -> GhostState {
    let mut g = g;
    g.advance(halted);
    g
}

#[test]
fn tunnel_is_on_row_sixteen_at_both_ends() {
    assert!(in_tunnel(Location::new(40, 128)));
    assert!(in_tunnel(Location::new(-16, 128)));
    assert!(in_tunnel(Location::new(176, 128)));
    assert!(in_tunnel(Location::new(230, 128)));
    assert!(!in_tunnel(Location::new(41, 128)));
    assert!(!in_tunnel(Location::new(175, 128)));
    assert!(!in_tunnel(Location::new(40, 129)));
}

#[test]
fn dead_ghosts_are_fastest() {
    let g = ghost(GhostId::Inky, GhostMode::Dead, 16, 128, Direction::Up);
    assert_eq!(speed_of(g, 100, false, 1), 105);
    let g = ghost(GhostId::Inky, GhostMode::DeadEnterHome, 108, 140, Direction::Down);
    assert_eq!(speed_of(g, 100, true, 1), 105);
}

#[test]
fn ghosts_stand_still_during_the_pause() {
    for mode in [GhostMode::Chase, GhostMode::Frightened, GhostMode::Home(false), GhostMode::DeadPause]
    {
        let g = ghost(GhostId::Pinky, mode, 100, 100, Direction::Up);
        assert_eq!(speed_of(g, 100, false, 1), 0);
    }
}

#[test]
fn tunnel_speed_comes_before_the_mode() {
    let g = ghost(GhostId::Blinky, GhostMode::Frightened, 16, 128, Direction::Left);
    assert_eq!(speed_of(g, 0, true, 1), 40);
    assert_eq!(speed_of(g, 0, true, 3), 45);
    assert_eq!(speed_of(g, 0, true, 5), 50);
}

#[test]
fn speed_by_mode() {
    let g = ghost(GhostId::Pinky, GhostMode::Frightened, 100, 100, Direction::Up);
    assert_eq!(speed_of(g, 100, true, 1), 50);
    assert_eq!(speed_of(g, 100, true, 2), 55);
    assert_eq!(speed_of(g, 100, true, 5), 60);
    let g = ghost(GhostId::Pinky, GhostMode::Home(true), 108, 128, Direction::Up);
    assert_eq!(speed_of(g, 100, true, 1), 40);
    assert_eq!(HOME_SPEED, 40);
    let g = ghost(GhostId::Pinky, GhostMode::HomeExit(false), 108, 130, Direction::Up);
    assert_eq!(speed_of(g, 100, true, 9), 40);
    let g = ghost(GhostId::Pinky, GhostMode::Chase, 100, 100, Direction::Up);
    assert_eq!(speed_of(g, 0, true, 1), 75);
    assert_eq!(speed_of(g, 0, true, 2), 85);
    assert_eq!(speed_of(g, 0, true, 5), 95);
    let g = ghost(GhostId::Clyde, GhostMode::DeadPause, 100, 100, Direction::Up);
    assert_eq!(speed_of(g, 0, true, 1), 75);
}

#[test]
fn blinky_speeds_up_when_few_pellets_remain() {
    let g = ghost(GhostId::Blinky, GhostMode::Chase, 100, 100, Direction::Up);
    assert_eq!(speed_of(g, 21, true, 1), 75);
    assert_eq!(speed_of(g, 20, true, 1), 80);
    assert_eq!(speed_of(g, 11, true, 1), 80);
    assert_eq!(speed_of(g, 10, true, 1), 85);
    assert_eq!(speed_of(g, 0, true, 1), 85);
    assert_eq!(speed_of(g, 40, true, 3), 90);
    assert_eq!(speed_of(g, 20, true, 3), 95);
    assert_eq!(speed_of(g, 120, true, 19), 100);
    assert_eq!(speed_of(g, 60, true, 19), 105);
    let g = ghost(GhostId::Blinky, GhostMode::Scatter, 100, 100, Direction::Up);
    assert_eq!(speed_of(g, 10, true, 1), 85);
    let g = ghost(GhostId::Blinky, GhostMode::Frightened, 100, 100, Direction::Up);
    assert_eq!(speed_of(g, 10, true, 1), 50);
}

#[test]
fn update_speed_ticks_the_cadence() {
    let mut g = ghost(GhostId::Pinky, GhostMode::Chase, 100, 100, Direction::Up);
    g.update_speed(100, true, &level(1));
    assert_eq!(
        g.speed,
        CharacterSpeed { speed: 75, advancement_counter: 1, missed_counter: 1, should_miss: true }
    );
    g.update_speed(100, true, &level(1));
    assert_eq!(
        g.speed,
        CharacterSpeed { speed: 75, advancement_counter: 2, missed_counter: 1, should_miss: false }
    );
    g.mode = GhostMode::Dead;
    g.update_speed(100, true, &level(1));
    assert_eq!(
        g.speed,
        CharacterSpeed { speed: 105, advancement_counter: 1, missed_counter: 0, should_miss: false }
    );
}

#[test]
fn update_ghost_speed_takes_the_counted_pellets_off_the_total() {
    let mut ghosts = vec![
        ghost(GhostId::Blinky, GhostMode::Chase, 100, 100, Direction::Up),
        ghost(GhostId::Pinky, GhostMode::Chase, 100, 100, Direction::Up),
    ];
    let counter = GhostPelletEatenCounter { counter: 224, life_lost: false };
    update_ghost_speed(&mut ghosts, &counter, 244, true, &level(1));
    assert_eq!(ghosts[0].speed.speed, 80);
    assert_eq!(ghosts[1].speed.speed, 75);
    let counter = GhostPelletEatenCounter { counter: 223, life_lost: false };
    update_ghost_speed(&mut ghosts, &counter, 244, true, &level(1));
    assert_eq!(ghosts[0].speed.speed, 75);
    assert_eq!(ghosts[0].speed.advancement_counter, 1);
    assert_eq!(ghosts[1].speed.advancement_counter, 2);
}

#[test]
fn tile_change_takes_the_plan_at_a_tile_center() {
    let mut g = ghost(GhostId::Pinky, GhostMode::Chase, 16, 24, Direction::Up);
    g.directions.planned = Some(Direction::Left);
    let mut at_center = g;
    at_center.tile_change();
    assert_eq!(at_center.directions, GhostDirections { current: Direction::Left, planned: None });
    let mut off_center = g;
    off_center.location = Location::new(16, 25);
    let before = off_center;
    off_center.tile_change();
    assert_eq!(off_center, before);
    let mut missing = g;
    missing.speed.should_miss = true;
    let before = missing;
    missing.tile_change();
    assert_eq!(missing, before);
    let mut unplanned = ghost(GhostId::Pinky, GhostMode::Chase, 16, 24, Direction::Up);
    unplanned.tile_change();
    assert_eq!(unplanned.directions, GhostDirections { current: Direction::Up, planned: None });
}

#[test]
fn tile_change_detection_for_all() {
    let mut a = ghost(GhostId::Pinky, GhostMode::Chase, 16, 24, Direction::Up);
    a.directions.planned = Some(Direction::Left);
    let mut b = ghost(GhostId::Inky, GhostMode::Home(false), 92, 129, Direction::Up);
    b.directions.planned = Some(Direction::Down);
    let mut ghosts = vec![a, b];
    ghost_tile_change_detection(&mut ghosts);
    assert_eq!(ghosts[0].directions, GhostDirections { current: Direction::Left, planned: None });
    assert_eq!(ghosts[1], b);
}

#[test]
fn a_ghost_in_the_maze_moves_along_its_direction() {
    let g = ghost(GhostId::Blinky, GhostMode::Chase, 16, 24, Direction::Left);
    assert_eq!(moved(g, false).location, Location::new(15, 24));
    let g = ghost(GhostId::Blinky, GhostMode::Frightened, 16, 24, Direction::Up);
    assert_eq!(moved(g, false).location, Location::new(16, 25));
    let g = ghost(GhostId::Blinky, GhostMode::Dead, 16, 24, Direction::Down);
    assert_eq!(moved(g, false).location, Location::new(16, 23));
    let g = ghost(GhostId::Blinky, GhostMode::DeadPause, 16, 24, Direction::Right);
    assert_eq!(moved(g, false).location, Location::new(17, 24));
}

#[test]
fn no_move_on_a_missed_tick_or_when_halted() {
    let g = ghost(GhostId::Inky, GhostMode::Home(false), 90, 140, Direction::Up);
    assert_eq!(moved(g, true), g);
    let mut g = ghost(GhostId::Blinky, GhostMode::Chase, 16, 24, Direction::Left);
    g.speed.should_miss = true;
    assert_eq!(moved(g, false), g);
}

#[test]
fn a_ghost_in_the_pen_goes_up_and_down_its_column() {
    let g = ghost(GhostId::Inky, GhostMode::Home(false), 90, 128, Direction::Up);
    let after = moved(g, false);
    assert_eq!(after.location, Location::new(92, 129));
    assert_eq!(after.directions.current, Direction::Up);
    let g = ghost(GhostId::Clyde, GhostMode::Home(true), 124, 132, Direction::Up);
    let after = moved(g, false);
    assert_eq!(after.location, Location::new(124, 131));
    assert_eq!(after.directions.current, Direction::Down);
    let g = ghost(GhostId::Pinky, GhostMode::Home(false), 108, 124, Direction::Down);
    let after = moved(g, false);
    assert_eq!(after.location, Location::new(108, 125));
    assert_eq!(after.directions.current, Direction::Up);
    let g = ghost(GhostId::Pinky, GhostMode::Home(false), 0, 125, Direction::Down);
    assert_eq!(moved(g, false).location, Location::new(108, 124));
}

#[test]
fn a_ghost_swings_between_the_ends_of_the_pen() {
    let mut g = ghost(GhostId::Inky, GhostMode::Home(false), 92, 128, Direction::Up);
    let mut ys = Vec::new();
    for _ in 0..20 {
        g.advance(false);
        ys.push(g.location.y);
    }
    assert_eq!(
        ys,
        vec![129, 130, 131, 132, 131, 130, 129, 128, 127, 126, 125, 124, 125, 126, 127, 128, 129, 130, 131, 132]
    );
}

#[test]
fn leaving_the_pen_goes_to_the_door_column_and_up() {
    let g = ghost(GhostId::Inky, GhostMode::HomeExit(false), 92, 128, Direction::Up);
    let after = moved(g, false);
    assert_eq!(after.location, Location::new(93, 128));
    assert_eq!(after.directions.current, Direction::Right);
    let g = ghost(GhostId::Clyde, GhostMode::HomeExit(false), 124, 130, Direction::Up);
    let after = moved(g, false);
    assert_eq!(after.location, Location::new(123, 130));
    assert_eq!(after.directions.current, Direction::Left);
    for id in [GhostId::Blinky, GhostId::Pinky, GhostId::Inky, GhostId::Clyde] {
        let g = ghost(id, GhostMode::HomeExit(true), 108, 130, Direction::Down);
        let after = moved(g, false);
        assert_eq!(after.location, Location::new(108, 131));
        assert_eq!(after.directions.current, Direction::Up);
    }
}

#[test]
fn entering_the_pen_goes_down() {
    let mut g = ghost(GhostId::Inky, GhostMode::DeadEnterHome, 108, 152, Direction::Left);
    g.directions.planned = Some(Direction::Up);
    let after = moved(g, false);
    assert_eq!(after.location, Location::new(108, 151));
    assert_eq!(after.directions, GhostDirections { current: Direction::Down, planned: Some(Direction::Up) });
}

#[test]
fn move_ghosts_moves_every_ghost() {
    let mut still = ghost(GhostId::Pinky, GhostMode::Chase, 50, 50, Direction::Up);
    still.speed.should_miss = true;
    let mut ghosts = vec![
        ghost(GhostId::Blinky, GhostMode::Chase, 16, 24, Direction::Left),
        still,
        ghost(GhostId::Inky, GhostMode::HomeExit(false), 92, 128, Direction::Up),
    ];
    move_ghosts(&mut ghosts, false);
    let places: Vec<Location> = ghosts.iter().map(|g| g.location).collect();
    assert_eq!(places, vec![Location::new(15, 24), Location::new(50, 50), Location::new(93, 128)]);
    let before = ghosts.clone();
    move_ghosts(&mut ghosts, true);
    assert_eq!(ghosts, before);
}
