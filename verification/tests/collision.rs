use pacman_core::collision::{
    collides, collision_detection, count_frightened, COLLISION_RANGE_SQUARED, GHOST_COUNT,
};
use pacman_core::direction::Direction;
use pacman_core::events::GhostEaten;
use pacman_core::ghost::{GhostDirections, GhostId, GhostMode, GhostState};
use pacman_core::location::Location;
use pacman_core::speed::CharacterSpeed;

fn ghost(id: GhostId, mode: GhostMode, x: i32, y: i32) -> GhostState {
    GhostState {
        id,
        location: Location::new(x, y),
        directions: GhostDirections::new(Direction::Left),
        speed: CharacterSpeed::new(75),
        mode,
    }
}

#[test]
fn half_a_tile_apart_is_no_collision() {
    let player = Location::new(80, 80);
    assert_eq!(COLLISION_RANGE_SQUARED, 16);
    assert!(!collides(Location::new(84, 80), player));
    assert!(!collides(Location::new(76, 80), player));
    assert!(!collides(Location::new(80, 84), player));
    assert!(!collides(Location::new(80, 76), player));
}

#[test]
fn nearer_than_half_a_tile_is_a_collision() {
    let player = Location::new(80, 80);
    assert!(collides(Location::new(83, 80), player));
    assert!(collides(Location::new(80, 77), player));
    assert!(collides(Location::new(83, 82), player));
    assert!(collides(Location::new(77, 78), player));
    assert!(collides(player, player));
}

#[test]
fn diagonal_distances_around_the_threshold() {
    let player = Location::new(0, 0);
    assert!(collides(Location::new(3, 2), player));
    assert!(!collides(Location::new(3, 3), player));
    assert!(!collides(Location::new(4, 1), player));
    assert!(collides(Location::new(-2, -3), player));
}

#[test]
fn a_frightened_ghost_is_eaten() {
    let ghosts = vec![
        ghost(GhostId::Blinky, GhostMode::Frightened, 81, 80),
        ghost(GhostId::Pinky, GhostMode::Frightened, 10, 10),
        ghost(GhostId::Inky, GhostMode::Frightened, 10, 10),
        ghost(GhostId::Clyde, GhostMode::Frightened, 10, 10),
    ];
    let r = collision_detection(&ghosts, Location::new(80, 80));
    assert_eq!(r.eaten, vec![GhostEaten { who: GhostId::Blinky, eaten_ghosts: 0 }]);
    assert!(!r.player_died);
}

#[test]
fn eaten_count_is_the_number_no_longer_frightened() {
    let ghosts = vec![
        ghost(GhostId::Blinky, GhostMode::Dead, 80, 80),
        ghost(GhostId::Pinky, GhostMode::DeadPause, 80, 80),
        ghost(GhostId::Inky, GhostMode::Frightened, 80, 82),
        ghost(GhostId::Clyde, GhostMode::Home(true), 10, 10),
    ];
    assert_eq!(count_frightened(&ghosts), 2);
    assert_eq!(GHOST_COUNT, 4);
    let r = collision_detection(&ghosts, Location::new(80, 80));
    assert_eq!(r.eaten, vec![GhostEaten { who: GhostId::Inky, eaten_ghosts: 2 }]);
    assert!(!r.player_died);
}

#[test]
fn two_ghosts_eaten_on_one_tick_share_the_count() {
    let ghosts = vec![
        ghost(GhostId::Blinky, GhostMode::Frightened, 80, 80),
        ghost(GhostId::Pinky, GhostMode::Chase, 10, 10),
        ghost(GhostId::Inky, GhostMode::Frightened, 80, 82),
        ghost(GhostId::Clyde, GhostMode::HomeExit(true), 10, 10),
    ];
    let r = collision_detection(&ghosts, Location::new(80, 80));
    assert_eq!(
        r.eaten,
        vec![
            GhostEaten { who: GhostId::Blinky, eaten_ghosts: 1 },
            GhostEaten { who: GhostId::Inky, eaten_ghosts: 1 }
        ]
    );
}

#[test]
fn a_chasing_or_scattering_ghost_kills() {
    for mode in [GhostMode::Chase, GhostMode::Scatter] {
        let ghosts = vec![ghost(GhostId::Clyde, mode, 82, 83)];
        let r = collision_detection(&ghosts, Location::new(80, 80));
        assert!(r.player_died);
        assert!(r.eaten.is_empty());
        let ghosts = vec![ghost(GhostId::Clyde, mode, 84, 80)];
        assert!(!collision_detection(&ghosts, Location::new(80, 80)).player_died);
    }
}

#[test]
fn other_modes_pass_through() {
    for mode in [
        GhostMode::Home(false),
        GhostMode::Home(true),
        GhostMode::HomeExit(false),
        GhostMode::HomeExit(true),
        GhostMode::DeadPause,
        GhostMode::Dead,
        GhostMode::DeadEnterHome,
    ] {
        let ghosts = vec![ghost(GhostId::Clyde, mode, 80, 80)];
        let r = collision_detection(&ghosts, Location::new(80, 80));
        assert!(!r.player_died);
        assert!(r.eaten.is_empty());
    }
}

#[test]
fn a_ghost_can_be_eaten_while_another_kills() {
    let ghosts = vec![
        ghost(GhostId::Blinky, GhostMode::Frightened, 80, 80),
        ghost(GhostId::Pinky, GhostMode::Scatter, 80, 80),
    ];
    let r = collision_detection(&ghosts, Location::new(80, 80));
    assert!(r.player_died);
    assert_eq!(r.eaten, vec![GhostEaten { who: GhostId::Blinky, eaten_ghosts: 3 }]);
}

#[test]
fn no_ghosts_no_collisions() {
    let r = collision_detection(&Vec::new(), Location::new(80, 80));
    assert!(!r.player_died);
    assert!(r.eaten.is_empty());
}
