use pacman_core::direction::Direction;
use pacman_core::ghost::{GhostDirections, GhostId, GhostMode, GhostState};
use pacman_core::ghost_plan::{
    blinky_tile, candidate_directions, chase_target, ghost_path_finder, in_special_zone,
    pick_direction, plan_ghosts, plan_ghosts_with, scatter, Planning,
};
use pacman_core::location::Location;
use pacman_core::map::GridMap;
use pacman_core::speed::CharacterSpeed;

const ROOM: &str = "WWWWW\nW   W\nW   W\nW   W\nWWWWW";
const RING: &str = "WWWWW\nW   W\nW W W\nW   W\nWWWWW";
const CORRIDOR: &str = "WWW\nW W\nW W\nW W\nWWW";

fn tile(x: i32, y: i32) -> Location {
    Location::from_tiles(x, y)
}

fn ghost(id: GhostId, mode: GhostMode, location: Location, current: Direction) -> GhostState {
    GhostState {
        id,
        location,
        directions: GhostDirections { current, planned: None },
        speed: CharacterSpeed::new(75),
        mode,
    }
}

#[test]
fn scatter_corners() {
    assert_eq!(scatter(GhostId::Blinky), Location::new(200, 264));
    assert_eq!(scatter(GhostId::Pinky), Location::new(16, 264));
    assert_eq!(scatter(GhostId::Inky), Location::new(216, -8));
    assert_eq!(scatter(GhostId::Clyde), Location::new(0, -8));
    assert_eq!(scatter(GhostId::Blinky), tile(25, 33));
    assert_eq!(scatter(GhostId::Inky), tile(27, -1));
}

#[test]
fn blinky_targets_the_player() {
    let t = chase_target(GhostId::Blinky, tile(1, 1), tile(8, 8), tile(10, 10), Direction::Up);
    assert_eq!(t, tile(10, 10));
}

#[test]
fn pinky_targets_four_tiles_ahead() {
    let player = tile(10, 10);
    let target = |d| chase_target(GhostId::Pinky, tile(1, 1), tile(8, 8), player, d);
    assert_eq!(target(Direction::Up), tile(10, 14));
    assert_eq!(target(Direction::Down), tile(10, 6));
    assert_eq!(target(Direction::Left), tile(6, 10));
    assert_eq!(target(Direction::Right), tile(14, 10));
}

#[test]
fn inky_mirrors_blinky_through_the_point_ahead() {
    let t = chase_target(GhostId::Inky, tile(1, 1), tile(8, 8), tile(12, 10), Direction::Up);
    assert_eq!(t, tile(16, 16));
    let t = chase_target(GhostId::Inky, tile(1, 1), tile(8, 8), tile(10, 12), Direction::Right);
    assert_eq!(t, tile(16, 16));
    let t = chase_target(GhostId::Inky, tile(1, 1), tile(8, 8), tile(10, 10), Direction::Up);
    assert_eq!(t, tile(12, 16));
    let t = chase_target(GhostId::Inky, tile(1, 1), tile(13, 3), tile(10, 10), Direction::Left);
    assert_eq!(t, tile(3, 17));
}

#[test]
fn clyde_keeps_away_within_eight_tiles() {
    let player = tile(10, 10);
    let target = |own| chase_target(GhostId::Clyde, own, tile(0, 0), player, Direction::Up);
    assert_eq!(target(tile(10, 2)), tile(0, -1));
    assert_eq!(target(tile(10, 1)), player);
    assert_eq!(target(tile(10, 10)), tile(0, -1));
    assert_eq!(target(Location::new(80, 15)), player);
    assert_eq!(target(tile(19, 10)), player);
    assert_eq!(target(tile(16, 15)), tile(0, -1));
}

#[test]
fn chase_targets_at_the_ends_of_the_range() {
    let far = Location::new(268435456, -268435456);
    let near = Location::new(-268435456, 268435456);
    let t = chase_target(GhostId::Inky, far, near, far, Direction::Right);
    assert_eq!(t, Location::new(2 * (268435456 + 16) + 268435456, -3 * 268435456));
    let t = chase_target(GhostId::Pinky, far, near, far, Direction::Down);
    assert_eq!(t, Location::new(268435456, -268435456 - 32));
}

#[test]
fn special_zones() {
    assert!(in_special_zone(Location::new(80, 56)));
    assert!(in_special_zone(Location::new(136, 152)));
    assert!(in_special_zone(Location::new(108, 56)));
    assert!(!in_special_zone(Location::new(79, 56)));
    assert!(!in_special_zone(Location::new(137, 152)));
    assert!(!in_special_zone(Location::new(108, 57)));
    assert!(!in_special_zone(Location::new(108, 128)));
}

#[test]
fn candidates_leave_out_the_reverse() {
    let room = GridMap::parse(ROOM);
    assert_eq!(
        candidate_directions(&room, tile(2, 2), Direction::Right, false),
        vec![Direction::Up, Direction::Right, Direction::Down]
    );
    assert_eq!(
        candidate_directions(&room, tile(2, 2), Direction::Up, false),
        vec![Direction::Left, Direction::Up, Direction::Right]
    );
    assert_eq!(
        candidate_directions(&room, tile(1, 1), Direction::Left, false),
        vec![Direction::Up]
    );
}

#[test]
fn candidates_leave_out_up_in_a_special_zone() {
    let room = GridMap::parse(ROOM);
    assert_eq!(
        candidate_directions(&room, tile(2, 2), Direction::Right, true),
        vec![Direction::Right, Direction::Down]
    );
    assert_eq!(
        candidate_directions(&room, tile(2, 2), Direction::Down, true),
        vec![Direction::Left, Direction::Right, Direction::Down]
    );
}

#[test]
fn path_finder_takes_the_nearest_tile() {
    let room = GridMap::parse(ROOM);
    let find = |target: Location, current: Direction| {
        ghost_path_finder(tile(2, 2), Some(target), &room, current, false)
    };
    assert_eq!(find(tile(2, 30), Direction::Right), Direction::Up);
    assert_eq!(find(tile(30, 2), Direction::Right), Direction::Right);
    assert_eq!(find(tile(2, -30), Direction::Right), Direction::Down);
    assert_eq!(find(tile(-30, 2), Direction::Up), Direction::Left);
}

#[test]
fn path_finder_never_reverses_towards_the_target() {
    let room = GridMap::parse(ROOM);
    let d = ghost_path_finder(tile(2, 2), Some(tile(-30, 2)), &room, Direction::Right, false);
    assert_eq!(d, Direction::Up);
    for current in Direction::all() {
        for tx in -3..7 {
            for ty in -3..7 {
                let d = ghost_path_finder(tile(2, 2), Some(tile(tx, ty)), &room, current, false);
                assert_ne!(d, current.opposite());
            }
        }
    }
}

#[test]
fn path_finder_breaks_ties_by_the_order_of_the_directions() {
    let room = GridMap::parse(ROOM);
    let find = |target: Location, current: Direction| {
        ghost_path_finder(tile(2, 2), Some(target), &room, current, false)
    };
    assert_eq!(find(tile(3, 3), Direction::Right), Direction::Up);
    assert_eq!(find(tile(3, 1), Direction::Right), Direction::Right);
    assert_eq!(find(tile(1, 1), Direction::Down), Direction::Left);
    assert_eq!(find(tile(1, 3), Direction::Up), Direction::Left);
    assert_eq!(find(tile(2, 2), Direction::Right), Direction::Up);
    assert_eq!(find(tile(2, 2), Direction::Left), Direction::Left);
}

#[test]
fn path_finder_in_a_special_zone_does_not_go_up() {
    let room = GridMap::parse(ROOM);
    let d = ghost_path_finder(tile(2, 2), Some(tile(2, 30)), &room, Direction::Right, true);
    assert_eq!(d, Direction::Right);
    let d = ghost_path_finder(tile(2, 2), Some(tile(2, 30)), &room, Direction::Left, true);
    assert_eq!(d, Direction::Left);
}

#[test]
fn path_finder_follows_a_corridor() {
    let ring = GridMap::parse(RING);
    let far = Some(tile(30, 30));
    assert_eq!(ghost_path_finder(tile(1, 2), far, &ring, Direction::Up, false), Direction::Up);
    assert_eq!(ghost_path_finder(tile(1, 3), far, &ring, Direction::Up, false), Direction::Right);
    assert_eq!(ghost_path_finder(tile(1, 3), far, &ring, Direction::Left, false), Direction::Down);
    assert_eq!(ghost_path_finder(tile(2, 1), None, &ring, Direction::Left, false), Direction::Left);
}

#[test]
fn path_finder_turns_around_at_a_dead_end() {
    let corridor = GridMap::parse(CORRIDOR);
    assert_eq!(
        candidate_directions(&corridor, tile(3, 1), Direction::Right, false),
        Vec::<Direction>::new()
    );
    let d = ghost_path_finder(tile(3, 1), Some(tile(9, 9)), &corridor, Direction::Right, false);
    assert_eq!(d, Direction::Left);
    let d = ghost_path_finder(tile(3, 1), None, &corridor, Direction::Right, false);
    assert_eq!(d, Direction::Left);
    let d = ghost_path_finder(tile(1, 1), None, &corridor, Direction::Left, false);
    assert_eq!(d, Direction::Right);
    let cell = GridMap::parse("WWW\nW W\nWWW");
    let d = ghost_path_finder(tile(1, 1), Some(tile(0, 0)), &cell, Direction::Up, false);
    assert_eq!(d, Direction::Down);
}

#[test]
fn frightened_path_is_one_of_the_candidates() {
    let room = GridMap::parse(ROOM);
    let mut seen = Vec::new();
    for _ in 0..400 {
        let d = ghost_path_finder(tile(2, 2), None, &room, Direction::Right, false);
        assert!(d == Direction::Up || d == Direction::Right || d == Direction::Down);
        if !seen.contains(&d) {
            seen.push(d);
        }
    }
    assert_eq!(seen.len(), 3);
}

#[test]
fn frightened_path_with_a_single_candidate() {
    let room = GridMap::parse(ROOM);
    for _ in 0..50 {
        assert_eq!(
            ghost_path_finder(tile(1, 1), None, &room, Direction::Left, false),
            Direction::Up
        );
    }
}

#[test]
fn pick_direction_takes_the_draw_without_a_target() {
    let candidates = vec![Direction::Up, Direction::Right, Direction::Down];
    let pick = |draw: usize| pick_direction(&candidates, tile(2, 2), None, Direction::Right, draw);
    assert_eq!(pick(0), Direction::Up);
    assert_eq!(pick(1), Direction::Right);
    assert_eq!(pick(2), Direction::Down);
}

#[test]
fn pick_direction_ignores_the_draw_with_a_target() {
    let candidates = vec![Direction::Up, Direction::Right, Direction::Down];
    for draw in [0usize, 1, 2, 99] {
        let d = pick_direction(&candidates, tile(2, 2), Some(tile(9, 2)), Direction::Right, draw);
        assert_eq!(d, Direction::Right);
    }
    let d = pick_direction(&Vec::new(), tile(2, 2), Some(tile(9, 2)), Direction::Right, 7);
    assert_eq!(d, Direction::Left);
    let d = pick_direction(&Vec::new(), tile(2, 2), None, Direction::Up, 7);
    assert_eq!(d, Direction::Down);
}

#[test]
fn pick_direction_takes_the_first_of_equals_in_any_order() {
    let target = Some(tile(3, 3));
    let d = pick_direction(
        &vec![Direction::Right, Direction::Up],
        tile(2, 2),
        target,
        Direction::Down,
        0,
    );
    assert_eq!(d, Direction::Right);
    let d = pick_direction(
        &vec![Direction::Down, Direction::Up, Direction::Right],
        tile(2, 2),
        target,
        Direction::Down,
        0,
    );
    assert_eq!(d, Direction::Up);
}

#[test]
fn blinky_tile_is_that_of_the_first_blinky() {
    let ghosts = vec![
        ghost(GhostId::Pinky, GhostMode::Chase, tile(1, 1), Direction::Up),
        ghost(GhostId::Blinky, GhostMode::Chase, Location::new(20, 16), Direction::Right),
        ghost(GhostId::Blinky, GhostMode::Chase, tile(3, 3), Direction::Right),
    ];
    assert_eq!(blinky_tile(&ghosts), tile(3, 2));
    assert_eq!(blinky_tile(&ghosts[..1].to_vec()), Location::new(0, 0));
    assert_eq!(blinky_tile(&Vec::new()), Location::new(0, 0));
}

#[test]
fn planning_cases() {
    let room = GridMap::parse(ROOM);
    let origin = Location::new(0, 0);
    let case = |g: GhostState| g.planning(&room, origin, tile(3, 3), Direction::Up);
    for mode in [
        GhostMode::Home(false),
        GhostMode::HomeExit(true),
        GhostMode::DeadEnterHome,
        GhostMode::DeadPause,
    ] {
        assert_eq!(case(ghost(GhostId::Inky, mode, tile(1, 2), Direction::Right)), Planning::Nothing);
    }
    let mut planned = ghost(GhostId::Inky, GhostMode::Chase, tile(1, 2), Direction::Right);
    planned.directions.planned = Some(Direction::Up);
    assert_eq!(case(planned), Planning::Nothing);
    assert_eq!(
        case(ghost(GhostId::Inky, GhostMode::Chase, tile(0, 2), Direction::Right)),
        Planning::Straight
    );
    assert_eq!(
        case(ghost(GhostId::Inky, GhostMode::Scatter, tile(1, 2), Direction::Right)),
        Planning::Choose {
            next_tile: tile(2, 2),
            target: Some(tile(27, -1)),
            is_in_special_zone: false
        }
    );
    assert_eq!(
        case(ghost(GhostId::Blinky, GhostMode::Chase, Location::new(9, 16), Direction::Right)),
        Planning::Choose {
            next_tile: tile(2, 2),
            target: Some(tile(3, 3)),
            is_in_special_zone: false
        }
    );
    assert_eq!(
        case(ghost(GhostId::Blinky, GhostMode::Dead, tile(1, 2), Direction::Up)),
        Planning::Choose {
            next_tile: tile(1, 3),
            target: Some(Location::new(108, 152)),
            is_in_special_zone: false
        }
    );
    assert_eq!(
        case(ghost(GhostId::Blinky, GhostMode::Frightened, tile(1, 2), Direction::Up)),
        Planning::Choose { next_tile: tile(1, 3), target: None, is_in_special_zone: false }
    );
}

#[test]
fn plan_with_sets_the_plan() {
    let room = GridMap::parse(ROOM);
    let origin = Location::new(0, 0);
    let mut g = ghost(GhostId::Blinky, GhostMode::Chase, tile(1, 2), Direction::Right);
    g.plan_with(&room, origin, tile(2, 9), Direction::Up, 0);
    assert_eq!(g.directions, GhostDirections { current: Direction::Right, planned: Some(Direction::Up) });
    let mut g = ghost(GhostId::Blinky, GhostMode::Frightened, tile(1, 2), Direction::Right);
    g.plan_with(&room, origin, tile(2, 9), Direction::Up, 2);
    assert_eq!(g.directions.planned, Some(Direction::Down));
    let mut g = ghost(GhostId::Blinky, GhostMode::Frightened, tile(0, 2), Direction::Right);
    g.plan_with(&room, origin, tile(2, 9), Direction::Up, 0);
    assert_eq!(g.directions.planned, Some(Direction::Right));
    let before = ghost(GhostId::Blinky, GhostMode::Home(false), tile(1, 2), Direction::Right);
    let mut g = before;
    g.plan_with(&room, origin, tile(2, 9), Direction::Up, 0);
    assert_eq!(g, before);
}

#[test]
fn plan_ghosts_plans_every_ghost() {
    let room = GridMap::parse(ROOM);
    let mut ghosts = vec![
        ghost(GhostId::Pinky, GhostMode::Chase, tile(1, 2), Direction::Right),
        ghost(GhostId::Blinky, GhostMode::Chase, tile(2, 1), Direction::Up),
        ghost(GhostId::Inky, GhostMode::Chase, tile(3, 2), Direction::Left),
        ghost(GhostId::Clyde, GhostMode::Chase, tile(2, 3), Direction::Down),
        ghost(GhostId::Clyde, GhostMode::Frightened, tile(1, 2), Direction::Right),
        ghost(GhostId::Inky, GhostMode::Scatter, tile(-3, 2), Direction::Left),
        ghost(GhostId::Inky, GhostMode::HomeExit(false), tile(1, 2), Direction::Up),
    ];
    let before = ghosts.clone();
    plan_ghosts(&mut ghosts, Location::new(24, 20), Direction::Up, &room);
    let plans: Vec<Option<Direction>> = ghosts.iter().map(|g| g.directions.planned).collect();
    assert_eq!(plans[0], Some(Direction::Up));
    assert_eq!(plans[1], Some(Direction::Up));
    assert_eq!(plans[2], Some(Direction::Up));
    assert_eq!(plans[3], Some(Direction::Down));
    assert!(
        plans[4] == Some(Direction::Up)
            || plans[4] == Some(Direction::Right)
            || plans[4] == Some(Direction::Down)
    );
    assert_eq!(plans[5], Some(Direction::Left));
    assert_eq!(plans[6], None);
    for (after, before) in ghosts.iter().zip(before.iter()) {
        assert_eq!(after.location, before.location);
        assert_eq!(after.mode, before.mode);
        assert_eq!(after.directions.current, before.directions.current);
    }
}

#[test]
fn plan_ghosts_with_draws_is_repeatable() {
    let room = GridMap::parse(ROOM);
    let start = vec![
        ghost(GhostId::Blinky, GhostMode::Frightened, tile(1, 2), Direction::Right),
        ghost(GhostId::Pinky, GhostMode::Frightened, tile(2, 1), Direction::Up),
        ghost(GhostId::Inky, GhostMode::Chase, tile(3, 2), Direction::Left),
        ghost(GhostId::Clyde, GhostMode::Frightened, tile(1, 1), Direction::Down),
    ];
    let planned = |draws: Vec<usize>| -> Vec<Option<Direction>> {
        let mut ghosts = start.clone();
        plan_ghosts_with(&mut ghosts, Location::new(24, 20), Direction::Up, &room, &draws);
        ghosts.iter().map(|g| g.directions.planned).collect()
    };
    assert_eq!(
        planned(vec![0, 0, 0, 0]),
        vec![Some(Direction::Up), Some(Direction::Left), Some(Direction::Up), Some(Direction::Down)]
    );
    assert_eq!(
        planned(vec![2, 1, 7, 0]),
        vec![Some(Direction::Down), Some(Direction::Up), Some(Direction::Up), Some(Direction::Down)]
    );
    assert_eq!(planned(vec![1, 2, 0, 0]), planned(vec![1, 2, 0, 0]));
}
