use pacman_core::direction::Direction;
use pacman_core::ghost::{GhostDirections, GhostId, GhostMode, GhostState};
use pacman_core::levels::Levels;
use pacman_core::location::Location;
use pacman_core::map::{GridMap, Tile};
use pacman_core::menu::MenuState;
use pacman_core::player::PlayerState;
use pacman_core::speed::CharacterSpeed;

fn ghost(id: GhostId, mode: GhostMode) -> GhostState {
    GhostState {
        id,
        location: Location::new(16, 16),
        directions: GhostDirections::new(Direction::Left),
        speed: CharacterSpeed::new(75),
        mode,
    }
}

#[test]
fn location_ranges() {
    assert!(Location::new(268435456, -268435456).fits());
    assert!(!Location::new(268435457, 0).fits());
    assert!(!Location::new(0, -268435457).fits());
    assert!(Location::new(268435457, 0).tiles_fit());
    assert!(Location::new(i32::MAX - 16, i32::MIN + 16).tiles_fit());
    assert!(!Location::new(i32::MAX - 15, 0).tiles_fit());
    assert!(!Location::new(0, i32::MIN + 15).tiles_fit());
}

#[test]
fn cadence_checks() {
    let mut s = CharacterSpeed::new(80);
    assert!(s.wf());
    for _ in 0..500 {
        assert!(s.can_tick());
        s.tick();
        assert!(s.wf());
    }
    let off = CharacterSpeed { speed: 80, advancement_counter: 10, missed_counter: 9, should_miss: false };
    assert!(!off.wf());
    let off = CharacterSpeed { speed: 80, advancement_counter: 10, missed_counter: 0, should_miss: false };
    assert!(!off.wf());
    let off = CharacterSpeed { speed: 106, advancement_counter: 0, missed_counter: 0, should_miss: false };
    assert!(!off.wf());
    let off = CharacterSpeed { speed: 80, advancement_counter: 1, missed_counter: 2, should_miss: false };
    assert!(!off.wf());
    let last = CharacterSpeed {
        speed: 105,
        advancement_counter: u64::MAX,
        missed_counter: 0,
        should_miss: false,
    };
    assert!(last.wf());
    assert!(!last.can_tick());
}

#[test]
fn map_checks() {
    let m = GridMap::parse("WW\nWW\nWW");
    assert!(m.wf());
    assert!(m.fits());
    assert!(!GridMap { width: 2, height: 2, map: vec![Tile::Wall] }.wf());
    assert!(!GridMap { width: usize::MAX, height: 2, map: Vec::new() }.wf());
    assert!(GridMap { width: 0, height: 7, map: Vec::new() }.wf());
    assert!(GridMap { width: 33554431, height: 0, map: Vec::new() }.fits());
    assert!(!GridMap { width: 33554432, height: 0, map: Vec::new() }.fits());
    assert!(!GridMap { width: 0, height: 33554432, map: Vec::new() }.fits());
}

#[test]
fn ghost_checks() {
    assert!(ghost(GhostId::Blinky, GhostMode::Chase).wf());
    assert!(!ghost(GhostId::Blinky, GhostMode::Home(false)).wf());
    assert!(ghost(GhostId::Pinky, GhostMode::Home(false)).wf());
    let mut far = ghost(GhostId::Pinky, GhostMode::Chase);
    far.location = Location::new(i32::MAX, 0);
    assert!(!far.wf());
    let mut off = ghost(GhostId::Pinky, GhostMode::Chase);
    off.speed.missed_counter = 3;
    assert!(!off.wf());
    assert!(!ghost(GhostId::Blinky, GhostMode::Home(false)).can_update_mode(true));
    assert!(!ghost(GhostId::Pinky, GhostMode::Home(false)).can_update_mode(false));
    assert!(ghost(GhostId::Pinky, GhostMode::Home(false)).can_update_mode(true));
    assert!(ghost(GhostId::Inky, GhostMode::Home(true)).can_update_mode(false));
    assert!(ghost(GhostId::Clyde, GhostMode::Home(true)).can_update_mode(false));
    assert!(ghost(GhostId::Blinky, GhostMode::HomeExit(false)).can_update_mode(false));
    assert!(ghost(GhostId::Pinky, GhostMode::Chase).can_update_mode(false));
}

#[test]
fn player_and_menu_checks() {
    let levels = Levels { advancements: 1, current: 1, hard_mode: false };
    let mut p = PlayerState::spawn(&levels);
    assert!(p.wf());
    p.location = Location::new(0, i32::MIN);
    assert!(!p.wf());
    assert!(MenuState::new(true).wf());
    assert!(!MenuState { current: 4, hard_mode: false }.wf());
}
