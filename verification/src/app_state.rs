//! The screens of the game and the steps between them.

use vstd::prelude::*;

verus! {

/// Where the game stands as a whole.
#[derive(Clone, Copy, Debug, PartialEq, Eq, Hash, Structural)]
pub enum AppState {
    MainMenu,
    LevelStart,
    MainGame,
    LevelComplete,
    PlayerDied,
    GameOver,
    Leaderboard,
}

/// The stages the game goes through after the player was caught.
#[derive(Clone, Copy, Debug, PartialEq, Eq, Hash, Structural)]
pub enum DeadState {
    Pause,
    Animation,
    Restart,
    GameOver,
    NotDead,
}

impl Default for AppState {
    /// The game opens on the main menu.
    fn default() -> (r: AppState)
        ensures
            r == AppState::MainMenu,
    {
        AppState::MainMenu
    }
}

impl Default for DeadState {
    /// The player starts alive.
    fn default() -> (r: DeadState)
        ensures
            r == DeadState::NotDead,
    {
        DeadState::NotDead
    }
}

impl AppState {
    /// The state that follows when the state timer runs out: play follows
    /// the start of a level, and the next level's start follows a completed
    /// level. The other states do not end by the timer.
    pub open spec fn spec_after_timer(&self) -> Option<AppState> {
        match *self {
            AppState::LevelStart => Some(AppState::MainGame),
            AppState::LevelComplete => Some(AppState::LevelStart),
            _ => None,
        }
    }

    /// Seconds that the state `next` lasts when it is entered from this
    /// state, for the states that end by the timer: the first level of a
    /// game starts after four seconds, a later one after two; a completed
    /// level is shown for six.
    pub open spec fn spec_timer_seconds(&self, next: AppState) -> Option<u64> {
        match next {
            AppState::LevelStart => if *self == AppState::MainMenu {
                Some(4)
            } else {
                Some(2)
            },
            AppState::LevelComplete => Some(6),
            _ => None,
        }
    }

    /// The state that the escape key leads to: the main menu from the menu,
    /// the game-over screen and the leaderboard; the game-over screen from
    /// everywhere else.
    pub open spec fn spec_after_escape(&self) -> AppState {
        match *self {
            AppState::MainMenu | AppState::GameOver | AppState::Leaderboard => AppState::MainMenu,
            _ => AppState::GameOver,
        }
    }

    /// The state that follows when the state timer runs out, if any.
    #[verifier::when_used_as_spec(spec_after_timer)]
    pub fn after_timer(&self) -> (r: Option<AppState>)
        ensures
            r == self.spec_after_timer(),
    {
        match self {
            AppState::LevelStart => Some(AppState::MainGame),
            AppState::LevelComplete => Some(AppState::LevelStart),
            _ => None,
        }
    }

    /// Seconds to set the state timer to when `next` is entered from this
    /// state, if `next` ends by the timer.
    #[verifier::when_used_as_spec(spec_timer_seconds)]
    pub fn timer_seconds(&self, next: AppState) -> (r: Option<u64>)
        ensures
            r == self.spec_timer_seconds(next),
    {
        match next {
            AppState::LevelStart => {
                if *self == AppState::MainMenu {
                    Some(4)
                } else {
                    Some(2)
                }
            },
            AppState::LevelComplete => Some(6),
            _ => None,
        }
    }

    /// The state that the escape key leads to.
    #[verifier::when_used_as_spec(spec_after_escape)]
    pub fn after_escape(&self) -> (r: AppState)
        ensures
            r == self.spec_after_escape(),
    {
        match self {
            AppState::MainMenu => AppState::MainMenu,
            AppState::GameOver => AppState::MainMenu,
            AppState::Leaderboard => AppState::MainMenu,
            _ => AppState::GameOver,
        }
    }
}

} // verus!
