//! Simulation core of a maze-chase arcade game: the tile map, fixed-point
//! positions, the speed cadence, player movement, and the ghosts' mode state
//! machine, targeting and path choice.
//!
//! Positions are kept in eighths of a tile, speeds in hundredths of the
//! reference speed and durations in sixtieths of a second, so that every rule
//! is exact integer arithmetic.

//!
//! The core of it is the step of one tick, in three phases. In planning the
//! global mode moves on ([`ghost_mode::update_global_ghost_mode`]), every
//! ghost takes its mode step ([`ghost_mode::update_ghost_mode`],
//! [`ghost_mode::detect_power_pellet`]), gets its speed
//! ([`ghost_move::update_ghost_speed`]) and plans its way
//! ([`ghost_plan::plan_ghosts`]), and the keys turn the player
//! ([`player::update_player`]). In movement the player and the ghosts move
//! ([`player::move_player`], [`ghost_move::move_ghosts`]). In collisions the
//! pellets under the player are eaten ([`pellets::remove_pellets`]) and the
//! meetings of player and ghosts are found
//! ([`collision::collision_detection`]).
//!
//! The timers of the game are run by the caller, who tells the library
//! which of them ran out and is told what to restart them with.

pub mod app_state;
pub mod collision;
pub mod digits;
pub mod direction;
pub mod events;
pub mod ghost;
pub mod ghost_mode;
pub mod ghost_move;
pub mod ghost_plan;
pub mod layers;
pub mod levels;
pub mod lines;
pub mod location;
pub mod map;
pub mod menu;
pub mod pellets;
pub mod player;
pub mod points;
pub mod scores;
pub mod sound;
pub mod speed;
pub mod sprites;
