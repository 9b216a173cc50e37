//! The runtime core of a side-scrolling game: the screen state machine,
//! the player's action state machine and animation clocks, the countdown,
//! and the asset mirror that keeps loaded resources in step with the state.

pub mod action;
pub mod animator;
pub mod asset;
pub mod data;
pub mod game;
pub mod game_play;
pub mod high_score;
pub mod hud;
pub mod input;
pub mod level;
pub mod menu;
pub mod outcome;
pub mod player;
pub mod player_select;
pub mod score;
pub mod screen;
pub mod text;
pub mod time;
