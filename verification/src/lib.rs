//! Rules, scoring, turn order and decisions of a curling game.
//!
//! The library holds the game's logic: which team throws, when a stone breaks
//! the hog line or Free Guard Zone rules, how an end is scored, how the game
//! moves from shot to shot and end to end, how the computer opponent picks
//! its shot, what the controls and menus do, what the two sides of an online
//! game send and apply, and the texts the game shows.  Positions and
//! distances are `f32` values carried by their bits (`scalar::Scalar`); the
//! floating-point arithmetic itself (physics, distances, aiming) happens in
//! the program around the library.
pub mod components;
pub mod constants;
pub mod scalar;
pub mod helpers;
pub mod resources;
pub mod rules;
pub mod game_logic;
pub mod ai_strategy;
mod random;
pub mod personality;
pub mod viewport;
pub mod app_state;
pub mod online;
pub mod camera;
pub mod text;
pub mod hud;
pub mod input;
pub mod network;
