//! Game rules of a small side-scrolling platformer: the boss and its parts,
//! the player's meters, projectile lifetimes, contact scans, the per-frame
//! event dispatch, the map data format and the level editor's input rules.
//! Geometry, drawing, sound and input stay with the caller; this crate holds
//! the discrete state and the decisions taken on it.

pub mod assets;
pub mod boss;
pub mod chance;
pub mod contact;
pub mod critters;
pub mod event;
pub mod flow;
pub mod frame;
pub mod map_data;
pub mod map_edit;
pub mod player;
pub mod text;
