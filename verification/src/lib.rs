//! Robot Buddy game logic: tile maps, their palettes and the portals
//! between them, grid pathfinding, the follower path queue, Shelly's number
//! tracks, NPC identities, rosters and small talk, the rules of a portal
//! trip, answer tiles for the game's arithmetic, scripted dialogue, speech
//! preparation, settings, and save-slot storage helpers.

pub mod sprites;
pub mod pathfinding;
pub mod movement;
pub mod follower;
pub mod chars;
pub mod number_track;
pub mod tilemap;
pub mod npc;
pub mod settings;
pub mod audio;
pub mod save;
pub mod rng;
pub mod game;
