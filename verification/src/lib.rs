//! Verified core logic of a voxel sandbox world: block kinds, chunk storage and
//! serialization, coordinates, terrain layering, world block access, water flow, the
//! faces a chunk's mesh draws, block textures, chunk streaming, the player's inventory
//! and block edits, the menus and their settings, command-line options and save names.

pub mod block;
pub mod text;
pub mod world;
pub mod chunk;
pub mod coords;
pub mod error;
pub mod fluid;
pub mod inventory;
pub mod menu;
pub mod mesher;
pub mod cli;
pub mod texture;
pub mod menu_actions;
pub mod streaming;
pub mod terrain;
pub mod seed_input;
pub mod benchmark;
pub mod interaction;
pub mod collision;
pub mod saves;
pub mod chunk_cache;
