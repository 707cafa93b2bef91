//! Verified core logic of a space factory game: grid coordinates, colors,
//! part layers, timers, item storage, pipes, entity tables, terrain tiles,
//! the console and its commands, the ship editor, the client's viewport,
//! the cursor over the interface, and world downloads.

pub mod grid;
pub mod items;
pub mod inventory;
pub mod pipe;
pub mod color;
pub mod part_layer;
pub mod errors;
pub mod components;
pub mod rng;
pub mod terrain;
pub mod asteroid;
pub mod clock;
pub mod wall_timer;
pub mod frame_timer;
pub mod ipc;
pub mod portal;
pub mod ui_message;
pub mod task;
pub mod text;
pub mod commands;
pub mod prompt;
pub mod instance;
pub mod blob;
pub mod actions;
pub mod download;
pub mod editor;
pub mod viewport;
pub mod interaction;
pub mod rate;
pub mod world_commands;
pub mod client_session;
pub mod server_dispatch;
