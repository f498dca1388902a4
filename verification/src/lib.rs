//! Verified gameplay, input and configuration logic of a multiplayer game
//! template: key-binding parsing, input-map planning, device resolution,
//! dynamic-object state actions, lighting presets, skybox layout detection
//! and the networking settings derived from configuration.

pub mod settings;
pub mod text;
pub mod keys;
pub mod buttons;
pub mod actions;
pub mod input;
pub mod dynamic;
pub mod lighting;
pub mod skybox;
pub mod camera;
pub mod movement;
pub mod world;
pub mod cli;
pub mod hot_reload;
pub mod color;
pub mod client;
pub mod paths;
