//! Gameplay helpers for an entity-component-system game engine: bounded
//! values such as health, input-to-action mapping, looped audio, automatic
//! despawning, asset loading progress, split screens, and the rules of a
//! few camera and character controllers.
//!
//! The engine supplies the scheduler, the component storage and the renderer;
//! this crate holds the rules those helpers follow, on plain values.
pub mod audio_loop;
pub mod collision_detection;
pub mod controller_2d;
pub mod despawn;
pub mod health;
pub mod input;
pub mod loading;
pub mod range;
pub mod split_screen;
pub mod third_party_controller;
