//! Portfolio site library.
//!
//! The skills widget's engine: a registry of skill nodes, layout strategies that place them
//! on a canvas, an animation controller that smooths their motion, and a hit tester that maps
//! the pointer to a node. All geometry is fixed-point: coordinates count thousandths of a
//! canvas unit, and angles count 256ths of a turn.
//!
//! Around it, the pure parts of the web server: configuration, static file policy, asset
//! resolution, security decisions, text helpers and the page's data.
pub mod trig;
pub mod layout;
pub mod registry;
pub mod engine;

pub mod assets;
pub mod blog;
pub mod config;
pub mod models;
pub mod security;
pub mod static_files;
pub mod utils;
