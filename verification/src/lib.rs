//! Layered editor configuration: tables of dynamically typed values stacked
//! as global, per-syntax and per-buffer layers, and resolved on demand into a
//! typed snapshot.

pub mod defaults;
pub mod laws;
pub mod manager;
pub mod pair;
pub mod parse;
pub mod paths;
pub mod reload;
pub mod settings;
pub mod syntax;
pub mod tabs;
pub mod text;
pub mod value;
