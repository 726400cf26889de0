//! Hallways: level manifests, menus and the player's intent, as a verified library.
pub mod assets;
pub mod banner;
pub mod cache;
pub mod color;
pub mod config;
pub mod error;
pub mod fetch;
pub mod input;
pub mod intro;
pub mod keyed;
pub mod log;
pub mod manifest;
pub mod material;
pub mod menu;
pub mod menu_home;
pub mod menu_settings;
pub mod menu_visit;
pub mod mesh;
pub mod outside;
pub mod player;
pub mod portal;
pub mod status;
pub mod text;
pub mod trimesh;
pub mod weburl;
pub mod window;
