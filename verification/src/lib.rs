pub mod command;
pub mod config;
pub mod interface;
pub mod lifecycle;
pub mod names;
pub mod peer;
pub mod peerconfig;
pub mod text;
pub mod wghelper;
