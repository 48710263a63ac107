//! Classification of a Minecraft server's startup log: platform, version,
//! plugins and bound ports.

pub mod text;
pub mod platform;
pub mod name_map;
pub mod extract;
pub mod analyzer;
pub mod laws;
