//! Launcher logic for a Minecraft launcher: rule evaluation for libraries and
//! arguments, argument templating, download planning and offline identities.

pub mod text;
pub mod paths;
pub mod rules;
pub mod digest;
pub mod launch;
pub mod manager;
pub mod download;
