//! Verified core of the Cataclysm game launcher: platform detection, GitHub
//! release paging and URL construction, asset ordering, archive format
//! detection, and the decision logic of installing, launching, backing up,
//! restoring and resetting a game installation.

pub mod text;
pub mod platform;
pub mod github;
pub mod assets;
pub mod archive;
pub mod progress;
pub mod endpoint;
pub mod manual_backups;
pub mod reset;
pub mod launch;
pub mod installation;
pub mod last_played;
pub mod path;
mod slices;
