//! Verified core of the cat recycle bin: preferences, the drop guard that
//! decides which paths may be sent to the system recycle bin, the GLB model
//! check, window placement arithmetic and tray menu decisions.

pub mod controls;
pub mod model;
pub mod path_guard;
pub mod placement;
pub mod recycle_bin;
pub mod settings;

