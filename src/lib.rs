//! Status lines for a desktop bar: the active workspace, the active window's
//! class, the window count of each workspace, a battery bucket and the memory
//! in use, together with the projector that decides what a window-manager
//! event makes the bar print.
pub mod battery;
pub mod memory;
pub mod projector;
pub mod text;
pub mod workspaces;
