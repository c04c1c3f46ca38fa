//! Menu-tree construction, accelerator translation, and command dispatch for a
//! native menu bar attached to a Win32 window.
//!
//! The library models the menu structure, the accelerator table, the
//! process-wide identifier registry, and the per-window dispatch state machine
//! as verified data structures. The thin layer that replays this state into
//! the host windowing system lives outside the library.

pub mod keyboard;
pub mod accelerator;
pub mod accel_table;
pub mod registry;
pub mod events;
pub mod menu;
pub mod dispatch;
pub mod attach;
