//! The application-level events the dispatcher emits, and the identifiers
//! they carry.

use vstd::prelude::*;

verus! {

/// The identifier of a custom menu item: a caller-chosen 16-bit value.
#[derive(Clone, Copy, Debug, PartialEq, Eq, Structural)]
pub struct MenuId(pub u16);

/// The logical origin of a menu: attached to a window's menu bar, or shown
/// as a context menu.
#[derive(Clone, Copy, Debug, PartialEq, Eq, Structural)]
pub enum MenuType {
    MenuBar,
    ContextMenu,
}

/// The identifier of the window a notification came from.
#[derive(Clone, Copy, Debug, PartialEq, Eq, Structural)]
pub struct WindowId(pub i64);

/// An event surfaced to the application.
#[derive(Clone, Copy, Debug, PartialEq, Eq, Structural)]
pub enum Event {
    /// A custom menu item was selected.
    MenuEvent { menu_id: MenuId, origin: MenuType, window_id: Option<WindowId> },
    /// The built-in close item asked for the window to be closed.
    CloseRequested { window_id: WindowId },
    /// The built-in quit item asked for the event loop to end.
    LoopDestroyed,
}

} // verus!
