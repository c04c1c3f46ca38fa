//! Attaching a finished menu to a window: confirming the window handle is of
//! the Win32 kind this backend understands, and producing the dispatch state
//! and accelerator table the embedder installs on the window.

use vstd::prelude::*;

use crate::accelerator::AccelEntry;
use crate::dispatch::{MenuHandler, WindowDispatch};
use crate::menu::Menu;

verus! {

#[verifier::external_type_specification]
#[verifier::external_body]
/// The window-handle abstraction of the `raw_window_handle` crate, carried
/// opaquely; only the classifier below looks inside it.
pub struct ExRawWindowHandle(raw_window_handle::RawWindowHandle);

/// The window the handle names, where it is of the Win32 kind: the `hwnd`
/// of the `Win32` variant, and nothing for every other variant. A handle
/// value alone determines this.
pub uninterp spec fn win32_target(handle: raw_window_handle::RawWindowHandle) -> Option<i64>;

/// Relies on `raw_window_handle::RawWindowHandle`: the `Win32` variant
/// carries the window's `hwnd` as a non-zero `isize`; every other variant
/// belongs to another backend.
#[verifier::external_body]
fn win32_hwnd(handle: &raw_window_handle::RawWindowHandle) -> (r: Option<i64>)
    ensures
        r == win32_target(*handle),
{
    match handle {
        raw_window_handle::RawWindowHandle::Win32(h) => Some(h.hwnd.get() as i64),
        _ => None,
    }
}

/// Everything the embedder installs on the window: the window identifier the
/// events will name, the dispatch state owning the handler, and the merged
/// accelerator table where one is to be registered.
pub struct Attachment {
    /// The `hwnd` of the window the menu was attached to.
    pub hwnd: i64,
    /// The dispatch state the window's storage takes ownership of.
    pub dispatch: WindowDispatch,
    /// The accelerator table to register, where the menu carries entries.
    pub accel_table: Option<Vec<AccelEntry>>,
}

/// Attach `menu_builder` to the window `window_handle` names. A handle of
/// the Win32 kind yields the attachment: the dispatch state installed with
/// `menu_handler`, and the menu's accelerator table where it is non-empty.
/// Any other handle kind yields `None` — an explicit, recoverable result;
/// the caller must not assume a menu was installed.
pub fn initialize(
    menu_builder: &Menu,
    window_handle: raw_window_handle::RawWindowHandle,
    menu_handler: MenuHandler,
) -> (r: Option<Attachment>)
    ensures
        r is Some <==> win32_target(window_handle) is Some,
        r matches Some(att) ==> {
            &&& Some(att.hwnd) == win32_target(window_handle)
            &&& att.dispatch.attached()
            &&& att.dispatch.handler_state() == menu_handler
            &&& menu_builder.accel_entries().len() == 0 <==> att.accel_table is None
            &&& att.accel_table matches Some(v) ==> v@ == menu_builder.accel_entries()
        },
{
    match win32_hwnd(&window_handle) {
        Some(hwnd) => {
            let dispatch = WindowDispatch::attach(menu_handler);
            let accel_table = menu_builder.accelerator_table();
            Some(Attachment { hwnd, dispatch, accel_table })
        },
        None => None,
    }
}

} // verus!
