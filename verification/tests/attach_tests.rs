use std::num::NonZeroIsize;

use raw_window_handle::{RawWindowHandle, WebWindowHandle, Win32WindowHandle};
use winmenu::accelerator::Accelerator;
use winmenu::attach::initialize;
use winmenu::dispatch::MenuHandler;
use winmenu::events::{MenuId, MenuType, WindowId};
use winmenu::keyboard::{KeyCode, ModifiersState};
use winmenu::menu::Menu;
use winmenu::registry::IdRegistry;

fn win32_handle(hwnd: isize) -> RawWindowHandle {
    RawWindowHandle::Win32(Win32WindowHandle::new(NonZeroIsize::new(hwnd).unwrap()))
}

#[test]
fn initialize_attaches_to_a_win32_window() {
    let menu = Menu::new();
    let handler = MenuHandler::new(MenuType::MenuBar, Some(WindowId(42)));
    let attachment = initialize(&menu, win32_handle(42), handler).unwrap();
    assert_eq!(attachment.hwnd, 42);
    assert!(attachment.dispatch.is_attached());
    // an empty menu installs no accelerator table
    assert!(attachment.accel_table.is_none());
}

#[test]
fn initialize_rejects_other_handle_kinds() {
    let menu = Menu::new();
    let handler = MenuHandler::new(MenuType::MenuBar, None);
    let handle = RawWindowHandle::Web(WebWindowHandle::new(1));
    assert!(initialize(&menu, handle, handler).is_none());
}

#[test]
fn initialize_carries_the_accelerator_table() {
    let mut registry = IdRegistry::new();
    let mut menu = Menu::new();
    let acc = Accelerator {
        mods: ModifiersState { control: true, shift: false, alt: false, super_key: false },
        key: KeyCode::KeyO,
    };
    menu.add_item(&mut registry, MenuId(12), "Open", Some(acc), true, false, MenuType::MenuBar);
    let handler = MenuHandler::new(MenuType::MenuBar, Some(WindowId(5)));
    let attachment = initialize(&menu, win32_handle(5), handler).unwrap();
    let table = attachment.accel_table.unwrap();
    assert_eq!(table.len(), 1);
    assert_eq!(table[0].cmd, 12);
    assert_eq!(table[0].key, 0x4F);
}
