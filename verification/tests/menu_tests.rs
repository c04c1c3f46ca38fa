use winmenu::accelerator::{Accelerator, FCONTROL, FSHIFT};
use winmenu::events::{MenuId, MenuType};
use winmenu::keyboard::{KeyCode, ModifiersState};
use winmenu::menu::{Menu, MenuEntry, MenuItem, QUIT_ID, SELECT_ALL_ID};
use winmenu::registry::IdRegistry;

fn ctrl() -> ModifiersState {
    ModifiersState { control: true, shift: false, alt: false, super_key: false }
}

#[test]
fn new_menus_are_empty() {
    let menu = Menu::new();
    assert!(!menu.popup);
    assert!(menu.entries.is_empty());
    assert!(menu.accelerator_table().is_none());
    let popup = Menu::new_popup_menu();
    assert!(popup.popup);
    let default = Menu::default();
    assert!(!default.popup);
    assert!(default.entries.is_empty());
}

#[test]
fn add_item_returns_requested_id_and_registers_it() {
    let mut registry = IdRegistry::new();
    let mut menu = Menu::new();
    let item = menu.add_item(
        &mut registry,
        MenuId(4711),
        "Open",
        None,
        true,
        false,
        MenuType::MenuBar,
    );
    assert_eq!(item.0.id(), MenuId(4711));
    assert!(registry.contains(4711));
    assert!(!registry.contains(4712));
}

#[test]
fn add_item_annotates_title_with_hotkey() {
    let mut registry = IdRegistry::new();
    let mut menu = Menu::new();
    let acc = Accelerator { mods: ctrl(), key: KeyCode::KeyS };
    menu.add_item(&mut registry, MenuId(2), "Save", Some(acc), true, false, MenuType::MenuBar);
    match &menu.entries[0] {
        MenuEntry::Item { id, title, enabled, selected } => {
            assert_eq!(*id, 2);
            assert_eq!(title, "Save\tCtrl+S");
            assert!(*enabled);
            assert!(!*selected);
        }
        other => panic!("expected a leaf item, got {:?}", other),
    }
}

#[test]
fn add_item_with_unmapped_key_keeps_plain_table() {
    let mut registry = IdRegistry::new();
    let mut menu = Menu::new();
    let acc = Accelerator { mods: ctrl(), key: KeyCode::Fn };
    menu.add_item(&mut registry, MenuId(5), "Odd", Some(acc), true, false, MenuType::MenuBar);
    // the unmapped key leaves no accelerator entry, but the item is present
    // and registered
    assert!(menu.accelerator_table().is_none());
    assert!(registry.contains(5));
    match &menu.entries[0] {
        MenuEntry::Item { title, .. } => assert_eq!(title, "Odd\tCtrl+Fn"),
        other => panic!("expected a leaf item, got {:?}", other),
    }
}

#[test]
fn accelerator_table_roundtrip_decodes_modifiers() {
    for bits in 0u8..8 {
        let m = ModifiersState {
            control: bits & 1 != 0,
            shift: bits & 2 != 0,
            alt: bits & 4 != 0,
            super_key: false,
        };
        let mut registry = IdRegistry::new();
        let mut menu = Menu::new();
        let acc = Accelerator { mods: m, key: KeyCode::KeyG };
        menu.add_item(&mut registry, MenuId(77), "Go", Some(acc), true, false, MenuType::MenuBar);
        let table = menu.accelerator_table().unwrap();
        assert_eq!(table.len(), 1);
        assert_eq!(table[0].cmd, 77);
        let decoded = ModifiersState {
            control: table[0].fvirt & winmenu::accelerator::FCONTROL != 0,
            shift: table[0].fvirt & winmenu::accelerator::FSHIFT != 0,
            alt: table[0].fvirt & winmenu::accelerator::FALT != 0,
            super_key: false,
        };
        assert_eq!(decoded, m);
    }
}

#[test]
fn add_submenu_merges_accelerators_and_empties_child() {
    let mut registry = IdRegistry::new();
    let mut parent = Menu::new();
    let mut child = Menu::new_popup_menu();

    // the parent holds an entry under id 10 that the child will override
    let parent_acc = Accelerator { mods: ctrl(), key: KeyCode::KeyZ };
    parent.add_item(&mut registry, MenuId(10), "Old", Some(parent_acc), true, false, MenuType::MenuBar);

    let child_acc_a = Accelerator { mods: ctrl(), key: KeyCode::KeyC }; // id 10
    let child_acc_b = Accelerator {
        mods: ModifiersState { control: true, shift: true, alt: false, super_key: false },
        key: KeyCode::KeyV,
    }; // id 11
    child.add_item(&mut registry, MenuId(10), "Copy", Some(child_acc_a), true, false, MenuType::MenuBar);
    child.add_item(&mut registry, MenuId(11), "Paste", Some(child_acc_b), true, false, MenuType::MenuBar);

    let child_table_before: Vec<_> = child.accelerator_table().unwrap();
    assert_eq!(child_table_before.len(), 2);

    parent.add_submenu("Edit", true, &mut child);

    // every entry of the child's table is now in the parent's
    let parent_table = parent.accelerator_table().unwrap();
    for entry in &child_table_before {
        assert!(parent_table.contains(entry));
    }
    // on the shared id 10 the child's entry won: the key is C, not Z
    let id10 = parent_table.iter().find(|e| e.cmd == 10).unwrap();
    assert_eq!(id10.key, 0x43);
    assert_eq!(id10.fvirt, 0x01 | FCONTROL);
    let id11 = parent_table.iter().find(|e| e.cmd == 11).unwrap();
    assert_eq!(id11.fvirt, 0x01 | FCONTROL | FSHIFT);
    // the child's table is empty after the merge
    assert!(child.accelerator_table().is_none());
    assert!(child.entries.is_empty());

    // the submenu is structurally present in the parent
    match parent.entries.last().unwrap() {
        MenuEntry::Submenu { title, enabled, entries } => {
            assert_eq!(title, "Edit");
            assert!(*enabled);
            assert_eq!(entries.len(), 2);
        }
        other => panic!("expected a submenu, got {:?}", other),
    }
}

#[test]
fn disabled_submenu_stays_present() {
    let mut parent = Menu::new();
    let mut child = Menu::new_popup_menu();
    parent.add_submenu("Extras", false, &mut child);
    match parent.entries.last().unwrap() {
        MenuEntry::Submenu { enabled, .. } => assert!(!*enabled),
        other => panic!("expected a submenu, got {:?}", other),
    }
}

#[test]
fn add_native_item_appends_reserved_entries() {
    let mut menu = Menu::new();
    let r = menu.add_native_item(MenuItem::Quit, MenuType::MenuBar);
    assert!(r.is_none());
    match menu.entries.last().unwrap() {
        MenuEntry::Item { id, title, enabled, selected } => {
            assert_eq!(*id, QUIT_ID);
            assert_eq!(title, "&Quit");
            assert!(*enabled);
            assert!(!*selected);
        }
        other => panic!("expected a built-in item, got {:?}", other),
    }
    menu.add_native_item(MenuItem::SelectAll, MenuType::MenuBar);
    match menu.entries.last().unwrap() {
        MenuEntry::Item { id, title, .. } => {
            assert_eq!(*id, SELECT_ALL_ID);
            assert_eq!(title, "&Select all\tCtrl+A");
        }
        other => panic!("expected a built-in item, got {:?}", other),
    }
}

#[test]
fn add_native_separator_and_noop_kinds() {
    let mut menu = Menu::new();
    menu.add_native_item(MenuItem::Separator, MenuType::MenuBar);
    assert!(matches!(menu.entries.last().unwrap(), MenuEntry::Separator));
    // kinds without a host implementation append nothing
    menu.add_native_item(MenuItem::About, MenuType::MenuBar);
    menu.add_native_item(MenuItem::EnterFullScreen, MenuType::MenuBar);
    assert_eq!(menu.entries.len(), 1);
    assert!(menu.accelerator_table().is_none());
}
