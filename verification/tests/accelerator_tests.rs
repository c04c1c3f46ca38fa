use winmenu::accelerator::{convert_accelerator, format_hotkey, format_label, AccelEntry, Accelerator, FALT, FCONTROL, FSHIFT, FVIRTKEY};
use winmenu::keyboard::{KeyCode, ModifiersState};

fn mods(control: bool, shift: bool, alt: bool, super_key: bool) -> ModifiersState {
    ModifiersState { control, shift, alt, super_key }
}

#[test]
fn label_ctrl_shift_a() {
    let acc = Accelerator { mods: mods(true, true, false, false), key: KeyCode::KeyA };
    assert_eq!(format_label(&acc), "Ctrl+Shift+A");
}

#[test]
fn label_fixed_modifier_order() {
    let acc = Accelerator { mods: mods(true, true, true, true), key: KeyCode::KeyK };
    assert_eq!(format_label(&acc), "Ctrl+Shift+Alt+Windows+K");
}

#[test]
fn label_no_modifiers() {
    let acc = Accelerator { mods: ModifiersState::empty(), key: KeyCode::Digit7 };
    assert_eq!(format_label(&acc), "7");
}

#[test]
fn label_named_keys_short_names() {
    let cases = [
        (KeyCode::Escape, "Esc"),
        (KeyCode::Delete, "Del"),
        (KeyCode::Insert, "Ins"),
        (KeyCode::PageUp, "PgUp"),
        (KeyCode::PageDown, "PgDn"),
        (KeyCode::ArrowLeft, "Left"),
        (KeyCode::ArrowRight, "Right"),
        (KeyCode::ArrowUp, "Up"),
        (KeyCode::ArrowDown, "Down"),
    ];
    for (key, expected) in cases {
        let acc = Accelerator { mods: ModifiersState::empty(), key };
        assert_eq!(format_label(&acc), expected);
    }
}

#[test]
fn label_unmapped_key_uses_plain_name() {
    let acc = Accelerator { mods: mods(true, false, false, false), key: KeyCode::Space };
    assert_eq!(format_label(&acc), "Ctrl+Space");
    let acc = Accelerator { mods: ModifiersState::empty(), key: KeyCode::Fn };
    assert_eq!(format_label(&acc), "Fn");
}

#[test]
fn convert_ctrl_a() {
    let acc = Accelerator { mods: mods(true, false, false, false), key: KeyCode::KeyA };
    let entry = convert_accelerator(42, &acc).unwrap();
    assert_eq!(
        entry,
        AccelEntry { fvirt: FVIRTKEY | FCONTROL, key: 0x41, cmd: 42 }
    );
}

#[test]
fn convert_alt_shift_escape() {
    let acc = Accelerator { mods: mods(false, true, true, false), key: KeyCode::Escape };
    let entry = convert_accelerator(7, &acc).unwrap();
    assert_eq!(
        entry,
        AccelEntry { fvirt: FVIRTKEY | FALT | FSHIFT, key: 0x1B, cmd: 7 }
    );
}

#[test]
fn convert_unmapped_key_is_omitted() {
    let acc = Accelerator { mods: mods(true, false, false, false), key: KeyCode::Fn };
    assert_eq!(convert_accelerator(9, &acc), None);
}

#[test]
fn convert_roundtrip_all_representable_modifier_sets() {
    for bits in 0u8..8 {
        let m = mods(bits & 1 != 0, bits & 2 != 0, bits & 4 != 0, false);
        let acc = Accelerator { mods: m, key: KeyCode::KeyQ };
        let entry = convert_accelerator(3, &acc).unwrap();
        let decoded = mods(
            entry.fvirt & FCONTROL != 0,
            entry.fvirt & FSHIFT != 0,
            entry.fvirt & FALT != 0,
            false,
        );
        assert_eq!(decoded, m);
    }
}

#[test]
fn format_hotkey_appends_after_existing_text() {
    let acc = Accelerator { mods: mods(true, false, false, false), key: KeyCode::KeyS };
    let mut title = String::from("Save\t");
    format_hotkey(&acc, &mut title);
    assert_eq!(title, "Save\tCtrl+S");
}
