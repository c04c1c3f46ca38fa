//! Translation of abstract accelerators into native accelerator-table
//! entries, and formatting of the human-readable hotkey label.

use vstd::prelude::*;
use vstd::string::StringExecFns;

use crate::keyboard::{key_display, key_label, key_to_vk, key_vk, KeyCode, ModifiersState};

verus! {

/// Flag marking an accelerator entry as keyed by a virtual-key code.
pub const FVIRTKEY: u8 = 0x01;

/// Flag for the shift modifier in a native accelerator entry.
pub const FSHIFT: u8 = 0x04;

/// Flag for the control modifier in a native accelerator entry.
pub const FCONTROL: u8 = 0x08;

/// Flag for the alt modifier in a native accelerator entry.
pub const FALT: u8 = 0x10;

/// An abstract keyboard accelerator: a modifier set and a logical key.
#[derive(Clone, Copy, Debug, PartialEq, Eq, Structural)]
pub struct Accelerator {
    pub mods: ModifiersState,
    pub key: KeyCode,
}

/// A native accelerator-table entry: modifier flags, a virtual-key code, and
/// the command identifier the entry fires.
#[derive(Clone, Copy, Debug, PartialEq, Eq, Structural)]
pub struct AccelEntry {
    pub fvirt: u8,
    pub key: u16,
    pub cmd: u16,
}

/// The native modifier flags contributed by the modifier set alone.
pub open spec fn base_flags(mods: ModifiersState) -> u8 {
    let f0 = FVIRTKEY;
    let f1 = if mods.control {
        f0 | FCONTROL
    } else {
        f0
    };
    let f2 = if mods.alt {
        f1 | FALT
    } else {
        f1
    };
    if mods.shift {
        f2 | FSHIFT
    } else {
        f2
    }
}

/// The native modifier flags for a modifier set and a virtual-key code whose
/// high byte may encode implicit modifiers that are OR'ed in.
pub open spec fn accel_flags(mods: ModifiersState, vk: u16) -> u8 {
    let f0 = base_flags(mods);
    let f1 = if (vk >> 8) & 0x1 != 0 {
        f0 | FSHIFT
    } else {
        f0
    };
    let f2 = if (vk >> 8) & 0x2 != 0 {
        f1 | FCONTROL
    } else {
        f1
    };
    if (vk >> 8) & 0x4 != 0 {
        f2 | FALT
    } else {
        f2
    }
}

/// What translating an accelerator under a command identifier yields: `None`
/// exactly when the logical key has no virtual-key mapping.
pub open spec fn convert_spec(id: u16, a: Accelerator) -> Option<AccelEntry> {
    match key_vk(a.key) {
        Some(vk) => Some(
            AccelEntry { fvirt: accel_flags(a.mods, vk), key: vk & 0x00ff, cmd: id },
        ),
        None => None,
    }
}

/// Translate an accelerator into a native accelerator-table entry, or `None`
/// where the logical key has no virtual-key mapping; the caller then omits
/// the entry from the table.
pub fn convert_accelerator(id: u16, key: &Accelerator) -> (r: Option<AccelEntry>)
    ensures
        r == convert_spec(id, *key),
{
    let mut virt_key: u8 = FVIRTKEY;
    if key.mods.control {
        virt_key = virt_key | FCONTROL;
    }
    if key.mods.alt {
        virt_key = virt_key | FALT;
    }
    if key.mods.shift {
        virt_key = virt_key | FSHIFT;
    }

    match key_to_vk(&key.key) {
        Some(vk_code) => {
            let mod_code: u16 = vk_code >> 8;
            if mod_code & 0x1 != 0 {
                virt_key = virt_key | FSHIFT;
            }
            if mod_code & 0x2 != 0 {
                virt_key = virt_key | FCONTROL;
            }
            if mod_code & 0x4 != 0 {
                virt_key = virt_key | FALT;
            }
            let raw_key: u16 = vk_code & 0x00ff;
            Some(AccelEntry { fvirt: virt_key, key: raw_key, cmd: id })
        },
        None => None,
    }
}

/// The modifier set a native accelerator entry's flags encode. The native
/// entry has no flag for the super modifier, so that one decodes as absent.
pub open spec fn decoded_mods(fvirt: u8) -> ModifiersState {
    ModifiersState {
        control: fvirt & FCONTROL != 0,
        shift: fvirt & FSHIFT != 0,
        alt: fvirt & FALT != 0,
        super_key: false,
    }
}

/// Round trip: for every accelerator whose key has a virtual-key mapping and
/// whose modifier set the native entry can represent (the native entry has no
/// super flag), the translated entry decodes back to the modifier set it was
/// built from.
pub proof fn lemma_accelerator_roundtrip(id: u16, a: Accelerator)
    requires
        !a.mods.super_key,
        key_vk(a.key) is Some,
    ensures
        convert_spec(id, a) matches Some(e) && decoded_mods(e.fvirt) == a.mods,
{
    let vk = key_vk(a.key)->Some_0;
    crate::keyboard::lemma_key_vk_low_byte(a.key);
    assert((vk >> 8) & 0x1 == 0 && (vk >> 8) & 0x2 == 0 && (vk >> 8) & 0x4 == 0) by (bit_vector)
        requires
            vk <= 0xff,
    ;
    assert(accel_flags(a.mods, vk) == base_flags(a.mods));
    assert(a.mods == mods3(a.mods.control, a.mods.alt, a.mods.shift));
    lemma_base_flags_decode(a.mods.control, a.mods.alt, a.mods.shift);
}

/// A modifier set without the super modifier, for stating the decode lemma.
spec fn mods3(control: bool, alt: bool, shift: bool) -> ModifiersState {
    ModifiersState { control, shift, alt, super_key: false }
}

/// The flags built from a modifier set decode back to exactly that set.
proof fn lemma_base_flags_decode(control: bool, alt: bool, shift: bool)
    ensures
        decoded_mods(base_flags(mods3(control, alt, shift))) == mods3(control, alt, shift),
{
    let m = mods3(control, alt, shift);
    if control {
        if alt {
            if shift {
                assert(base_flags(m) == (1u8 | 8) | 16 | 4);
                assert(((1u8 | 8) | 16 | 4) & 8u8 != 0 && ((1u8 | 8) | 16 | 4) & 4u8 != 0 && ((
                1u8 | 8) | 16 | 4) & 16u8 != 0) by (bit_vector);
            } else {
                assert(base_flags(m) == (1u8 | 8) | 16);
                assert(((1u8 | 8) | 16) & 8u8 != 0 && ((1u8 | 8) | 16) & 4u8 == 0 && ((1u8 | 8)
                | 16) & 16u8 != 0) by (bit_vector);
            }
        } else {
            if shift {
                assert(base_flags(m) == (1u8 | 8) | 4);
                assert(((1u8 | 8) | 4) & 8u8 != 0 && ((1u8 | 8) | 4) & 4u8 != 0 && ((1u8 | 8)
                | 4) & 16u8 == 0) by (bit_vector);
            } else {
                assert(base_flags(m) == 1u8 | 8);
                assert((1u8 | 8) & 8u8 != 0 && (1u8 | 8) & 4u8 == 0 && (1u8 | 8) & 16u8 == 0)
                    by (bit_vector);
            }
        }
    } else {
        if alt {
            if shift {
                assert(base_flags(m) == (1u8 | 16) | 4);
                assert(((1u8 | 16) | 4) & 8u8 == 0 && ((1u8 | 16) | 4) & 4u8 != 0 && ((1u8 | 16)
                | 4) & 16u8 != 0) by (bit_vector);
            } else {
                assert(base_flags(m) == 1u8 | 16);
                assert((1u8 | 16) & 8u8 == 0 && (1u8 | 16) & 4u8 == 0 && (1u8 | 16) & 16u8 != 0)
                    by (bit_vector);
            }
        } else {
            if shift {
                assert(base_flags(m) == 1u8 | 4);
                assert((1u8 | 4) & 8u8 == 0 && (1u8 | 4) & 4u8 != 0 && (1u8 | 4) & 16u8 == 0)
                    by (bit_vector);
            } else {
                assert(base_flags(m) == 1u8);
                assert(1u8 & 8u8 == 0 && 1u8 & 4u8 == 0 && 1u8 & 16u8 == 0) by (bit_vector);
            }
        }
    }
}

/// The label fragment the modifier set contributes, in the fixed order
/// Ctrl, Shift, Alt, Super.
pub open spec fn mods_label(m: ModifiersState) -> Seq<char> {
    (if m.control {
        "Ctrl+"@
    } else {
        Seq::<char>::empty()
    }) + (if m.shift {
        "Shift+"@
    } else {
        Seq::<char>::empty()
    }) + (if m.alt {
        "Alt+"@
    } else {
        Seq::<char>::empty()
    }) + (if m.super_key {
        "Windows+"@
    } else {
        Seq::<char>::empty()
    })
}

/// The full human-readable hotkey label: modifiers first, in the fixed order
/// Ctrl, Shift, Alt, Super, then the key's display form.
pub open spec fn hotkey_label(a: Accelerator) -> Seq<char> {
    mods_label(a.mods) + key_label(a.key)
}

/// Append the hotkey label of `key` to `s`.
#[verifier::rlimit(50)]
pub fn format_hotkey(key: &Accelerator, s: &mut String)
    ensures
        final(s)@ == old(s)@ + hotkey_label(*key),
{
    if key.mods.control {
        s.append("Ctrl+");
    }
    if key.mods.shift {
        s.append("Shift+");
    }
    if key.mods.alt {
        s.append("Alt+");
    }
    if key.mods.super_key {
        s.append("Windows+");
    }
    s.append(key_display(&key.key));
    assert(s@ =~= old(s)@ + hotkey_label(*key));
}

/// Render the hotkey label of `key` on its own.
pub fn format_label(key: &Accelerator) -> (r: String)
    ensures
        r@ == hotkey_label(*key),
{
    let mut s = String::new();
    format_hotkey(key, &mut s);
    assert(s@ =~= hotkey_label(*key));
    s
}

} // verus!
