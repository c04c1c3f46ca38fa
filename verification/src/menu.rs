//! The menu tree: incremental construction of a menu bar or popup menu from
//! items, separators, built-in items, and submenus, together with the merged
//! accelerator table and the identifier registrations the items cause.

use vstd::prelude::*;
use vstd::string::StringExecFns;

use crate::accel_table::{seq_inserted, AccelTable};
use crate::accelerator::{convert_accelerator, convert_spec, format_hotkey, hotkey_label, AccelEntry, Accelerator};
use crate::events::{MenuId, MenuType};
use crate::registry::IdRegistry;

verus! {

/// Reserved command identifier of the built-in cut item.
pub const CUT_ID: u16 = 5001;

/// Reserved command identifier of the built-in copy item.
pub const COPY_ID: u16 = 5002;

/// Reserved command identifier of the built-in paste item.
pub const PASTE_ID: u16 = 5003;

/// Reserved command identifier of the built-in select-all item.
pub const SELECT_ALL_ID: u16 = 5004;

/// Reserved command identifier of the built-in hide item.
pub const HIDE_ID: u16 = 5005;

/// Reserved command identifier of the built-in close-window item.
pub const CLOSE_ID: u16 = 5006;

/// Reserved command identifier of the built-in quit item.
pub const QUIT_ID: u16 = 5007;

/// Reserved command identifier of the built-in minimize item.
pub const MINIMIZE_ID: u16 = 5008;

/// The built-in menu item kinds.
#[derive(Clone, Copy, Debug, PartialEq, Eq, Structural)]
pub enum MenuItem {
    Separator,
    Cut,
    Copy,
    Paste,
    SelectAll,
    Hide,
    CloseWindow,
    Quit,
    Minimize,
    About,
    Services,
    HideOthers,
    ShowAll,
    EnterFullScreen,
    Zoom,
}

/// One entry of a menu, in the order the menu shows them.
#[derive(Debug)]
pub enum MenuEntry {
    /// A leaf entry firing a command identifier.
    Item { id: u16, title: String, enabled: bool, selected: bool },
    /// A horizontal separator.
    Separator,
    /// A nested popup menu.
    Submenu { title: String, enabled: bool, entries: Vec<MenuEntry> },
}

/// The attributes handle returned for a custom item: the item's command
/// identifier.
#[derive(Clone, Copy, Debug, PartialEq, Eq, Structural)]
pub struct MenuItemAttributes(pub u16);

impl MenuItemAttributes {
    /// The identifier the item was added under.
    pub fn id(&self) -> (r: MenuId)
        ensures
            r == MenuId(self.0),
    {
        MenuId(self.0)
    }
}

/// A custom menu item handed back to the caller.
#[derive(Clone, Copy, Debug, PartialEq, Eq, Structural)]
pub struct CustomMenuItem(pub MenuItemAttributes);

/// The title of an item annotated with its hotkey label, where it has one.
pub open spec fn annotated_title(title: Seq<char>, acc: Option<Accelerator>) -> Seq<char> {
    match acc {
        Option::None => title,
        Option::Some(a) => title + "\t"@ + hotkey_label(a),
    }
}

/// The reserved identifier and fixed label of a built-in kind that renders as
/// a string item, or `None` for the separator and for kinds without a host
/// implementation.
pub open spec fn native_label(item: MenuItem) -> Option<(u16, Seq<char>)> {
    match item {
        MenuItem::Cut => Some((CUT_ID, "&Cut\tCtrl+X"@)),
        MenuItem::Copy => Some((COPY_ID, "&Copy\tCtrl+C"@)),
        MenuItem::Paste => Some((PASTE_ID, "&Paste\tCtrl+V"@)),
        MenuItem::SelectAll => Some((SELECT_ALL_ID, "&Select all\tCtrl+A"@)),
        MenuItem::Hide => Some((HIDE_ID, "&Hide\tCtrl+H"@)),
        MenuItem::CloseWindow => Some((CLOSE_ID, "&Close\tAlt+F4"@)),
        MenuItem::Quit => Some((QUIT_ID, "&Quit"@)),
        MenuItem::Minimize => Some((MINIMIZE_ID, "&Minimize"@)),
        _ => None,
    }
}

/// A menu under construction: its entries in order, and the merged
/// accelerator table of this menu and of every submenu merged into it.
#[derive(Debug)]
pub struct Menu {
    /// Whether the menu was created popup-style.
    pub popup: bool,
    /// The entries, in the order they were appended.
    pub entries: Vec<MenuEntry>,
    /// The merged accelerator table.
    pub accels: AccelTable,
}

impl Menu {
    /// The merged accelerator entries the menu carries.
    pub closed spec fn accel_entries(self) -> Seq<AccelEntry> {
        self.accels.entries()
    }

    /// The menu's invariant: accelerator command identifiers are unique.
    pub open spec fn wf(self) -> bool {
        crate::accel_table::unique_cmds(self.accel_entries())
    }

    /// An empty top-level menu.
    pub fn new() -> (r: Menu)
        ensures
            r.wf(),
            !r.popup,
            r.entries@.len() == 0,
            r.accel_entries().len() == 0,
    {
        Menu { popup: false, entries: Vec::new(), accels: AccelTable::new() }
    }

    /// An empty popup-style menu.
    pub fn new_popup_menu() -> (r: Menu)
        ensures
            r.wf(),
            r.popup,
            r.entries@.len() == 0,
            r.accel_entries().len() == 0,
    {
        Menu { popup: true, entries: Vec::new(), accels: AccelTable::new() }
    }

    /// The merged accelerator entries, or `None` where none were registered;
    /// callers use this to decide whether to install a host accelerator
    /// table at all.
    pub fn accelerator_table(&self) -> (r: Option<Vec<AccelEntry>>)
        ensures
            self.accel_entries().len() == 0 <==> r is None,
            r matches Some(v) ==> v@ == self.accel_entries(),
    {
        let n = self.accels.len();
        if n == 0 {
            return None;
        }
        let mut v: Vec<AccelEntry> = Vec::new();
        let mut i: usize = 0;
        while i < n
            invariant
                n == self.accels.entries().len(),
                i <= n,
                v@ == self.accels.entries().subrange(0, i as int),
            decreases n - i,
        {
            v.push(self.accels.entry_at(i));
            assert(v@ =~= self.accels.entries().subrange(0, i + 1 as int));
            i += 1;
        }
        assert(v@ =~= self.accels.entries());
        Some(v)
    }

    /// Append a custom leaf item. The title is annotated with the hotkey
    /// label where an accelerator is given; an accelerator whose key
    /// translates is stored in the table under `menu_id`; and `menu_id` is
    /// recorded in the identifier registry. The caller must keep custom
    /// identifiers from colliding; the tree does not detect a reused one.
    pub fn add_item(
        &mut self,
        registry: &mut IdRegistry,
        menu_id: MenuId,
        title: &str,
        accelerator: Option<Accelerator>,
        enabled: bool,
        selected: bool,
        _menu_type: MenuType,
    ) -> (r: CustomMenuItem)
        requires
            old(self).wf(),
        ensures
            final(self).wf(),
            final(self).popup == old(self).popup,
            final(self).entries@.len() == old(self).entries@.len() + 1,
            forall|k: int|
                0 <= k < old(self).entries@.len() ==> final(self).entries@[k] == old(
                self).entries@[k],
            final(self).entries@.last() matches MenuEntry::Item {
                id,
                title: t,
                enabled: e,
                selected: s,
            } && id == menu_id.0 && e == enabled && s == selected && t@ == annotated_title(
                title@,
                accelerator,
            ),
            final(registry).ids() == old(registry).ids().push(menu_id.0),
            match accelerator {
                Option::Some(a) => match convert_spec(menu_id.0, a) {
                    Option::Some(e) => seq_inserted(
                        old(self).accel_entries(),
                        final(self).accel_entries(),
                        e,
                    ),
                    Option::None => final(self).accel_entries() == old(self).accel_entries(),
                },
                Option::None => final(self).accel_entries() == old(self).accel_entries(),
            },
            r == CustomMenuItem(MenuItemAttributes(menu_id.0)),
    {
        let mut anno_title = title.to_owned();
        if let Some(a) = &accelerator {
            anno_title.append("\t");
            format_hotkey(a, &mut anno_title);
            assert(anno_title@ =~= annotated_title(title@, accelerator));
        }
        self.entries.push(
            MenuEntry::Item { id: menu_id.0, title: anno_title, enabled, selected },
        );
        if let Some(a) = &accelerator {
            if let Some(e) = convert_accelerator(menu_id.0, a) {
                self.accels.insert(e);
            }
        }
        registry.register(menu_id.0);
        CustomMenuItem(MenuItemAttributes(menu_id.0))
    }

    /// Append `submenu` as a nested popup under `title`, merging its
    /// accelerator table into this menu's: every entry of the submenu is
    /// carried over, the submenu's entry wins on a shared identifier, and the
    /// submenu is left empty — ownership of its contents transfers to the
    /// parent. A disabled submenu stays structurally present.
    pub fn add_submenu(&mut self, title: &str, enabled: bool, submenu: &mut Menu)
        requires
            old(self).wf(),
            old(submenu).wf(),
        ensures
            final(self).wf(),
            final(self).popup == old(self).popup,
            final(submenu).wf(),
            final(submenu).accel_entries().len() == 0,
            final(submenu).entries@.len() == 0,
            forall|x: AccelEntry|
                old(submenu).accel_entries().contains(x) ==> final(self).accel_entries().contains(
                    x,
                ),
            forall|x: AccelEntry|
                old(self).accel_entries().contains(x) && !crate::accel_table::has_cmd(
                    old(submenu).accel_entries(),
                    x.cmd,
                ) ==> final(self).accel_entries().contains(x),
            forall|x: AccelEntry|
                final(self).accel_entries().contains(x) ==> old(
                    submenu,
                ).accel_entries().contains(x) || (old(self).accel_entries().contains(x)
                    && !crate::accel_table::has_cmd(old(submenu).accel_entries(), x.cmd)),
            final(self).entries@.len() == old(self).entries@.len() + 1,
            forall|k: int|
                0 <= k < old(self).entries@.len() ==> final(self).entries@[k] == old(
                self).entries@[k],
            final(self).entries@.last() matches MenuEntry::Submenu {
                title: t,
                enabled: e,
                entries: es,
            } && t@ == title@ && e == enabled && es@ == old(submenu).entries@,
    {
        self.accels.merge_from(&mut submenu.accels);
        let mut child_entries: Vec<MenuEntry> = Vec::new();
        core::mem::swap(&mut child_entries, &mut submenu.entries);
        self.entries.push(
            MenuEntry::Submenu { title: title.to_owned(), enabled, entries: child_entries },
        );
    }

    /// Append a built-in item: the separator, or a string item under the
    /// kind's reserved identifier and fixed host-idiomatic label. Kinds
    /// without a host implementation append nothing — a deliberate no-op,
    /// not an error. No attributes handle is returned for built-in items.
    pub fn add_native_item(&mut self, item: MenuItem, _menu_type: MenuType) -> (r: Option<
        CustomMenuItem,
    >)
        requires
            old(self).wf(),
        ensures
            final(self).wf(),
            final(self).popup == old(self).popup,
            final(self).accel_entries() == old(self).accel_entries(),
            r is None,
            item is Separator ==> final(self).entries@.len() == old(self).entries@.len() + 1
                && final(self).entries@.last() is Separator,
            native_label(item) matches Some(pair) ==> final(self).entries@.len() == old(
                self,
            ).entries@.len() + 1 && (final(self).entries@.last() matches MenuEntry::Item {
                id,
                title: t,
                enabled: e,
                selected: s,
            } && id == pair.0 && t@ == pair.1 && e && !s),
            !(item is Separator) && native_label(item) is None ==> final(self).entries@ == old(
                self,
            ).entries@,
            forall|k: int|
                0 <= k < old(self).entries@.len() ==> final(self).entries@[k] == old(
                self).entries@[k],
    {
        match item {
            MenuItem::Separator => {
                self.entries.push(MenuEntry::Separator);
            },
            MenuItem::Cut => {
                self.entries.push(
                    MenuEntry::Item {
                        id: CUT_ID,
                        title: "&Cut\tCtrl+X".to_owned(),
                        enabled: true,
                        selected: false,
                    },
                );
            },
            MenuItem::Copy => {
                self.entries.push(
                    MenuEntry::Item {
                        id: COPY_ID,
                        title: "&Copy\tCtrl+C".to_owned(),
                        enabled: true,
                        selected: false,
                    },
                );
            },
            MenuItem::Paste => {
                self.entries.push(
                    MenuEntry::Item {
                        id: PASTE_ID,
                        title: "&Paste\tCtrl+V".to_owned(),
                        enabled: true,
                        selected: false,
                    },
                );
            },
            MenuItem::SelectAll => {
                self.entries.push(
                    MenuEntry::Item {
                        id: SELECT_ALL_ID,
                        title: "&Select all\tCtrl+A".to_owned(),
                        enabled: true,
                        selected: false,
                    },
                );
            },
            MenuItem::Hide => {
                self.entries.push(
                    MenuEntry::Item {
                        id: HIDE_ID,
                        title: "&Hide\tCtrl+H".to_owned(),
                        enabled: true,
                        selected: false,
                    },
                );
            },
            MenuItem::CloseWindow => {
                self.entries.push(
                    MenuEntry::Item {
                        id: CLOSE_ID,
                        title: "&Close\tAlt+F4".to_owned(),
                        enabled: true,
                        selected: false,
                    },
                );
            },
            MenuItem::Quit => {
                self.entries.push(
                    MenuEntry::Item {
                        id: QUIT_ID,
                        title: "&Quit".to_owned(),
                        enabled: true,
                        selected: false,
                    },
                );
            },
            MenuItem::Minimize => {
                self.entries.push(
                    MenuEntry::Item {
                        id: MINIMIZE_ID,
                        title: "&Minimize".to_owned(),
                        enabled: true,
                        selected: false,
                    },
                );
            },
            _ => {},
        }
        None
    }
}

impl Default for Menu {
    /// The default menu is an empty top-level menu.
    fn default() -> (r: Menu)
        ensures
            r.wf(),
            !r.popup,
            r.entries@.len() == 0,
            r.accel_entries().len() == 0,
    {
        Menu::new()
    }
}

} // verus!
