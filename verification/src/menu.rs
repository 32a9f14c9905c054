//! The menu model: an ordered tree of menu entries with stable identity,
//! independent of any protocol representation.
//!
//! [`TrayMenu`] owns its entries outright. Every entry receives an identifier
//! from a per-menu counter that is never reused, so identifiers stay unique
//! for the life of the menu even across removals. Submenu and platform-native
//! construction paths are declared but rejected with
//! [`TrayError::UnimplementedFeature`] rather than silently dropped.

use vstd::prelude::*;

use crate::error::TrayError;

verus! {

/// An application-chosen identifier carried by a menu entry, used to route
/// activation events back to the host application.
#[derive(Clone, Copy, Debug, PartialEq, Eq, Structural)]
pub struct MenuId(pub u16);

/// A key combination attached to a menu entry, as a raw modifier mask and
/// key code; parsing key names is outside this crate's scope.
#[derive(Clone, Copy, Debug, PartialEq, Eq, Structural)]
pub struct Accelerator {
    pub mods: u32,
    pub key: u32,
}

/// Where a menu entry is going to be shown.
#[derive(Clone, Copy, Debug, PartialEq, Eq, Structural)]
pub enum MenuType {
    /// A window menu bar.
    MenuBar,
    /// A context menu.
    ContextMenu,
    /// The platform's native menu surface, as a tray menu is.
    Native,
}

/// A platform-native menu entry role.
#[derive(Clone, Copy, Debug, PartialEq, Eq, Structural)]
pub enum MenuItem {
    About,
    Hide,
    Quit,
    Separator,
}

/// The semantic role of a menu entry: plain action, toggle, separator, or
/// nested submenu. Fixed at creation, never mutated afterwards.
#[derive(Clone, Copy, Debug, PartialEq, Eq, Structural)]
pub enum MenuKind {
    Standard,
    Checkable,
    Separator,
    Submenu,
}

/// One entry of the menu model. The `id` is unique within its menu for the
/// menu's whole life; `checked` is meaningful only for [`MenuKind::Checkable`]
/// entries and `children` only for [`MenuKind::Submenu`] entries.
#[derive(Debug)]
pub struct TrayMenuItem {
    pub id: u64,
    pub menu_id: MenuId,
    pub label: String,
    pub kind: MenuKind,
    pub enabled: bool,
    pub checked: bool,
    pub accelerator: Option<Accelerator>,
    pub children: Vec<TrayMenuItem>,
}

/// The handle returned for a constructed entry: the attributes the entry was
/// created with, plus `entry_id`, which correlates the handle to the entry in
/// the model for later lookup during activation events.
#[derive(Clone, Copy, Debug)]
pub struct MenuItemAttributes {
    pub id: MenuId,
    pub key: Option<Accelerator>,
    pub selected: bool,
    pub enabled: bool,
    pub menu_type: MenuType,
    pub entry_id: u64,
}

/// An opaque handle to a constructed menu entry.
#[derive(Clone, Copy, Debug)]
pub struct CustomMenuItem(pub MenuItemAttributes);

/// An ordered menu model; insertion order is display order.
#[derive(Debug)]
pub struct TrayMenu {
    pub entries: Vec<TrayMenuItem>,
    pub next_id: u64,
}

impl TrayMenu {
    /// Well-formedness: every entry identifier was drawn from the counter,
    /// identifiers are pairwise distinct, and entries carry no children, as
    /// submenu construction is not available.
    pub open spec fn wf(&self) -> bool {
        &&& forall|k: int|
            0 <= k < self.entries@.len() ==> (#[trigger] self.entries@[k]).id < self.next_id
        &&& forall|k: int|
            0 <= k < self.entries@.len() ==> (#[trigger] self.entries@[k]).children@.len() == 0
        &&& forall|k1: int, k2: int|
            #![trigger self.entries@[k1], self.entries@[k2]]
            0 <= k1 < k2 < self.entries@.len() ==> self.entries@[k1].id != self.entries@[k2].id
    }

    /// An empty menu model.
    pub fn new() -> (r: Self)
        ensures
            r.wf(),
            r.entries@.len() == 0,
            r.next_id == 0,
    {
        TrayMenu { entries: Vec::new(), next_id: 0 }
    }

    /// Appends an entry: a [`MenuKind::Checkable`] entry when `selected` is
    /// set, else a [`MenuKind::Standard`] entry, carrying `title`, the given
    /// enabled state, and a fresh identifier drawn from the counter. Returns
    /// the handle that correlates the entry to `menu_id` for activation
    /// lookup.
    pub fn add_item(
        &mut self,
        menu_id: MenuId,
        title: &str,
        accelerators: Option<Accelerator>,
        enabled: bool,
        selected: bool,
        menu_type: MenuType,
    ) -> (r: CustomMenuItem)
        requires
            old(self).wf(),
            old(self).next_id < u64::MAX,
        ensures
            final(self).wf(),
            final(self).next_id == old(self).next_id + 1,
            final(self).entries@.len() == old(self).entries@.len() + 1,
            final(self).entries@.subrange(0, old(self).entries@.len() as int) == old(
                self,
            ).entries@,
            ({
                let e = final(self).entries@.last();
                &&& e.id == old(self).next_id
                &&& e.menu_id == menu_id
                &&& e.label@ == title@
                &&& e.kind == (if selected {
                    MenuKind::Checkable
                } else {
                    MenuKind::Standard
                })
                &&& e.enabled == enabled
                &&& e.checked == selected
                &&& e.accelerator == accelerators
                &&& e.children@.len() == 0
            }),
            r.0.id == menu_id,
            r.0.key == accelerators,
            r.0.selected == selected,
            r.0.enabled == enabled,
            r.0.menu_type == menu_type,
            r.0.entry_id == old(self).next_id,
    {
        let kind = if selected {
            MenuKind::Checkable
        } else {
            MenuKind::Standard
        };
        let entry = TrayMenuItem {
            id: self.next_id,
            menu_id,
            label: title.to_owned(),
            kind,
            enabled,
            checked: selected,
            accelerator: accelerators,
            children: Vec::new(),
        };
        self.entries.push(entry);
        self.next_id = self.next_id + 1;
        proof {
            assert(final(self).entries@.subrange(0, old(self).entries@.len() as int) =~= old(
                self,
            ).entries@);
        }
        CustomMenuItem(
            MenuItemAttributes {
                id: menu_id,
                key: accelerators,
                selected,
                enabled,
                menu_type,
                entry_id: self.next_id - 1,
            },
        )
    }

    /// Platform-native entries are not available on this menu surface; the
    /// call is rejected and the model is left unchanged.
    pub fn add_native_item(&mut self, item: MenuItem, menu_type: MenuType) -> (r: Result<
        CustomMenuItem,
        TrayError,
    >)
        ensures
            *final(self) == *old(self),
            r matches Err(e) && e == TrayError::UnimplementedFeature,
    {
        Err(TrayError::UnimplementedFeature)
    }

    /// Submenu nesting is not available on this menu surface; the call is
    /// rejected and the model is left unchanged.
    pub fn add_submenu(&mut self, title: &str, enabled: bool, submenu: TrayMenu) -> (r: Result<
        (),
        TrayError,
    >)
        ensures
            *final(self) == *old(self),
            r matches Err(e) && e == TrayError::UnimplementedFeature,
    {
        Err(TrayError::UnimplementedFeature)
    }

    /// Looks the entry with identifier `entry_id` up, in display order.
    pub fn find_entry(&self, entry_id: u64) -> (r: Option<&TrayMenuItem>)
        requires
            self.wf(),
        ensures
            match r {
                Some(e) => exists|k: int|
                    0 <= k < self.entries@.len() && self.entries@[k] == *e && e.id == entry_id,
                None => forall|k: int|
                    0 <= k < self.entries@.len() ==> (#[trigger] self.entries@[k]).id != entry_id,
            },
    {
        let n = self.entries.len();
        let mut i: usize = 0;
        while i < n
            invariant
                i <= n == self.entries@.len(),
                forall|k: int| 0 <= k < i ==> (#[trigger] self.entries@[k]).id != entry_id,
            decreases n - i,
        {
            if self.entries[i].id == entry_id {
                return Some(&self.entries[i]);
            }
            i = i + 1;
        }
        None
    }
}

/// Entry identifiers are unique within a menu: any two distinct positions of
/// a well-formed menu hold entries with distinct identifiers, so two
/// `add_item` calls never produce colliding identifiers.
pub proof fn lemma_entry_ids_unique(m: TrayMenu, k1: int, k2: int)
    requires
        m.wf(),
        0 <= k1 < m.entries@.len(),
        0 <= k2 < m.entries@.len(),
        k1 != k2,
    ensures
        m.entries@[k1].id != m.entries@[k2].id,
{
}

} // verus!
