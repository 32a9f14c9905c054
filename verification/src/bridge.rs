//! Translation between the menu model and the outside world: resolving the
//! model into the item shapes a tray-protocol service expects, and turning a
//! user activation into the message the hosting application consumes.
//!
//! Resolution is a depth-first traversal of the model: each entry maps to the
//! protocol item variant matching its kind, with `label`, `enabled` and
//! `checked` carried over verbatim and submenu children resolved in order.

use vstd::prelude::*;

use crate::menu::{MenuId, MenuKind, TrayMenu, TrayMenuItem};

verus! {

/// A menu item in the shape the tray protocol expects; `id` is the entry
/// identifier the protocol hands back in activation notifications.
#[derive(Debug)]
pub enum ProtoItem {
    Standard { id: u64, label: String, enabled: bool },
    Checkmark { id: u64, label: String, enabled: bool, checked: bool },
    Separator,
    Submenu { id: u64, label: String, enabled: bool, children: Vec<ProtoItem> },
}

/// The mathematical shape of a protocol item: labels as character sequences,
/// children as a sequence.
pub enum ProtoItemModel {
    Standard { id: u64, label: Seq<char>, enabled: bool },
    Checkmark { id: u64, label: Seq<char>, enabled: bool, checked: bool },
    Separator,
    Submenu { id: u64, label: Seq<char>, enabled: bool, children: Seq<ProtoItemModel> },
}

/// The model of one protocol item.
pub open spec fn proto_item_model(p: ProtoItem) -> ProtoItemModel
    decreases p,
{
    match p {
        ProtoItem::Standard { id, label, enabled } => ProtoItemModel::Standard {
            id,
            label: label@,
            enabled,
        },
        ProtoItem::Checkmark { id, label, enabled, checked } => ProtoItemModel::Checkmark {
            id,
            label: label@,
            enabled,
            checked,
        },
        ProtoItem::Separator => ProtoItemModel::Separator,
        ProtoItem::Submenu { id, label, enabled, children } => ProtoItemModel::Submenu {
            id,
            label: label@,
            enabled,
            children: proto_items_model(children@),
        },
    }
}

/// The model of a sequence of protocol items.
pub open spec fn proto_items_model(s: Seq<ProtoItem>) -> Seq<ProtoItemModel>
    decreases s,
{
    if s.len() == 0 {
        Seq::empty()
    } else {
        proto_items_model(s.drop_last()).push(proto_item_model(s.last()))
    }
}

/// What one entry resolves to: the protocol item variant matching its kind,
/// with label, enabled state and check state carried over verbatim.
pub open spec fn resolution_of(e: TrayMenuItem) -> ProtoItemModel
    decreases e,
{
    match e.kind {
        MenuKind::Standard => ProtoItemModel::Standard {
            id: e.id,
            label: e.label@,
            enabled: e.enabled,
        },
        MenuKind::Checkable => ProtoItemModel::Checkmark {
            id: e.id,
            label: e.label@,
            enabled: e.enabled,
            checked: e.checked,
        },
        MenuKind::Separator => ProtoItemModel::Separator,
        MenuKind::Submenu => ProtoItemModel::Submenu {
            id: e.id,
            label: e.label@,
            enabled: e.enabled,
            children: resolution_of_items(e.children@),
        },
    }
}

/// What a sequence of entries resolves to, in display order.
pub open spec fn resolution_of_items(s: Seq<TrayMenuItem>) -> Seq<ProtoItemModel>
    decreases s,
{
    if s.len() == 0 {
        Seq::empty()
    } else {
        resolution_of_items(s.drop_last()).push(resolution_of(s.last()))
    }
}

/// Appending one element extends a sequence's model by that element's model.
proof fn lemma_proto_items_model_push(s: Seq<ProtoItem>, p: ProtoItem)
    ensures
        proto_items_model(s.push(p)) == proto_items_model(s).push(proto_item_model(p)),
{
    assert(s.push(p).drop_last() =~= s);
    assert(s.push(p).last() == p);
}

/// Resolving one more entry extends the resolution by that entry's model.
proof fn lemma_resolution_of_items_take(s: Seq<TrayMenuItem>, i: int)
    requires
        0 <= i < s.len(),
    ensures
        resolution_of_items(s.subrange(0, i + 1)) == resolution_of_items(s.subrange(0, i)).push(
            resolution_of(s[i]),
        ),
{
    assert(s.subrange(0, i + 1).drop_last() =~= s.subrange(0, i));
    assert(s.subrange(0, i + 1).last() == s[i]);
}

/// Resolves one entry of the menu model, depth first.
pub fn resolve_item(e: &TrayMenuItem) -> (r: ProtoItem)
    ensures
        proto_item_model(r) == resolution_of(*e),
    decreases *e,
{
    match e.kind {
        MenuKind::Standard => ProtoItem::Standard {
            id: e.id,
            label: e.label.clone(),
            enabled: e.enabled,
        },
        MenuKind::Checkable => ProtoItem::Checkmark {
            id: e.id,
            label: e.label.clone(),
            enabled: e.enabled,
            checked: e.checked,
        },
        MenuKind::Separator => ProtoItem::Separator,
        MenuKind::Submenu => {
            let n = e.children.len();
            let mut children: Vec<ProtoItem> = Vec::new();
            let mut i: usize = 0;
            while i < n
                invariant
                    i <= n == e.children@.len(),
                    proto_items_model(children@) == resolution_of_items(
                        e.children@.subrange(0, i as int),
                    ),
                decreases n - i,
            {
                proof {
                    assert(decreases_to!(*e => e.children@[i as int]));
                }
                let child = resolve_item(&e.children[i]);
                proof {
                    lemma_proto_items_model_push(children@, child);
                    lemma_resolution_of_items_take(e.children@, i as int);
                }
                children.push(child);
                i = i + 1;
            }
            proof {
                assert(e.children@.subrange(0, n as int) =~= e.children@);
            }
            ProtoItem::Submenu { id: e.id, label: e.label.clone(), enabled: e.enabled, children }
        },
    }
}

/// Resolves a whole menu model into the protocol's item shapes, in display
/// order, by depth-first traversal.
pub fn resolve_menu(menu: &TrayMenu) -> (r: Vec<ProtoItem>)
    ensures
        proto_items_model(r@) == resolution_of_items(menu.entries@),
{
    let n = menu.entries.len();
    let mut out: Vec<ProtoItem> = Vec::new();
    let mut i: usize = 0;
    while i < n
        invariant
            i <= n == menu.entries@.len(),
            proto_items_model(out@) == resolution_of_items(menu.entries@.subrange(0, i as int)),
        decreases n - i,
    {
        let item = resolve_item(&menu.entries[i]);
        proof {
            lemma_proto_items_model_push(out@, item);
            lemma_resolution_of_items_take(menu.entries@, i as int);
        }
        out.push(item);
        i = i + 1;
    }
    proof {
        assert(menu.entries@.subrange(0, n as int) =~= menu.entries@);
    }
    out
}

/// The identity a menu activation carries back to the host application.
#[derive(Clone, Copy, Debug, PartialEq, Eq, Structural)]
pub struct WindowId(pub u64);

/// The event the hosting application receives for a menu activation: enough
/// identity to resolve the originating entry.
#[derive(Clone, Copy, Debug, PartialEq, Eq, Structural)]
pub struct ActivationEvent {
    pub entry_id: u64,
    pub menu_id: MenuId,
}

/// Forwards user-triggered menu activations into the hosting application's
/// event channel, tagged with the tray's owning window identity.
#[derive(Clone, Copy, Debug)]
pub struct EventBridge {
    pub window_id: WindowId,
}

impl EventBridge {
    /// A bridge for the window that owns the tray.
    pub fn new(window_id: WindowId) -> (r: Self)
        ensures
            r.window_id == window_id,
    {
        EventBridge { window_id }
    }

    /// Resolves an activation reported for `entry_id` against the menu model
    /// and forms the message for the application's event channel: the owning
    /// window identity paired with the activated entry's identity. Returns
    /// nothing exactly when no entry carries `entry_id`.
    pub fn activation_message(&self, menu: &TrayMenu, entry_id: u64) -> (r: Option<
        (WindowId, ActivationEvent),
    >)
        requires
            menu.wf(),
        ensures
            match r {
                Some(msg) => {
                    &&& msg.0 == self.window_id
                    &&& msg.1.entry_id == entry_id
                    &&& exists|k: int|
                        0 <= k < menu.entries@.len() && (#[trigger] menu.entries@[k]).id
                            == entry_id && msg.1.menu_id == menu.entries@[k].menu_id
                },
                None => forall|k: int|
                    0 <= k < menu.entries@.len() ==> (#[trigger] menu.entries@[k]).id != entry_id,
            },
    {
        match menu.find_entry(entry_id) {
            Some(e) => Some(
                (self.window_id, ActivationEvent { entry_id, menu_id: e.menu_id }),
            ),
            None => None,
        }
    }
}

} // verus!
