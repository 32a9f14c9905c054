//! The tray state: title, icon reference, activity status, and an optional
//! menu model — the single source of truth for what the tray displays.
//!
//! Mutation is described by [`Mutation`] values; [`KsniTray::apply_mutation`]
//! applies one atomically at the state level and reports which property
//! changed, so the service layer can raise the matching property-changed
//! notification. The [`step`] relation states each mutation's exact effect,
//! and the lemmas at the end show that mutations aimed at different
//! properties never lose each other's updates.

use vstd::prelude::*;

use crate::error::TrayError;
use crate::icon_path::{
    lemma_split_components_nonempty, parent_of, split_icon_path, splits_ok, stem_of,
};
use crate::menu::TrayMenu;

verus! {

/// The activity status a tray host renders for the icon.
#[derive(Clone, Copy, Debug, PartialEq, Eq, Structural)]
pub enum TrayStatus {
    Passive,
    Active,
    NeedsAttention,
}

impl Default for TrayStatus {
    /// The status a fresh tray starts in.
    fn default() -> (r: Self)
        ensures
            r == TrayStatus::Active,
    {
        TrayStatus::Active
    }
}

/// All properties of the tray. Once a service owns a value of this type, it
/// is read and written only under the service's lock.
#[derive(Debug)]
pub struct KsniTray {
    pub title: String,
    pub icon_name: String,
    pub icon_theme_path: String,
    pub status: TrayStatus,
    pub menu: Option<TrayMenu>,
}

/// One atomic change to the tray state, each aimed at exactly one property.
#[derive(Debug)]
pub enum Mutation {
    SetTitle(String),
    SetIcon(String),
    SetMenu(TrayMenu),
    SetStatus(TrayStatus),
}

/// The property a mutation changed, as reported to the protocol layer so it
/// can tell the tray host what to re-query.
#[derive(Clone, Copy, Debug, PartialEq, Eq, Structural)]
pub enum PropertyChange {
    Title,
    Icon,
    Menu,
    Status,
}

/// The property that `m` is aimed at.
pub open spec fn target(m: Mutation) -> PropertyChange {
    match m {
        Mutation::SetTitle(_) => PropertyChange::Title,
        Mutation::SetIcon(_) => PropertyChange::Icon,
        Mutation::SetMenu(_) => PropertyChange::Menu,
        Mutation::SetStatus(_) => PropertyChange::Status,
    }
}

/// Whether `m` can be applied at all: an icon mutation needs a path that
/// decomposes, and a menu mutation a well-formed model.
pub open spec fn mutation_ok(m: Mutation) -> bool {
    match m {
        Mutation::SetIcon(p) => splits_ok(p@),
        Mutation::SetMenu(mm) => mm.wf(),
        _ => true,
    }
}

/// The exact effect of applying `m` to `pre`: the targeted property holds the
/// mutation's value afterwards and every other property is unchanged.
pub open spec fn step(pre: KsniTray, m: Mutation, post: KsniTray) -> bool {
    match m {
        Mutation::SetTitle(t) => post == (KsniTray { title: t, ..pre }),
        Mutation::SetIcon(p) => {
            &&& post.icon_name@ == stem_of(p@)
            &&& post.icon_theme_path@ == parent_of(p@)
            &&& post.title == pre.title
            &&& post.status == pre.status
            &&& post.menu == pre.menu
        },
        Mutation::SetMenu(mm) => post == (KsniTray { menu: Some(mm), ..pre }),
        Mutation::SetStatus(st) => post == (KsniTray { status: st, ..pre }),
    }
}

/// Whether the effect of `m` is (still) visible in `s`.
pub open spec fn took_effect(m: Mutation, s: KsniTray) -> bool {
    match m {
        Mutation::SetTitle(t) => s.title == t,
        Mutation::SetIcon(p) => s.icon_name@ == stem_of(p@) && s.icon_theme_path@ == parent_of(
            p@,
        ),
        Mutation::SetMenu(mm) => s.menu == Some(mm),
        Mutation::SetStatus(st) => s.status == st,
    }
}

impl KsniTray {
    /// Well-formedness: the icon reference decomposed into two non-empty
    /// pieces, and the menu model, if any, is itself well formed.
    pub open spec fn wf(&self) -> bool {
        &&& self.icon_name@.len() > 0
        &&& self.icon_theme_path@.len() > 0
        &&& match self.menu {
            Some(m) => m.wf(),
            None => true,
        }
    }

    /// A fresh state without a menu: the icon path is decomposed into the
    /// icon name and the icon search path, and the status starts Active.
    /// Fails with [`TrayError::ConfigurationError`] exactly when the icon
    /// path does not decompose.
    pub fn new(title: &str, icon: &str) -> (r: Result<KsniTray, TrayError>)
        ensures
            r is Ok <==> splits_ok(icon@),
            r matches Ok(t) ==> {
                &&& t.wf()
                &&& t.title@ == title@
                &&& t.icon_name@ == stem_of(icon@)
                &&& t.icon_theme_path@ == parent_of(icon@)
                &&& t.status == TrayStatus::Active
                &&& t.menu is None
            },
            r matches Err(e) ==> e == TrayError::ConfigurationError,
    {
        let (icon_name, icon_theme_path) = split_icon_path(icon)?;
        proof {
            lemma_split_components_nonempty(icon@);
        }
        Ok(
            KsniTray {
                title: title.to_owned(),
                icon_name,
                icon_theme_path,
                status: TrayStatus::Active,
                menu: None,
            },
        )
    }

    /// As [`KsniTray::new`], but with an initial menu model.
    pub fn new_with_menu(title: &str, icon: &str, menu: TrayMenu) -> (r: Result<
        KsniTray,
        TrayError,
    >)
        requires
            menu.wf(),
        ensures
            r is Ok <==> splits_ok(icon@),
            r matches Ok(t) ==> {
                &&& t.wf()
                &&& t.title@ == title@
                &&& t.icon_name@ == stem_of(icon@)
                &&& t.icon_theme_path@ == parent_of(icon@)
                &&& t.status == TrayStatus::Active
                &&& t.menu == Some(menu)
            },
            r matches Err(e) ==> e == TrayError::ConfigurationError,
    {
        let (icon_name, icon_theme_path) = split_icon_path(icon)?;
        proof {
            lemma_split_components_nonempty(icon@);
        }
        Ok(
            KsniTray {
                title: title.to_owned(),
                icon_name,
                icon_theme_path,
                status: TrayStatus::Active,
                menu: Some(menu),
            },
        )
    }

    /// Recomputes and replaces the icon name and icon search path from
    /// `icon`. On a path that does not decompose the state is left unchanged
    /// and [`TrayError::ConfigurationError`] is returned.
    pub fn set_icon(&mut self, icon: &str) -> (r: Result<(), TrayError>)
        requires
            old(self).wf(),
        ensures
            final(self).wf(),
            r is Ok <==> splits_ok(icon@),
            r is Ok ==> {
                &&& final(self).icon_name@ == stem_of(icon@)
                &&& final(self).icon_theme_path@ == parent_of(icon@)
                &&& final(self).title == old(self).title
                &&& final(self).status == old(self).status
                &&& final(self).menu == old(self).menu
            },
            r matches Err(e) ==> e == TrayError::ConfigurationError && *final(self) == *old(
                self,
            ),
    {
        match split_icon_path(icon) {
            Ok((icon_name, icon_theme_path)) => {
                proof {
                    lemma_split_components_nonempty(icon@);
                }
                self.icon_name = icon_name;
                self.icon_theme_path = icon_theme_path;
                Ok(())
            },
            Err(e) => Err(e),
        }
    }

    /// Replaces the whole menu model: afterwards the menu is exactly `menu`,
    /// so no entry of the previous model remains reachable.
    pub fn set_menu(&mut self, menu: TrayMenu) -> (r: Result<(), TrayError>)
        requires
            old(self).wf(),
            menu.wf(),
        ensures
            final(self).wf(),
            r is Ok,
            final(self).menu == Some(menu),
            final(self).title == old(self).title,
            final(self).icon_name == old(self).icon_name,
            final(self).icon_theme_path == old(self).icon_theme_path,
            final(self).status == old(self).status,
    {
        self.menu = Some(menu);
        Ok(())
    }

    /// Applies one mutation atomically and names the property it changed.
    /// Fails, leaving the state unchanged, exactly when an icon mutation
    /// carries a path that does not decompose.
    pub fn apply_mutation(&mut self, m: Mutation) -> (r: Result<PropertyChange, TrayError>)
        requires
            old(self).wf(),
            m matches Mutation::SetMenu(mm) ==> mm.wf(),
        ensures
            final(self).wf(),
            r is Ok <==> mutation_ok(m),
            r matches Ok(c) ==> c == target(m),
            r matches Err(e) ==> e == TrayError::ConfigurationError && *final(self) == *old(
                self,
            ),
            !(m is SetTitle) ==> final(self).title == old(self).title,
            !(m is SetIcon) ==> final(self).icon_name == old(self).icon_name,
            !(m is SetIcon) ==> final(self).icon_theme_path == old(self).icon_theme_path,
            !(m is SetMenu) ==> final(self).menu == old(self).menu,
            !(m is SetStatus) ==> final(self).status == old(self).status,
            r is Ok ==> took_effect(m, *final(self)),
    {
        match m {
            Mutation::SetTitle(t) => {
                self.title = t;
                Ok(PropertyChange::Title)
            },
            Mutation::SetIcon(p) => {
                self.set_icon(p.as_str())?;
                Ok(PropertyChange::Icon)
            },
            Mutation::SetMenu(mm) => {
                let _ = self.set_menu(mm);
                Ok(PropertyChange::Menu)
            },
            Mutation::SetStatus(st) => {
                self.status = st;
                Ok(PropertyChange::Status)
            },
        }
    }

    /// The current title.
    pub fn title(&self) -> (r: String)
        ensures
            r@ == self.title@,
    {
        self.title.clone()
    }

    /// The current icon name: the file stem of the icon path.
    pub fn icon_name(&self) -> (r: String)
        ensures
            r@ == self.icon_name@,
    {
        self.icon_name.clone()
    }

    /// The current icon search path: the parent directory of the icon path.
    pub fn icon_theme_path(&self) -> (r: String)
        ensures
            r@ == self.icon_theme_path@,
    {
        self.icon_theme_path.clone()
    }

    /// The current activity status.
    pub fn status(&self) -> (r: TrayStatus)
        ensures
            r == self.status,
    {
        self.status
    }

    /// The current menu model, if one is set.
    pub fn menu(&self) -> (r: &Option<TrayMenu>)
        ensures
            *r == self.menu,
    {
        &self.menu
    }
}

/// Mutations are idempotent under repetition; in particular, applying the
/// same icon path twice yields the same icon name and icon search path as
/// applying it once. When a state already shows the effect of `m`, applying
/// `m` once more leaves every observable property as it was.
pub proof fn lemma_mutation_idempotent(m: Mutation, s1: KsniTray, s2: KsniTray)
    requires
        took_effect(m, s1),
        step(s1, m, s2),
    ensures
        s2.title@ == s1.title@,
        s2.icon_name@ == s1.icon_name@,
        s2.icon_theme_path@ == s1.icon_theme_path@,
        s2.status == s1.status,
        s2.menu == s1.menu,
{
}

/// No lost updates: when two mutations aimed at different properties are
/// applied one after the other, the effects of both are visible in the final
/// state.
pub proof fn lemma_no_lost_updates(
    s0: KsniTray,
    m1: Mutation,
    s1: KsniTray,
    m2: Mutation,
    s2: KsniTray,
)
    requires
        target(m1) != target(m2),
        step(s0, m1, s1),
        step(s1, m2, s2),
    ensures
        took_effect(m1, s2),
        took_effect(m2, s2),
{
}

/// A menu replacement is complete: afterwards the reachable menu entries are
/// exactly the new model's entries, in its order, so no entry of the previous
/// model remains reachable through the state.
pub proof fn lemma_set_menu_replaces(pre: KsniTray, m: TrayMenu, post: KsniTray)
    requires
        step(pre, Mutation::SetMenu(m), post),
    ensures
        post.menu == Some(m),
        post.menu matches Some(held) && held.entries@ == m.entries@,
{
}

/// A mutation aimed at one property cannot undo the visible effect of a
/// mutation aimed at another.
pub proof fn lemma_effect_preserved(m1: Mutation, m2: Mutation, pre: KsniTray, post: KsniTray)
    requires
        target(m1) != target(m2),
        took_effect(m1, pre),
        step(pre, m2, post),
    ensures
        took_effect(m1, post),
{
}

/// Whether `states` records a run that starts at `states[0]` and applies the
/// mutations of `muts` in order, one atomic step each.
pub open spec fn steps(states: Seq<KsniTray>, muts: Seq<Mutation>) -> bool {
    &&& states.len() == muts.len() + 1
    &&& forall|k: int|
        0 <= k < muts.len() ==> step(#[trigger] states[k], muts[k], states[k + 1])
}

/// Serialized mutations aimed at pairwise different properties all take
/// effect, whatever order they were serialized in: after a run applying all
/// of them, the effect of each one is visible in the final state — no lost
/// updates.
pub proof fn lemma_all_updates_visible(states: Seq<KsniTray>, muts: Seq<Mutation>)
    requires
        steps(states, muts),
        forall|k1: int, k2: int|
            #![trigger muts[k1], muts[k2]]
            0 <= k1 < k2 < muts.len() ==> target(muts[k1]) != target(muts[k2]),
    ensures
        forall|k: int| 0 <= k < muts.len() ==> took_effect(#[trigger] muts[k], states.last()),
    decreases muts.len(),
{
    if muts.len() > 0 {
        let n = muts.len() as int;
        let shorter_states = states.drop_last();
        let shorter_muts = muts.drop_last();
        assert forall|k: int| 0 <= k < shorter_muts.len() implies step(
            #[trigger] shorter_states[k],
            shorter_muts[k],
            shorter_states[k + 1],
        ) by {
            assert(step(states[k], muts[k], states[k + 1]));
        }
        lemma_all_updates_visible(shorter_states, shorter_muts);
        assert(step(states[n - 1], muts[n - 1], states[n]));
        assert forall|k: int| 0 <= k < n implies took_effect(
            #[trigger] muts[k],
            states.last(),
        ) by {
            if k < n - 1 {
                assert(shorter_muts[k] == muts[k]);
                assert(took_effect(shorter_muts[k], shorter_states.last()));
                assert(shorter_states.last() == states[n - 1]);
                lemma_effect_preserved(muts[k], muts[n - 1], states[n - 1], states[n]);
            }
        }
    }
}

} // verus!
