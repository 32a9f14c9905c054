//! The service side of the tray: ownership of the live [`KsniTray`] state
//! behind a verified reader/writer lock, and the handle through which every
//! later mutation goes.
//!
//! The synchronization primitive is part of the type itself, so cross-thread
//! safety holds by construction: writers exclude readers and each other, a
//! reader always sees a fully applied state, and the lock's invariant keeps
//! the state well formed at every hand-over. A [`SystemTray`] value is the
//! handle; further handles to the same state come from [`SystemTray::handle`]
//! and may be used from any thread.

use std::sync::Arc;

use vstd::prelude::*;
use vstd::rwlock::{RwLock, RwLockPredicate};

use crate::bridge::{resolve_menu, ActivationEvent, EventBridge, ProtoItem, WindowId};
use crate::error::TrayError;
use crate::icon_path::splits_ok;
use crate::menu::TrayMenu;
use crate::state::{mutation_ok, target, KsniTray, Mutation, PropertyChange, TrayStatus};

verus! {

/// The lock invariant: every state stored in the lock is well formed.
pub struct TrayStateInv {}

impl RwLockPredicate<KsniTray> for TrayStateInv {
    open spec fn inv(self, v: KsniTray) -> bool {
        v.wf()
    }
}

/// The running tray: the state behind its lock, plus the handle methods that
/// mutate it. Every clone of the handle refers to the same state.
pub struct SystemTray {
    shared: Arc<RwLock<KsniTray, TrayStateInv>>,
    init: Ghost<KsniTray>,
}

/// Relies on `Arc::clone`: the returned pointer refers to the same allocation
/// as the argument, so it equals the argument in specification.
#[verifier::external_body]
fn arc_clone(shared: &Arc<RwLock<KsniTray, TrayStateInv>>) -> (r: Arc<
    RwLock<KsniTray, TrayStateInv>,
>)
    ensures
        r == *shared,
{
    Arc::clone(shared)
}

impl SystemTray {
    /// The lock all handles to this tray share.
    pub closed spec fn service(&self) -> RwLock<KsniTray, TrayStateInv> {
        *self.shared
    }

    /// The handle is valid: its lock admits exactly the well-formed states.
    pub closed spec fn wf(&self) -> bool {
        self.shared.pred() == (TrayStateInv {  })
    }

    /// The state the service was started with.
    pub closed spec fn initial(&self) -> KsniTray {
        self.init@
    }

    /// Takes ownership of the assembled state and puts it behind the lock.
    /// From here on, all access goes through this handle's methods.
    pub fn new(tray: KsniTray) -> (r: SystemTray)
        requires
            tray.wf(),
        ensures
            r.wf(),
            r.initial() == tray,
    {
        let init: Ghost<KsniTray> = Ghost(tray);
        SystemTray { shared: Arc::new(RwLock::new(tray, Ghost(TrayStateInv {  }))), init }
    }

    /// Another handle to the same tray state; mutations through any handle
    /// are serialized against all others.
    pub fn handle(&self) -> (r: SystemTray)
        requires
            self.wf(),
        ensures
            r.wf(),
            r.service() == self.service(),
            r.initial() == self.initial(),
    {
        SystemTray { shared: arc_clone(&self.shared), init: self.init }
    }

    /// Runs one mutation atomically against the live state: no other reader
    /// or writer observes a partially applied change. Reports the property
    /// that changed, for the protocol layer's property-changed notification.
    /// Fails, leaving the state unchanged, exactly when an icon mutation
    /// carries a path that does not decompose.
    pub fn apply(&self, m: Mutation) -> (r: Result<PropertyChange, TrayError>)
        requires
            self.wf(),
            m matches Mutation::SetMenu(mm) ==> mm.wf(),
        ensures
            r is Ok <==> mutation_ok(m),
            r matches Ok(c) ==> c == target(m),
            r matches Err(e) ==> e == TrayError::ConfigurationError,
    {
        let (mut st, wh) = self.shared.acquire_write();
        let res = st.apply_mutation(m);
        wh.release_write(st);
        res
    }

    /// Recomputes and replaces the icon name and icon search path from
    /// `icon`, atomically; last writer wins among concurrent mutations.
    /// Fails, leaving the state unchanged, exactly when the path does not
    /// decompose.
    pub fn set_icon(&self, icon: &str) -> (r: Result<(), TrayError>)
        requires
            self.wf(),
        ensures
            r is Ok <==> splits_ok(icon@),
            r matches Err(e) ==> e == TrayError::ConfigurationError,
    {
        let (mut st, wh) = self.shared.acquire_write();
        let res = st.set_icon(icon);
        wh.release_write(st);
        res
    }

    /// Replaces the entire menu model atomically: a protocol read under way
    /// completes against the old model, never a mix of old and new entries.
    pub fn set_menu(&self, menu: TrayMenu) -> (r: Result<(), TrayError>)
        requires
            self.wf(),
            menu.wf(),
        ensures
            r is Ok,
    {
        let (mut st, wh) = self.shared.acquire_write();
        let res = st.set_menu(menu);
        wh.release_write(st);
        res
    }

    /// The current title.
    pub fn title(&self) -> (r: String)
        requires
            self.wf(),
    {
        let rh = self.shared.acquire_read();
        let r = rh.borrow().title();
        rh.release_read();
        r
    }

    /// The current icon name; non-empty, as the lock admits only well-formed
    /// states.
    pub fn icon_name(&self) -> (r: String)
        requires
            self.wf(),
        ensures
            r@.len() > 0,
    {
        let rh = self.shared.acquire_read();
        let r = rh.borrow().icon_name();
        rh.release_read();
        r
    }

    /// The current icon search path; non-empty, as the lock admits only
    /// well-formed states.
    pub fn icon_theme_path(&self) -> (r: String)
        requires
            self.wf(),
        ensures
            r@.len() > 0,
    {
        let rh = self.shared.acquire_read();
        let r = rh.borrow().icon_theme_path();
        rh.release_read();
        r
    }

    /// The current activity status.
    pub fn status(&self) -> (r: TrayStatus)
        requires
            self.wf(),
    {
        let rh = self.shared.acquire_read();
        let r = rh.borrow().status();
        rh.release_read();
        r
    }

    /// Resolves the current menu model into the protocol's item shapes,
    /// against one consistent snapshot taken under the read lock; an empty
    /// sequence when no menu is set.
    pub fn resolve_menu(&self) -> (r: Vec<ProtoItem>)
        requires
            self.wf(),
    {
        let rh = self.shared.acquire_read();
        let r = match rh.borrow().menu() {
            Some(m) => resolve_menu(m),
            None => Vec::new(),
        };
        rh.release_read();
        r
    }

    /// Resolves an activation reported for `entry_id` against the current
    /// menu model, against one consistent snapshot taken under the read lock,
    /// and forms the message for the application's event channel. Nothing
    /// when no menu is set or no entry carries `entry_id`.
    pub fn activation_message(&self, bridge: &EventBridge, entry_id: u64) -> (r: Option<
        (WindowId, ActivationEvent),
    >)
        requires
            self.wf(),
        ensures
            r matches Some(msg) ==> msg.0 == bridge.window_id && msg.1.entry_id == entry_id,
    {
        let rh = self.shared.acquire_read();
        let r = match rh.borrow().menu() {
            Some(m) => bridge.activation_message(m, entry_id),
            None => None,
        };
        rh.release_read();
        r
    }
}

} // verus!
