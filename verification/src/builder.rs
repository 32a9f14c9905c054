//! One-shot construction of a tray: assembles the initial state from an icon
//! path and an optional initial menu model, and hands it to the service.

use vstd::prelude::*;

use crate::error::TrayError;
use crate::icon_path::{parent_of, splits_ok, stem_of};
use crate::menu::TrayMenu;
use crate::service::SystemTray;
use crate::state::{KsniTray, TrayStatus};

verus! {

/// Collects what a tray is built from: the icon file path and, optionally,
/// an initial menu model.
#[derive(Debug)]
pub struct SystemTrayBuilder {
    pub tray_menu: Option<TrayMenu>,
    pub icon: String,
}

impl SystemTrayBuilder {
    /// A builder for a tray showing the icon at `icon`, with `tray_menu` as
    /// the initial menu model if one is given.
    pub fn new(icon: String, tray_menu: Option<TrayMenu>) -> (r: Self)
        ensures
            r.icon == icon,
            r.tray_menu == tray_menu,
    {
        SystemTrayBuilder { tray_menu, icon }
    }

    /// Builds the tray: decomposes the icon path into the icon name and the
    /// icon search path, assembles the state with status Active and the
    /// initial menu, and returns the handle to the running service. Fails
    /// with [`TrayError::ConfigurationError`] exactly when the icon path has
    /// no file stem or no parent directory, and then constructs nothing.
    /// Building twice yields two independent trays.
    pub fn build(self) -> (r: Result<SystemTray, TrayError>)
        requires
            self.tray_menu matches Some(m) ==> m.wf(),
        ensures
            r is Ok <==> splits_ok(self.icon@),
            r matches Ok(t) ==> {
                &&& t.wf()
                &&& t.initial().title@ == "tray application"@
                &&& t.initial().icon_name@ == stem_of(self.icon@)
                &&& t.initial().icon_theme_path@ == parent_of(self.icon@)
                &&& t.initial().status == TrayStatus::Active
                &&& t.initial().menu == self.tray_menu
            },
            r matches Err(e) ==> e == TrayError::ConfigurationError,
    {
        let tray = match self.tray_menu {
            Some(m) => KsniTray::new_with_menu("tray application", self.icon.as_str(), m)?,
            None => KsniTray::new("tray application", self.icon.as_str())?,
        };
        Ok(SystemTray::new(tray))
    }
}

} // verus!
