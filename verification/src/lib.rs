//! A verified core for a desktop system-tray icon with an attached menu.
//!
//! The crate models the tray state (title, icon reference, activity status,
//! optional menu), serializes cross-thread mutation of that state behind a
//! verified reader/writer lock, and translates the menu model into the shape
//! a tray-protocol service expects. Protocol transport and thread plumbing
//! live outside this crate; everything here is verified.

mod bridge;
mod builder;
mod error;
mod icon_path;
mod menu;
mod service;
mod state;

pub use bridge::{resolve_item, resolve_menu, ActivationEvent, EventBridge, ProtoItem, WindowId};
pub use builder::SystemTrayBuilder;
pub use error::TrayError;
pub use icon_path::split_icon_path;
pub use menu::{
    Accelerator, CustomMenuItem, MenuId, MenuItem, MenuItemAttributes, MenuKind, MenuType,
    TrayMenu, TrayMenuItem,
};
pub use service::SystemTray;
pub use state::{KsniTray, Mutation, PropertyChange, TrayStatus};
