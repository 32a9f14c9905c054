use vstd::prelude::*;

verus! {

/// Errors reported by the tray core.
#[derive(Clone, Copy, Debug, PartialEq, Eq, Structural)]
pub enum TrayError {
    /// The icon path could not be decomposed into a file stem and a parent
    /// directory, so the tray cannot be configured from it.
    ConfigurationError,
    /// The requested menu-construction path is declared in the interface but
    /// is not available; the call is rejected rather than silently dropped.
    UnimplementedFeature,
    /// A handle was used after the service it points at stopped serving.
    StaleHandleUse,
}

impl TrayError {
    /// A short human-readable description of the error.
    pub fn describe(&self) -> (r: &'static str)
        ensures
            r@.len() > 0,
    {
        proof {
            reveal_strlit("invalid icon path: missing file stem or parent directory");
            reveal_strlit("menu feature is not implemented");
            reveal_strlit("tray handle is stale");
        }
        match self {
            TrayError::ConfigurationError => "invalid icon path: missing file stem or parent directory",
            TrayError::UnimplementedFeature => "menu feature is not implemented",
            TrayError::StaleHandleUse => "tray handle is stale",
        }
    }
}

} // verus!
