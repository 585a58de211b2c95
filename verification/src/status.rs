//! Installation status of an extension, as reported by the extension store.

use vstd::prelude::*;

verus! {

/// What the extension store knows about one extension. `Installed` carries
/// the installed version, which may lag behind the latest published version.
#[derive(Debug, PartialEq, Eq)]
pub enum ExtensionStatus {
    NotInstalled,
    Installing,
    Installed(String),
    Upgrading,
    Removing,
}

} // verus!
