//! The action buttons on an entry's card, decided from the entry and its
//! current status.

use vstd::prelude::*;

use crate::entries::DevExtension;
use crate::entries::RemoteExtension;
use crate::status::ExtensionStatus;

verus! {

/// The caption a button carries.
#[derive(Debug, PartialEq, Eq, Clone, Copy, Structural)]
pub enum ButtonLabel {
    Install,
    Uninstall,
    Upgrade,
    Rebuild,
}

/// A call the page asks the extension store to make when a button is
/// pressed.
#[derive(Debug, PartialEq, Eq)]
pub enum StoreCommand {
    Install { id: String, version: String },
    Uninstall { id: String },
    Upgrade { id: String, version: String },
    Rebuild { id: String },
}

/// One button on an entry's card. A disabled button offers no command.
#[derive(Debug, PartialEq, Eq)]
pub struct EntryButton {
    pub label: ButtonLabel,
    pub command: Option<StoreCommand>,
}

impl EntryButton {
    /// Whether pressing the button does anything.
    pub open spec fn is_enabled(self) -> bool {
        self.command is Some
    }
}

/// The first button of a remote entry: `Install` while the extension is
/// absent or arriving, `Uninstall` once it is present or leaving; enabled
/// only in the two settled states.
pub open spec fn remote_install_button(e: RemoteExtension, status: ExtensionStatus) -> EntryButton {
    match status {
        ExtensionStatus::NotInstalled => EntryButton {
            label: ButtonLabel::Install,
            command: Some(StoreCommand::Install { id: e.id, version: e.version }),
        },
        ExtensionStatus::Installing => EntryButton { label: ButtonLabel::Install, command: None },
        ExtensionStatus::Installed(_) => EntryButton {
            label: ButtonLabel::Uninstall,
            command: Some(StoreCommand::Uninstall { id: e.id }),
        },
        ExtensionStatus::Upgrading => EntryButton { label: ButtonLabel::Uninstall, command: None },
        ExtensionStatus::Removing => EntryButton { label: ButtonLabel::Uninstall, command: None },
    }
}

/// The optional second button of a remote entry: `Upgrade`, shown while an
/// upgrade runs and when the installed version differs from the latest
/// published one.
pub open spec fn remote_upgrade_button(e: RemoteExtension, status: ExtensionStatus) -> Option<
    EntryButton,
> {
    match status {
        ExtensionStatus::Upgrading => Some(
            EntryButton { label: ButtonLabel::Upgrade, command: None },
        ),
        ExtensionStatus::Installed(installed) => if installed@ == e.version@ {
            None
        } else {
            Some(
                EntryButton {
                    label: ButtonLabel::Upgrade,
                    command: Some(StoreCommand::Upgrade { id: e.id, version: e.version }),
                },
            )
        },
        _ => None,
    }
}

/// Decides the buttons of a remote entry's card from its status.
pub fn buttons_for_entry(extension: &RemoteExtension, status: &ExtensionStatus) -> (r: (
    EntryButton,
    Option<EntryButton>,
))
    ensures
        r.0 == remote_install_button(*extension, *status),
        r.1 == remote_upgrade_button(*extension, *status),
{
    match status {
        ExtensionStatus::NotInstalled => (
            EntryButton {
                label: ButtonLabel::Install,
                command: Some(
                    StoreCommand::Install {
                        id: extension.id.clone(),
                        version: extension.version.clone(),
                    },
                ),
            },
            None,
        ),
        ExtensionStatus::Installing => (
            EntryButton { label: ButtonLabel::Install, command: None },
            None,
        ),
        ExtensionStatus::Upgrading => (
            EntryButton { label: ButtonLabel::Uninstall, command: None },
            Some(EntryButton { label: ButtonLabel::Upgrade, command: None }),
        ),
        ExtensionStatus::Installed(installed_version) => (
            EntryButton {
                label: ButtonLabel::Uninstall,
                command: Some(StoreCommand::Uninstall { id: extension.id.clone() }),
            },
            if *installed_version == extension.version {
                None
            } else {
                Some(
                    EntryButton {
                        label: ButtonLabel::Upgrade,
                        command: Some(
                            StoreCommand::Upgrade {
                                id: extension.id.clone(),
                                version: extension.version.clone(),
                            },
                        ),
                    },
                )
            },
        ),
        ExtensionStatus::Removing => (
            EntryButton { label: ButtonLabel::Uninstall, command: None },
            None,
        ),
    }
}

/// The telemetry event reported when a remote entry's button is pressed:
/// installs and upgrades report the same event, uninstalls their own, and
/// the dev-only `Rebuild` caption reports nothing.
pub open spec fn remote_button_event_spec(label: ButtonLabel) -> Option<Seq<char>> {
    match label {
        ButtonLabel::Install => Some("extensions: install extension"@),
        ButtonLabel::Upgrade => Some("extensions: install extension"@),
        ButtonLabel::Uninstall => Some("extensions: uninstall extension"@),
        ButtonLabel::Rebuild => None,
    }
}

/// The telemetry event a remote entry's button reports when pressed.
pub fn remote_button_event(label: ButtonLabel) -> (r: Option<&'static str>)
    ensures
        match r {
            Some(s) => remote_button_event_spec(label) matches Some(t) && s@ == t,
            None => remote_button_event_spec(label) is None,
        },
{
    match label {
        ButtonLabel::Install => Some("extensions: install extension"),
        ButtonLabel::Upgrade => Some("extensions: install extension"),
        ButtonLabel::Uninstall => Some("extensions: uninstall extension"),
        ButtonLabel::Rebuild => None,
    }
}

/// The `Rebuild` button of a dev entry: disabled while a rebuild runs,
/// which the store reports as `Upgrading`.
pub open spec fn dev_rebuild_button(e: DevExtension, status: ExtensionStatus) -> EntryButton {
    EntryButton {
        label: ButtonLabel::Rebuild,
        command: if status is Upgrading {
            None
        } else {
            Some(StoreCommand::Rebuild { id: e.id })
        },
    }
}

/// The `Uninstall` button of a dev entry: disabled while a removal runs.
pub open spec fn dev_uninstall_button(e: DevExtension, status: ExtensionStatus) -> EntryButton {
    EntryButton {
        label: ButtonLabel::Uninstall,
        command: if status is Removing {
            None
        } else {
            Some(StoreCommand::Uninstall { id: e.id })
        },
    }
}

/// Decides the two buttons of a dev entry's card from its status.
pub fn dev_buttons_for_entry(extension: &DevExtension, status: &ExtensionStatus) -> (r: (
    EntryButton,
    EntryButton,
))
    ensures
        r.0 == dev_rebuild_button(*extension, *status),
        r.1 == dev_uninstall_button(*extension, *status),
{
    let rebuild = EntryButton {
        label: ButtonLabel::Rebuild,
        command: if matches!(status, ExtensionStatus::Upgrading) {
            None
        } else {
            Some(StoreCommand::Rebuild { id: extension.id.clone() })
        },
    };
    let uninstall = EntryButton {
        label: ButtonLabel::Uninstall,
        command: if matches!(status, ExtensionStatus::Removing) {
            None
        } else {
            Some(StoreCommand::Uninstall { id: extension.id.clone() })
        },
    };
    (rebuild, uninstall)
}

} // verus!
