//! The choices of the dialog shown when the configuration cannot be loaded.
use vstd::prelude::*;

verus! {

pub const BTN_OK: i32 = 100;

pub const BTN_OPEN_HOME: i32 = 101;

pub const BTN_RELOAD: i32 = 102;

pub const BTN_COPY_MESSAGE: i32 = 103;

pub const BTN_SHOW_LOGS: i32 = 104;

#[derive(Debug, Clone, Copy, PartialEq, Eq, Structural)]
pub enum ConfigDialogChoice {
    /// The dialog's OK button: accept the error.
    Acknowledge,
    OpenHomeDir,
    ReloadNow,
    CopyMessage,
    ShowLogs,
}

/// What follows a choice once its side action, if any, is done.
#[derive(Debug, Clone, Copy, PartialEq, Eq, Structural)]
pub enum DialogOutcome {
    /// Give up and report the error.
    GiveUp,
    /// Try loading the configuration again.
    Reload,
    /// Show the dialog again.
    ShowAgain,
}

impl ConfigDialogChoice {
    /// The choice a pressed button stands for; any other button, or closing
    /// the dialog, is `Acknowledge`.
    pub fn from_button(id: i32) -> (r: ConfigDialogChoice)
        ensures
            r == if id == BTN_OPEN_HOME {
                ConfigDialogChoice::OpenHomeDir
            } else if id == BTN_COPY_MESSAGE {
                ConfigDialogChoice::CopyMessage
            } else if id == BTN_SHOW_LOGS {
                ConfigDialogChoice::ShowLogs
            } else if id == BTN_RELOAD {
                ConfigDialogChoice::ReloadNow
            } else {
                ConfigDialogChoice::Acknowledge
            },
    {
        if id == BTN_OPEN_HOME {
            ConfigDialogChoice::OpenHomeDir
        } else if id == BTN_COPY_MESSAGE {
            ConfigDialogChoice::CopyMessage
        } else if id == BTN_SHOW_LOGS {
            ConfigDialogChoice::ShowLogs
        } else if id == BTN_RELOAD {
            ConfigDialogChoice::ReloadNow
        } else {
            ConfigDialogChoice::Acknowledge
        }
    }

    pub fn outcome(self) -> (r: DialogOutcome)
        ensures
            r == match self {
                ConfigDialogChoice::Acknowledge => DialogOutcome::GiveUp,
                ConfigDialogChoice::ReloadNow => DialogOutcome::Reload,
                _ => DialogOutcome::ShowAgain,
            },
    {
        match self {
            ConfigDialogChoice::Acknowledge => DialogOutcome::GiveUp,
            ConfigDialogChoice::ReloadNow => DialogOutcome::Reload,
            _ => DialogOutcome::ShowAgain,
        }
    }
}

} // verus!
