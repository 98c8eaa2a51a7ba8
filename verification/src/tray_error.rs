//! Failures of the tray.

use vstd::prelude::*;

verus! {

/// Errors that can occur during tray operations.
#[derive(Debug)]
pub enum TrayError {
    /// The menu could not be created.
    Menu(String),
    /// The tray icon could not be built.
    Build(String),
    /// An icon could not be created.
    Icon(String),
}

impl TrayError {
    /// What the error says.
    pub open spec fn text(self) -> Seq<char> {
        match self {
            TrayError::Menu(cause) => "Failed to create menu: "@ + cause@,
            TrayError::Build(cause) => "Failed to build tray icon: "@ + cause@,
            TrayError::Icon(cause) => "Failed to create icon: "@ + cause@,
        }
    }

    /// The error in words.
    pub fn message(&self) -> (message: String)
        ensures
            message@ == self.text(),
    {
        let mut message = match self {
            TrayError::Menu(_) => "Failed to create menu: ",
            TrayError::Build(_) => "Failed to build tray icon: ",
            TrayError::Icon(_) => "Failed to create icon: ",
        }.to_owned();
        match self {
            TrayError::Menu(cause) | TrayError::Build(cause) | TrayError::Icon(cause) => {
                message.append(cause.as_str());
            },
        }
        message
    }
}

/// An error says which of the three things failed, and why.
pub proof fn law_errors_say_what_failed(cause: String)
    ensures
        TrayError::Menu(cause).text() == "Failed to create menu: "@ + cause@,
        TrayError::Build(cause).text() == "Failed to build tray icon: "@ + cause@,
        TrayError::Icon(cause).text() == "Failed to create icon: "@ + cause@,
{
}

} // verus!
