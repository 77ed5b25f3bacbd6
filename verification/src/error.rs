//! Failures that the bridge reports to the host.

use vstd::prelude::*;

verus! {

/// Why an operation of the bridge failed.
#[derive(Clone, Copy, Debug, PartialEq, Eq, Structural)]
pub enum BridgeError {
    /// An operation that needs the windowing context ran before `init` succeeded.
    NotInitialized,
    /// The native backend could not start.
    BackendInit,
    /// The native backend refused to create a window.
    WindowCreation,
    /// Wrong number of arguments, or an argument of the wrong variant or value.
    Argument,
    /// The caller is on another thread than the one that started the backend.
    WrongThread,
}

impl BridgeError {
    /// The text that the host sees for this failure.
    pub fn message(self) -> (text: String)
        ensures
            text@ == self.message_text(),
    {
        match self {
            BridgeError::NotInitialized => {
                proof { reveal_strlit("GLFW not initialized"); }
                "GLFW not initialized".to_string()
            },
            BridgeError::BackendInit => {
                proof { reveal_strlit("GLFW Init Error"); }
                "GLFW Init Error".to_string()
            },
            BridgeError::WindowCreation => {
                proof { reveal_strlit("Failed to create GLFW window"); }
                "Failed to create GLFW window".to_string()
            },
            BridgeError::Argument => {
                proof { reveal_strlit("Invalid arguments"); }
                "Invalid arguments".to_string()
            },
            BridgeError::WrongThread => {
                proof { reveal_strlit("GLFW is bound to the thread that initialized it"); }
                "GLFW is bound to the thread that initialized it".to_string()
            },
        }
    }

    /// The characters of the message of each failure.
    pub open spec fn message_text(self) -> Seq<char> {
        match self {
            BridgeError::NotInitialized => "GLFW not initialized"@,
            BridgeError::BackendInit => "GLFW Init Error"@,
            BridgeError::WindowCreation => "Failed to create GLFW window"@,
            BridgeError::Argument => "Invalid arguments"@,
            BridgeError::WrongThread => "GLFW is bound to the thread that initialized it"@,
        }
    }
}

} // verus!
