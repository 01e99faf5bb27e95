//! Error types of the pipeline and of the user interface link.

use vstd::prelude::*;

verus! {

/// Errors raised while building or reconfiguring the video pipeline.
///
/// The first two variants carry the message of the underlying GLib error.
#[derive(Debug, Clone, PartialEq, Eq)]
pub enum GstError {
    Error(String),
    BoolError(String),
    NoCapsFound,
    ElementNotFound,
    InvalidValue,
}

/// The text that `to_string` gives for an error.
pub open spec fn gst_error_text(e: GstError) -> Seq<char> {
    match e {
        GstError::Error(m) => "Error: "@ + m@,
        GstError::BoolError(m) => "Bool error: "@ + m@,
        GstError::NoCapsFound => "No capabilities found."@,
        GstError::ElementNotFound => "Element not found."@,
        GstError::InvalidValue => "Invalid value."@,
    }
}

impl GstError {
    /// The human-readable message of the error.
    pub fn to_string(&self) -> (s: String)
        ensures
            s@ == gst_error_text(*self),
    {
        match self {
            GstError::Error(m) => {
                let mut s = String::from_str("Error: ");
                s.append(m.as_str());
                s
            },
            GstError::BoolError(m) => {
                let mut s = String::from_str("Bool error: ");
                s.append(m.as_str());
                s
            },
            GstError::NoCapsFound => String::from_str("No capabilities found."),
            GstError::ElementNotFound => String::from_str("Element not found."),
            GstError::InvalidValue => String::from_str("Invalid value."),
        }
    }
}

/// Errors raised when linking the user interface to a pipeline.
#[derive(Debug, Clone, Copy, PartialEq, Eq, Structural)]
pub enum UiError {
    AlreadyInitialized,
}

impl UiError {
    /// The human-readable message of the error.
    pub fn to_string(&self) -> (s: String)
        ensures
            s@ == "UI already initialized."@,
    {
        String::from_str("UI already initialized.")
    }
}

/// Decides whether a pipeline may be linked to the user interface: a pipeline
/// that already has a frame handler is refused.
pub fn check_link(frame_handler_present: bool) -> (r: Result<(), UiError>)
    ensures
        r == (if frame_handler_present {
            Err::<(), UiError>(UiError::AlreadyInitialized)
        } else {
            Ok::<(), UiError>(())
        }),
{
    if frame_handler_present {
        Err(UiError::AlreadyInitialized)
    } else {
        Ok(())
    }
}

} // verus!
