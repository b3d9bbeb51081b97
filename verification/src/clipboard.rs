use crate::text::join;
use vstd::prelude::*;

verus! {

/// Why the clipboard could not be used.
#[derive(Debug)]
pub enum ClipboardAccessError {
    ContentNotAvailable,
    ClipboardNotSupported,
    ClipboardOccupied,
    ConversionFailure,
    Unknown(String),
}

impl ClipboardAccessError {
    /// The message shown for the error.
    pub open spec fn message_text(&self) -> Seq<char> {
        match self {
            ClipboardAccessError::ContentNotAvailable =>
                "The clipboard contents were not available in the requested format or the clipboard is empty."@,
            ClipboardAccessError::ClipboardNotSupported =>
                "The selected clipboard is not supported with the current system configuration."@,
            ClipboardAccessError::ClipboardOccupied =>
                "The native clipboard is not accessible due to being held by an other party."@,
            ClipboardAccessError::ConversionFailure =>
                "The image or the text that was about the be transferred to/from the clipboard could not be converted to the appropriate format."@,
            ClipboardAccessError::Unknown(description) =>
                "Unknown error while interacting with the clipboard: "@ + description@,
        }
    }

    /// The message shown for the error.
    pub fn message(&self) -> (text: String)
        ensures
            text@ == self.message_text(),
    {
        match self {
            ClipboardAccessError::ContentNotAvailable =>
                "The clipboard contents were not available in the requested format or the clipboard is empty.".to_owned(),
            ClipboardAccessError::ClipboardNotSupported =>
                "The selected clipboard is not supported with the current system configuration.".to_owned(),
            ClipboardAccessError::ClipboardOccupied =>
                "The native clipboard is not accessible due to being held by an other party.".to_owned(),
            ClipboardAccessError::ConversionFailure =>
                "The image or the text that was about the be transferred to/from the clipboard could not be converted to the appropriate format.".to_owned(),
            ClipboardAccessError::Unknown(description) => join(
                "Unknown error while interacting with the clipboard: ",
                description.as_str(),
            ),
        }
    }

    /// The same error again.
    pub open spec fn same_as(&self, other: &ClipboardAccessError) -> bool {
        match (self, other) {
            (ClipboardAccessError::ContentNotAvailable, ClipboardAccessError::ContentNotAvailable) => true,
            (
                ClipboardAccessError::ClipboardNotSupported,
                ClipboardAccessError::ClipboardNotSupported,
            ) => true,
            (ClipboardAccessError::ClipboardOccupied, ClipboardAccessError::ClipboardOccupied) => true,
            (ClipboardAccessError::ConversionFailure, ClipboardAccessError::ConversionFailure) => true,
            (ClipboardAccessError::Unknown(a), ClipboardAccessError::Unknown(b)) => a@ == b@,
            _ => false,
        }
    }
}

impl Clone for ClipboardAccessError {
    fn clone(&self) -> (copy: Self)
        ensures
            copy.same_as(self),
    {
        match self {
            ClipboardAccessError::ContentNotAvailable => ClipboardAccessError::ContentNotAvailable,
            ClipboardAccessError::ClipboardNotSupported => ClipboardAccessError::ClipboardNotSupported,
            ClipboardAccessError::ClipboardOccupied => ClipboardAccessError::ClipboardOccupied,
            ClipboardAccessError::ConversionFailure => ClipboardAccessError::ConversionFailure,
            ClipboardAccessError::Unknown(description) => ClipboardAccessError::Unknown(
                description.clone(),
            ),
        }
    }
}

/// Something that text can be copied to.
pub trait ClipboardAccess {
    fn set_text(&mut self, text: String) -> Result<(), ClipboardAccessError>;
}

/// A clipboard that could not be opened: every use of it fails with the error
/// of the opening.
pub struct BrokenClipboard {
    error: ClipboardAccessError,
}

impl BrokenClipboard {
    pub closed spec fn error(&self) -> ClipboardAccessError {
        self.error
    }

    pub fn new(error: ClipboardAccessError) -> (c: Self)
        ensures
            c.error() == error,
    {
        Self { error }
    }
}

impl ClipboardAccess for BrokenClipboard {
    fn set_text(&mut self, _text: String) -> (r: Result<(), ClipboardAccessError>)
        ensures
            r matches Err(e) && e.same_as(&old(self).error()),
            final(self).error() == old(self).error(),
    {
        Err(self.error.clone())
    }
}

} // verus!
