//! Reported (recoverable) command failures.
//!
//! The shell has exactly two error tiers: invariant violations (a missing
//! panel after startup), which the contracts rule out by precondition, and
//! reported failures, which reach the UI layer as a descriptive message
//! string. This module holds the reported tier.

use vstd::prelude::*;
use vstd::string::StringExecFns;

verus! {

/// A failure reported to the caller of a launcher command.
#[derive(Debug, PartialEq, Eq)]
pub enum CommandError {
    /// The well-known window could not be resolved by its label.
    WindowNotFound,
    /// The native window object behind the resolved window was unavailable.
    NativeWindowUnavailable,
    /// Screen-sharing control is not available on this platform.
    SharingUnsupported,
    /// The main window could not be converted into a floating panel.
    PanelConversion,
    /// Display enumeration failed; carries the enumerator's message.
    ScreenList(String),
    /// Capturing the display failed; carries the capturer's message.
    ScreenCapture(String),
    /// Encoding the captured frame as PNG failed; carries the encoder's
    /// message.
    PngEncoding(String),
    /// The encoded image is too large to be carried in a data URI.
    EncodedImageTooLarge,
    /// Display enumeration reported no displays.
    NoScreensFound,
}

/// The message string that each error carries to the UI layer.
pub open spec fn spec_message(e: CommandError) -> Seq<char> {
    match e {
        CommandError::WindowNotFound => "Failed to get window"@,
        CommandError::NativeWindowUnavailable => "Failed to get NSWindow"@,
        CommandError::SharingUnsupported => "Screen sharing visibility is only supported on macOS"@,
        CommandError::PanelConversion => "Unable to convert window to panel"@,
        CommandError::ScreenList(m) => "Failed to get screens: "@ + m@,
        CommandError::ScreenCapture(m) => "Failed to capture screen: "@ + m@,
        CommandError::PngEncoding(m) => "Failed to encode PNG: "@ + m@,
        CommandError::EncodedImageTooLarge => "Encoded image is too large"@,
        CommandError::NoScreensFound => "No screens found"@,
    }
}

impl CommandError {
    /// Render the error as the message string handed to the UI layer.
    pub fn message(&self) -> (r: String)
        ensures
            r@ == spec_message(*self),
    {
        match self {
            CommandError::WindowNotFound => String::from_str("Failed to get window"),
            CommandError::NativeWindowUnavailable => String::from_str("Failed to get NSWindow"),
            CommandError::SharingUnsupported => String::from_str(
                "Screen sharing visibility is only supported on macOS",
            ),
            CommandError::PanelConversion => String::from_str("Unable to convert window to panel"),
            CommandError::ScreenList(m) => String::from_str("Failed to get screens: ").concat(
                m.as_str(),
            ),
            CommandError::ScreenCapture(m) => String::from_str("Failed to capture screen: ")
                .concat(m.as_str()),
            CommandError::PngEncoding(m) => String::from_str("Failed to encode PNG: ").concat(
                m.as_str(),
            ),
            CommandError::EncodedImageTooLarge => String::from_str("Encoded image is too large"),
            CommandError::NoScreensFound => String::from_str("No screens found"),
        }
    }
}

} // verus!
