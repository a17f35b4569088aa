//! Screen-sharing visibility of the panel window.
//!
//! The panel excludes itself from screen-capture and broadcast output by
//! default; the UI layer may toggle that. The OS attribute behind the toggle
//! exists only on the supporting platform, so the capability is injected as
//! a controller with two variants: one backed by the native window, one for
//! every other platform. Command logic branches only on the variant, never
//! on platform identity.

use vstd::prelude::*;

use crate::error::CommandError;

verus! {

/// The OS-level sharing attribute of a window: whether and how its contents
/// appear in screen-capture output.
#[derive(Debug, Clone, Copy, PartialEq, Eq, Structural)]
pub enum SharingType {
    /// The window is excluded from capture output.
    NoSharing,
    /// The window's contents may be read into capture output.
    ReadOnly,
    /// The window's contents may be read and manipulated.
    ReadWrite,
}

/// How far the supporting platform can reach the native window at call
/// time.
#[derive(Debug, Clone, Copy, PartialEq, Eq, Structural)]
pub enum NativeWindowAccess {
    /// The well-known window could not be resolved by its label.
    Unresolved,
    /// The window resolved, but its native window object is unavailable.
    NoNativeHandle,
    /// The native window is reachable and carries this sharing attribute.
    Available(SharingType),
}

/// The injected screen-sharing capability: on the supporting platform it
/// holds the native window access, elsewhere it is the unsupported variant.
#[derive(Debug, Clone, Copy, PartialEq, Eq, Structural)]
pub enum ScreenSharingController {
    Supported(NativeWindowAccess),
    Unsupported,
}

/// The sharing attribute that a visibility request writes: read-only
/// sharing for a visible panel, no sharing for a hidden one.
pub open spec fn sharing_after_set(visible: bool) -> SharingType {
    if visible {
        SharingType::ReadOnly
    } else {
        SharingType::NoSharing
    }
}

/// The visibility that a sharing attribute reads back as: any sharing at
/// all counts as visible.
pub open spec fn visibility_of(t: SharingType) -> bool {
    t != SharingType::NoSharing
}

/// What a visibility request does to the controller and what it returns:
/// with a reachable native window it writes the requested attribute and
/// succeeds; a resolution failure is reported and changes nothing; on an
/// unsupported platform it fails outright for every input.
pub open spec fn spec_set_outcome(c: ScreenSharingController, visible: bool) -> (
    ScreenSharingController,
    Result<(), CommandError>,
) {
    match c {
        ScreenSharingController::Supported(NativeWindowAccess::Available(_)) => (
            ScreenSharingController::Supported(
                NativeWindowAccess::Available(sharing_after_set(visible)),
            ),
            Ok(()),
        ),
        ScreenSharingController::Supported(NativeWindowAccess::Unresolved) => (
            c,
            Err(CommandError::WindowNotFound),
        ),
        ScreenSharingController::Supported(NativeWindowAccess::NoNativeHandle) => (
            c,
            Err(CommandError::NativeWindowUnavailable),
        ),
        ScreenSharingController::Unsupported => (c, Err(CommandError::SharingUnsupported)),
    }
}

/// What a visibility read returns: the attribute's visibility with a
/// reachable native window, a reported resolution failure otherwise — and
/// on an unsupported platform, visible unconditionally (fail-open).
pub open spec fn spec_get_outcome(c: ScreenSharingController) -> Result<bool, CommandError> {
    match c {
        ScreenSharingController::Supported(NativeWindowAccess::Available(t)) => Ok(
            visibility_of(t),
        ),
        ScreenSharingController::Supported(NativeWindowAccess::Unresolved) => Err(
            CommandError::WindowNotFound,
        ),
        ScreenSharingController::Supported(NativeWindowAccess::NoNativeHandle) => Err(
            CommandError::NativeWindowUnavailable,
        ),
        ScreenSharingController::Unsupported => Ok(true),
    }
}

impl ScreenSharingController {
    /// Set whether the panel window appears in screen-capture output.
    ///
    /// On the supporting platform with a reachable native window this
    /// writes the sharing attribute; resolution failures are reported, and
    /// on every other platform the call fails outright.
    pub fn set_visibility(&mut self, visible: bool) -> (r: Result<(), CommandError>)
        ensures
            *final(self) == spec_set_outcome(*old(self), visible).0,
            r == spec_set_outcome(*old(self), visible).1,
            r is Ok <==> *old(self) matches ScreenSharingController::Supported(
                NativeWindowAccess::Available(_),
            ),
    {
        match self {
            ScreenSharingController::Supported(access) => match access {
                NativeWindowAccess::Unresolved => Err(CommandError::WindowNotFound),
                NativeWindowAccess::NoNativeHandle => Err(CommandError::NativeWindowUnavailable),
                NativeWindowAccess::Available(_) => {
                    *access = NativeWindowAccess::Available(
                        if visible {
                            SharingType::ReadOnly
                        } else {
                            SharingType::NoSharing
                        },
                    );
                    Ok(())
                },
            },
            ScreenSharingController::Unsupported => Err(CommandError::SharingUnsupported),
        }
    }

    /// Read whether the panel window appears in screen-capture output.
    ///
    /// On the supporting platform this reads the sharing attribute;
    /// resolution failures are reported. On every other platform the call
    /// succeeds and reads visible — the documented fail-open asymmetry with
    /// the setter.
    pub fn get_visibility(&self) -> (r: Result<bool, CommandError>)
        ensures
            r == spec_get_outcome(*self),
    {
        match self {
            ScreenSharingController::Supported(access) => match access {
                NativeWindowAccess::Unresolved => Err(CommandError::WindowNotFound),
                NativeWindowAccess::NoNativeHandle => Err(CommandError::NativeWindowUnavailable),
                NativeWindowAccess::Available(t) => Ok(!matches!(t, SharingType::NoSharing)),
            },
            ScreenSharingController::Unsupported => Ok(true),
        }
    }
}

/// Setting the visibility and reading it back agree: on the supporting
/// platform with a reachable native window, whatever visibility was set is
/// exactly what a following read returns.
pub proof fn lemma_set_then_get_round_trip(c: ScreenSharingController, visible: bool)
    requires
        c matches ScreenSharingController::Supported(NativeWindowAccess::Available(_)),
    ensures
        spec_get_outcome(spec_set_outcome(c, visible).0) == Ok::<bool, CommandError>(visible),
{
}

} // verus!
