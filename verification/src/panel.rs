//! The floating panel: its configuration, its lifecycle state, and the
//! conversion of the main window into it.
//!
//! A panel is an ordinary window turned into a floating, non-activating,
//! key-eligible window. Conversion pins a fixed configuration, wires the two
//! focus-change notifications to application events named after the window's
//! label, and hands back the panel's lifecycle state. Closing a panel is
//! terminal: no lifecycle operation may touch it afterward, which the
//! contracts state as preconditions.

use vstd::prelude::*;
use vstd::string::StringExecFns;

use crate::error::CommandError;
use crate::geometry::{
    centered_fits, centered_origin, is_first_containing, monitor_containing, reposition_spec,
    Monitor, PanelWindow, PhysicalPosition,
};

verus! {

/// The window level a panel can stand at.
#[derive(Debug, Clone, Copy, PartialEq, Eq, Structural)]
pub enum PanelLevel {
    /// The level of ordinary document windows.
    Normal,
    /// The floating level, above normal application windows.
    Floating,
}

/// The mouse-tracking area attached to the panel.
#[derive(Debug, Clone, Copy, PartialEq, Eq, Structural)]
pub struct TrackingAreaConfig {
    /// Track whether or not the panel is the key window.
    pub active_always: bool,
    /// Deliver mouse-entered and mouse-exited events.
    pub mouse_entered_and_exited: bool,
    /// Deliver mouse-moved events.
    pub mouse_moved: bool,
    /// Deliver cursor-update events.
    pub cursor_update: bool,
    /// Resize the tracking area with the panel.
    pub auto_resize: bool,
}

/// Everything the conversion pins about the panel window.
#[derive(Debug, Clone, Copy, PartialEq, Eq, Structural)]
pub struct PanelConfig {
    /// The panel may take keyboard focus.
    pub can_become_key_window: bool,
    /// The panel never becomes the application's main window.
    pub can_become_main_window: bool,
    /// The panel behaves as a floating panel, not a document window.
    pub is_floating_panel: bool,
    /// The window level the panel stands at.
    pub level: PanelLevel,
    /// The panel stays visible beside full-screen windows.
    pub fullscreen_auxiliary: bool,
    /// The panel joins every virtual desktop.
    pub can_join_all_spaces: bool,
    /// Showing the panel does not steal focus from the frontmost app.
    pub nonactivating_panel: bool,
    /// The panel may be resized.
    pub resizable: bool,
    /// The mouse-tracking area attached to the panel.
    pub tracking: TrackingAreaConfig,
}

/// The configuration the launcher demands of its panel: key-eligible but
/// never main, floating, visible on every space, non-activating and
/// resizable, with an always-active tracking area for enter/exit, move and
/// cursor-update events.
pub open spec fn is_raycast_config(c: PanelConfig) -> bool {
    &&& c.can_become_key_window
    &&& !c.can_become_main_window
    &&& c.is_floating_panel
    &&& c.level == PanelLevel::Floating
    &&& c.fullscreen_auxiliary
    &&& c.can_join_all_spaces
    &&& c.nonactivating_panel
    &&& c.resizable
    &&& c.tracking.active_always
    &&& c.tracking.mouse_entered_and_exited
    &&& c.tracking.mouse_moved
    &&& c.tracking.cursor_update
    &&& c.tracking.auto_resize
}

/// Build the launcher's panel configuration.
pub fn raycast_panel_config() -> (c: PanelConfig)
    ensures
        is_raycast_config(c),
{
    PanelConfig {
        can_become_key_window: true,
        can_become_main_window: false,
        is_floating_panel: true,
        level: PanelLevel::Floating,
        fullscreen_auxiliary: true,
        can_join_all_spaces: true,
        nonactivating_panel: true,
        resizable: true,
        tracking: TrackingAreaConfig {
            active_always: true,
            mouse_entered_and_exited: true,
            mouse_moved: true,
            cursor_update: true,
            auto_resize: true,
        },
    }
}

/// The application event emitted when the panel becomes the key window.
pub fn become_key_event_name(label: &str) -> (r: String)
    ensures
        r@ == label@ + "_panel_did_become_key"@,
{
    String::from_str(label).concat("_panel_did_become_key")
}

/// The application event emitted when the panel resigns the key window.
pub fn resign_key_event_name(label: &str) -> (r: String)
    ensures
        r@ == label@ + "_panel_did_resign_key"@,
{
    String::from_str(label).concat("_panel_did_resign_key")
}

/// The two focus-change notification handlers registered on the panel; each
/// forwards an application event of the stored name, with no payload, and
/// discards emission failures.
#[derive(Debug, PartialEq, Eq)]
pub struct FocusEventHooks {
    /// The event forwarded when the panel becomes the key window.
    pub did_become_key_event: String,
    /// The event forwarded when the panel resigns the key window.
    pub did_resign_key_event: String,
}

/// The hooks forward events named after the panel's label.
pub open spec fn hooks_named_for(h: FocusEventHooks, label: Seq<char>) -> bool {
    &&& h.did_become_key_event@ == label + "_panel_did_become_key"@
    &&& h.did_resign_key_event@ == label + "_panel_did_resign_key"@
}

/// The lifecycle state of the one panel.
#[derive(Debug, PartialEq, Eq)]
pub struct PanelState {
    /// The configuration pinned at conversion.
    pub config: PanelConfig,
    /// The registered focus-change forwarders.
    pub hooks: FocusEventHooks,
    /// Whether the panel is on screen.
    pub visible: bool,
    /// Whether the panel is freed by the host when closed.
    pub released_when_closed: bool,
    /// Whether the panel has been closed; a closed panel is gone for good.
    pub closed: bool,
}

impl PanelState {
    /// Put the panel on screen without taking focus from the frontmost app.
    pub fn show(&mut self)
        requires
            !old(self).closed,
        ensures
            *final(self) == (PanelState { visible: true, ..*old(self) }),
    {
        self.visible = true;
    }

    /// Take the panel off screen without destroying it.
    pub fn order_out(&mut self)
        requires
            !old(self).closed,
        ensures
            *final(self) == (PanelState { visible: false, ..*old(self) }),
    {
        self.visible = false;
    }

    /// Choose whether the host frees the panel when it closes.
    pub fn set_released_when_closed(&mut self, released: bool)
        requires
            !old(self).closed,
        ensures
            *final(self) == (PanelState { released_when_closed: released, ..*old(self) }),
    {
        self.released_when_closed = released;
    }

    /// Close the panel. This is terminal: the closed panel leaves the
    /// screen and no lifecycle operation may be invoked on it afterward.
    pub fn close(&mut self)
        requires
            !old(self).closed,
        ensures
            *final(self) == (PanelState { visible: false, closed: true, ..*old(self) }),
    {
        self.visible = false;
        self.closed = true;
    }
}

/// The window-side entry points of the launcher: turning the main window
/// into the panel, and centering it on the pointer's monitor.
pub trait WebviewWindowExt {
    /// The window's placement geometry as the positioner sees it.
    spec fn geometry(&self) -> PanelWindow;

    /// Convert this window into the launcher's floating panel.
    ///
    /// The host's conversion may fail; its outcome arrives as
    /// `conversion_succeeds`. On success the panel carries the launcher
    /// configuration and focus-event forwarders named after `label`, and is
    /// not yet visible; on failure the conversion error is reported and
    /// nothing is produced.
    fn to_raycast_panel(&self, label: &str, conversion_succeeds: bool) -> (r: Result<
        PanelState,
        CommandError,
    >)
        ensures
            conversion_succeeds ==> match r {
                Ok(p) => {
                    &&& is_raycast_config(p.config)
                    &&& hooks_named_for(p.hooks, label@)
                    &&& !p.visible
                    &&& !p.released_when_closed
                    &&& !p.closed
                },
                Err(_) => false,
            },
            !conversion_succeeds ==> r == Err::<PanelState, CommandError>(
                CommandError::PanelConversion,
            ),
    ;

    /// Center this window on the monitor that contains the pointer; leave
    /// it untouched when no monitor does. Only the monitor the pointer
    /// resolves to is ever computed with, so only that one must keep the
    /// centered origin within the coordinate space.
    fn center_at_cursor_monitor(&mut self, monitors: &Vec<Monitor>, cursor: PhysicalPosition)
        requires
            forall|i: int|
                is_first_containing(monitors@, cursor, i) ==> centered_fits(
                    monitors@[i],
                    old(self).geometry().outer_size,
                ),
        ensures
            reposition_spec(old(self).geometry(), monitors@, cursor, final(self).geometry()),
    ;
}

impl WebviewWindowExt for PanelWindow {
    open spec fn geometry(&self) -> PanelWindow {
        *self
    }

    fn to_raycast_panel(&self, label: &str, conversion_succeeds: bool) -> (r: Result<
        PanelState,
        CommandError,
    >) {
        if !conversion_succeeds {
            return Err(CommandError::PanelConversion);
        }
        Ok(
            PanelState {
                config: raycast_panel_config(),
                hooks: FocusEventHooks {
                    did_become_key_event: become_key_event_name(label),
                    did_resign_key_event: resign_key_event_name(label),
                },
                visible: false,
                released_when_closed: false,
                closed: false,
            },
        )
    }

    fn center_at_cursor_monitor(&mut self, monitors: &Vec<Monitor>, cursor: PhysicalPosition) {
        match monitor_containing(monitors, cursor) {
            Some(i) => {
                let target = centered_origin(&monitors[i], self.outer_size);
                self.position = target;
                proof {
                    assert(is_first_containing(monitors@, cursor, i as int));
                }
            },
            None => {
            },
        }
    }
}

} // verus!
