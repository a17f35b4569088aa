//! Application bootstrap and the command surface.
//!
//! The shell owns one application context: the activation policy, the main
//! window's geometry, the one panel made from it, the screen-sharing
//! capability, and the requested exit code. Startup converts the window
//! into the panel, centers it on the pointer's monitor and shows it; while
//! running, the host delivers run events (the reopen signal) and the UI
//! layer invokes the commands. The host's side of each step — performing
//! the conversion, delivering events — happens outside; every decision
//! about the state stands here.

use vstd::prelude::*;

use crate::error::CommandError;
use crate::geometry::{
    centered_fits, is_first_containing, reposition_spec, Monitor, PanelWindow, PhysicalPosition,
};
use crate::panel::{hooks_named_for, is_raycast_config, PanelState, WebviewWindowExt};
use crate::sharing::{
    spec_get_outcome, spec_set_outcome, NativeWindowAccess, ScreenSharingController,
};

verus! {

/// How the application presents itself to the OS shell.
#[derive(Debug, Clone, Copy, PartialEq, Eq, Structural)]
pub enum ActivationPolicy {
    /// An ordinary application with a Dock presence.
    Regular,
    /// A launcher-style accessory: no Dock icon, no app-switcher entry.
    Accessory,
}

/// A host lifecycle event delivered while the application runs.
#[derive(Debug, Clone, Copy, PartialEq, Eq, Structural)]
pub enum RunEvent {
    /// The reopen signal (Dock icon click or relaunch), with whether any
    /// window of the application is currently visible.
    Reopen { has_visible_windows: bool },
    /// Any other host event; the shell ignores it.
    Other,
}

/// The whole state the shell keeps: everything the commands read or write.
#[derive(Debug, PartialEq, Eq)]
pub struct AppContext {
    /// How the application presents itself to the OS shell.
    pub activation_policy: ActivationPolicy,
    /// The main window's placement geometry, while the window exists.
    pub window: Option<PanelWindow>,
    /// The one panel made from the main window at startup.
    pub panel: Option<PanelState>,
    /// The injected screen-sharing capability.
    pub sharing: ScreenSharingController,
    /// The exit code requested of the host, once a command asked to quit.
    pub exit_code: Option<i32>,
}

impl AppContext {
    /// The panel exists and has not been closed; every lifecycle command
    /// assumes this, established by startup.
    pub open spec fn panel_live(self) -> bool {
        self.panel matches Some(p) && !p.closed
    }

    /// Make the panel visible; it takes no focus from the frontmost app.
    pub fn show_panel(&mut self)
        requires
            old(self).panel_live(),
        ensures
            final(self).panel matches Some(p) && old(self).panel matches Some(q) && p == (
            PanelState { visible: true, ..q }),
            *final(self) == (AppContext { panel: final(self).panel, ..*old(self) }),
    {
        match &mut self.panel {
            Some(p) => p.show(),
            None => {
            },
        }
    }

    /// Remove the panel from the screen without destroying it.
    pub fn hide_panel(&mut self)
        requires
            old(self).panel_live(),
        ensures
            final(self).panel matches Some(p) && old(self).panel matches Some(q) && p == (
            PanelState { visible: false, ..q }),
            *final(self) == (AppContext { panel: final(self).panel, ..*old(self) }),
    {
        match &mut self.panel {
            Some(p) => p.order_out(),
            None => {
            },
        }
    }

    /// Mark the panel to be released when closed, then close it. Terminal:
    /// no lifecycle command may touch the panel afterward.
    pub fn close_panel(&mut self)
        requires
            old(self).panel_live(),
        ensures
            final(self).panel matches Some(p) && old(self).panel matches Some(q) && p == (
            PanelState { visible: false, released_when_closed: true, closed: true, ..q }),
            *final(self) == (AppContext { panel: final(self).panel, ..*old(self) }),
    {
        match &mut self.panel {
            Some(p) => {
                p.set_released_when_closed(true);
                p.close();
            },
            None => {
            },
        }
    }

    /// Ask the host to terminate the whole process with exit code 0.
    pub fn quit_app(&mut self)
        ensures
            *final(self) == (AppContext { exit_code: Some(0i32), ..*old(self) }),
    {
        self.exit_code = Some(0);
    }

    /// Set whether the panel appears in screen-capture output.
    pub fn set_screen_sharing_visibility(&mut self, visible: bool) -> (r: Result<
        (),
        CommandError,
    >)
        ensures
            r is Ok <==> old(self).sharing matches ScreenSharingController::Supported(
                NativeWindowAccess::Available(_),
            ),
            final(self).sharing == spec_set_outcome(old(self).sharing, visible).0,
            r == spec_set_outcome(old(self).sharing, visible).1,
            *final(self) == (AppContext { sharing: final(self).sharing, ..*old(self) }),
    {
        self.sharing.set_visibility(visible)
    }

    /// Read whether the panel appears in screen-capture output.
    pub fn get_screen_sharing_visibility(&self) -> (r: Result<bool, CommandError>)
        ensures
            r == spec_get_outcome(self.sharing),
    {
        self.sharing.get_visibility()
    }
}

/// One run event's effect on the state: a reopen signal with no visible
/// windows shows the panel again (if one still exists and is not closed);
/// everything else changes nothing.
pub open spec fn step_run_event(s: AppContext, event: RunEvent) -> AppContext {
    match event {
        RunEvent::Reopen { has_visible_windows } => match s.panel {
            Some(p) => if !has_visible_windows && !p.closed {
                AppContext { panel: Some(PanelState { visible: true, ..p }), ..s }
            } else {
                s
            },
            None => s,
        },
        RunEvent::Other => s,
    }
}

/// The state after a whole sequence of run events, applied in order.
pub open spec fn state_after_events(s: AppContext, events: Seq<RunEvent>) -> AppContext
    decreases events.len(),
{
    if events.len() == 0 {
        s
    } else {
        state_after_events(step_run_event(s, events[0]), events.skip(1))
    }
}

/// Appending one event steps the folded state once more.
pub proof fn lemma_state_after_events_push(s: AppContext, events: Seq<RunEvent>, event: RunEvent)
    ensures
        state_after_events(s, events.push(event)) == step_run_event(
            state_after_events(s, events),
            event,
        ),
    decreases events.len(),
{
    if events.len() == 0 {
        assert(events.push(event)[0] == event);
        assert(events.push(event).skip(1) =~= Seq::<RunEvent>::empty());
        assert(state_after_events(step_run_event(s, event), Seq::<RunEvent>::empty())
            == step_run_event(s, event));
        assert(state_after_events(s, events) == s);
    } else {
        let stepped = step_run_event(s, events[0]);
        assert(events.push(event)[0] == events[0]);
        assert(events.push(event).skip(1) =~= events.skip(1).push(event));
        assert(state_after_events(s, events.push(event)) == state_after_events(
            stepped,
            events.skip(1).push(event),
        ));
        lemma_state_after_events_push(stepped, events.skip(1), event);
        assert(state_after_events(s, events) == state_after_events(stepped, events.skip(1)));
    }
}

/// The reopen signal shows the panel exactly when nothing is visible: with
/// a live panel, a reopen with no visible windows leaves the panel
/// visible, while a reopen with a window already visible changes nothing.
pub proof fn lemma_reopen_behavior(s: AppContext)
    requires
        s.panel_live(),
    ensures
        ({
            let after = step_run_event(s, RunEvent::Reopen { has_visible_windows: false });
            after.panel matches Some(p) && p.visible
        }),
        step_run_event(s, RunEvent::Reopen { has_visible_windows: true }) == s,
{
}

/// How a successful startup relates the context after it to the context
/// before: the application presents as an accessory, a fresh panel with
/// the launcher configuration and focus forwarders named after the label
/// is shown, the window stands centered on the pointer's monitor, and
/// nothing else moved.
pub open spec fn setup_ok(
    s0: AppContext,
    label: Seq<char>,
    monitors: Seq<Monitor>,
    cursor: PhysicalPosition,
    s1: AppContext,
) -> bool {
    &&& s1.activation_policy == ActivationPolicy::Accessory
    &&& s1.sharing == s0.sharing
    &&& s1.exit_code == s0.exit_code
    &&& s0.window matches Some(w0) && s1.window matches Some(w1) && reposition_spec(
        w0,
        monitors,
        cursor,
        w1,
    )
    &&& s1.panel matches Some(p) && is_raycast_config(p.config) && hooks_named_for(
        p.hooks,
        label,
    ) && p.visible && !p.released_when_closed && !p.closed
}

impl AppContext {
    /// Handle the host's reopen signal: when no window of the application
    /// is visible, show the panel again; otherwise do nothing.
    pub fn on_reopen(&mut self, has_visible_windows: bool)
        ensures
            *final(self) == step_run_event(
                *old(self),
                RunEvent::Reopen { has_visible_windows },
            ),
    {
        if !has_visible_windows {
            match &mut self.panel {
                Some(p) => {
                    if !p.closed {
                        p.show();
                    }
                },
                None => {
                },
            }
        }
    }

    /// Apply one host run event to the state.
    pub fn handle_run_event(&mut self, event: RunEvent)
        ensures
            *final(self) == step_run_event(*old(self), event),
    {
        match event {
            RunEvent::Reopen { has_visible_windows } => self.on_reopen(has_visible_windows),
            RunEvent::Other => {
            },
        }
    }

    /// The startup transition: present as an accessory, convert the main
    /// window into the launcher panel, center the window on the pointer's
    /// monitor, and show the panel. A conversion failure is fatal to
    /// startup: it is reported and no panel exists.
    pub fn setup(
        &mut self,
        label: &str,
        monitors: &Vec<Monitor>,
        cursor: PhysicalPosition,
        conversion_succeeds: bool,
    ) -> (r: Result<(), CommandError>)
        requires
            old(self).window matches Some(w) && forall|i: int|
                is_first_containing(monitors@, cursor, i) ==> centered_fits(
                    monitors@[i],
                    w.outer_size,
                ),
        ensures
            r is Ok <==> conversion_succeeds,
            final(self).activation_policy == ActivationPolicy::Accessory,
            conversion_succeeds ==> setup_ok(*old(self), label@, monitors@, cursor, *final(self)),
            !conversion_succeeds ==> r == Err::<(), CommandError>(CommandError::PanelConversion)
                && *final(self) == (AppContext {
                activation_policy: ActivationPolicy::Accessory,
                ..*old(self)
            }),
    {
        self.activation_policy = ActivationPolicy::Accessory;
        let window = self.window.unwrap();
        let mut panel = match window.to_raycast_panel(label, conversion_succeeds) {
            Ok(p) => p,
            Err(e) => { return Err(e) },
        };
        let mut moved = window;
        moved.center_at_cursor_monitor(monitors, cursor);
        panel.show();
        self.window = Some(moved);
        self.panel = Some(panel);
        Ok(())
    }

    /// Run the shell: start up, then apply the host's run events in order.
    /// A startup failure is reported at once and no event is processed.
    pub fn run(
        &mut self,
        label: &str,
        monitors: &Vec<Monitor>,
        cursor: PhysicalPosition,
        conversion_succeeds: bool,
        events: &Vec<RunEvent>,
    ) -> (r: Result<(), CommandError>)
        requires
            old(self).window matches Some(w) && forall|i: int|
                is_first_containing(monitors@, cursor, i) ==> centered_fits(
                    monitors@[i],
                    w.outer_size,
                ),
        ensures
            r is Ok <==> conversion_succeeds,
            !conversion_succeeds ==> r == Err::<(), CommandError>(CommandError::PanelConversion)
                && *final(self) == (AppContext {
                activation_policy: ActivationPolicy::Accessory,
                ..*old(self)
            }),
            conversion_succeeds ==> exists|started: AppContext|
                setup_ok(*old(self), label@, monitors@, cursor, started) && *final(self)
                    == state_after_events(started, events@),
    {
        match self.setup(label, monitors, cursor, conversion_succeeds) {
            Ok(()) => {
            },
            Err(e) => { return Err(e) },
        }
        let ghost started = *self;
        let mut i: usize = 0;
        while i < events.len()
            invariant
                i <= events@.len(),
                setup_ok(*old(self), label@, monitors@, cursor, started),
                *self == state_after_events(started, events@.take(i as int)),
            decreases events@.len() - i,
        {
            let event = events[i];
            self.handle_run_event(event);
            proof {
                assert(events@.take(i as int + 1) =~= events@.take(i as int).push(
                    events@[i as int],
                ));
                lemma_state_after_events_push(started, events@.take(i as int), events@[i as int]);
            }
            i = i + 1;
        }
        proof {
            assert(events@.take(events@.len() as int) =~= events@);
        }
        Ok(())
    }
}

} // verus!
