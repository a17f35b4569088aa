use launcher_panel::bootstrap::{ActivationPolicy, AppContext, RunEvent};
use launcher_panel::error::CommandError;
use launcher_panel::geometry::{Monitor, PanelWindow, PhysicalPosition, PhysicalSize};
use launcher_panel::panel::{become_key_event_name, resign_key_event_name, PanelLevel};
use launcher_panel::sharing::{NativeWindowAccess, ScreenSharingController, SharingType};

fn fresh_context(sharing: ScreenSharingController) -> AppContext {
    AppContext {
        activation_policy: ActivationPolicy::Regular,
        window: Some(PanelWindow {
            position: PhysicalPosition { x: 0, y: 0 },
            outer_size: PhysicalSize { width: 800, height: 600 },
        }),
        panel: None,
        sharing,
        exit_code: None,
    }
}

fn one_monitor() -> Vec<Monitor> {
    vec![Monitor {
        position: PhysicalPosition { x: 0, y: 0 },
        size: PhysicalSize { width: 1920, height: 1080 },
    }]
}

#[test]
fn panel_label_is_fixed() {
    assert_eq!(launcher_panel::RAYCAST_LABEL, "main");
}

fn started_context() -> AppContext {
    let mut ctx = fresh_context(ScreenSharingController::Unsupported);
    let r = ctx.setup(
        launcher_panel::RAYCAST_LABEL,
        &one_monitor(),
        PhysicalPosition { x: 500, y: 500 },
        true,
    );
    assert!(r.is_ok());
    ctx
}

#[test]
fn setup_converts_centers_and_shows() {
    let ctx = started_context();
    assert_eq!(ctx.activation_policy, ActivationPolicy::Accessory);

    let window = ctx.window.expect("window kept");
    assert_eq!(window.position.x, 560);
    assert_eq!(window.position.y, 240);

    let panel = ctx.panel.expect("panel created");
    assert!(panel.visible);
    assert!(!panel.closed);
    assert!(!panel.released_when_closed);
    assert!(panel.config.can_become_key_window);
    assert!(!panel.config.can_become_main_window);
    assert!(panel.config.is_floating_panel);
    assert_eq!(panel.config.level, PanelLevel::Floating);
    assert!(panel.config.fullscreen_auxiliary);
    assert!(panel.config.can_join_all_spaces);
    assert!(panel.config.nonactivating_panel);
    assert!(panel.config.resizable);
    assert!(panel.config.tracking.active_always);
    assert!(panel.config.tracking.auto_resize);
    assert_eq!(panel.hooks.did_become_key_event, "main_panel_did_become_key");
    assert_eq!(panel.hooks.did_resign_key_event, "main_panel_did_resign_key");
}

#[test]
fn setup_conversion_failure_is_fatal() {
    let mut ctx = fresh_context(ScreenSharingController::Unsupported);
    let r = ctx.setup(
        "main",
        &one_monitor(),
        PhysicalPosition { x: 500, y: 500 },
        false,
    );
    match r {
        Err(e) => {
            assert_eq!(e, CommandError::PanelConversion);
            assert_eq!(e.message(), "Unable to convert window to panel");
        }
        Ok(()) => panic!("conversion failure must be reported"),
    }
    assert!(ctx.panel.is_none());
    assert_eq!(ctx.activation_policy, ActivationPolicy::Accessory);
}

#[test]
fn event_names_follow_the_label() {
    assert_eq!(become_key_event_name("main"), "main_panel_did_become_key");
    assert_eq!(resign_key_event_name("main"), "main_panel_did_resign_key");
    assert_eq!(become_key_event_name("other"), "other_panel_did_become_key");
}

#[test]
fn show_hide_toggle_visibility() {
    let mut ctx = started_context();
    ctx.hide_panel();
    assert!(!ctx.panel.as_ref().unwrap().visible);
    ctx.show_panel();
    assert!(ctx.panel.as_ref().unwrap().visible);
}

#[test]
fn close_panel_is_terminal() {
    let mut ctx = started_context();
    ctx.close_panel();
    let panel = ctx.panel.as_ref().unwrap();
    assert!(panel.closed);
    assert!(panel.released_when_closed);
    assert!(!panel.visible);
}

#[test]
fn quit_app_requests_exit_code_zero() {
    let mut ctx = started_context();
    ctx.quit_app();
    assert_eq!(ctx.exit_code, Some(0));
}

#[test]
fn reopen_with_hidden_panel_shows_it() {
    let mut ctx = started_context();
    ctx.hide_panel();
    ctx.on_reopen(false);
    assert!(ctx.panel.as_ref().unwrap().visible);
}

#[test]
fn reopen_with_visible_window_is_a_noop() {
    let mut ctx = started_context();
    ctx.hide_panel();
    ctx.on_reopen(true);
    assert!(!ctx.panel.as_ref().unwrap().visible);
}

#[test]
fn run_applies_events_in_order() {
    let mut ctx = fresh_context(ScreenSharingController::Unsupported);
    let events = vec![
        RunEvent::Other,
        RunEvent::Reopen { has_visible_windows: true },
        RunEvent::Reopen { has_visible_windows: false },
    ];
    let r = ctx.run(
        "main",
        &one_monitor(),
        PhysicalPosition { x: 500, y: 500 },
        true,
        &events,
    );
    assert!(r.is_ok());
    assert!(ctx.panel.as_ref().unwrap().visible);
}

#[test]
fn sharing_set_then_get_round_trips_on_supported_platform() {
    let mut ctx = fresh_context(ScreenSharingController::Supported(
        NativeWindowAccess::Available(SharingType::NoSharing),
    ));

    assert!(ctx.set_screen_sharing_visibility(true).is_ok());
    assert_eq!(ctx.get_screen_sharing_visibility(), Ok(true));

    assert!(ctx.set_screen_sharing_visibility(false).is_ok());
    assert_eq!(ctx.get_screen_sharing_visibility(), Ok(false));
}

#[test]
fn sharing_on_unsupported_platform_fails_closed_on_set_open_on_get() {
    let mut ctx = fresh_context(ScreenSharingController::Unsupported);

    for visible in [true, false] {
        match ctx.set_screen_sharing_visibility(visible) {
            Err(e) => assert_eq!(
                e.message(),
                "Screen sharing visibility is only supported on macOS"
            ),
            Ok(()) => panic!("set must fail on an unsupported platform"),
        }
    }
    assert_eq!(ctx.get_screen_sharing_visibility(), Ok(true));
}

#[test]
fn sharing_resolution_failures_are_reported() {
    let mut unresolved = fresh_context(ScreenSharingController::Supported(
        NativeWindowAccess::Unresolved,
    ));
    match unresolved.set_screen_sharing_visibility(true) {
        Err(e) => assert_eq!(e.message(), "Failed to get window"),
        Ok(()) => panic!("unresolved window must be reported"),
    }
    assert_eq!(
        unresolved.get_screen_sharing_visibility(),
        Err(CommandError::WindowNotFound)
    );

    let mut no_handle = fresh_context(ScreenSharingController::Supported(
        NativeWindowAccess::NoNativeHandle,
    ));
    match no_handle.set_screen_sharing_visibility(false) {
        Err(e) => assert_eq!(e.message(), "Failed to get NSWindow"),
        Ok(()) => panic!("missing native window must be reported"),
    }
    assert_eq!(
        no_handle.get_screen_sharing_visibility(),
        Err(CommandError::NativeWindowUnavailable)
    );
}
