use launcher_panel::geometry::{Monitor, PanelWindow, PhysicalPosition, PhysicalSize};
use launcher_panel::panel::WebviewWindowExt;

fn monitor(x: i32, y: i32, width: u32, height: u32) -> Monitor {
    Monitor {
        position: PhysicalPosition { x, y },
        size: PhysicalSize { width, height },
    }
}

fn window_at(x: i32, y: i32, width: u32, height: u32) -> PanelWindow {
    PanelWindow {
        position: PhysicalPosition { x, y },
        outer_size: PhysicalSize { width, height },
    }
}

#[test]
fn single_display_pointer_inside_centers_window() {
    let monitors = vec![monitor(0, 0, 1920, 1080)];
    let mut window = window_at(100, 100, 800, 600);
    window.center_at_cursor_monitor(&monitors, PhysicalPosition { x: 500, y: 500 });
    assert_eq!(window.position.x, 560);
    assert_eq!(window.position.y, 240);
    assert_eq!(window.outer_size.width, 800);
    assert_eq!(window.outer_size.height, 600);
}

#[test]
fn pointer_on_no_monitor_moves_nothing() {
    let monitors = vec![monitor(0, 0, 1920, 1080)];
    let mut window = window_at(123, 456, 800, 600);
    window.center_at_cursor_monitor(&monitors, PhysicalPosition { x: 5000, y: 5000 });
    assert_eq!(window.position.x, 123);
    assert_eq!(window.position.y, 456);
}

#[test]
fn empty_monitor_list_moves_nothing() {
    let monitors: Vec<Monitor> = Vec::new();
    let mut window = window_at(7, 8, 800, 600);
    window.center_at_cursor_monitor(&monitors, PhysicalPosition { x: 0, y: 0 });
    assert_eq!(window.position.x, 7);
    assert_eq!(window.position.y, 8);
}

#[test]
fn first_monitor_containing_pointer_wins() {
    // Both monitors contain the pointer; the first one decides.
    let monitors = vec![monitor(0, 0, 1000, 1000), monitor(0, 0, 2000, 2000)];
    let mut window = window_at(0, 0, 100, 100);
    window.center_at_cursor_monitor(&monitors, PhysicalPosition { x: 500, y: 500 });
    assert_eq!(window.position.x, 450);
    assert_eq!(window.position.y, 450);
}

#[test]
fn second_monitor_resolves_when_first_misses() {
    let monitors = vec![monitor(0, 0, 1920, 1080), monitor(1920, 0, 1920, 1080)];
    let mut window = window_at(0, 0, 800, 600);
    window.center_at_cursor_monitor(&monitors, PhysicalPosition { x: 2000, y: 100 });
    assert_eq!(window.position.x, 1920 + 560);
    assert_eq!(window.position.y, 240);
}

#[test]
fn negative_monitor_origin_centers_correctly() {
    let monitors = vec![monitor(-1920, 0, 1920, 1080)];
    let mut window = window_at(0, 0, 800, 600);
    window.center_at_cursor_monitor(&monitors, PhysicalPosition { x: -500, y: 500 });
    assert_eq!(window.position.x, -1360);
    assert_eq!(window.position.y, 240);
}

#[test]
fn odd_size_difference_truncates_toward_monitor_origin() {
    // Difference 5 - 2 = 3 per axis: the origin truncates to 1, so the
    // window's center sits half a pixel above-left of the monitor's center.
    let monitors = vec![monitor(0, 0, 5, 5)];
    let mut window = window_at(4, 4, 2, 2);
    window.center_at_cursor_monitor(&monitors, PhysicalPosition { x: 2, y: 2 });
    assert_eq!(window.position.x, 1);
    assert_eq!(window.position.y, 1);
}

#[test]
fn extreme_far_monitor_does_not_block_positioning() {
    // The far monitor's centered origin would leave the coordinate space,
    // but the pointer resolves to the first monitor, which alone is
    // computed with.
    let monitors = vec![
        monitor(0, 0, 1920, 1080),
        monitor(i32::MAX - 10, i32::MAX - 10, u32::MAX, u32::MAX),
    ];
    let mut window = window_at(0, 0, 800, 600);
    window.center_at_cursor_monitor(&monitors, PhysicalPosition { x: 500, y: 500 });
    assert_eq!(window.position.x, 560);
    assert_eq!(window.position.y, 240);
}

#[test]
fn monitor_edges_are_half_open() {
    let monitors = vec![monitor(0, 0, 1920, 1080)];

    let mut on_origin = window_at(9, 9, 100, 100);
    on_origin.center_at_cursor_monitor(&monitors, PhysicalPosition { x: 0, y: 0 });
    assert_eq!(on_origin.position.x, 910);

    let mut on_far_edge = window_at(9, 9, 100, 100);
    on_far_edge.center_at_cursor_monitor(&monitors, PhysicalPosition { x: 1920, y: 500 });
    assert_eq!(on_far_edge.position.x, 9);
}
