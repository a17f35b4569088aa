//! Monitor-aware placement of the panel window.
//!
//! All coordinates are physical-pixel integers: a monitor is an origin and a
//! size, the pointer is a point, and the panel window is an origin and an
//! outer size. The positioner resolves the monitor whose bounds contain the
//! pointer and centers the window on it with truncating integer arithmetic;
//! when no monitor contains the pointer it leaves the window untouched.

use vstd::prelude::*;

verus! {

/// A position in physical pixels (global coordinates).
#[derive(Debug, Clone, Copy, PartialEq, Eq, Structural)]
pub struct PhysicalPosition {
    pub x: i32,
    pub y: i32,
}

/// A size in physical pixels.
#[derive(Debug, Clone, Copy, PartialEq, Eq, Structural)]
pub struct PhysicalSize {
    pub width: u32,
    pub height: u32,
}

/// One monitor: its top-left origin and its extent.
#[derive(Debug, Clone, Copy, PartialEq, Eq, Structural)]
pub struct Monitor {
    pub position: PhysicalPosition,
    pub size: PhysicalSize,
}

/// The one panel window, as the positioner sees it: where it stands and how
/// large its outer frame is.
#[derive(Debug, Clone, Copy, PartialEq, Eq, Structural)]
pub struct PanelWindow {
    pub position: PhysicalPosition,
    pub outer_size: PhysicalSize,
}

/// A monitor whose far edges still lie within the signed 32-bit coordinate
/// space; every monitor handed out by the host windowing layer satisfies
/// this.
pub open spec fn monitor_wf(m: Monitor) -> bool {
    &&& m.position.x + m.size.width <= i32::MAX
    &&& m.position.y + m.size.height <= i32::MAX
}

/// Whether the point lies inside the monitor's bounds (half-open on the far
/// edges).
pub open spec fn monitor_contains(m: Monitor, p: PhysicalPosition) -> bool {
    &&& m.position.x <= p.x < m.position.x + m.size.width
    &&& m.position.y <= p.y < m.position.y + m.size.height
}

/// Some monitor of the list contains the point.
pub open spec fn some_monitor_contains(monitors: Seq<Monitor>, p: PhysicalPosition) -> bool {
    exists|i: int| 0 <= i < monitors.len() && monitor_contains(monitors[i], p)
}

/// `i` is the first index whose monitor contains the point.
pub open spec fn is_first_containing(monitors: Seq<Monitor>, p: PhysicalPosition, i: int) -> bool {
    &&& 0 <= i < monitors.len()
    &&& monitor_contains(monitors[i], p)
    &&& forall|j: int| 0 <= j < i ==> !monitor_contains(monitors[j], p)
}

/// Half of `d`, truncated toward zero — the meaning of the host language's
/// division by two on signed integers.
pub open spec fn half_toward_zero(d: int) -> int {
    if d >= 0 {
        d / 2
    } else {
        -((-d) / 2)
    }
}

/// The coordinate that centers an extent of `window_extent` inside an extent
/// of `monitor_extent` starting at `origin`, with truncating division.
pub open spec fn centered_coord(origin: int, monitor_extent: int, window_extent: int) -> int {
    origin + half_toward_zero(monitor_extent - window_extent)
}

/// Both centered coordinates of the window on this monitor stay within the
/// signed 32-bit coordinate space.
pub open spec fn centered_fits(m: Monitor, size: PhysicalSize) -> bool {
    &&& i32::MIN <= centered_coord(m.position.x as int, m.size.width as int, size.width as int)
        <= i32::MAX
    &&& i32::MIN <= centered_coord(m.position.y as int, m.size.height as int, size.height as int)
        <= i32::MAX
}

/// The top-left origin that centers a window of the given outer size on the
/// monitor, per axis `origin + (monitor_extent - window_extent) / 2` with
/// truncating division.
pub fn centered_origin(m: &Monitor, size: PhysicalSize) -> (r: PhysicalPosition)
    requires
        centered_fits(*m, size),
    ensures
        r.x as int == centered_coord(m.position.x as int, m.size.width as int, size.width as int),
        r.y as int == centered_coord(
            m.position.y as int,
            m.size.height as int,
            size.height as int,
        ),
{
    let dx: i64 = m.size.width as i64 - size.width as i64;
    let dy: i64 = m.size.height as i64 - size.height as i64;
    let hx: i64 = if dx >= 0 {
        dx / 2
    } else {
        -((-dx) / 2)
    };
    let hy: i64 = if dy >= 0 {
        dy / 2
    } else {
        -((-dy) / 2)
    };
    let x: i64 = m.position.x as i64 + hx;
    let y: i64 = m.position.y as i64 + hy;
    PhysicalPosition { x: x as i32, y: y as i32 }
}

/// The index of the first monitor whose bounds contain the point, if any.
pub fn monitor_containing(monitors: &Vec<Monitor>, p: PhysicalPosition) -> (r: Option<usize>)
    ensures
        match r {
            Some(i) => is_first_containing(monitors@, p, i as int),
            None => !some_monitor_contains(monitors@, p),
        },
{
    let mut i: usize = 0;
    while i < monitors.len()
        invariant
            i <= monitors@.len(),
            forall|j: int| 0 <= j < i ==> !monitor_contains(monitors@[j], p),
        decreases monitors@.len() - i,
    {
        let m = monitors[i];
        let inside_x = m.position.x <= p.x && (p.x as i64) < m.position.x as i64
            + m.size.width as i64;
        let inside_y = m.position.y <= p.y && (p.y as i64) < m.position.y as i64
            + m.size.height as i64;
        if inside_x && inside_y {
            return Some(i);
        }
        i = i + 1;
    }
    None
}

/// How the positioner relates the window before the call to the window after
/// it: the outer size is untouched; if some monitor contains the pointer the
/// window stands centered on the first such monitor, otherwise it stands
/// where it stood.
pub open spec fn reposition_spec(
    w0: PanelWindow,
    monitors: Seq<Monitor>,
    cursor: PhysicalPosition,
    w1: PanelWindow,
) -> bool {
    &&& w1.outer_size == w0.outer_size
    &&& if some_monitor_contains(monitors, cursor) {
        exists|i: int|
            is_first_containing(monitors, cursor, i) && w1.position.x as int == centered_coord(
                monitors[i].position.x as int,
                monitors[i].size.width as int,
                w0.outer_size.width as int,
            ) && w1.position.y as int == centered_coord(
                monitors[i].position.y as int,
                monitors[i].size.height as int,
                w0.outer_size.height as int,
            )
    } else {
        w1.position == w0.position
    }
}

/// The positioner centers the window: for a window that fits inside the
/// monitor, the centered origin puts the window's doubled center on the
/// monitor's doubled center, lowered by one toward the monitor's origin
/// when the size difference is odd.
pub proof fn lemma_centered_origin_centers_window(m: Monitor, size: PhysicalSize)
    requires
        size.width <= m.size.width,
        size.height <= m.size.height,
    ensures
        2 * centered_coord(m.position.x as int, m.size.width as int, size.width as int)
            + size.width == 2 * m.position.x + m.size.width - (m.size.width - size.width) % 2,
        2 * centered_coord(m.position.y as int, m.size.height as int, size.height as int)
            + size.height == 2 * m.position.y + m.size.height - (m.size.height - size.height) % 2,
{
    let dw = m.size.width - size.width;
    let dh = m.size.height - size.height;
    assert(dw == 2 * (dw / 2) + dw % 2);
    assert(dh == 2 * (dh / 2) + dh % 2);
}

/// The positioner centers the window on the pointer's monitor: whenever the
/// pointer resolves to a monitor (the first whose bounds contain it) and
/// the window fits inside that monitor, the repositioned window's doubled
/// center equals that monitor's doubled center, lowered by one toward the
/// monitor's origin when the size difference is odd.
pub proof fn lemma_positioner_centers_on_pointer_monitor(
    w0: PanelWindow,
    monitors: Seq<Monitor>,
    cursor: PhysicalPosition,
    w1: PanelWindow,
    i: int,
)
    requires
        reposition_spec(w0, monitors, cursor, w1),
        is_first_containing(monitors, cursor, i),
        w0.outer_size.width <= monitors[i].size.width,
        w0.outer_size.height <= monitors[i].size.height,
    ensures
        2 * w1.position.x + w1.outer_size.width == 2 * monitors[i].position.x
            + monitors[i].size.width - (monitors[i].size.width - w0.outer_size.width) % 2,
        2 * w1.position.y + w1.outer_size.height == 2 * monitors[i].position.y
            + monitors[i].size.height - (monitors[i].size.height - w0.outer_size.height) % 2,
{
    assert(some_monitor_contains(monitors, cursor));
    let j = choose|j: int|
        is_first_containing(monitors, cursor, j) && w1.position.x as int == centered_coord(
            monitors[j].position.x as int,
            monitors[j].size.width as int,
            w0.outer_size.width as int,
        ) && w1.position.y as int == centered_coord(
            monitors[j].position.y as int,
            monitors[j].size.height as int,
            w0.outer_size.height as int,
        );
    assert(j == i);
    lemma_centered_origin_centers_window(monitors[i], w0.outer_size);
}

/// A window that fits inside a well-formed monitor also fits the coordinate
/// space when centered on it.
pub proof fn lemma_fitting_window_centers_in_range(m: Monitor, size: PhysicalSize)
    requires
        monitor_wf(m),
        size.width <= m.size.width,
        size.height <= m.size.height,
    ensures
        centered_fits(m, size),
{
}

/// When the pointer resolves to no monitor, the positioner changes nothing:
/// any window state the positioner relates to the old one is the old one.
pub proof fn lemma_no_monitor_no_move(
    w0: PanelWindow,
    monitors: Seq<Monitor>,
    cursor: PhysicalPosition,
    w1: PanelWindow,
)
    requires
        !some_monitor_contains(monitors, cursor),
        reposition_spec(w0, monitors, cursor, w1),
    ensures
        w1 == w0,
{
}

} // verus!
