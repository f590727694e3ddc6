//! The window, camera and touch snapshot, and the three position queries.
//!
//! The host owns the real window set, camera scene and touch devices; before
//! a query it hands the resolver a read-only snapshot of them as plain
//! values. Iteration order of the vectors is the deterministic tie-break
//! order: the first match always wins.

use vstd::prelude::*;

use crate::cursor::CursorPosition;
use crate::cursor::Vec2;
use crate::cursor::WindowRef;

verus! {

/// Coordinates and window extents the resolver accepts. The bound leaves
/// room for one subtraction of two in-range values in an `i64`.
pub const MAX_COORD: i64 = 0x2000_0000_0000_0000;

/// One window of the host application, as the windowing subsystem reports
/// it: identifier, primary flag, logical and physical extents, scale factor,
/// and the last known cursor coordinate in window-local pixel space (absent
/// when the pointer is outside the window or the device has no pointer).
#[derive(Clone, Copy, Debug, PartialEq)]
pub struct WindowInfo {
    /// Stable identifier of the window.
    pub id: u64,
    /// Whether the host flags this window as the primary window. The host
    /// normally guarantees at most one; the resolver treats several flagged
    /// windows as "no primary".
    pub primary: bool,
    /// Logical width, in device-independent units.
    pub logical_width: i64,
    /// Logical height, in device-independent units.
    pub logical_height: i64,
    /// Physical width, in pixels.
    pub physical_width: u32,
    /// Physical height, in pixels.
    pub physical_height: u32,
    /// Scale factor (physical pixels per logical unit), in thousandths:
    /// 1000 stands for a ratio of one, 2000 for a ratio of two.
    pub scale_factor_milli: u64,
    /// Last known cursor coordinate in this window, origin top-left,
    /// y down; `None` when no pointer is over the window.
    pub cursor: Option<Vec2>,
}

/// What a camera draws into: a window, or an off-screen target (such as a
/// texture), which is excluded from cursor resolution.
#[derive(Clone, Copy, Debug, PartialEq)]
pub enum RenderTarget {
    Window(WindowRef),
    OffScreen,
}

/// One camera of the host's scene, as the resolver reads it.
///
/// The host's camera owns a world transform and a viewport-to-world
/// projection capability; the resolver only consumes the outcome of that
/// projection, so the snapshot carries the projected point rather than the
/// transform itself.
#[derive(Clone, Copy, Debug, PartialEq)]
pub struct CameraRecord {
    /// The camera's render target.
    pub target: RenderTarget,
    /// The camera's UI-visibility flag: absent means visible,
    /// `Some(false)` means UI is hidden for this camera.
    pub show_ui: Option<bool>,
    /// Outcome of projecting the target window's current cursor coordinate
    /// through this camera into a world-space ray, with the ray's origin
    /// kept and its depth dropped; `None` when the projection failed (for
    /// example, the cursor lies outside the camera's viewport). Meaningful
    /// only when the target window exists and has a cursor coordinate.
    pub world_projection: Option<Vec2>,
}

/// A read-only snapshot of the host state a query needs: the window set,
/// the camera set and the currently pressed touches, each in the host's
/// stable iteration order. Only the first touch is ever consulted, and it is
/// interpreted as lying in the primary window's coordinate space.
#[derive(Debug, PartialEq)]
pub struct Windows {
    pub windows: Vec<WindowInfo>,
    pub cameras: Vec<CameraRecord>,
    pub touches: Vec<Vec2>,
}

/// Whether a coordinate component is within the resolver's range.
pub open spec fn coord_ok(v: int) -> bool {
    -(MAX_COORD as int) <= v <= MAX_COORD as int
}

/// Whether both components of a coordinate are within range.
pub open spec fn vec2_ok(v: Vec2) -> bool {
    coord_ok(v.x as int) && coord_ok(v.y as int)
}

/// Whether a window's extents and cursor coordinate are within range.
pub open spec fn window_ok(w: WindowInfo) -> bool {
    &&& coord_ok(w.logical_width as int)
    &&& coord_ok(w.logical_height as int)
    &&& match w.cursor {
        Some(p) => vec2_ok(p),
        None => true,
    }
}

/// How many windows of the set are flagged primary.
pub open spec fn spec_primary_count(ws: Seq<WindowInfo>) -> nat
    decreases ws.len(),
{
    if ws.len() == 0 {
        0nat
    } else {
        spec_primary_count(ws.drop_last()) + if ws.last().primary {
            1nat
        } else {
            0nat
        }
    }
}

/// The first window of the set flagged primary, in iteration order.
pub open spec fn spec_first_primary(ws: Seq<WindowInfo>) -> Option<WindowInfo>
    decreases ws.len(),
{
    if ws.len() == 0 {
        None
    } else if ws[0].primary {
        Some(ws[0])
    } else {
        spec_first_primary(ws.skip(1))
    }
}

/// The first window of the set with the given identifier, in iteration
/// order.
pub open spec fn spec_find_by_id(ws: Seq<WindowInfo>, id: u64) -> Option<WindowInfo>
    decreases ws.len(),
{
    if ws.len() == 0 {
        None
    } else if ws[0].id == id {
        Some(ws[0])
    } else {
        spec_find_by_id(ws.skip(1), id)
    }
}

/// The first window of the set with a live cursor coordinate, in iteration
/// order.
pub open spec fn spec_first_cursor(ws: Seq<WindowInfo>) -> Option<WindowInfo>
    decreases ws.len(),
{
    if ws.len() == 0 {
        None
    } else if ws[0].cursor is Some {
        Some(ws[0])
    } else {
        spec_first_cursor(ws.skip(1))
    }
}

/// What `raw_cursor_position` answers: the cursor of the first window that
/// has one, tagged `Primary` when that window carries the primary flag and
/// `Entity` otherwise; when no window has a cursor, the first pressed touch
/// tagged `Primary`; otherwise nothing.
pub open spec fn spec_raw_cursor(ws: Seq<WindowInfo>, ts: Seq<Vec2>) -> Option<CursorPosition> {
    match spec_first_cursor(ws) {
        Some(w) => match w.cursor {
            Some(p) => Some(
                CursorPosition {
                    window_ref: if w.primary {
                        WindowRef::Primary
                    } else {
                        WindowRef::Entity(w.id)
                    },
                    position: p,
                },
            ),
            None => None,
        },
        None => if ts.len() > 0 {
            Some(CursorPosition { window_ref: WindowRef::Primary, position: ts[0] })
        } else {
            None
        },
    }
}

/// What `get_window` answers: the unique primary window for
/// `WindowRef::Primary` (none when zero or several windows are flagged
/// primary), the window with the given identifier for
/// `WindowRef::Entity`.
pub open spec fn spec_get_window(ws: Seq<WindowInfo>, window_ref: WindowRef) -> Option<WindowInfo> {
    match window_ref {
        WindowRef::Primary => if spec_primary_count(ws) == 1 {
            spec_first_primary(ws)
        } else {
            None
        },
        WindowRef::Entity(id) => spec_find_by_id(ws, id),
    }
}

/// Whether a camera takes part in UI cursor resolution: its UI-visibility
/// flag is not explicitly `false` (an absent flag means visible).
pub open spec fn spec_camera_visible(c: CameraRecord) -> bool {
    c.show_ui != Some(false)
}

/// The window reference and raw cursor coordinate that the UI query reads
/// from the cameras: the first UI-visible camera, in iteration order, whose
/// render target is a window that exists and has a live cursor.
pub open spec fn spec_ui_pick(cs: Seq<CameraRecord>, ws: Seq<WindowInfo>) -> Option<
    (WindowRef, Vec2),
>
    decreases cs.len(),
{
    if cs.len() == 0 {
        None
    } else {
        let rest = spec_ui_pick(cs.skip(1), ws);
        if spec_camera_visible(cs[0]) {
            match cs[0].target {
                RenderTarget::Window(wr) => match spec_get_window(ws, wr) {
                    Some(w) => match w.cursor {
                        Some(p) => Some((wr, p)),
                        None => rest,
                    },
                    None => rest,
                },
                RenderTarget::OffScreen => rest,
            }
        } else {
            rest
        }
    }
}

/// What `ui_cursor_position` answers: the camera pick, or with no pick the
/// first pressed touch tagged `Primary`; the chosen raw coordinate is then
/// flipped against the logical height of the chosen window, and the whole
/// query fails when that window's resolution is unavailable.
pub open spec fn spec_ui_cursor(
    ws: Seq<WindowInfo>,
    cs: Seq<CameraRecord>,
    ts: Seq<Vec2>,
) -> Option<CursorPosition> {
    let picked = match spec_ui_pick(cs, ws) {
        Some(pick) => Some(pick),
        None => if ts.len() > 0 {
            Some((WindowRef::Primary, ts[0]))
        } else {
            None
        },
    };
    match picked {
        Some((wr, p)) => match spec_get_window(ws, wr) {
            Some(w) => Some(
                CursorPosition {
                    window_ref: wr,
                    position: Vec2 { x: p.x, y: (w.logical_height - p.y) as i64 },
                },
            ),
            None => None,
        },
        None => None,
    }
}

/// Whether a camera settles the world query: its render target is a window
/// that exists and has a live cursor, and the projection of that cursor
/// through the camera succeeded.
pub open spec fn spec_world_camera_matches(c: CameraRecord, ws: Seq<WindowInfo>) -> bool {
    match c.target {
        RenderTarget::Window(wr) => match spec_get_window(ws, wr) {
            Some(w) => w.cursor is Some && c.world_projection is Some,
            None => false,
        },
        RenderTarget::OffScreen => false,
    }
}

/// What `world_cursor_position` answers: the projected point of the first
/// camera, in iteration order, that settles the query. UI visibility plays
/// no part here, and there is no touch fallback.
pub open spec fn spec_world_cursor(cs: Seq<CameraRecord>, ws: Seq<WindowInfo>) -> Option<Vec2>
    decreases cs.len(),
{
    if cs.len() == 0 {
        None
    } else if spec_world_camera_matches(cs[0], ws) {
        cs[0].world_projection
    } else {
        spec_world_cursor(cs.skip(1), ws)
    }
}

impl Windows {
    /// Every coordinate and extent of the snapshot is within the
    /// resolver's range; the host's windowing limits keep real snapshots
    /// far inside it.
    pub open spec fn wf(self) -> bool {
        &&& forall|i: int|
            0 <= i < self.windows@.len() ==> window_ok(#[trigger] self.windows@[i])
        &&& forall|i: int| 0 <= i < self.touches@.len() ==> vec2_ok(#[trigger] self.touches@[i])
    }

    /// Looks up a window: the unique primary window for
    /// `WindowRef::Primary`, or the window with the given identifier.
    /// Zero or several windows flagged primary both answer `None`:
    /// an absent or ambiguous primary is "no answer", never a crash.
    pub fn get_window(&self, window_ref: WindowRef) -> (r: Option<WindowInfo>)
        ensures
            r == spec_get_window(self.windows@, window_ref),
            r matches Some(w) ==> exists|i: int|
                0 <= i < self.windows@.len() && self.windows@[i] == w,
            window_ref == WindowRef::Primary && spec_primary_count(self.windows@) != 1
                ==> r is None,
    {
        match window_ref {
            WindowRef::Primary => self.primary_window(),
            WindowRef::Entity(id) => self.window_by_id(id),
        }
    }

    /// The unique window flagged primary, or `None` when no window or more
    /// than one is flagged.
    fn primary_window(&self) -> (r: Option<WindowInfo>)
        ensures
            r == (if spec_primary_count(self.windows@) == 1 {
                spec_first_primary(self.windows@)
            } else {
                None::<WindowInfo>
            }),
            r matches Some(w) ==> exists|i: int|
                0 <= i < self.windows@.len() && self.windows@[i] == w,
    {
        let n = self.windows.len();
        let mut count: usize = 0;
        let mut first: Option<WindowInfo> = None;
        let mut i: usize = 0;
        while i < n
            invariant
                n == self.windows@.len(),
                i <= n,
                count <= i,
                count == spec_primary_count(self.windows@.take(i as int)),
                first == spec_first_primary(self.windows@.take(i as int)),
                first matches Some(w) ==> exists|j: int|
                    0 <= j < self.windows@.len() && self.windows@[j] == w,
            decreases n - i,
        {
            let ghost ws = self.windows@;
            let w = self.windows[i];
            proof {
                assert(ws.take(i as int).push(w) =~= ws.take(i + 1));
                assert(ws.take(i + 1).drop_last() =~= ws.take(i as int));
                lemma_first_primary_push(ws.take(i as int), w);
            }
            if w.primary {
                count = count + 1;
                if first.is_none() {
                    first = Some(w);
                }
            }
            i = i + 1;
        }
        proof {
            assert(self.windows@.take(n as int) =~= self.windows@);
        }
        if count == 1 {
            first
        } else {
            None
        }
    }

    /// The window with the given identifier, or `None` when absent.
    fn window_by_id(&self, id: u64) -> (r: Option<WindowInfo>)
        ensures
            r == spec_find_by_id(self.windows@, id),
            r matches Some(w) ==> exists|i: int|
                0 <= i < self.windows@.len() && self.windows@[i] == w,
    {
        let n = self.windows.len();
        proof {
            assert(self.windows@.skip(0) =~= self.windows@);
        }
        let mut i: usize = 0;
        while i < n
            invariant
                n == self.windows@.len(),
                i <= n,
                spec_find_by_id(self.windows@, id) == spec_find_by_id(
                    self.windows@.skip(i as int),
                    id,
                ),
            decreases n - i,
        {
            let ghost ws = self.windows@;
            let w = self.windows[i];
            proof {
                assert(ws.skip(i as int)[0] == ws[i as int]);
                assert(ws.skip(i as int).skip(1) =~= ws.skip(i + 1));
            }
            if w.id == id {
                return Some(w);
            }
            i = i + 1;
        }
        proof {
            assert(self.windows@.skip(n as int).len() == 0);
        }
        None
    }

    /// The scale factor of the given window, in thousandths; absence of the
    /// window propagates as "no answer".
    pub fn scale_factor(&self, window_ref: WindowRef) -> (r: Option<u64>)
        ensures
            r == (match spec_get_window(self.windows@, window_ref) {
                Some(w) => Some(w.scale_factor_milli),
                None => None::<u64>,
            }),
    {
        match self.get_window(window_ref) {
            Some(w) => Some(w.scale_factor_milli),
            None => None,
        }
    }

    /// The physical resolution of the given window, in pixels; absence of
    /// the window propagates as "no answer".
    pub fn physical_resolution(&self, window_ref: WindowRef) -> (r: Option<Vec2>)
        ensures
            r == (match spec_get_window(self.windows@, window_ref) {
                Some(w) => Some(
                    Vec2 { x: w.physical_width as i64, y: w.physical_height as i64 },
                ),
                None => None::<Vec2>,
            }),
    {
        match self.get_window(window_ref) {
            Some(w) => Some(Vec2 { x: w.physical_width as i64, y: w.physical_height as i64 }),
            None => None,
        }
    }

    /// The logical resolution of the given window, in device-independent
    /// units; absence of the window propagates as "no answer".
    pub fn resolution(&self, window_ref: WindowRef) -> (r: Option<Vec2>)
        ensures
            r == (match spec_get_window(self.windows@, window_ref) {
                Some(w) => Some(Vec2 { x: w.logical_width, y: w.logical_height }),
                None => None::<Vec2>,
            }),
    {
        match self.get_window(window_ref) {
            Some(w) => Some(Vec2 { x: w.logical_width, y: w.logical_height }),
            None => None,
        }
    }

    /// The cursor position in window-local pixel coordinates: the first
    /// window in iteration order with a live cursor wins, tagged `Primary`
    /// exactly when it carries the primary flag; with no such window, the
    /// first pressed touch is reported as lying in the primary window.
    pub fn raw_cursor_position(&self) -> (r: Option<CursorPosition>)
        ensures
            r == spec_raw_cursor(self.windows@, self.touches@),
    {
        let n = self.windows.len();
        proof {
            assert(self.windows@.skip(0) =~= self.windows@);
        }
        let mut i: usize = 0;
        while i < n
            invariant
                n == self.windows@.len(),
                i <= n,
                spec_first_cursor(self.windows@) == spec_first_cursor(
                    self.windows@.skip(i as int),
                ),
            decreases n - i,
        {
            let ghost ws = self.windows@;
            let w = self.windows[i];
            proof {
                assert(ws.skip(i as int)[0] == ws[i as int]);
                assert(ws.skip(i as int).skip(1) =~= ws.skip(i + 1));
            }
            match w.cursor {
                Some(p) => {
                    return Some(
                        CursorPosition {
                            window_ref: if w.primary {
                                WindowRef::Primary
                            } else {
                                WindowRef::Entity(w.id)
                            },
                            position: p,
                        },
                    );
                },
                None => {},
            }
            i = i + 1;
        }
        proof {
            assert(self.windows@.skip(n as int).len() == 0);
        }
        if self.touches.len() > 0 {
            Some(CursorPosition { window_ref: WindowRef::Primary, position: self.touches[0] })
        } else {
            None
        }
    }

    /// The camera-driven part of the UI query: the first UI-visible camera
    /// whose target window exists and has a live cursor.
    fn ui_pick(&self) -> (r: Option<(WindowRef, Vec2)>)
        ensures
            r == spec_ui_pick(self.cameras@, self.windows@),
            r matches Some(pick) ==> exists|j: int|
                0 <= j < self.windows@.len() && self.windows@[j].cursor == Some(pick.1),
    {
        let m = self.cameras.len();
        proof {
            assert(self.cameras@.skip(0) =~= self.cameras@);
        }
        let mut i: usize = 0;
        while i < m
            invariant
                m == self.cameras@.len(),
                i <= m,
                spec_ui_pick(self.cameras@, self.windows@) == spec_ui_pick(
                    self.cameras@.skip(i as int),
                    self.windows@,
                ),
            decreases m - i,
        {
            let ghost cs = self.cameras@;
            let c = self.cameras[i];
            proof {
                assert(cs.skip(i as int)[0] == cs[i as int]);
                assert(cs.skip(i as int).skip(1) =~= cs.skip(i + 1));
            }
            let visible = match c.show_ui {
                Some(b) => b,
                None => true,
            };
            if visible {
                match c.target {
                    RenderTarget::Window(wr) => {
                        match self.get_window(wr) {
                            Some(w) => {
                                match w.cursor {
                                    Some(p) => {
                                        return Some((wr, p));
                                    },
                                    None => {},
                                }
                            },
                            None => {},
                        }
                    },
                    RenderTarget::OffScreen => {},
                }
            }
            i = i + 1;
        }
        proof {
            assert(self.cameras@.skip(m as int).len() == 0);
        }
        None
    }

    /// The cursor position in UI coordinates: the camera pick (or, with no
    /// pick, the first pressed touch tagged `Primary`) with its
    /// y-coordinate flipped against the chosen window's logical height.
    /// When that window's resolution is unavailable — for instance a touch
    /// fallback with no unique primary window — the whole query answers
    /// `None`, since UI coordinates are meaningless without the height.
    pub fn ui_cursor_position(&self) -> (r: Option<CursorPosition>)
        requires
            self.wf(),
        ensures
            r == spec_ui_cursor(self.windows@, self.cameras@, self.touches@),
    {
        let picked: Option<(WindowRef, Vec2)> = match self.ui_pick() {
            Some(pick) => Some(pick),
            None => if self.touches.len() > 0 {
                Some((WindowRef::Primary, self.touches[0]))
            } else {
                None
            },
        };
        match picked {
            Some((wr, p)) => match self.get_window(wr) {
                Some(w) => {
                    let y = w.logical_height - p.y;
                    Some(CursorPosition { window_ref: wr, position: Vec2 { x: p.x, y } })
                },
                None => None,
            },
            None => None,
        }
    }

    /// The cursor position in world coordinates: the projected point of the
    /// first camera, in iteration order, whose render target is a window
    /// that exists and has a live cursor and whose projection of that
    /// cursor succeeded. Cameras with other render targets are skipped, UI
    /// visibility plays no part, and there is no touch fallback.
    pub fn world_cursor_position(&self) -> (r: Option<Vec2>)
        ensures
            r == spec_world_cursor(self.cameras@, self.windows@),
    {
        let m = self.cameras.len();
        proof {
            assert(self.cameras@.skip(0) =~= self.cameras@);
        }
        let mut i: usize = 0;
        while i < m
            invariant
                m == self.cameras@.len(),
                i <= m,
                spec_world_cursor(self.cameras@, self.windows@) == spec_world_cursor(
                    self.cameras@.skip(i as int),
                    self.windows@,
                ),
            decreases m - i,
        {
            let ghost cs = self.cameras@;
            let c = self.cameras[i];
            proof {
                assert(cs.skip(i as int)[0] == cs[i as int]);
                assert(cs.skip(i as int).skip(1) =~= cs.skip(i + 1));
            }
            match c.target {
                RenderTarget::Window(wr) => {
                    match self.get_window(wr) {
                        Some(w) => {
                            match w.cursor {
                                Some(_) => {
                                    match c.world_projection {
                                        Some(p) => {
                                            return Some(p);
                                        },
                                        None => {},
                                    }
                                },
                                None => {},
                            }
                        },
                        None => {},
                    }
                },
                RenderTarget::OffScreen => {},
            }
            i = i + 1;
        }
        proof {
            assert(self.cameras@.skip(m as int).len() == 0);
        }
        None
    }
}

/// Appending a window extends the first-primary choice only when nothing
/// was flagged primary before it.
proof fn lemma_first_primary_push(s: Seq<WindowInfo>, w: WindowInfo)
    ensures
        spec_first_primary(s.push(w)) == (if spec_first_primary(s) is Some {
            spec_first_primary(s)
        } else if w.primary {
            Some(w)
        } else {
            None::<WindowInfo>
        }),
    decreases s.len(),
{
    if s.len() == 0 {
        assert(s.push(w)[0] == w);
        assert(s.push(w).skip(1).len() == 0);
        assert(spec_first_primary(s.push(w).skip(1)) is None);
    } else {
        assert(s.push(w)[0] == s[0]);
        assert(s.push(w).skip(1) =~= s.skip(1).push(w));
        lemma_first_primary_push(s.skip(1), w);
        assert(spec_first_primary(s.push(w).skip(1)) == spec_first_primary(s.skip(1).push(w)));
    }
}

} // verus!
