//! General statements about the resolver, proved once and for all inputs:
//! how the raw query treats a uniquely hovered primary window, that hidden
//! cameras and non-matching cameras never influence a query, and that the
//! coordinate conversion of a cursor position is lossless.

use vstd::prelude::*;

use crate::cursor::CursorPosition;
use crate::cursor::Vec2;
use crate::cursor::WindowRef;
use crate::windows::CameraRecord;
use crate::windows::WindowInfo;
use crate::windows::spec_camera_visible;
use crate::windows::spec_first_cursor;
use crate::windows::spec_primary_count;
use crate::windows::spec_raw_cursor;
use crate::windows::spec_ui_cursor;
use crate::windows::spec_ui_pick;
use crate::windows::spec_world_camera_matches;
use crate::windows::spec_world_cursor;

verus! {

/// When only the window at `i` has a live cursor, it is the first window
/// with one.
proof fn lemma_first_cursor_unique(ws: Seq<WindowInfo>, i: int)
    requires
        0 <= i < ws.len(),
        ws[i].cursor is Some,
        forall|j: int| 0 <= j < ws.len() && j != i ==> ws[j].cursor is None,
    ensures
        spec_first_cursor(ws) == Some(ws[i]),
    decreases ws.len(),
{
    if i == 0 {
    } else {
        assert(ws[0].cursor is None);
        assert(forall|j: int|
            0 <= j < ws.skip(1).len() && j != i - 1 ==> ws.skip(1)[j].cursor is None);
        lemma_first_cursor_unique(ws.skip(1), i - 1);
    }
}

/// For every window set with exactly one window flagged primary and a live
/// cursor coordinate only in that window, the raw query returns that
/// coordinate tagged `Primary`, whatever the touch state.
pub proof fn lemma_raw_position_unique_primary_cursor(
    ws: Seq<WindowInfo>,
    ts: Seq<Vec2>,
    i: int,
)
    requires
        0 <= i < ws.len(),
        spec_primary_count(ws) == 1,
        ws[i].primary,
        ws[i].cursor is Some,
        forall|j: int| 0 <= j < ws.len() && j != i ==> ws[j].cursor is None,
    ensures
        spec_raw_cursor(ws, ts) == Some(
            CursorPosition { window_ref: WindowRef::Primary, position: ws[i].cursor.unwrap() },
        ),
{
    lemma_first_cursor_unique(ws, i);
}

/// Removing a camera whose UI-visibility flag is explicitly `false` never
/// changes the camera pick of the UI query.
proof fn lemma_ui_pick_remove(cs: Seq<CameraRecord>, ws: Seq<WindowInfo>, i: int)
    requires
        0 <= i < cs.len(),
        !spec_camera_visible(cs[i]),
    ensures
        spec_ui_pick(cs.remove(i), ws) == spec_ui_pick(cs, ws),
    decreases cs.len(),
{
    if i == 0 {
        assert(cs.remove(0) =~= cs.skip(1));
    } else {
        assert(cs.remove(i)[0] == cs[0]);
        assert(cs.remove(i).skip(1) =~= cs.skip(1).remove(i - 1));
        lemma_ui_pick_remove(cs.skip(1), ws, i - 1);
    }
}

/// A camera whose UI-visibility flag is explicitly `false` is never
/// selected by the UI query: removing it from the camera set — even when it
/// is the only camera whose target window holds a cursor — leaves the
/// query's answer unchanged, so the query falls through to the remaining
/// cameras, the touch fallback or `None` exactly as if the camera were
/// absent.
pub proof fn lemma_ui_ignores_hidden_camera(
    ws: Seq<WindowInfo>,
    cs: Seq<CameraRecord>,
    ts: Seq<Vec2>,
    i: int,
)
    requires
        0 <= i < cs.len(),
        cs[i].show_ui == Some(false),
    ensures
        spec_ui_cursor(ws, cs.remove(i), ts) == spec_ui_cursor(ws, cs, ts),
{
    lemma_ui_pick_remove(cs, ws, i);
}

/// Removing a camera that does not settle the world query never changes
/// its answer.
proof fn lemma_world_cursor_remove(cs: Seq<CameraRecord>, ws: Seq<WindowInfo>, i: int)
    requires
        0 <= i < cs.len(),
        !spec_world_camera_matches(cs[i], ws),
    ensures
        spec_world_cursor(cs.remove(i), ws) == spec_world_cursor(cs, ws),
    decreases cs.len(),
{
    if i == 0 {
        assert(cs.remove(0) =~= cs.skip(1));
    } else {
        assert(cs.remove(i)[0] == cs[0]);
        assert(cs.remove(i).skip(1) =~= cs.skip(1).remove(i - 1));
        lemma_world_cursor_remove(cs.skip(1), ws, i - 1);
    }
}

/// The world query skips cameras that do not settle it — those whose render
/// target is not a window, whose target window is missing or has no live
/// cursor, or whose projection failed — and stops at the first camera that
/// does: removing any non-settling camera, wherever it stands in the
/// iteration order, leaves the answer unchanged.
pub proof fn lemma_world_ignores_nonmatching_camera(
    ws: Seq<WindowInfo>,
    cs: Seq<CameraRecord>,
    i: int,
)
    requires
        0 <= i < cs.len(),
        !spec_world_camera_matches(cs[i], ws),
    ensures
        spec_world_cursor(cs.remove(i), ws) == spec_world_cursor(cs, ws),
{
    lemma_world_cursor_remove(cs, ws, i);
}

/// Converting a cursor position to a bare coordinate loses nothing but the
/// window tag: for every value, the conversion yields exactly what
/// `position()` reports.
pub proof fn lemma_vec2_from_cursor_position(c: CursorPosition)
    ensures
        <Vec2 as vstd::std_specs::convert::FromSpec<CursorPosition>>::from_spec(c) == c.position,
{
}

} // verus!
