use cursor_resolver::CameraRecord;
use cursor_resolver::CursorPosition;
use cursor_resolver::RenderTarget;
use cursor_resolver::Vec2;
use cursor_resolver::WindowInfo;
use cursor_resolver::WindowRef;
use cursor_resolver::Windows;

fn v(x: i64, y: i64) -> Vec2 {
    Vec2 { x, y }
}

fn win(id: u64, primary: bool, lw: i64, lh: i64, cursor: Option<Vec2>) -> WindowInfo {
    WindowInfo {
        id,
        primary,
        logical_width: lw,
        logical_height: lh,
        physical_width: (lw as u32) * 2,
        physical_height: (lh as u32) * 2,
        scale_factor_milli: 2000,
        cursor,
    }
}

fn cam(target: RenderTarget, show_ui: Option<bool>, proj: Option<Vec2>) -> CameraRecord {
    CameraRecord {
        target,
        show_ui,
        world_projection: proj,
    }
}

fn snapshot(windows: Vec<WindowInfo>, cameras: Vec<CameraRecord>, touches: Vec<Vec2>) -> Windows {
    Windows {
        windows,
        cameras,
        touches,
    }
}

#[test]
fn raw_unique_primary_cursor() {
    // Exactly one primary window, and only it has a live cursor.
    let w = snapshot(
        vec![
            win(1, true, 800, 600, Some(v(400, 300))),
            win(2, false, 640, 480, None),
        ],
        vec![],
        vec![],
    );
    let r = w.raw_cursor_position().unwrap();
    assert_eq!(r.window(), WindowRef::Primary);
    assert_eq!(r.position(), v(400, 300));
}

#[test]
fn raw_first_window_wins() {
    // Two windows with cursors: the first in iteration order wins,
    // tagged by its identifier since it is not primary.
    let w = snapshot(
        vec![
            win(7, false, 800, 600, Some(v(1, 2))),
            win(8, true, 800, 600, Some(v(3, 4))),
        ],
        vec![],
        vec![],
    );
    let r = w.raw_cursor_position().unwrap();
    assert_eq!(r.window(), WindowRef::Entity(7));
    assert_eq!(r.position(), v(1, 2));
}

#[test]
fn raw_primary_tag_does_not_need_unique_primary() {
    // The raw query tags by the window's own primary flag, even when the
    // flag is ambiguous and get_window(Primary) would answer None.
    let w = snapshot(
        vec![
            win(1, true, 800, 600, Some(v(5, 6))),
            win(2, true, 800, 600, None),
        ],
        vec![],
        vec![],
    );
    let r = w.raw_cursor_position().unwrap();
    assert_eq!(r.window(), WindowRef::Primary);
    assert!(w.get_window(WindowRef::Primary).is_none());
}

#[test]
fn raw_touch_fallback() {
    // No window has a live cursor but a touch is pressed at (10, 20).
    let w = snapshot(
        vec![win(1, true, 800, 600, None)],
        vec![],
        vec![v(10, 20)],
    );
    let r = w.raw_cursor_position().unwrap();
    assert_eq!(r.window(), WindowRef::Primary);
    assert_eq!(r.position(), v(10, 20));
}

#[test]
fn raw_nothing() {
    let w = snapshot(vec![win(1, true, 800, 600, None)], vec![], vec![]);
    assert!(w.raw_cursor_position().is_none());
    let empty = snapshot(vec![], vec![], vec![]);
    assert!(empty.raw_cursor_position().is_none());
}

#[test]
fn get_window_rules() {
    let unique = snapshot(
        vec![win(1, false, 1, 1, None), win(2, true, 800, 600, None)],
        vec![],
        vec![],
    );
    assert_eq!(unique.get_window(WindowRef::Primary).unwrap().id, 2);
    assert_eq!(unique.get_window(WindowRef::Entity(1)).unwrap().id, 1);
    assert!(unique.get_window(WindowRef::Entity(9)).is_none());

    // Zero windows flagged primary: no answer.
    let none = snapshot(
        vec![
            win(1, false, 1, 1, Some(v(0, 0))),
            win(2, false, 1, 1, Some(v(1, 1))),
        ],
        vec![],
        vec![],
    );
    assert!(none.get_window(WindowRef::Primary).is_none());

    // Two windows flagged primary: ambiguous, no answer either, whatever
    // the windows' cursor states.
    let two = snapshot(
        vec![
            win(1, true, 1, 1, Some(v(0, 0))),
            win(2, true, 1, 1, Some(v(1, 1))),
        ],
        vec![],
        vec![],
    );
    assert!(two.get_window(WindowRef::Primary).is_none());
}

#[test]
fn accessors_follow_get_window() {
    let w = snapshot(vec![win(3, true, 800, 600, None)], vec![], vec![]);
    assert_eq!(w.resolution(WindowRef::Primary).unwrap(), v(800, 600));
    assert_eq!(
        w.physical_resolution(WindowRef::Entity(3)).unwrap(),
        v(1600, 1200)
    );
    assert_eq!(w.scale_factor(WindowRef::Primary).unwrap(), 2000);
    assert!(w.resolution(WindowRef::Entity(4)).is_none());
    assert!(w.physical_resolution(WindowRef::Entity(4)).is_none());
    assert!(w.scale_factor(WindowRef::Entity(4)).is_none());
}

#[test]
fn ui_flips_y_against_logical_height() {
    // Primary window of logical height 600, visible UI camera targeting
    // it, raw cursor at (100, 50): the UI position is (100, 550).
    let w = snapshot(
        vec![win(1, true, 800, 600, Some(v(100, 50)))],
        vec![cam(RenderTarget::Window(WindowRef::Primary), None, None)],
        vec![],
    );
    let r = w.ui_cursor_position().unwrap();
    assert_eq!(r.window(), WindowRef::Primary);
    assert_eq!(r.position(), v(100, 550));
}

#[test]
fn ui_skips_hidden_camera() {
    // A camera with UI visibility explicitly false is never selected, even
    // as the only camera whose target window holds a cursor.
    let windows = vec![win(1, true, 800, 600, Some(v(100, 50)))];
    let hidden = cam(
        RenderTarget::Window(WindowRef::Primary),
        Some(false),
        None,
    );
    let no_touch = snapshot(windows.clone(), vec![hidden], vec![]);
    assert!(no_touch.ui_cursor_position().is_none());

    // With a touch pressed the query falls through to the touch fallback.
    let touched = snapshot(windows, vec![hidden], vec![v(10, 20)]);
    let r = touched.ui_cursor_position().unwrap();
    assert_eq!(r.window(), WindowRef::Primary);
    assert_eq!(r.position(), v(10, 580));
}

#[test]
fn ui_explicitly_visible_camera_counts() {
    let w = snapshot(
        vec![win(1, true, 800, 600, Some(v(100, 50)))],
        vec![cam(
            RenderTarget::Window(WindowRef::Primary),
            Some(true),
            None,
        )],
        vec![],
    );
    assert_eq!(w.ui_cursor_position().unwrap().position(), v(100, 550));
}

#[test]
fn ui_first_camera_wins() {
    // Two visible cameras over two hovered windows: camera iteration
    // order is the sole tie-break.
    let w = snapshot(
        vec![
            win(1, false, 800, 600, Some(v(1, 100))),
            win(2, false, 640, 480, Some(v(2, 40))),
        ],
        vec![
            cam(RenderTarget::Window(WindowRef::Entity(2)), None, None),
            cam(RenderTarget::Window(WindowRef::Entity(1)), None, None),
        ],
        vec![],
    );
    let r = w.ui_cursor_position().unwrap();
    assert_eq!(r.window(), WindowRef::Entity(2));
    assert_eq!(r.position(), v(2, 440));
}

#[test]
fn ui_skips_offscreen_and_missing_targets() {
    let w = snapshot(
        vec![win(1, true, 800, 600, Some(v(100, 50)))],
        vec![
            cam(RenderTarget::OffScreen, None, None),
            cam(RenderTarget::Window(WindowRef::Entity(9)), None, None),
            cam(RenderTarget::Window(WindowRef::Entity(1)), None, None),
        ],
        vec![],
    );
    let r = w.ui_cursor_position().unwrap();
    assert_eq!(r.window(), WindowRef::Entity(1));
    assert_eq!(r.position(), v(100, 550));
}

#[test]
fn ui_touch_fallback_needs_primary_resolution() {
    // The touch fallback reports in the primary window's space; with no
    // unique primary window its resolution is unavailable and the whole
    // query fails even though a raw coordinate existed.
    let w = snapshot(vec![], vec![], vec![v(10, 20)]);
    assert!(w.ui_cursor_position().is_none());

    let ambiguous = snapshot(
        vec![win(1, true, 800, 600, None), win(2, true, 640, 480, None)],
        vec![],
        vec![v(10, 20)],
    );
    assert!(ambiguous.ui_cursor_position().is_none());
}

#[test]
fn ui_camera_on_ambiguous_primary_is_skipped() {
    // A camera targeting the primary window finds nothing when two windows
    // are flagged primary, and the query moves on.
    let w = snapshot(
        vec![
            win(1, true, 800, 600, Some(v(1, 1))),
            win(2, true, 640, 480, Some(v(2, 2))),
        ],
        vec![cam(RenderTarget::Window(WindowRef::Primary), None, None)],
        vec![],
    );
    assert!(w.ui_cursor_position().is_none());
}

#[test]
fn world_first_matching_camera_wins() {
    // Non-matching cameras — off-screen target, missing window, window
    // without a cursor, failed projection — are skipped; the first camera
    // with a window, a cursor and a successful projection answers.
    let windows = vec![
        win(1, false, 800, 600, Some(v(400, 300))),
        win(2, false, 640, 480, None),
    ];
    let offscreen = cam(RenderTarget::OffScreen, None, Some(v(999, 999)));
    let missing = cam(RenderTarget::Window(WindowRef::Entity(9)), None, Some(v(999, 999)));
    let no_cursor = cam(RenderTarget::Window(WindowRef::Entity(2)), None, Some(v(999, 999)));
    let failed = cam(RenderTarget::Window(WindowRef::Entity(1)), None, None);
    let matching = cam(RenderTarget::Window(WindowRef::Entity(1)), None, Some(v(7, -8)));

    let w = snapshot(
        windows.clone(),
        vec![offscreen, missing, no_cursor, failed, matching],
        vec![],
    );
    assert_eq!(w.world_cursor_position(), Some(v(7, -8)));

    // Reordering the non-matching cameras must not change the result.
    let reordered = snapshot(
        windows,
        vec![failed, no_cursor, matching, offscreen, missing],
        vec![],
    );
    assert_eq!(reordered.world_cursor_position(), Some(v(7, -8)));
}

#[test]
fn world_ignores_ui_visibility() {
    // UI visibility plays no part in the world query.
    let w = snapshot(
        vec![win(1, true, 800, 600, Some(v(400, 300)))],
        vec![cam(
            RenderTarget::Window(WindowRef::Primary),
            Some(false),
            Some(v(12, 34)),
        )],
        vec![],
    );
    assert_eq!(w.world_cursor_position(), Some(v(12, 34)));
}

#[test]
fn world_has_no_touch_fallback() {
    let w = snapshot(vec![win(1, true, 800, 600, None)], vec![], vec![v(10, 20)]);
    assert!(w.world_cursor_position().is_none());
}

#[test]
fn vec2_from_round_trips() {
    // Vec2::from(cursor_position) equals cursor_position.position().
    let w = snapshot(
        vec![win(1, true, 800, 600, Some(v(400, 300)))],
        vec![],
        vec![],
    );
    let c = w.raw_cursor_position().unwrap();
    assert_eq!(Vec2::from(c), c.position());

    let direct = CursorPosition {
        window_ref: WindowRef::Entity(5),
        position: v(-3, 11),
    };
    assert_eq!(Vec2::from(direct), direct.position());
}

#[test]
fn two_window_scenario() {
    // W1 primary, logical 800 by 600, cursor at (400, 300); W2 without a
    // cursor. Raw answers {Primary, (400, 300)}; UI with one camera on W1
    // answers {Primary, (400, 300)} since 600 - 300 = 300.
    let w = snapshot(
        vec![
            win(1, true, 800, 600, Some(v(400, 300))),
            win(2, false, 640, 480, None),
        ],
        vec![cam(RenderTarget::Window(WindowRef::Primary), None, None)],
        vec![],
    );
    let raw = w.raw_cursor_position().unwrap();
    assert_eq!(raw.window(), WindowRef::Primary);
    assert_eq!(raw.position(), v(400, 300));
    let ui = w.ui_cursor_position().unwrap();
    assert_eq!(ui.window(), WindowRef::Primary);
    assert_eq!(ui.position(), v(400, 300));
}
