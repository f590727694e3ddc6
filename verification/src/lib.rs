//! Resolves a pointer's (mouse or first touch) position in a multi-window,
//! multi-camera application, in three coordinate spaces: raw window-local
//! pixels, UI-space pixels (origin top-left, y flipped against the window
//! height), and world-space coordinates obtained from a camera's
//! viewport-to-world projection.
//!
//! The resolver is a pure query layer: the host hands it a snapshot of the
//! window set, the camera set and the pressed-touch list as plain values, and
//! every query recomputes its answer from that snapshot alone.

mod cursor;
mod decimal;
mod laws;
mod windows;

pub use cursor::CursorPosition;
pub use cursor::Vec2;
pub use cursor::WindowRef;
pub use cursor::spec_display_string;
pub use decimal::i64_decimal;
pub use decimal::u64_decimal;
pub use laws::lemma_raw_position_unique_primary_cursor;
pub use laws::lemma_ui_ignores_hidden_camera;
pub use laws::lemma_vec2_from_cursor_position;
pub use laws::lemma_world_ignores_nonmatching_camera;
pub use windows::CameraRecord;
pub use windows::MAX_COORD;
pub use windows::RenderTarget;
pub use windows::WindowInfo;
pub use windows::Windows;
