//! The marshalling core of an adapter for the AutoItX automation library.
//!
//! The native library moves the pointer, finds windows and sends keystrokes;
//! this crate decides what it is asked and what its answers mean. Each
//! primitive is a function in [`call`] that turns ergonomic arguments into
//! the one [`Call`] to be made: defaults applied, texts converted to
//! nul-terminated UTF-16 ([`wide`]). The answers are read by [`answer`] and
//! by [`wide::read_text`], which decodes a text buffer strictly
//! ([`utf16`]). Nothing here touches the native library: the caller performs
//! the `Call`.

pub mod answer;
pub mod call;
pub mod error;
pub mod utf16;
pub mod wide;

pub use answer::{position, window_found, Point};
pub use call::{
    error, init, mouse_get_pos, mouse_move, send, set_option, win_exists, win_get_handle,
    win_get_text, win_set_on_top, win_wait, Call, Capacity, WindowMatch,
};
pub use error::Error;
pub use wide::{read_text, WideText};
