//! Verified decision logic of a Druid editor adapter for audio plugins.
//!
//! The library holds the parts of the editor that decide rather than draw:
//! how the resize handle reacts to pointer events, how a user scale change is
//! negotiated with the host, when an editor may be opened or closed, which
//! native window belongs to the editor, and which window style bits turn a
//! top-level window into a child of the host's window.
use vstd::prelude::*;

pub mod gesture;
pub mod lifecycle;
pub mod scale;
pub mod win32_style;
pub mod window_match;

verus! {

} // verus!
