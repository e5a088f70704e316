//! Values that render by calling a formatting routine.
//!
//! [`display_with`] turns a routine `Fn(&mut Formatter) -> fmt::Result` into a
//! value that implements `Display`; [`debug_with`] does the same for `Debug`.
//! Rendering such a value is one call of the routine on the renderer's sink:
//! no buffer in between, no text added, no failure swallowed.
pub mod debug;
pub mod display;
pub mod sink;

pub use debug::{debug_with, DebugWith};
pub use display::{display_with, DisplayWith};
