//! Reactive scroll and visibility coordination for scroll-driven page effects.
//!
//! A set of composable primitives that observe scroll position, viewport
//! intersection and pointer movement for DOM subtrees, derive continuous or
//! boolean visual state from those observations, and hand that state to a
//! presentation layer. The browser side (event listeners, observers, media
//! playback) lives outside this crate; these types are the decision core:
//! they consume plain event values and state exactly what each event does.

pub mod subscription;
pub mod scroll;
pub mod scale;
pub mod intersection;
pub mod reveal_once;
pub mod media;
pub mod pointer;
pub mod dropdown;
pub mod decimal;
pub mod style;
pub mod hstack;
pub mod vstack;
