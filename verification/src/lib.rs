//! A small document-workflow library: a piece of content moves through the
//! stages Draft -> PendingReview -> Published (with rejection back to Draft),
//! and the visible content is gated by the current stage.
//!
//! The workflow is realized twice, for comparison:
//! - [`post`] holds the dynamic machine: one `Post` type whose current stage
//!   is an interchangeable state value, every transition a runtime dispatch;
//! - [`typed_state_pattern`] holds the typed machine: one type per stage, a
//!   transition consumes one stage's value and returns the next stage's, so
//!   an illegal transition does not even compile.
//!
//! A handful of small verified utility types (`counter`, `rectangle`, `user`,
//! `my_box`) round the crate out.

use vstd::prelude::*;

pub mod counter;
pub mod my_box;
pub mod post;
pub mod rectangle;
pub mod typed_state_pattern;
pub mod user;

pub use crate::post::Post;
pub use crate::post::State;

verus! {

/// Adds one inside an `Option`, passing `None` through unchanged.
pub fn plus_one(x: Option<i32>) -> (r: Option<i32>)
    requires
        x matches Some(i) ==> i < i32::MAX,
    ensures
        x is None ==> r is None,
        x matches Some(i) ==> r == Some((i + 1) as i32),
{
    match x {
        None => None,
        Some(i) => Some(i + 1),
    }
}

} // verus!
