//! The abstract desktop-notification value the core hands to its caller:
//! a numeric urgency, a duration, a colour hint and a message. Delivery is
//! the caller's business and best-effort.

use vstd::prelude::*;

verus! {

/// One notification to show the user. The caller forwards it to whatever
/// notification sink is available and ignores delivery failures.
pub struct Notification {
    pub urgency: u64,
    pub duration_ms: u64,
    pub color: String,
    pub message: String,
}

/// The colour hint for good news.
pub open spec fn color_green() -> Seq<char> {
    "rgb(00FF00)"@
}

/// The colour hint for bad news.
pub open spec fn color_red() -> Seq<char> {
    "rgb(FF0000)"@
}

/// A fresh copy of the good-news colour hint.
pub fn green_color() -> (c: String)
    ensures
        c@ == color_green(),
{
    String::from_str("rgb(00FF00)")
}

/// A fresh copy of the bad-news colour hint.
pub fn red_color() -> (c: String)
    ensures
        c@ == color_red(),
{
    String::from_str("rgb(FF0000)")
}

} // verus!
