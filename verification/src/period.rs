//! The one thing the library needs to know of a period: whether it is zero.
//!
//! A period is a `Duration` of the standard library, whose contents are not
//! visible to the verifier. Nothing in this file is proved: it states what
//! the library assumes of `Duration::is_zero`.

use std::time::Duration;
use vstd::prelude::*;

verus! {

/// What `Duration::is_zero` returns for `period`: whether the duration spans
/// no time at all. A `Duration` is never negative, so a period is strictly
/// positive exactly when this is false.
pub uninterp spec fn period_is_zero(period: Duration) -> bool;

/// `Duration::is_zero` depends on the duration alone and never panics, so
/// its result has a name, [`period_is_zero`], under which contracts speak of
/// it.
pub assume_specification[ std::time::Duration::is_zero ](period: &Duration) -> (zero: bool)
    ensures
        zero == period_is_zero(*period),
;

} // verus!
