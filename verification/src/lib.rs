//! An unbounded sequence of integers, evenly spaced in time.
//!
//! A [`NumStream`] owns a counter, a fixed increment and the period at which
//! it is to be driven. Each time its timer ticks the stream hands out the
//! counter's value and advances the counter by the increment, wrapping around
//! at the width of `u64`. The stream never ends by itself: it stops when its
//! owner drops it.
//!
//! The library holds no clock. Whoever drives a stream keeps a periodic timer
//! beside it, set to the stream's period, and tells the stream what each poll
//! of that timer found; the stream decides what to yield.

pub mod period;
pub mod progression;
pub mod stream;

pub use period::period_is_zero;
pub use stream::{num_stream, try_num_stream, Emission, NumStream, SequenceState, TimerPoll};
