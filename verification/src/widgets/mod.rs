//! The widgets that come with the bar.
//!
//! A widget is a sequence of batches. Between two batches it may wait as long
//! as it likes; the waiting itself is done by whoever drives the bar.

pub mod clock;
