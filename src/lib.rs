//! Scheduling arithmetic for a spaced-repetition card: the day counter and
//! the exact fraction of its interval by which a review is overdue.
pub mod clock;
pub mod overdue;
