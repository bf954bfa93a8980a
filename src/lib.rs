//! Timing, retry and slot-selection engine for claiming a time-gated
//! reservation slot and turning it into a confirmed booking.
pub mod models;
pub mod time_of_day;
pub mod selector;
pub mod backoff;
pub mod acquisition;
pub mod workflow;
pub mod responses;
