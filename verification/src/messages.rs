//! The message bodies.

pub mod event_report;
