//! Core of a telemetry relay: remembers which automatic report submissions
//! have already been seen, decides whether a given submission triggers an
//! outbound notification, and builds the notification payload. The HTTP
//! ingress and the outbound webhook call live outside this crate and hand
//! plain values in and out.

pub mod cache;
pub mod dispatch;
pub mod payload;
pub mod report;
