//! Message envelopes and the correlation, routing and lifecycle rules that a
//! host uses to drive out-of-process plugins over one duplex channel each.
pub mod catalog;
pub mod correlation;
pub mod dispatch;
pub mod events;
pub mod laws;
pub mod lifecycle;
pub mod router;
pub mod models;
