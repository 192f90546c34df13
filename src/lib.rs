//! Watches a countdown on screen and schedules a notification for when it runs out.
//!
//! The library holds the decisions of the watch loop, the capture schedule, the
//! encoding of captured frames and the shape of the chat-completion request. The
//! program around it performs the capture, the HTTP round trip, the sleeps and
//! the desktop notification.
pub mod capture;
pub mod decision;
pub mod models;
pub mod request;
