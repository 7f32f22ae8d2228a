//! Frame acquisition and distribution: a single-slot "latest frame" mailbox,
//! the camera backend fallback chain and the decisions of the capture loop.

pub mod frame;
pub mod mailbox;
pub mod selector;
pub mod capture;
