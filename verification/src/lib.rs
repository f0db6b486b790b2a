//! Window-chrome logic for a borderless, compositor-drawn window: frame
//! geometry, pixel-accurate hit-test classification, and the per-message
//! interception decisions that keep native drag, resize and snap working
//! while the application draws its own chrome.

pub mod geometry;
pub mod interceptor;
