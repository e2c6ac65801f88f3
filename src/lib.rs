//! Keeps the desktop awake: one idle-inhibit grant held against the session's
//! screensaver service, and an optional countdown that ends it.

pub mod caffeine;
pub mod controller;
pub mod label;
pub mod service;
pub mod timer;
