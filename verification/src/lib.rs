//! Verified decision logic for mapping a Wacom Intuos5 tablet (pad ring and
//! buttons, pen, stylus buttons, touch surface) onto pointer clicks, scrolling
//! and relative motion.

pub mod device;
pub mod event;
pub mod gradual;
pub mod monitor;
pub mod pad;
pub mod pen;
pub mod scroll;
pub mod service;
pub mod stylus;
pub mod text;
pub mod touch;
