//! Verified core of a bridge that merges a pair of Joy-Cons into one virtual
//! Xbox 360 pad: report decoding, the dead-zone, the button mapping, device
//! selection, the merger's control loop and the status panel's state.

pub mod joycon;
pub mod vigem;
pub mod hid;
pub mod merger;
pub mod panel;
