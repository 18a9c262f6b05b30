//! The decisions of a horizontal virtual scrolling widget.

pub mod accessibility;
pub mod action;
pub mod calls;
pub mod effects;
pub mod input;
pub mod laws;
pub mod layout;
pub mod pan;
pub mod ruler;
pub mod scalar;
pub mod virtual_hscroll;

pub use action::{
    VirtualHScrollAction, VirtualHScrollFetchAction, VirtualHScrollScrollAction,
};
pub use pan::compute_pan_range;
pub use scalar::Scalar;
pub use virtual_hscroll::VirtualHScroll;
