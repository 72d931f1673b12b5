//! Verified core of a desktop widget renderer: the scene model, hit testing,
//! and the per-window frame protocol, all over exact integer arithmetic.

pub mod action;
pub mod arith;
pub mod color;
pub mod decoder;
pub mod error;
pub mod hexcode;
pub mod shape;
pub mod state;
pub mod surface;
pub mod tools;
pub mod transform;
pub mod util;
pub mod vector;
pub mod widget;
