//! A verified viewport-transform engine for an interactive image viewer.
//!
//! The engine maps image-pixel coordinates to screen coordinates, evolves
//! that mapping in response to discrete pointer gestures (drag-to-pan,
//! wheel-to-zoom), and guarantees that zooming never lets the point under
//! the cursor jump.  All coordinates and scale factors are exact rational
//! numbers, so every geometric statement below is proved exactly rather
//! than up to floating-point tolerance.

pub mod button_data;
pub mod commands;
pub mod gesture;
pub mod laws;
pub mod rat;
pub mod rat_laws;
pub mod toolbar_data;
pub mod transform;
pub mod types;

use vstd::prelude::*;

verus! {

} // verus!
