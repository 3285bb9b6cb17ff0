//! A generative-art branching tree, modelled in fixed-point integers.
//!
//! Angles are kept in milliradians, segment lengths in thousandths of a
//! pixel, and stroke weights in tenths, so that every tree operation is
//! exact integer arithmetic with a verified contract.  The windowing and
//! OpenGL glue that draws the tree lives outside this library.

pub mod branch;
pub mod laws;
pub mod shell;
