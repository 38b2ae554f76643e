//! Positions of the smallest and of the largest element of a sequence, found in
//! one pass by lane-parallel kernels.
pub mod api;
pub mod array_view;
pub mod element;
pub mod extrema;
pub mod lane;
pub mod ordinal;
pub mod reduce;
pub mod scalar;
pub mod simd;
