//! The lane-parallel kernels: the operations that a specialization supplies,
//! the traversal that all of them share, and the specializations themselves.
pub mod config;
pub mod generic;
pub mod simd_f16;
pub mod simd_f32;
pub mod simd_f64;
pub mod simd_i16;
pub mod simd_i32;
pub mod simd_i64;
pub mod simd_i8;
pub mod simd_u16;
pub mod simd_u32;
pub mod simd_u64;
pub mod simd_u8;
pub mod task;
