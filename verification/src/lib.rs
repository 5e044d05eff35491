//! Discrete Fourier transforms of complex-carried real sequences: a naive
//! matrix-based transform pair and a radix-2 divide-and-conquer pair, with
//! the vector algebra they share.

pub mod algebra;
pub mod complex;
pub mod transform;

pub use algebra::{add_vv, mul_mv, mul_vv_el, TransformError};
pub use transform::{dft, dft_compl, fft, fft_compl, idft, ifft};
