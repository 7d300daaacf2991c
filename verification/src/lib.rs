//! Verified discrete core of a layered-medium ground-motion simulator: the
//! layout of the wavenumber grid, the structure of the layer stack, the
//! symmetric source tensor and the assembly of one-sided spectra into the
//! full buffers that an inverse FFT turns into real traces.

pub mod layers;
pub mod spectrum;
pub mod tensor;
pub mod wavenumber;
