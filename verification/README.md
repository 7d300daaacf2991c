# grmot

Synthetic ground motion of a finite fault in a horizontally layered medium,
computed by wavenumber integration and exposed as the Python module `grmot`
(class `Fault`, with `Fault(angles, loc, fpars, medium, conf)` and
`Fault.simulate(sources, receivers, n_samples)`).

- `src/` is the verified library (Verus). It holds the discrete decisions of
  the method, each with a contract and with the laws that tie them together:
  - `wavenumber`: how many harmonics each grid axis keeps and the order in
    which the grid stores them (`0, -1, 1, -2, 2, ...`), with the proof that
    every harmonic is stored exactly once and that the grid is symmetric;
  - `layers`: the layer stack (one to three layers, the last being the
    half-space), its half-space, the layer above it and the chain of
    interfaces that the propagator multiplies over;
  - `tensor`: the symmetric filling of the 3 x 3 source moment tensor;
  - `spectrum`: gathering one receiver's spectrum across frequencies and
    extending a one-sided spectrum into the Hermitian buffer of an inverse
    transform, with the proof that its length is the transform length and
    that each negative-frequency entry conjugates its mirror.
- `app/` is the Python module itself: the complex floating-point
  computation over `ndarray`/`nalgebra` arrays, the parallel loops (`rayon`),
  the inverse FFT (`rustfft`) and the `pyo3` binding, which call the library
  for every decision above.
- `tests/` runs the library on concrete values.
