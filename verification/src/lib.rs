//! Core of a small signal-synthesis service. A request names two
//! sinusoids and a shared time window; the service samples both on an
//! evenly spaced time grid, combines them elementwise into sum,
//! difference and product, and serves the six parallel columns
//! (t, x1, x2, y1, y2, y3) as CSV or JSON.
//!
//! The per-sample arithmetic is IEEE double-precision work that the
//! surrounding application supplies as closures. This crate holds and
//! verifies everything around it: the request boundary (a positive
//! sample count), the grid / synthesis / combination skeleton with its
//! length and alignment guarantees, and the exact text of the rendered
//! output.

pub mod columns;
pub mod csv;
pub mod json;
pub mod request;
pub mod signal;
