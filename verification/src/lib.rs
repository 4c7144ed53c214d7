//! Verified core of an electron-cloud viewer for hydrogen-like atoms.
//!
//! The crate holds the discrete half of the sampler: which quantum numbers
//! name an orbital, how a request is split over workers, how a candidate
//! is drawn and judged, how a rejection loop keeps its books, how a
//! density becomes a colour, and how the per-worker buffers become one
//! particle set of exactly the requested size. Real-valued work (the
//! wavefunction, the envelope search, the coordinates of a point) is the
//! caller's; it reports to this crate in integers.
//!
//! Around the sampler stand the smaller decisions of the viewer: how the
//! answers to its questions are read, which grid vertices make up the
//! triangles of a sphere, and what is done with the events of its window.

pub mod accumulator;
pub mod assembly;
pub mod color;
pub mod control;
pub mod diagnostics;
pub mod draw;
pub mod error;
pub mod geometry;
pub mod particle;
pub mod partition;
pub mod prompt;
pub mod quantum;
pub mod request;
pub mod sampler;
