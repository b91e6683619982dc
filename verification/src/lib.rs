//! A verified model of a checkerboard zoom viewer.
//!
//! The library holds the logic of the viewer: the fixed checkerboard
//! pattern that is rasterized once at startup, and the event-driven
//! state (zoom level, axis swap, surface size) that decides what each
//! frame draws.  The windowing and GPU work around it is ordinary,
//! unverified code that feeds events in and carries draw commands out.

pub mod board;
pub mod view;
