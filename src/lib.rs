//! Verified core of the Eris orbital viewer: the two-phase n-body tick and the laws it
//! obeys, and the integer and boolean decisions of the viewer around it (camera keys,
//! device and window events, vertex layout, draw calls, pipeline assembly).

pub mod controls;
pub mod geometry;
pub mod nbody;
pub mod pipeline;
pub mod tick_laws;
pub mod viewer;
