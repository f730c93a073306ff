//! Click-through control for a borderless overlay window.
//!
//! The library decides; the host performs. Every operation is a [`session::Session`]
//! that names the next native call to make on the window and takes the call's
//! reply, until it is finished. [`model::ModelWindow`] is a reference model of the
//! two facets of a window that the operations touch, its extended style and its
//! clip region, and [`run`] states what each operation leaves behind on it.

pub mod region;
pub mod style;
pub mod error;
pub mod handle;
pub mod native;
pub mod session;
pub mod report;
pub mod model;
pub mod run;
pub mod laws;
