//! A minimal desktop compositing layer: a tree of visual components
//! (windows, text fields, buttons, labels) sharing a uniform contract for
//! layout, input dispatch, incremental update and draw-data generation.
//!
//! Geometry is kept in integer logical units; the GPU- and platform-facing
//! plumbing lives outside this crate and consumes the plain data that the
//! components here compute and prove correct.

pub mod component;
pub mod custom_event;
pub mod desktop;
pub mod global;
pub mod rw_cell;
pub mod utils;

pub use component::Component;
pub use component::Layout;
pub use component::Vec2;
pub use desktop::Desktop;
pub use global::Global;
pub use rw_cell::R;
pub use rw_cell::Rw;
