//! Decision logic of the usage popup: which header, tabs, body sections,
//! badges and status texts the popup shows for a given application state.
//! Rendering is left to the caller; every function here returns plain data.

pub mod clock;
pub mod detail;
pub mod model;
pub mod paging;
pub mod phrases;
pub mod popup;
pub mod text;
