//! Page-head metadata for PostgresML dashboard pages.
//!
//! [`head::Head`] accumulates a page title, an optional description, an
//! optional social-share image and an ordered list of preload hints.
//! [`render::DefaultHeadTemplate`] turns such a value into the markup of the
//! document's `<head>` section.

pub mod head;
pub mod render;

pub use head::Head;
pub use render::DefaultHeadTemplate;
