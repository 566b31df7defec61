//! A small library for driving a headless browser to fetch rendered HTML.
//!
//! The launch configuration, the header model and every decision of the
//! fetch workflow — URL validation, header selection, step order and error
//! classification — are verified here; the browser process itself is driven
//! by an unverified rim that performs each step and hands its outcome back.

pub mod browser;
pub mod headers;
pub mod launch_option;
