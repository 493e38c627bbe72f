//! Native backend of a desktop shell: an HTTP bridge for the embedded
//! front-end, a print command, a menu relay and the startup plan.
//!
//! The library decides; the host application performs the network call,
//! the print dialog and the event emission with the values it is handed.

pub mod method;
pub mod fetch;
pub mod host;

pub use fetch::{HttpRequest, HttpResponse};
