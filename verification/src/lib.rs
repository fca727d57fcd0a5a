//! An event-driven networking library built around a completion port:
//! the library holds the data model and every decision, while the caller
//! performs the system calls that the returned actions ask for.

pub mod app;
pub mod context;
pub mod net;
pub mod win32;

pub use app::App;
pub use context::Context;
