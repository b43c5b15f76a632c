//! How a client reacts to the `<call>` stanzas that a messaging server delivers.
//!
//! A stanza is parsed, what the call asks for is decided against the registry of ongoing
//! calls, and the decision comes back as an ordered list of plain steps. Whoever owns the
//! connection performs them.

pub mod address;
pub mod call;
pub mod handler;
pub mod laws;
pub mod meanings;
pub mod outcomes;
pub mod plan;
pub mod registry;
pub mod stanza;

pub use handler::CallHandler;
