//! A generator for error taxonomies. An enum whose variants each carry a
//! status, a tag, a numeric code and a message template is turned into the
//! source of its dispatches and of its conversion into one normalized
//! envelope; the envelope itself, and what it asks of errors and tags, is
//! here as well.
//!
//! The pass has two phases. [`metadata::classify`] reads a declared enum
//! into a classified one or refuses it; [`render::expand`] writes the source
//! for a classified enum. [`error`] runs both on the options text and the
//! declaration.
//!
//! The generated source names `BackendError`, `BaxeError`, `IntoResponse`
//! and `Json` and expects them in scope where it lands. Its `BackendError`
//! is a trait whose tag method returns `impl std::fmt::Display`; the
//! [`BackendError`] of this crate names the tag's type instead, so the
//! generated source does not implement it. Its `BaxeError` is the type that
//! [`baxe_error`] declares, of which [`BaxeError`] here is the generic form
//! that the contracts speak of.

pub mod conversion;
pub mod dispatch;
pub mod generate;
pub mod message;
pub mod metadata;
pub mod options;
pub mod render;
pub mod schema;
pub mod shape;
pub mod text;
pub mod traits;
pub mod types;

pub use generate::error;
pub use traits::{BackendError, ErrorTag};
pub use types::{baxe_error, BaxeError};
