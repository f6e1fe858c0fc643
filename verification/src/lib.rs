//! Classification of errors for the layers that report them.
//!
//! An error that reaches the user interface should say two things: what kind of
//! failure it is, as a [`Code`] that the interface can branch on, and what to
//! tell the user, as a message. Both travel with the error as a [`Context`].
//!
//! ## Adding context
//!
//! Any `anyhow::Error` takes a context by `anyhow::Error::context`, and any
//! `Result` by `anyhow::Context::context`. The value attached is either a bare
//! [`Code`], where only the classification matters,
//!
//! ```text
//! Err(anyhow::Error::msg("internal information").context(Code::Validation))
//! ```
//!
//! or a [`Context`], which also carries the message to show:
//!
//! ```text
//! Err(anyhow::Error::msg("internal information")
//!     .context(Context::new_static(Code::Validation, "user information")))
//! ```
//!
//! ## Reading context
//!
//! The layer that reports the error calls [`AnyhowContextExt::custom_context`]
//! or [`AnyhowContextExt::custom_context_or_root_cause`] on it, once. Of several
//! contexts the one attached last is returned, and a `Context` is preferred to a
//! bare `Code`.
//!
//! ## Keeping context
//!
//! Context is found only on `anyhow::Error`: the retrieval trait is sealed and
//! implemented for that type alone. An error type of another kind that carries
//! classification of its own should therefore not turn into `anyhow::Error` by
//! itself; convert it by hand, and attach its classification as a context then.
pub mod chain;
pub mod code;
pub mod context;
pub mod formatting;
mod private;

pub use chain::AnyhowContextExt;
pub use code::Code;
pub use context::Context;
