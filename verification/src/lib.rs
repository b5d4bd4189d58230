//! Staging, sharing and initializing a TLS configuration whose underlying
//! resource lives outside Rust.
//!
//! The underlying resource is a configuration object of s2n-tls. It has one
//! free operation, counts no references, and knows nothing of the Rust values
//! that an application hangs on it. This crate is the part of a binding that
//! decides; it never touches the resource itself.
//!
//! * [`Context`] is the side record that goes with one resource: a counter of
//!   the handles that share it, the certificate chains it keeps alive, and at
//!   most one handler for each [`HandlerCategory`].
//! * [`Builder`] stages a configuration while it has a single owner. Each of
//!   its operations answers with a [`Step`], which may ask for a
//!   [`Command`] to be carried out on the resource; the [`Status`] of the
//!   call goes back into [`Builder::resume`].
//! * [`Config`] is the finished configuration, which can be cloned and
//!   shared. Releasing a handle says whether it was the last one, and so
//!   whether the resource is to be freed; the `lifecycle` module proves that
//!   this happens exactly once.
//! * [`initializer::ConcurrentConnectionFuture`] runs the tasks of several
//!   [`ConnectionInitializer`]s to one completion.

pub mod builder;
pub mod config;
pub mod context;
pub mod error;
pub mod initializer;
pub mod lifecycle;
pub mod native;
pub mod resource;
pub mod step;

pub use builder::Builder;
pub use builder::BuilderView;
pub use config::Config;
pub use config::ConfigView;
pub use context::Context;
pub use context::ContextView;
pub use context::HandlerCategory;
pub use error::Error;
pub use error::Reason;
pub use initializer::ConnectionFuture;
pub use initializer::ConnectionFutureResult;
pub use initializer::ConnectionInitializer;
pub use initializer::Progress;
pub use lifecycle::ReleaseAction;
pub use native::AlertBehavior;
pub use native::ClientAuthType;
pub use native::Command;
pub use native::SerializationVersion;
pub use native::Status;
pub use resource::ResourceHandle;
pub use step::Continuation;
pub use step::Step;
