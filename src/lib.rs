//! Module loading and runtime-context lifecycle for an embedded script engine.
//!
//! The engine itself stays outside: this crate decides what to resolve, read,
//! transform, compile, cache and tear down, and the host performs those steps
//! and reports back.

pub mod paths;
pub mod specifier;
pub mod errors;
pub mod loader;
pub mod metadata;
pub mod config;
pub mod lifecycle;
pub mod values;

pub use config::{Config, LogLevel};
pub use errors::{LifecycleError, LoaderError};
pub use lifecycle::{ExtendLifetime, Layer, Promoted, Scope, Scoped, ThreadRegistry};
pub use loader::{Loader, Lookup, SourcePlan};
pub use metadata::metadata_url;
pub use specifier::{resolve_specifier, ModuleKey, ModuleKind, Specifier};
pub use values::{typeof_name, unquote, PyJSPromiseState, ValueType};
