//! A composable error value: leaf failures with a message, a kind and
//! key/value context; layers that wrap another error and add their own
//! message and context; and opaque wrappers around foreign failure types.
//! Reports render a whole causal chain, pretty or on one line.
pub mod board;
pub mod context;
pub mod converter;
pub mod error;
pub mod foreign;
pub mod kind;
pub mod overlay;
pub mod report;
pub mod text;

pub use error::{AnyError, AnyErrorBuilder, ContextDepth, ErrorData, ErrorDataBuilder};
pub use overlay::{Applicable, Intermediate, IntermediateAnyError, Overlay};
pub use report::{Report, ReportInner};
