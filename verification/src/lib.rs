//! Failure reporting for a source-map library: a closed set of failure kinds,
//! a carrier that pairs a kind with an optional reason, conversions from the
//! failures of the decoders and codecs underneath, and the message that a host
//! shows for a failure.

pub mod conversions;
pub mod native_host;
pub mod sourcemap_error;

pub use sourcemap_error::{SourceMapError, SourceMapErrorType};
