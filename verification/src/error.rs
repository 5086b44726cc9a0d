//! Errors that the configuration of a backend can give.

use vstd::prelude::*;

verus! {

/// Why a piece of configuration was turned down.
#[derive(Debug, Clone, Copy, PartialEq, Eq, Structural)]
pub enum RpxyError {
    /// The text names none of the upstream options.
    UnsupportedUpstreamOption,
    /// An upstream was given no target to send requests to.
    NoUpstreamTarget,
}

} // verus!
