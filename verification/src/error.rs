//! Errors reported by the library and the checks that turn shim reports into them.

use vstd::prelude::*;

verus! {

/// Errors encountered while loading the C ABI shim.
#[derive(Debug, Clone)]
#[non_exhaustive]
pub enum ShimError {
    /// A required symbol could not be loaded from the shim.
    SymbolLoadFailed {
        /// The shim library path.
        path: String,
        /// The missing or invalid symbol name.
        symbol: String,
        /// The dynamic loader error string.
        err_str: String,
    },
    /// The shim returned a null API table pointer.
    NullApi {
        /// The shim library path.
        path: String,
    },
    /// The shim API table is smaller than this crate expects.
    ApiTableTooSmall {
        /// The shim library path.
        path: String,
        /// The API table size reported by the shim.
        got: u32,
        /// The minimum API table size required by this crate.
        need: u32,
    },
    /// The shim ABI version does not match this crate.
    IncompatibleAbiVersion {
        /// The shim library path.
        path: String,
        /// The ABI version reported by the shim.
        got: u32,
        /// The ABI version required by this crate.
        need: u32,
    },
}

/// Errors returned by this crate.
#[derive(Debug, Clone)]
#[non_exhaustive]
pub enum PylonError {
    /// A general error message produced by this crate.
    Msg(String),
    /// A shim call returned an error string.
    ShimCallFailed {
        /// Logical shim operation name.
        op: &'static str,
        /// Source location where the failing shim function was invoked.
        callsite: String,
        /// Error message returned by the shim.
        err_str: String,
    },
    /// A shim call reported success but returned invalid output.
    InvalidShimOutput {
        /// Logical shim operation name.
        op: &'static str,
        /// Description of which output invariant failed.
        detail: String,
    },
    /// The shim library could not be opened.
    DlOpenFailed {
        /// The attempted shim library path.
        path: String,
        /// What the dynamic loader reported.
        source: String,
    },
    /// A lower-level error reported while loading or validating the shim.
    ShimError(ShimError),
}

/// Convenient result type used throughout the crate.
pub type PylonResult<T> = Result<T, PylonError>;

impl PylonError {
    /// A general error carrying `msg`.
    pub fn new(msg: String) -> (r: PylonError)
        ensures
            r == PylonError::Msg(msg),
    {
        PylonError::Msg(msg)
    }
}

}
