//! Locating the shim library and validating the API table it exports.

use vstd::prelude::*;
use vstd::string::StringExecFns;
use crate::error::{PylonError, PylonResult, ShimError};

verus! {

/// The C ABI version of the shim that this crate is written against.
pub const EXPECTED_CABI_VERSION: u32 = 1;

/// The base name of the shim library, before platform prefix and suffix.
pub const SHIM_BASE_NAME: &'static str = "pylon-cabi";

/// The symbol through which the shim hands out its API table.
pub const API_SYMBOL: &'static str = "pylon_shim_get_api";

/// The prefix of the message for a load failure other than a failed `dlopen`.
pub open spec fn unexpected_load_prefix() -> Seq<char> {
    "Unexpected error loading shim library: "@
}

#[verifier::external_type_specification]
#[verifier::external_body]
pub struct ExLoadError(libloading::Error);

/// The file name that `libloading::library_filename` builds for a library
/// called `name` on the platform this crate is built for.
pub uninterp spec fn library_file_name(name: Seq<char>) -> Seq<char>;

/// Calls `libloading::library_filename`, which puts the platform's shared
/// library prefix in front of `name` and its suffix behind it; the result is
/// named `library_file_name` of `name`. The prefix and suffix are constants of
/// the build target and are not spelled out; the contract claims only that
/// the result is `name` with some text before and some text after it.
#[verifier::external_body]
fn platform_library_filename(name: &str) -> (r: String)
    ensures
        r@ == library_file_name(name@),
        exists|prefix: Seq<char>, suffix: Seq<char>| r@ == prefix + name@ + suffix,
{
    libloading::library_filename(name).to_string_lossy().into_owned()
}

/// The loader's message carried by a failed `dlopen` (the `Display` text of
/// the `source` of `libloading::Error::DlOpen`), and `None` for every other
/// kind of `libloading::Error`.
pub uninterp spec fn dlopen_source(e: libloading::Error) -> Option<Seq<char>>;

/// The text that the derived `Debug` impl of `libloading::Error` writes.
pub uninterp spec fn load_error_debug(e: libloading::Error) -> Seq<char>;

/// Calls the `Display` impl of the `source` held by a `libloading::Error::DlOpen`,
/// and returns `None` for every other variant; the result is named
/// `dlopen_source` of the error. The loader's message itself is not stated.
#[verifier::external_body]
fn dlopen_source_text(err: &libloading::Error) -> (r: Option<String>)
    ensures
        match r {
            Some(s) => dlopen_source(*err) == Some(s@),
            None => dlopen_source(*err) is None,
        },
{
    match err {
        libloading::Error::DlOpen { source } => Some(format!("{}", source)),
        _ => None,
    }
}

/// Calls the derived `Debug` impl of `libloading::Error`; the result is named
/// `load_error_debug` of the error. The text itself is not stated.
#[verifier::external_body]
fn load_error_debug_text(err: &libloading::Error) -> (r: String)
    ensures
        r@ == load_error_debug(*err),
{
    format!("{:?}", err)
}

/// The file name under which the shim is looked up when no path is configured.
pub fn default_shim_filename() -> (r: String)
    ensures
        r@ == library_file_name(SHIM_BASE_NAME@),
        exists|prefix: Seq<char>, suffix: Seq<char>| r@ == prefix + SHIM_BASE_NAME@ + suffix,
{
    platform_library_filename(SHIM_BASE_NAME)
}

/// The path from which the shim is loaded: the configured path when there is
/// one, otherwise the platform's file name for the shim's base name.
pub fn shim_library_path(configured: Option<String>) -> (r: String)
    ensures
        configured matches Some(p) ==> r == p,
        configured is None ==> r@ == library_file_name(SHIM_BASE_NAME@),
        configured is None ==> exists|prefix: Seq<char>, suffix: Seq<char>| r@ == prefix
            + SHIM_BASE_NAME@ + suffix,
{
    match configured {
        Some(p) => p,
        None => default_shim_filename(),
    }
}

/// What went wrong while opening the shim, as text.
pub enum LoadFailure {
    /// `dlopen` failed, with the loader's message.
    DlOpen(String),
    /// Any other failure, with its description.
    Other(String),
}

/// The error for a failure to open the shim at `path`.
pub fn load_failure_error(path: String, failure: LoadFailure) -> (r: PylonError)
    ensures
        failure matches LoadFailure::DlOpen(s) ==> r == (PylonError::DlOpenFailed { path, source: s }),
        failure matches LoadFailure::Other(d) ==> (r matches PylonError::Msg(m) && m@
            == unexpected_load_prefix() + d@),
{
    match failure {
        LoadFailure::DlOpen(source) => PylonError::DlOpenFailed { path, source },
        LoadFailure::Other(detail) => {
            let prefix = "Unexpected error loading shim library: ";
            proof { reveal_strlit("Unexpected error loading shim library: "); }
            PylonError::Msg(String::from_str(prefix).concat(detail.as_str()))
        },
    }
}

/// The error for a `libloading` failure to open the shim at `path`: a failed
/// `dlopen` becomes `DlOpenFailed` with the loader's message; any other
/// failure becomes a message of "Unexpected error loading shim library: "
/// followed by the error's `Debug` text.
pub fn load_error(path: String, err: &libloading::Error) -> (r: PylonError)
    ensures
        dlopen_source(*err) matches Some(m) ==> (r matches PylonError::DlOpenFailed { path: p, source: s }
            && p == path && s@ == m),
        dlopen_source(*err) is None ==> (r matches PylonError::Msg(m) && m@ == unexpected_load_prefix()
            + load_error_debug(*err)),
{
    match dlopen_source_text(err) {
        Some(source) => load_failure_error(path, LoadFailure::DlOpen(source)),
        None => load_failure_error(path, LoadFailure::Other(load_error_debug_text(err))),
    }
}

/// The error for a failure to resolve `symbol` in the shim at `path`, with
/// the loader's error described in `err_str`.
pub fn symbol_load_error(path: String, symbol: String, err: &libloading::Error) -> (r: PylonError)
    ensures
        (r matches PylonError::ShimError(ShimError::SymbolLoadFailed { path: p, symbol: s, err_str: e })
            && p == path && s == symbol && e@ == load_error_debug(*err)),
{
    let err_str = load_error_debug_text(err);
    PylonError::ShimError(ShimError::SymbolLoadFailed { path, symbol, err_str })
}

/// The two leading fields of the shim's API table.
#[derive(Clone, Copy, Debug)]
pub struct ApiHeader {
    /// The ABI version the shim implements.
    pub abi_version: u32,
    /// The size in bytes of the table the shim exports.
    pub struct_size: u32,
}

/// Whether a shim whose table starts with `header` can be used by a crate
/// whose table layout needs `required_size` bytes.
pub open spec fn api_table_usable(header: ApiHeader, required_size: u32) -> bool {
    header.struct_size >= required_size && header.abi_version == EXPECTED_CABI_VERSION
}

/// Validates the API table handed out by the shim at `path`. A missing
/// table (`None`, a null pointer) is refused first, then a table smaller than
/// `required_size`, then a table of another ABI version; otherwise the table
/// is accepted.
pub fn check_api_table(path: String, header: Option<ApiHeader>, required_size: u32) -> (r:
    PylonResult<ApiHeader>)
    ensures
        r is Ok <==> (header matches Some(h) && api_table_usable(h, required_size)),
        r matches Ok(h) ==> header == Some(h),
        header is None ==> r == Err::<ApiHeader, PylonError>(PylonError::ShimError(ShimError::NullApi { path })),
        header matches Some(h) ==> h.struct_size < required_size ==> r == Err::<ApiHeader, PylonError>(
            PylonError::ShimError(
                ShimError::ApiTableTooSmall { path, got: h.struct_size, need: required_size },
            ),
        ),
        header matches Some(h) ==> h.struct_size >= required_size && h.abi_version
            != EXPECTED_CABI_VERSION ==> r == Err::<ApiHeader, PylonError>(
            PylonError::ShimError(
                ShimError::IncompatibleAbiVersion {
                    path,
                    got: h.abi_version,
                    need: EXPECTED_CABI_VERSION,
                },
            ),
        ),
{
    let h = match header {
        None => { return Err(PylonError::ShimError(ShimError::NullApi { path })); },
        Some(h) => h,
    };
    if h.struct_size < required_size {
        return Err(
            PylonError::ShimError(
                ShimError::ApiTableTooSmall { path, got: h.struct_size, need: required_size },
            ),
        );
    }
    if h.abi_version != EXPECTED_CABI_VERSION {
        return Err(
            PylonError::ShimError(
                ShimError::IncompatibleAbiVersion {
                    path,
                    got: h.abi_version,
                    need: EXPECTED_CABI_VERSION,
                },
            ),
        );
    }
    Ok(h)
}

}
