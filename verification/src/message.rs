//! The human-readable text of the library's errors.

use vstd::prelude::*;
use vstd::string::StringExecFns;
use crate::error::{PylonError, ShimError};
use crate::shim::EXPECTED_CABI_VERSION;

verus! {

/// The decimal digit character for `d`.
pub open spec fn digit_char(d: nat) -> char {
    seq!['0', '1', '2', '3', '4', '5', '6', '7', '8', '9'][d as int]
}

/// The decimal notation of `n`, without leading zeros.
pub open spec fn decimal(n: nat) -> Seq<char>
    decreases n,
{
    if n < 10 {
        seq![digit_char(n)]
    } else {
        decimal(n / 10).push(digit_char(n % 10))
    }
}

/// What `Debug` writes for a string: the string quoted, with special
/// characters escaped.
pub uninterp spec fn str_debug(s: Seq<char>) -> Seq<char>;

/// What `Debug` writes for a path with these characters: the path quoted,
/// with special characters escaped as std renders paths.
pub uninterp spec fn path_debug(s: Seq<char>) -> Seq<char>;

/// Calls std's `Debug` impl for `Path` on the path with the characters of
/// `s`; the result is named `path_debug` of those characters.
#[verifier::external_body]
fn debug_quoted_path(s: &str) -> (r: String)
    ensures
        r@ == path_debug(s@),
{
    format!("{:?}", std::path::Path::new(s))
}

/// Calls std's `Debug` impl for `str`; the result is named `str_debug` of the
/// string's characters.
#[verifier::external_body]
fn debug_quoted(s: &str) -> (r: String)
    ensures
        r@ == str_debug(s@),
{
    format!("{:?}", s)
}

fn digit_text(d: u32) -> (r: &'static str)
    requires
        d < 10,
    ensures
        r@ == seq![digit_char(d as nat)],
{
    proof {
        reveal_strlit("0");
        reveal_strlit("1");
        reveal_strlit("2");
        reveal_strlit("3");
        reveal_strlit("4");
        reveal_strlit("5");
        reveal_strlit("6");
        reveal_strlit("7");
        reveal_strlit("8");
        reveal_strlit("9");
    }
    let r = if d == 0 {
        "0"
    } else if d == 1 {
        "1"
    } else if d == 2 {
        "2"
    } else if d == 3 {
        "3"
    } else if d == 4 {
        "4"
    } else if d == 5 {
        "5"
    } else if d == 6 {
        "6"
    } else if d == 7 {
        "7"
    } else if d == 8 {
        "8"
    } else {
        "9"
    };
    assert(r@ =~= seq![digit_char(d as nat)]);
    r
}

/// The decimal notation of `n`.
pub fn decimal_text(n: u32) -> (r: String)
    ensures
        r@ == decimal(n as nat),
    decreases n,
{
    if n < 10 {
        String::from_str(digit_text(n))
    } else {
        let mut s = decimal_text(n / 10);
        let d = digit_text(n % 10);
        s.append(d);
        assert(decimal(n as nat) =~= decimal((n / 10) as nat) + seq![digit_char((n % 10) as nat)]);
        s
    }
}

/// The opening of the message for a shim that could not be opened, up to the path.
pub const DLOPEN_HELP_START: &'static str = "There was a problem opening the `pylon-cabi` shim library. The path was specified as ";

/// The part of that message between the path and the required ABI version.
pub const DLOPEN_HELP_MIDDLE: &'static str = ". You can force a specific path to the shim library using the `PYLON_CABI` environment variable. Shim libraries can be downloaded from https://strawlab.org/assets/libpylon-cabi/precompiled/ or built from source. You need v";

/// The part of that message between the ABI version and the loader's message.
pub const DLOPEN_HELP_END: &'static str = " of the shim library for this version of `pylon-shimload`.\n\nThe source of the error was:\n\n";

/// What `Debug` writes for a shim error: the variant's name and its fields
/// in braces, paths and strings quoted and numbers in decimal.
pub open spec fn shim_error_debug(e: ShimError) -> Seq<char> {
    match e {
        ShimError::SymbolLoadFailed { path, symbol, err_str } => "SymbolLoadFailed { path: "@
            + path_debug(path@) + ", symbol: "@ + str_debug(symbol@) + ", err_str: "@ + str_debug(
            err_str@,
        ) + " }"@,
        ShimError::NullApi { path } => "NullApi { path: "@ + path_debug(path@) + " }"@,
        ShimError::ApiTableTooSmall { path, got, need } => "ApiTableTooSmall { path: "@ + path_debug(
            path@,
        ) + ", got: "@ + decimal(got as nat) + ", need: "@ + decimal(need as nat) + " }"@,
        ShimError::IncompatibleAbiVersion { path, got, need } => "IncompatibleAbiVersion { path: "@
            + path_debug(path@) + ", got: "@ + decimal(got as nat) + ", need: "@ + decimal(
            need as nat,
        ) + " }"@,
    }
}

/// The human-readable text of an error.
pub open spec fn error_message(e: PylonError) -> Seq<char> {
    match e {
        PylonError::Msg(m) => "PylonError("@ + m@ + ")"@,
        PylonError::ShimCallFailed { op, callsite, err_str } => "PylonError(ShimCallFailed "@ + op@
            + " at "@ + callsite@ + ": "@ + err_str@ + ")"@,
        PylonError::InvalidShimOutput { op, detail } => "PylonError(InvalidShimOutput "@ + op@
            + ": "@ + detail@ + ")"@,
        PylonError::DlOpenFailed { path, source } => DLOPEN_HELP_START@ + path_debug(path@)
            + DLOPEN_HELP_MIDDLE@ + decimal(EXPECTED_CABI_VERSION as nat) + DLOPEN_HELP_END@
            + source@,
        PylonError::ShimError(err) => "PylonError(ShimError: "@ + shim_error_debug(err) + ")"@,
    }
}

impl ShimError {
    /// The text that `Debug` writes for this error.
    pub fn debug_text(&self) -> (r: String)
        ensures
            r@ == shim_error_debug(*self),
    {
        match self {
            ShimError::SymbolLoadFailed { path, symbol, err_str } => {
                let mut s = String::from_str("SymbolLoadFailed { path: ");
                s.append(debug_quoted_path(path.as_str()).as_str());
                s.append(", symbol: ");
                s.append(debug_quoted(symbol.as_str()).as_str());
                s.append(", err_str: ");
                s.append(debug_quoted(err_str.as_str()).as_str());
                s.append(" }");
                s
            },
            ShimError::NullApi { path } => {
                let mut s = String::from_str("NullApi { path: ");
                s.append(debug_quoted_path(path.as_str()).as_str());
                s.append(" }");
                s
            },
            ShimError::ApiTableTooSmall { path, got, need } => {
                let mut s = String::from_str("ApiTableTooSmall { path: ");
                s.append(debug_quoted_path(path.as_str()).as_str());
                s.append(", got: ");
                s.append(decimal_text(*got).as_str());
                s.append(", need: ");
                s.append(decimal_text(*need).as_str());
                s.append(" }");
                s
            },
            ShimError::IncompatibleAbiVersion { path, got, need } => {
                let mut s = String::from_str("IncompatibleAbiVersion { path: ");
                s.append(debug_quoted_path(path.as_str()).as_str());
                s.append(", got: ");
                s.append(decimal_text(*got).as_str());
                s.append(", need: ");
                s.append(decimal_text(*need).as_str());
                s.append(" }");
                s
            },
        }
    }
}

impl PylonError {
    /// The human-readable text of this error.
    pub fn message(&self) -> (r: String)
        ensures
            r@ == error_message(*self),
    {
        match self {
            PylonError::Msg(m) => {
                let mut s = String::from_str("PylonError(");
                s.append(m.as_str());
                s.append(")");
                s
            },
            PylonError::ShimCallFailed { op, callsite, err_str } => {
                let mut s = String::from_str("PylonError(ShimCallFailed ");
                s.append(op);
                s.append(" at ");
                s.append(callsite.as_str());
                s.append(": ");
                s.append(err_str.as_str());
                s.append(")");
                s
            },
            PylonError::InvalidShimOutput { op, detail } => {
                let mut s = String::from_str("PylonError(InvalidShimOutput ");
                s.append(op);
                s.append(": ");
                s.append(detail.as_str());
                s.append(")");
                s
            },
            PylonError::DlOpenFailed { path, source } => {
                let mut s = String::from_str(DLOPEN_HELP_START);
                s.append(debug_quoted_path(path.as_str()).as_str());
                s.append(DLOPEN_HELP_MIDDLE);
                s.append(decimal_text(EXPECTED_CABI_VERSION).as_str());
                s.append(DLOPEN_HELP_END);
                s.append(source.as_str());
                s
            },
            PylonError::ShimError(err) => {
                let mut s = String::from_str("PylonError(ShimError: ");
                s.append(err.debug_text().as_str());
                s.append(")");
                s
            },
        }
    }
}

} // verus!
