//! Interpretation of what a shim call reports: error strings, output
//! pointers that must not be null, C truth values and UTF-8 paths.

use vstd::prelude::*;
use vstd::string::StringExecFns;
use crate::error::{PylonError, PylonResult};

verus! {

/// The text of an `InvalidShimOutput` detail for an output named `what`.
pub open spec fn null_detail(what: Seq<char>) -> Seq<char> {
    what + " was null"@
}

/// Turns what a shim call reported into a result: a reported error string
/// becomes `ShimCallFailed` for operation `op` at `callsite`, carrying the
/// string unchanged; no error string means success.
pub fn shim_check_op(op: &'static str, callsite: String, outcome: Result<(), String>) -> (r:
    PylonResult<()>)
    ensures
        outcome is Ok <==> r is Ok,
        outcome matches Err(s) ==> r == Err::<(), PylonError>(
            PylonError::ShimCallFailed { op, callsite, err_str: s },
        ),
{
    match outcome {
        Ok(()) => Ok(()),
        Err(err_str) => Err(PylonError::ShimCallFailed { op, callsite, err_str }),
    }
}

/// `shim_check_op` under the generic operation name `shim_call`.
pub fn shim_check(callsite: String, outcome: Result<(), String>) -> (r: PylonResult<()>)
    ensures
        outcome is Ok <==> r is Ok,
        outcome matches Err(s) ==> (r matches Err(PylonError::ShimCallFailed { op, callsite: c, err_str }) && op@ == "shim_call"@ && c == callsite && err_str == s),
{
    let op = "shim_call";
    proof { reveal_strlit("shim_call"); }
    shim_check_op(op, callsite, outcome)
}

/// Rejects a null output of operation `op`: when `is_null` holds the result
/// is `InvalidShimOutput` whose detail is `what` followed by " was null".
pub fn ensure_non_null(op: &'static str, what: &'static str, is_null: bool) -> (r: PylonResult<()>)
    ensures
        r is Ok <==> !is_null,
        is_null ==> (r matches Err(PylonError::InvalidShimOutput { op: o, detail }) && o == op && detail@ == null_detail(what@)),
{
    if is_null {
        let detail = String::from_str(what).concat(" was null");
        proof { reveal_strlit(" was null"); }
        Err(PylonError::InvalidShimOutput { op, detail })
    } else {
        Ok(())
    }
}

/// Checks the pointer of an array output of `count` elements: the pointer
/// may only be null when the array is empty.
pub fn ensure_array_output(op: &'static str, what: &'static str, count: usize, is_null: bool) -> (r:
    PylonResult<()>)
    ensures
        r is Ok <==> (count == 0 || !is_null),
        r is Err ==> (r matches Err(PylonError::InvalidShimOutput { op: o, detail }) && o == op && detail@ == null_detail(what@)),
{
    if count > 0 {
        ensure_non_null(op, what, is_null)
    } else {
        Ok(())
    }
}

/// Checks a shim call that hands out one output pointer: a reported error
/// comes first, as `shim_check_op` makes it; after a success, a null output
/// is refused as `ensure_non_null` refuses it.
pub fn shim_output(
    op: &'static str,
    callsite: String,
    outcome: Result<(), String>,
    what: &'static str,
    is_null: bool,
) -> (r: PylonResult<()>)
    ensures
        r is Ok <==> (outcome is Ok && !is_null),
        outcome matches Err(s) ==> r == Err::<(), PylonError>(
            PylonError::ShimCallFailed { op, callsite, err_str: s },
        ),
        outcome is Ok && is_null ==> (r matches Err(PylonError::InvalidShimOutput { op: o, detail })
            && o == op && detail@ == null_detail(what@)),
{
    shim_check_op(op, callsite, outcome)?;
    ensure_non_null(op, what, is_null)
}

/// The text of the bytes of a C string, decoded as UTF-8 with every invalid
/// sequence replaced by U+FFFD.
pub uninterp spec fn utf8_lossy(bytes: Seq<u8>) -> Seq<char>;

/// Calls `String::from_utf8_lossy`; the result is named `utf8_lossy` of the bytes.
#[verifier::external_body]
fn decode_utf8_lossy(bytes: &[u8]) -> (r: String)
    ensures
        r@ == utf8_lossy(bytes@),
{
    String::from_utf8_lossy(bytes).into_owned()
}

/// The text of a C string handed out by the shim, given its bytes.
pub fn c_text(bytes: &[u8]) -> (r: String)
    ensures
        r@ == utf8_lossy(bytes@),
{
    decode_utf8_lossy(bytes)
}

/// What a shim call reported, given the bytes of its error string when it
/// returned one: no error string is success, an error string is its text.
pub fn error_outcome(err: Option<&[u8]>) -> (r: Result<(), String>)
    ensures
        err is None <==> r is Ok,
        err matches Some(b) ==> (r matches Err(s) && s@ == utf8_lossy(b@)),
{
    match err {
        None => Ok(()),
        Some(bytes) => Err(c_text(bytes)),
    }
}

/// The texts of an array of C strings handed out by the shim, in order.
pub fn c_texts(items: &Vec<&[u8]>) -> (r: Vec<String>)
    ensures
        r.len() == items.len(),
        forall|i: int| 0 <= i < items.len() ==> #[trigger] r[i]@ == utf8_lossy(items[i]@),
{
    let mut r: Vec<String> = Vec::new();
    let mut k: usize = 0;
    while k < items.len()
        invariant
            k <= items.len(),
            r.len() == k,
            forall|i: int| 0 <= i < k ==> #[trigger] r[i]@ == utf8_lossy(items[i]@),
        decreases items.len() - k,
    {
        r.push(c_text(items[k]));
        k = k + 1;
    }
    r
}

/// Reads a C truth value: any non-zero integer is true.
pub fn c_bool(value: i32) -> (r: bool)
    ensures
        r == (value != 0),
{
    value != 0
}

/// Writes a truth value as a C integer: one for true, zero for false.
pub fn c_int_of_bool(value: bool) -> (r: i32)
    ensures
        r == (if value { 1i32 } else { 0i32 }),
{
    if value { 1 } else { 0 }
}

/// The file name of a path as UTF-8 text, given the path's text when it has
/// one: a path that is not valid UTF-8 is refused with a message.
pub fn path_to_string(utf8: Option<&str>) -> (r: PylonResult<String>)
    ensures
        utf8 matches Some(s) ==> (r matches Ok(t) && t@ == s@),
        utf8 is None ==> (r matches Err(PylonError::Msg(m)) && m@ == "Cannot convert path to UTF-8"@),
{
    match utf8 {
        Some(filename) => Ok(String::from_str(filename)),
        None => {
            let m = "Cannot convert path to UTF-8";
            proof { reveal_strlit("Cannot convert path to UTF-8"); }
            Err(PylonError::new(String::from_str(m)))
        }
    }
}

}
