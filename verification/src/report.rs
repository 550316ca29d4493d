//! Log-line shaping: every message the engine reports through the logging
//! channel carries a severity prefix, so the host can tell errors from
//! informational notices.

use vstd::prelude::*;
use vstd::string::StringExecFns;

verus! {

/// An error log line: the message behind the error prefix.
pub fn report_error(msg: &str) -> (r: String)
    ensures
        r@ == "[clipboard_error]: "@ + msg@,
{
    String::from_str("[clipboard_error]: ").concat(msg)
}

/// An informational log line: the message behind the info prefix.
pub fn report_info(msg: &str) -> (r: String)
    ensures
        r@ == "[clipboard_info]: "@ + msg@,
{
    String::from_str("[clipboard_info]: ").concat(msg)
}

} // verus!
