//! Log-line builders.
//!
//! Each function builds the full text of one log line — a bracketed tag,
//! the message, and the value being reported — and returns it for the
//! caller to hand to whatever logger it runs.

use vstd::prelude::*;

verus! {

/// The log line announcing that a task starts.
pub fn start_log(message: &str, value: &str) -> (r: String)
    ensures
        r@ == "[START] "@ + message@ + ": "@ + value@,
{
    let mut s = String::new();
    s.append("[START] ");
    s.append(message);
    s.append(": ");
    s.append(value);
    s
}

/// The log line announcing that a task ended.
pub fn end_log(message: &str, value: &str) -> (r: String)
    ensures
        r@ == "[END] "@ + message@ + ": "@ + value@,
{
    let mut s = String::new();
    s.append("[END] ");
    s.append(message);
    s.append(": ");
    s.append(value);
    s
}

/// A plain informational log line.
pub fn info_log(message: &str, value: &str) -> (r: String)
    ensures
        r@ == "[INFO] "@ + message@ + ": "@ + value@,
{
    let mut s = String::new();
    s.append("[INFO] ");
    s.append(message);
    s.append(": ");
    s.append(value);
    s
}

/// A warning log line.
pub fn wran_log(message: &str, value: &str) -> (r: String)
    ensures
        r@ == "[WARNING] "@ + message@ + ": "@ + value@,
{
    let mut s = String::new();
    s.append("[WARNING] ");
    s.append(message);
    s.append(": ");
    s.append(value);
    s
}

/// An error log line.
pub fn error_log(message: &str, value: &str) -> (r: String)
    ensures
        r@ == "[ERROR] "@ + message@ + ": "@ + value@,
{
    let mut s = String::new();
    s.append("[ERROR] ");
    s.append(message);
    s.append(": ");
    s.append(value);
    s
}

} // verus!
