//! The report of the executor's logs.

use vstd::prelude::*;

verus! {

/// The report: a heading and the text of each log, the normal log first.
pub fn log_report(log_ok: String, log_err: String) -> (r: Vec<String>)
    ensures
        r.len() == 4,
        r@[0]@ == "Log OK : "@,
        r@[1]@ == log_ok@,
        r@[2]@ == "Log Error: "@,
        r@[3]@ == log_err@,
{
    let mut r: Vec<String> = Vec::new();
    r.push(String::from_str("Log OK : "));
    r.push(log_ok);
    r.push(String::from_str("Log Error: "));
    r.push(log_err);
    r
}

} // verus!
