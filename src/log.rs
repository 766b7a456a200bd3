use vstd::prelude::*;

verus! {

/// A log line without its time stamp: `[tag] msg`.
pub open spec fn tagged(tag: Seq<char>, msg: Seq<char>) -> Seq<char> {
    "["@ + tag + "] "@ + msg
}

/// Builds the line `[tag] msg`, as the diagnostics file records it.
pub fn note(tag: &str, msg: &str) -> (r: String)
    ensures
        r@ == tagged(tag@, msg@),
{
    let mut line = <String as StringExecFns>::from_str("[");
    line.append(tag);
    line.append("] ");
    line.append(msg);
    line
}

/// The informational log line for `msg`, to be stamped with the time and
/// written by the caller.
pub fn info(msg: &str) -> (r: String)
    ensures
        r@ == tagged("INFO"@, msg@),
{
    note("INFO", msg)
}

/// The warning log line for `msg`.
pub fn warn(msg: &str) -> (r: String)
    ensures
        r@ == tagged("WARN"@, msg@),
{
    note("WARN", msg)
}

/// The error log line for `msg`.
pub fn error(msg: &str) -> (r: String)
    ensures
        r@ == tagged("ERROR"@, msg@),
{
    note("ERROR", msg)
}

} // verus!
