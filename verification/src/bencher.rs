//! Rendering of benchmark samples.
//!
//! Each stopwatch channel appends one line per measured duration to its
//! sink, in the order the measurement scopes ended; a worker owned by
//! the shell does the writing. The line format is decided here: seconds,
//! a dot, and the subsecond part padded with zeros to nine digits, so
//! the line reads as a number of seconds.

use vstd::prelude::*;

use crate::strings::{dec_seq, dec_string_nanos, dec_string_u64, zeros};

verus! {

/// What a duration of `secs` seconds and `nanos` subsecond nanoseconds
/// is written as.
pub open spec fn spec_benchmark_line(secs: int, nanos: int) -> Seq<char> {
    dec_seq(secs) + "."@ + zeros(9 - dec_seq(nanos).len()) + dec_seq(nanos)
}

/// Renders one benchmark sample.
pub fn benchmark_line(secs: u64, nanos: u32) -> (r: String)
    requires
        nanos < 1_000_000_000,
    ensures
        r@ == spec_benchmark_line(secs as int, nanos as int),
{
    let mut out = dec_string_u64(secs);
    out.append(".");
    out.append(dec_string_nanos(nanos).as_str());
    out
}

} // verus!
