//! The delimiter-counting scan over one line of input.

use vstd::prelude::*;

verus! {

/// One step of the scan: fold the next byte into the running
/// (count, inside-quotes) state.  A byte equal to the quote byte toggles the
/// quote flag and is never counted as a delimiter, even when the two
/// configured bytes coincide; a delimiter byte is counted only while outside
/// a quoted span.  With quoting disabled (`quote` absent) every delimiter
/// byte counts.
pub open spec fn scan_step(
    state: (nat, bool),
    byte: u8,
    delim: u8,
    quote: Option<u8>,
) -> (nat, bool) {
    if quote == Some(byte) {
        (state.0, !state.1)
    } else if byte == delim && !state.1 {
        ((state.0 + 1) as nat, state.1)
    } else {
        state
    }
}

/// The scan state after the first `n` bytes of `line`, starting with count
/// zero and outside any quoted span.
pub open spec fn scan_prefix(line: Seq<u8>, delim: u8, quote: Option<u8>, n: int) -> (nat, bool)
    decreases n,
{
    if n <= 0 {
        (0 as nat, false)
    } else {
        scan_step(scan_prefix(line, delim, quote, n - 1), line[n - 1], delim, quote)
    }
}

/// How many delimiter bytes `line` holds outside quoted spans (all of them
/// when quoting is disabled).  The quote flag never carries over from one
/// line to the next: each line is scanned from the initial state.
pub open spec fn delim_count(line: Seq<u8>, delim: u8, quote: Option<u8>) -> nat {
    scan_prefix(line, delim, quote, line.len() as int).0
}

/// The running count never exceeds the number of bytes scanned.
proof fn lemma_scan_count_le(line: Seq<u8>, delim: u8, quote: Option<u8>, n: int)
    requires
        0 <= n,
    ensures
        scan_prefix(line, delim, quote, n).0 <= n,
    decreases n,
{
    if n > 0 {
        lemma_scan_count_le(line, delim, quote, n - 1);
    }
}

/// Count the delimiter bytes of one line, honouring quoted spans when a
/// quote byte is given.
pub fn count_delimiters(line: &[u8], delim: u8, quote: Option<u8>) -> (count: usize)
    ensures
        count == delim_count(line@, delim, quote),
{
    let mut count: usize = 0;
    let mut in_quotes: bool = false;
    let mut i: usize = 0;
    while i < line.len()
        invariant
            i <= line@.len(),
            count == scan_prefix(line@, delim, quote, i as int).0,
            in_quotes == scan_prefix(line@, delim, quote, i as int).1,
        decreases line@.len() - i,
    {
        proof {
            lemma_scan_count_le(line@, delim, quote, i as int);
        }
        let byte = line[i];
        let is_quote = match quote {
            Some(q) => byte == q,
            None => false,
        };
        if is_quote {
            in_quotes = !in_quotes;
        } else if byte == delim && !in_quotes {
            count = count + 1;
        }
        i = i + 1;
    }
    count
}

} // verus!
