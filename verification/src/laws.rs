//! Properties of the validator, stated and proved against its model.

use vstd::prelude::*;
use crate::validate::{
    error_at, errors_prefix, line_delim_count, mismatch_at, spec_errors, spec_validate,
    ErrorModel, ResultModel,
};

verus! {

/// What a correct error sequence for the first `n` lines looks like: every
/// record describes a genuine mismatching checked line, records come in
/// ascending line-number order, and every mismatching line is represented.
pub open spec fn errors_describe(
    lines: Seq<Seq<char>>,
    delim: u8,
    quote: Option<u8>,
    errs: Seq<ErrorModel>,
    n: int,
) -> bool {
    &&& forall|k: int|
        0 <= k < errs.len() ==> {
            &&& 1 <= (#[trigger] errs[k]).line_number < n
            &&& mismatch_at(lines, delim, quote, errs[k].line_number as int)
            &&& errs[k] == error_at(lines, delim, quote, errs[k].line_number as int)
        }
    &&& forall|k1: int, k2: int|
        0 <= k1 < k2 < errs.len() ==> (#[trigger] errs[k1]).line_number < (
        #[trigger] errs[k2]).line_number
    &&& forall|i: int|
        1 <= i < n && #[trigger] mismatch_at(lines, delim, quote, i) ==> exists|k: int|
            0 <= k < errs.len() && errs[k] == error_at(lines, delim, quote, i)
}

/// The error prefix for the first `n` lines is sound, ordered, and
/// exhaustive over those lines.
proof fn lemma_errors_prefix_describe(lines: Seq<Seq<char>>, delim: u8, quote: Option<u8>, n: int)
    ensures
        errors_describe(lines, delim, quote, errors_prefix(lines, delim, quote, n), n),
    decreases n,
{
    if n <= 1 {
    } else {
        lemma_errors_prefix_describe(lines, delim, quote, n - 1);
        let prev = errors_prefix(lines, delim, quote, n - 1);
        let cur = errors_prefix(lines, delim, quote, n);
        assert forall|i: int|
            1 <= i < n && #[trigger] mismatch_at(lines, delim, quote, i) implies exists|k: int|
            0 <= k < cur.len() && cur[k] == error_at(lines, delim, quote, i) by {
            if i < n - 1 {
                let k = choose|k: int|
                    0 <= k < prev.len() && prev[k] == error_at(lines, delim, quote, i);
                assert(cur[k] == error_at(lines, delim, quote, i));
            } else {
                assert(cur[prev.len() as int] == error_at(lines, delim, quote, n - 1));
            }
        }
    }
}

/// A uniform input is valid: when every line of the input has the same
/// outside-quote delimiter count `k`, validation returns `Valid`.
pub proof fn lemma_uniform_lines_valid(
    lines: Seq<Seq<char>>,
    delim: u8,
    quote: Option<u8>,
    k: nat,
)
    requires
        forall|i: int| 0 <= i < lines.len() ==> line_delim_count(#[trigger] lines[i], delim, quote) == k,
    ensures
        spec_validate(lines, delim, quote) == ResultModel::Valid,
{
    lemma_no_mismatch_prefix_empty(lines, delim, quote, lines.len() as int);
}

/// With no mismatch among the first `n` lines, the error prefix is empty.
proof fn lemma_no_mismatch_prefix_empty(lines: Seq<Seq<char>>, delim: u8, quote: Option<u8>, n: int)
    requires
        forall|i: int| 1 <= i < n ==> !mismatch_at(lines, delim, quote, i),
    ensures
        errors_prefix(lines, delim, quote, n).len() == 0,
    decreases n,
{
    if n > 1 {
        lemma_no_mismatch_prefix_empty(lines, delim, quote, n - 1);
    }
}

/// When at least one checked line diverges from the baseline, validation
/// returns `Invalid`, and the error sequence holds exactly one record per
/// mismatching line: every record describes a genuine mismatch, line numbers
/// ascend strictly, and no mismatching line is missing.
pub proof fn lemma_mismatch_reported(lines: Seq<Seq<char>>, delim: u8, quote: Option<u8>)
    requires
        exists|i: int| 1 <= i < lines.len() && mismatch_at(lines, delim, quote, i),
    ensures
        spec_validate(lines, delim, quote) == ResultModel::Invalid(
            spec_errors(lines, delim, quote),
        ),
        errors_describe(lines, delim, quote, spec_errors(lines, delim, quote), lines.len() as int),
{
    lemma_errors_prefix_describe(lines, delim, quote, lines.len() as int);
    let i = choose|i: int| 1 <= i < lines.len() && mismatch_at(lines, delim, quote, i);
    assert(exists|k: int|
        0 <= k < spec_errors(lines, delim, quote).len() && spec_errors(lines, delim, quote)[k]
            == error_at(lines, delim, quote, i));
}

/// The result is `Valid` exactly when no checked line diverges from the
/// baseline.
pub proof fn lemma_valid_iff_no_mismatch(lines: Seq<Seq<char>>, delim: u8, quote: Option<u8>)
    ensures
        spec_validate(lines, delim, quote) == ResultModel::Valid <==> forall|i: int|
            1 <= i < lines.len() ==> !mismatch_at(lines, delim, quote, i),
{
    if forall|i: int| 1 <= i < lines.len() ==> !mismatch_at(lines, delim, quote, i) {
        lemma_no_mismatch_prefix_empty(lines, delim, quote, lines.len() as int);
    } else {
        lemma_mismatch_reported(lines, delim, quote);
    }
}

/// Validation is a pure function of the input lines and the configuration:
/// two runs over the same unchanged input yield the same result.
pub proof fn lemma_validate_deterministic(
    lines: Seq<Seq<char>>,
    delim: u8,
    quote: Option<u8>,
    first: ResultModel,
    second: ResultModel,
)
    requires
        first == spec_validate(lines, delim, quote),
        second == spec_validate(lines, delim, quote),
    ensures
        first == second,
{
}

/// An input with no lines at all, or with only the baseline line, is valid:
/// there is nothing to check against the baseline.
pub proof fn lemma_short_input_valid(lines: Seq<Seq<char>>, delim: u8, quote: Option<u8>)
    requires
        lines.len() <= 1,
    ensures
        spec_validate(lines, delim, quote) == ResultModel::Valid,
{
}

} // verus!
