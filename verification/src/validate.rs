//! Validation of a whole input: baseline from the first line, one error
//! record per later line whose delimiter count diverges.

use vstd::prelude::*;
use vstd::string::StringExecFns;
use crate::numfmt::{dec_digits, usize_to_string};
use crate::scan::{count_delimiters, delim_count};

verus! {

/// The delimiter count of one line of text, taken over its UTF-8 bytes.
pub open spec fn line_delim_count(line: Seq<char>, delim: u8, quote: Option<u8>) -> nat {
    delim_count(vstd::utf8::encode_utf8(line), delim, quote)
}

/// The baseline: the delimiter count of the first line, which every later
/// line is held to.  It is fixed once, before any comparison, and never
/// recomputed.
pub open spec fn expected_count(lines: Seq<Seq<char>>, delim: u8, quote: Option<u8>) -> nat
    recommends
        lines.len() > 0,
{
    line_delim_count(lines[0], delim, quote)
}

/// Whether the checked line at index `i` (0-based over all physical lines,
/// so `i >= 1`) diverges from the baseline.
pub open spec fn mismatch_at(lines: Seq<Seq<char>>, delim: u8, quote: Option<u8>, i: int) -> bool {
    line_delim_count(lines[i], delim, quote) != expected_count(lines, delim, quote)
}

/// The mathematical content of one validation error record.
pub struct ErrorModel {
    /// 1-based position among the checked lines, which equals the 0-based
    /// position among all physical lines (the baseline line is line 0 and is
    /// never itself checked).
    pub line_number: nat,
    /// The baseline delimiter count.
    pub expected: nat,
    /// The offending line's delimiter count.
    pub actual: nat,
    /// The raw text of the offending line.
    pub data: Seq<char>,
}

/// The error record the validator produces for the line at index `i`.
pub open spec fn error_at(lines: Seq<Seq<char>>, delim: u8, quote: Option<u8>, i: int) -> ErrorModel {
    ErrorModel {
        line_number: i as nat,
        expected: expected_count(lines, delim, quote),
        actual: line_delim_count(lines[i], delim, quote),
        data: lines[i],
    }
}

/// The error records for the checked lines with index below `n`, in line
/// order.  Indices 0 (the baseline) and below contribute nothing.
pub open spec fn errors_prefix(
    lines: Seq<Seq<char>>,
    delim: u8,
    quote: Option<u8>,
    n: int,
) -> Seq<ErrorModel>
    decreases n,
{
    if n <= 1 {
        Seq::empty()
    } else if mismatch_at(lines, delim, quote, n - 1) {
        errors_prefix(lines, delim, quote, n - 1).push(error_at(lines, delim, quote, n - 1))
    } else {
        errors_prefix(lines, delim, quote, n - 1)
    }
}

/// Every mismatching line's error record, in ascending line order,
/// exhaustive over the whole input.
pub open spec fn spec_errors(lines: Seq<Seq<char>>, delim: u8, quote: Option<u8>) -> Seq<ErrorModel> {
    errors_prefix(lines, delim, quote, lines.len() as int)
}

/// What validation returns on `lines`: `Valid` exactly when no checked line
/// diverges from the baseline, else the full ordered error sequence.
pub open spec fn spec_validate(lines: Seq<Seq<char>>, delim: u8, quote: Option<u8>) -> ResultModel {
    if spec_errors(lines, delim, quote).len() == 0 {
        ResultModel::Valid
    } else {
        ResultModel::Invalid(spec_errors(lines, delim, quote))
    }
}

/// One structural mismatch: which checked line diverged, the expected and
/// actual delimiter counts, and the raw line text.  Immutable once created.
#[derive(Clone, Debug, PartialEq, Eq)]
pub struct ValidationError {
    /// 1-based index among the checked (post-baseline) lines.
    pub line_number: usize,
    /// The baseline delimiter count.
    pub expected: usize,
    /// This line's delimiter count.
    pub actual: usize,
    /// The raw text of the line.
    pub data: String,
}

impl View for ValidationError {
    type V = ErrorModel;

    open spec fn view(&self) -> ErrorModel {
        ErrorModel {
            line_number: self.line_number as nat,
            expected: self.expected as nat,
            actual: self.actual as nat,
            data: self.data@,
        }
    }
}

/// The mathematical content of a validation outcome.
pub enum ResultModel {
    Valid,
    Invalid(Seq<ErrorModel>),
}

/// The outcome of a validation run: `Valid`, or every mismatching line's
/// record in ascending line order, never truncated.
#[derive(Clone, Debug, PartialEq, Eq)]
pub enum ValidationResult {
    Valid,
    Invalid(Vec<ValidationError>),
}

impl View for ValidationResult {
    type V = ResultModel;

    open spec fn view(&self) -> ResultModel {
        match self {
            ValidationResult::Valid => ResultModel::Valid,
            ValidationResult::Invalid(errs) => ResultModel::Invalid(
                errs@.map_values(|e: ValidationError| e@),
            ),
        }
    }
}

/// Validate the lines of one input against the baseline taken from the first
/// line.  `delim` is the field separator byte; `quote`, when present, is the
/// byte that toggles quoted spans, inside which separators do not count.
pub fn validate_lines(lines: &Vec<String>, delim: u8, quote: Option<u8>) -> (r: ValidationResult)
    ensures
        r@ == spec_validate(lines.deep_view(), delim, quote),
{
    let ghost model: Seq<Seq<char>> = lines.deep_view();
    if lines.len() == 0 {
        return ValidationResult::Valid;
    }
    let expected = count_delimiters(lines[0].as_str().as_bytes(), delim, quote);
    let mut errs: Vec<ValidationError> = Vec::new();
    let mut j: usize = 1;
    while j < lines.len()
        invariant
            1 <= j <= lines@.len(),
            model == lines.deep_view(),
            expected == expected_count(model, delim, quote),
            errs@.map_values(|e: ValidationError| e@) == errors_prefix(model, delim, quote, j as int),
        decreases lines@.len() - j,
    {
        let actual = count_delimiters(lines[j].as_str().as_bytes(), delim, quote);
        if actual != expected {
            let err = ValidationError {
                line_number: j,
                expected,
                actual,
                data: lines[j].clone(),
            };
            let ghost old_errs = errs@;
            errs.push(err);
            proof {
                assert(errs@.map_values(|e: ValidationError| e@) =~= old_errs.map_values(
                    |e: ValidationError| e@,
                ).push(err@));
            }
        }
        j = j + 1;
    }
    if errs.len() == 0 {
        ValidationResult::Valid
    } else {
        ValidationResult::Invalid(errs)
    }
}

/// The report row for one error record:
/// `<line_number>,<expected>,<actual>,"<data>"`, the raw line wrapped in
/// literal double quotes with no internal escaping.
pub open spec fn spec_error_row(
    line_number: nat,
    expected: nat,
    actual: nat,
    data: Seq<char>,
) -> Seq<char> {
    dec_digits(line_number) + seq![','] + dec_digits(expected) + seq![','] + dec_digits(actual)
        + seq![',', '"'] + data + seq!['"']
}

/// Format one mismatch as a report row.
pub fn fmt_error(line_no: usize, expected: usize, actual: usize, data: &str) -> (s: String)
    ensures
        s@ == spec_error_row(line_no as nat, expected as nat, actual as nat, data@),
{
    proof {
        reveal_strlit(",");
        reveal_strlit("\"");
        reveal_strlit(",\"");
    }
    let mut s = usize_to_string(line_no);
    s.append(",");
    let expected_str = usize_to_string(expected);
    s.append(expected_str.as_str());
    s.append(",");
    let actual_str = usize_to_string(actual);
    s.append(actual_str.as_str());
    s.append(",\"");
    s.append(data);
    s.append("\"");
    proof {
        assert(s@ =~= spec_error_row(line_no as nat, expected as nat, actual as nat, data@));
    }
    s
}

impl ValidationError {
    /// This record's report row.
    pub fn render(&self) -> (s: String)
        ensures
            s@ == spec_error_row(self@.line_number, self@.expected, self@.actual, self@.data),
    {
        fmt_error(self.line_number, self.expected, self.actual, self.data.as_str())
    }
}

/// The message reported when the path is missing or names no regular file.
pub open spec fn spec_path_error(path: Seq<char>) -> Seq<char> {
    "Path not found or filepath is not a file: "@ + path
}

/// Relies on std::path::Path::exists: whether `path` can be reached on the
/// file system.  The answer depends on the state of the disk, so nothing is
/// promised of it.
#[verifier::external_body]
fn path_exists(path: &str) -> bool {
    std::path::Path::new(path).exists()
}

/// Relies on std::path::Path::is_file: whether `path` names a regular file.
/// The answer depends on the state of the disk, so nothing is promised of it.
#[verifier::external_body]
fn path_is_file(path: &str) -> bool {
    std::path::Path::new(path).is_file()
}

/// Decide whether scanning may begin, from the two facts the file system
/// reported about `path`.
pub fn classify_path(path: &str, exists: bool, is_file: bool) -> (r: Result<(), String>)
    ensures
        r is Ok <==> exists && is_file,
        r matches Err(m) ==> m@ == spec_path_error(path@),
{
    if exists && is_file {
        Ok(())
    } else {
        let mut msg = String::from_str("Path not found or filepath is not a file: ");
        msg.append(path);
        Err(msg)
    }
}

/// Check that `path` names an existing regular file, as the validator
/// requires before any scan begins.  Failure here is a setup error, distinct
/// from both read failures and validation mismatches.
pub fn validate_path(path: &str) -> (r: Result<(), String>)
    ensures
        r matches Err(m) ==> m@ == spec_path_error(path@),
{
    let exists = path_exists(path);
    let is_file = path_is_file(path);
    classify_path(path, exists, is_file)
}

} // verus!
