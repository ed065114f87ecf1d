use delimcheck::validate::{validate_lines, validate_path, ValidationResult};

fn lines(texts: &[&str]) -> Vec<String> {
    texts.iter().map(|t| t.to_string()).collect()
}

#[test]
fn uniform_lines_are_valid() {
    let input = lines(&["name,age,city", "Alice,30,NYC", "a,\"b,c\",d"]);
    let r = validate_lines(&input, b',', Some(b'"'));
    assert!(matches!(r, ValidationResult::Valid));
}

#[test]
fn mismatching_line_reported_exactly() {
    let input = lines(&["name,age,city", "Alice,30,NYC", "Bob,25"]);
    let r = validate_lines(&input, b',', Some(b'"'));
    match r {
        ValidationResult::Invalid(errs) => {
            assert_eq!(errs.len(), 1);
            assert_eq!(errs[0].line_number, 2);
            assert_eq!(errs[0].expected, 2);
            assert_eq!(errs[0].actual, 1);
            assert_eq!(errs[0].data, "Bob,25");
        }
        ValidationResult::Valid => panic!("expected an invalid result"),
    }
}

#[test]
fn every_mismatch_reported_in_ascending_order() {
    let input = lines(&["a,b,c", "x,y", "1,2,3", "p,q,r,s", "u,v,w"]);
    let r = validate_lines(&input, b',', Some(b'"'));
    match r {
        ValidationResult::Invalid(errs) => {
            assert_eq!(errs.len(), 2);
            assert_eq!(errs[0].line_number, 1);
            assert_eq!(errs[0].actual, 1);
            assert_eq!(errs[0].data, "x,y");
            assert_eq!(errs[1].line_number, 3);
            assert_eq!(errs[1].actual, 3);
            assert_eq!(errs[1].data, "p,q,r,s");
            for e in &errs {
                assert_eq!(e.expected, 2);
            }
        }
        ValidationResult::Valid => panic!("expected an invalid result"),
    }
}

#[test]
fn empty_input_is_valid() {
    let input: Vec<String> = Vec::new();
    let r = validate_lines(&input, b',', Some(b'"'));
    assert!(matches!(r, ValidationResult::Valid));
}

#[test]
fn single_line_input_is_valid() {
    let input = lines(&["a,b,\"c,d\""]);
    let r = validate_lines(&input, b',', Some(b'"'));
    assert!(matches!(r, ValidationResult::Valid));
    let odd = lines(&["no delimiters here"]);
    assert!(matches!(validate_lines(&odd, b',', Some(b'"')), ValidationResult::Valid));
}

#[test]
fn repeated_runs_agree() {
    let input = lines(&["a,b,c", "x,y", "1,2,3"]);
    let first = validate_lines(&input, b',', Some(b'"'));
    let second = validate_lines(&input, b',', Some(b'"'));
    assert_eq!(first, second);
    let clean = lines(&["a,b", "c,d"]);
    assert_eq!(
        validate_lines(&clean, b',', Some(b'"')),
        validate_lines(&clean, b',', Some(b'"'))
    );
}

#[test]
fn quote_state_resets_at_each_line() {
    // The unclosed quote on the second line does not leak into the third.
    let input = lines(&["a,b", "\"a,b", "a,b"]);
    let r = validate_lines(&input, b',', Some(b'"'));
    match r {
        ValidationResult::Invalid(errs) => {
            assert_eq!(errs.len(), 1);
            assert_eq!(errs[0].line_number, 1);
            assert_eq!(errs[0].expected, 1);
            assert_eq!(errs[0].actual, 0);
        }
        ValidationResult::Valid => panic!("expected an invalid result"),
    }
}

#[test]
fn quoting_disabled_changes_counts() {
    // With quoting disabled the quoted comma counts, so the second line
    // diverges from the baseline.
    let input = lines(&["a,b,c", "a,\"b,c\",d"]);
    let quoted = validate_lines(&input, b',', Some(b'"'));
    assert!(matches!(quoted, ValidationResult::Valid));
    let unquoted = validate_lines(&input, b',', None);
    match unquoted {
        ValidationResult::Invalid(errs) => {
            assert_eq!(errs.len(), 1);
            assert_eq!(errs[0].line_number, 1);
            assert_eq!(errs[0].expected, 2);
            assert_eq!(errs[0].actual, 3);
        }
        ValidationResult::Valid => panic!("expected an invalid result"),
    }
}

#[test]
fn mismatching_empty_line_reported() {
    let input = lines(&["a,b", ""]);
    let r = validate_lines(&input, b',', Some(b'"'));
    match r {
        ValidationResult::Invalid(errs) => {
            assert_eq!(errs.len(), 1);
            assert_eq!(errs[0].line_number, 1);
            assert_eq!(errs[0].expected, 1);
            assert_eq!(errs[0].actual, 0);
            assert_eq!(errs[0].data, "");
        }
        ValidationResult::Valid => panic!("expected an invalid result"),
    }
}

#[test]
fn nonexistent_path_is_a_setup_error() {
    let r = validate_path("/nonexistent/file.csv");
    match r {
        Err(msg) => {
            assert_eq!(
                msg,
                "Path not found or filepath is not a file: /nonexistent/file.csv"
            );
        }
        Ok(()) => panic!("expected a setup error"),
    }
}
