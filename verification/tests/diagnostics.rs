use fanz::diagnostics::{decimal, errfmt, line_col, Diagnostic, FaultKind};

#[test]
fn labels_of_the_four_kinds() {
    assert_eq!(FaultKind::ParseError.label(), "ParseError");
    assert_eq!(FaultKind::TypeError.label(), "TypeError");
    assert_eq!(FaultKind::RuntimeException.label(), "RuntimeException");
    assert_eq!(FaultKind::InternalFault.label(), "InternalFault");
}

#[test]
fn decimal_renders_exact_digits() {
    assert_eq!(decimal(0), "0");
    assert_eq!(decimal(7), "7");
    assert_eq!(decimal(10), "10");
    assert_eq!(decimal(255), "255");
    assert_eq!(decimal(90210), "90210");
}

#[test]
fn line_col_at_start_is_origin() {
    assert_eq!(line_col("abc", 0), (0, 0));
}

#[test]
fn line_col_counts_lines_and_columns() {
    // Offset 3 points at the 'c' of "a\nbc": 0-based line 1, column 1,
    // reported 1-based as line 2, column 2.
    assert_eq!(line_col("a\nbc", 3), (1, 1));
    assert_eq!(line_col("a\nbc", 2), (1, 0));
    assert_eq!(line_col("a\nbc", 1), (0, 1));
}

#[test]
fn line_col_just_past_the_end() {
    assert_eq!(line_col("ab", 2), (0, 2));
    assert_eq!(line_col("a\n", 2), (1, 0));
}

#[test]
fn report_round_trip_line2_col2() {
    // The round trip of the formatter: offset 3 in "a\nbc" points at 'c',
    // and the report must say line 2, column 2.
    let d = Diagnostic {
        offset: 3,
        kind: FaultKind::RuntimeException,
        message: String::from("boom"),
    };
    let source = String::from("a\nbc");
    let report = errfmt(&d, &source);
    let expected = "-----\n      \"bc\"     at line 2, col 2\n       ^      RuntimeException\nERROR: boom\n-----";
    assert_eq!(report, expected);
}

#[test]
fn report_on_first_line() {
    let d = Diagnostic {
        offset: 0,
        kind: FaultKind::ParseError,
        message: String::from("x"),
    };
    let source = String::from("hi");
    let report = errfmt(&d, &source);
    // "ERROR: x" has 8 characters, so the rules are 4 dashes long, and the
    // caret stands right under column 1.
    let expected = "----\n      \"hi\"     at line 1, col 1\n      ^      ParseError\nERROR: x\n----";
    assert_eq!(report, expected);
}

#[test]
fn report_category_is_printed() {
    let d = Diagnostic {
        offset: 1,
        kind: FaultKind::InternalFault,
        message: String::from("panic"),
    };
    let source = String::from("put 1");
    let report = errfmt(&d, &source);
    assert!(report.contains("InternalFault"));
    assert!(report.contains("ERROR: panic"));
    assert!(report.contains("at line 1, col 2"));
}
