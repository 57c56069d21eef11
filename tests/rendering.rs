use my_runtime::diagnostic::{
    build_diagnostic, push_decimal, render, Caught, Diagnostic, Location, SourceMessage,
};

fn message(name: Option<&str>, line: Option<usize>, start: usize, end: usize, source: Option<&str>) -> SourceMessage {
    SourceMessage {
        resource_name: name.map(|s| s.to_string()),
        line_number: line,
        start_column: start,
        end_column: end,
        source_line: source.map(|s| s.to_string()),
    }
}

fn located(start: usize, end: usize, line: usize, trace: Option<&str>) -> Diagnostic {
    Diagnostic::Located {
        exception_message: "SyntaxError: Unexpected token".to_string(),
        location: Location {
            origin_name: "(shell)".to_string(),
            line_number: line,
            start_column: start,
            end_column: end,
            source_line: Some("let = 3".to_string()),
        },
        stack_trace: trace.map(|s| s.to_string()),
    }
}

#[test]
fn no_exception_renders_internal_error_only() {
    let d = build_diagnostic(Caught { exception: None, message: None, stack_trace: None });
    assert!(matches!(d, Diagnostic::NoException));
    assert_eq!(render(&d), vec!["Internal error: no exception".to_string()]);
}

#[test]
fn no_exception_ignores_message_and_trace() {
    let d = build_diagnostic(Caught {
        exception: None,
        message: Some(message(Some("a.js"), Some(3), 1, 2, Some("x"))),
        stack_trace: Some("at a.js:3".to_string()),
    });
    assert_eq!(render(&d), vec!["Internal error: no exception".to_string()]);
}

#[test]
fn exception_without_message_renders_message_alone() {
    let d = build_diagnostic(Caught {
        exception: Some("RangeError: too deep".to_string()),
        message: None,
        stack_trace: Some("trace".to_string()),
    });
    assert!(matches!(d, Diagnostic::Bare { .. }));
    assert_eq!(render(&d), vec!["RangeError: too deep".to_string()]);
}

#[test]
fn thrown_error_in_shell_scenario() {
    let d = build_diagnostic(Caught {
        exception: Some("Error: boom".to_string()),
        message: Some(message(Some("(shell)"), Some(1), 0, 1, Some("throw new Error('boom')"))),
        stack_trace: Some("Error: boom\n    at (shell):1:7".to_string()),
    });
    let lines = render(&d);
    assert_eq!(lines.len(), 4);
    assert_eq!(lines[0], "(shell):1:0: Error: boom");
    assert_eq!(lines[1], "1: throw new Error('boom')");
    assert_eq!(lines[2], "   ^");
    assert_eq!(lines[3], "Error: boom\n    at (shell):1:7");
}

#[test]
fn caret_line_covers_column_range() {
    let lines = render(&located(4, 5, 1, None));
    assert_eq!(lines.len(), 3);
    assert_eq!(lines[0], "(shell):1:4: SyntaxError: Unexpected token");
    assert_eq!(lines[1], "1: let = 3");
    assert_eq!(lines[2], "       ^");
}

#[test]
fn caret_line_width_matches_range_not_message() {
    let lines = render(&located(2, 7, 12, None));
    assert_eq!(lines[2], "      ".to_string() + "^^^^^");
    let mut other = located(2, 7, 12, None);
    if let Diagnostic::Located { exception_message, .. } = &mut other {
        *exception_message = "a much longer message than before".to_string();
    }
    assert_eq!(render(&other)[2], lines[2]);
}

#[test]
fn empty_column_range_still_gets_one_caret() {
    let lines = render(&located(3, 3, 1, None));
    assert_eq!(lines[2], "      ^");
}

#[test]
fn reversed_column_range_gets_one_caret() {
    let lines = render(&located(5, 2, 1, None));
    assert_eq!(lines[2], "        ^");
}

#[test]
fn missing_resource_name_and_line_default() {
    let d = build_diagnostic(Caught {
        exception: Some("ReferenceError: y is not defined".to_string()),
        message: Some(message(None, None, 0, 1, Some("y"))),
        stack_trace: None,
    });
    let lines = render(&d);
    assert_eq!(lines, vec![
        "(unknown):0:0: ReferenceError: y is not defined".to_string(),
        "0: y".to_string(),
        "   ^".to_string(),
    ]);
}

#[test]
fn missing_source_line_renders_empty_text() {
    let d = build_diagnostic(Caught {
        exception: Some("Error: x".to_string()),
        message: Some(message(Some("f.js"), Some(7), 0, 2, None)),
        stack_trace: None,
    });
    assert_eq!(render(&d)[1], "7: ");
}

#[test]
fn stack_trace_is_the_last_line() {
    let lines = render(&located(0, 1, 1, Some("at <anonymous>")));
    assert_eq!(lines.len(), 4);
    assert_eq!(lines[3], "at <anonymous>");
}

#[test]
fn multi_digit_line_number_widens_prefix() {
    let lines = render(&located(1, 3, 1234, None));
    assert_eq!(lines[0], "(shell):1234:1: SyntaxError: Unexpected token");
    assert_eq!(lines[1], "1234: let = 3");
    assert_eq!(lines[2], "       ^^");
}

#[test]
fn decimal_digits_are_written_in_order() {
    let mut s = String::from("n=");
    push_decimal(&mut s, 0);
    assert_eq!(s, "n=0");
    let mut t = String::new();
    push_decimal(&mut t, 9075);
    assert_eq!(t, "9075");
    let mut u = String::new();
    push_decimal(&mut u, usize::MAX);
    assert_eq!(u, usize::MAX.to_string());
}
