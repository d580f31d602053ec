use fixie::{
    decimal, highlight_fallback, render_building_screen, render_message,
    render_no_messages_screen, BuildCounts, Diagnostic, Frame, Severity, Tint,
};

const HELP: &str = "| h/← l/→ : navigate | i : toggle warnings | r : rebuild | q : quit";

fn footer(frame: &Frame) -> Vec<(String, Tint)> {
    frame.footer.iter().map(|label| (label.text.clone(), label.tint)).collect()
}

#[test]
fn decimal_matches_the_standard_formatting() {
    assert_eq!(decimal(0), "0");
    assert_eq!(decimal(7), "7");
    assert_eq!(decimal(9), "9");
    assert_eq!(decimal(10), "10");
    assert_eq!(decimal(42), "42");
    assert_eq!(decimal(100), "100");
    assert_eq!(decimal(1234567890), "1234567890");
    assert_eq!(decimal(usize::MAX), usize::MAX.to_string());
    for n in 0..2000usize {
        assert_eq!(decimal(n), n.to_string());
    }
}

#[test]
fn building_screen() {
    let frame = render_building_screen();
    assert_eq!(frame.title, "fixie");
    assert_eq!(frame.body, "Waiting for cargo build...");
    assert_eq!(frame.border, Tint::Plain);
    assert!(!frame.highlight);
    assert!(frame.footer.is_empty());
}

#[test]
fn no_messages_screen() {
    let frame = render_no_messages_screen();
    assert_eq!(frame.title, "fixie");
    assert_eq!(frame.body, "Build finished with no warnings or errors");
    assert_eq!(frame.border, Tint::Plain);
    assert!(!frame.highlight);
    assert!(frame.footer.is_empty());
}

#[test]
fn warning_screen() {
    let message = Diagnostic::new(Severity::Warning, "warning: unused\n".to_string(), 0);
    let counts = BuildCounts { warnings: 3, errors: 12, others: 0 };
    let frame = render_message(&message, 0, 15, counts, false);
    assert_eq!(frame.title, "WARNING [1/15]");
    assert_eq!(frame.border, Tint::Yellow);
    assert_eq!(frame.body, "warning: unused\n");
    assert!(frame.highlight);
    assert_eq!(
        footer(&frame),
        vec![
            ("WARN 3 ".to_string(), Tint::Yellow),
            ("ERR 12 ".to_string(), Tint::Red),
            ("OTH 0 ".to_string(), Tint::Blue),
            (" Ignore warnings: OFF ".to_string(), Tint::Plain),
            (HELP.to_string(), Tint::Plain),
        ]
    );
}

#[test]
fn error_screen_with_the_filter_on() {
    let message = Diagnostic::new(Severity::Error, "error[E0308]".to_string(), 4);
    let counts = BuildCounts { warnings: 1, errors: 2, others: 100 };
    let frame = render_message(&message, 1, 2, counts, true);
    assert_eq!(frame.title, "  ERROR [2/2]");
    assert_eq!(frame.border, Tint::Red);
    assert_eq!(frame.body, "error[E0308]");
    assert_eq!(
        footer(&frame),
        vec![
            ("WARN 1 ".to_string(), Tint::Yellow),
            ("ERR 2 ".to_string(), Tint::Red),
            ("OTH 100 ".to_string(), Tint::Blue),
            (" Ignore warnings: ON  ".to_string(), Tint::Plain),
            (HELP.to_string(), Tint::Plain),
        ]
    );
}

#[test]
fn other_screen() {
    let message = Diagnostic::new(Severity::Other, "note".to_string(), 9);
    let counts = BuildCounts { warnings: 0, errors: 0, others: 1 };
    let frame = render_message(&message, 9, 10, counts, false);
    assert_eq!(frame.title, "  OTHER [10/10]");
    assert_eq!(frame.border, Tint::Blue);
}

#[test]
fn fallback_names_the_error() {
    assert_eq!(
        highlight_fallback("Highlighting failed: bad regex"),
        "Error generating highlighted text:\nHighlighting failed: bad regex"
    );
    assert_eq!(highlight_fallback(""), "Error generating highlighted text:\n");
}
