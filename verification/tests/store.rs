use fixie::{
    control_tui, BuildCounts, Cli, Command, Diagnostic, FixieArgs, Key, MessageStore, Severity,
    Step,
};

fn sample() -> MessageStore {
    let mut store = MessageStore::new();
    store.append(Diagnostic::new(Severity::Warning, "w0".to_string(), 0));
    store.append(Diagnostic::new(Severity::Error, "e1".to_string(), 1));
    store.append(Diagnostic::new(Severity::Other, "o2".to_string(), 2));
    store.append(Diagnostic::new(Severity::Warning, "w3".to_string(), 3));
    store.append(Diagnostic::new(Severity::Error, "e4".to_string(), 4));
    store
}

fn sequences(items: &[Diagnostic]) -> Vec<u64> {
    items.iter().map(|d| d.sequence).collect()
}

#[test]
fn new_store_is_empty() {
    let store = MessageStore::new();
    assert_eq!(store.len(), 0);
    assert_eq!(store.counts(), BuildCounts { warnings: 0, errors: 0, others: 0 });
    assert!(store.get(0).is_none());
    assert!(store.filtered_view(false).is_empty());
    assert_eq!(store.filtered_len(true), 0);
    assert!(store.nth_filtered(false, 0).is_none());
}

#[test]
fn counts_add_up_after_every_append() {
    let mut store = MessageStore::new();
    let severities = [
        Severity::Warning,
        Severity::Error,
        Severity::Other,
        Severity::Error,
        Severity::Warning,
        Severity::Warning,
        Severity::Other,
    ];
    for (i, severity) in severities.iter().enumerate() {
        store.append(Diagnostic::new(*severity, format!("m{}", i), i as u64));
        let counts = store.counts();
        assert_eq!(counts.warnings + counts.errors + counts.others, store.len());
        assert_eq!(store.len(), i + 1);
    }
    assert_eq!(store.counts(), BuildCounts { warnings: 3, errors: 2, others: 2 });
}

#[test]
fn append_keeps_insertion_order() {
    let store = sample();
    assert_eq!(store.len(), 5);
    assert_eq!(store.get(0).unwrap().text, "w0");
    assert_eq!(store.get(4).unwrap().text, "e4");
    assert_eq!(store.get(2).unwrap().severity, Severity::Other);
    assert!(store.get(5).is_none());
    assert_eq!(store.counts(), BuildCounts { warnings: 2, errors: 2, others: 1 });
}

#[test]
fn filtered_view_hides_exactly_the_warnings() {
    let store = sample();
    let all = store.filtered_view(false);
    let shown = store.filtered_view(true);
    assert_eq!(sequences(&all), vec![0, 1, 2, 3, 4]);
    assert_eq!(sequences(&shown), vec![1, 2, 4]);
    assert!(shown.iter().all(|d| d.severity != Severity::Warning));
    let expected: Vec<u64> =
        all.iter().filter(|d| d.severity != Severity::Warning).map(|d| d.sequence).collect();
    assert_eq!(sequences(&shown), expected);
    assert_eq!(shown[0].text, "e1");
    assert_eq!(shown[1].text, "o2");
    assert_eq!(shown[2].text, "e4");
}

#[test]
fn filtered_len_matches_the_view() {
    let store = sample();
    assert_eq!(store.filtered_len(false), 5);
    assert_eq!(store.filtered_len(true), 3);
    assert_eq!(store.filtered_len(true), store.filtered_view(true).len());
}

#[test]
fn nth_filtered_indexes_the_view() {
    let store = sample();
    assert_eq!(store.nth_filtered(true, 0).unwrap().sequence, 1);
    assert_eq!(store.nth_filtered(true, 1).unwrap().sequence, 2);
    assert_eq!(store.nth_filtered(true, 2).unwrap().sequence, 4);
    assert!(store.nth_filtered(true, 3).is_none());
    assert_eq!(store.nth_filtered(false, 3).unwrap().sequence, 3);
    assert_eq!(store.nth_filtered(false, 0).unwrap().text, "w0");
    assert!(store.nth_filtered(false, 5).is_none());
}

#[test]
fn reset_discards_everything() {
    let mut store = sample();
    store.reset();
    assert_eq!(store.len(), 0);
    assert_eq!(store.counts(), BuildCounts { warnings: 0, errors: 0, others: 0 });
    assert!(store.filtered_view(false).is_empty());
    store.append(Diagnostic::new(Severity::Error, "again".to_string(), 0));
    assert_eq!(store.counts(), BuildCounts { warnings: 0, errors: 1, others: 0 });
}

#[test]
fn diagnostic_clone_keeps_the_fields() {
    let d = Diagnostic::new(Severity::Other, "note: see above".to_string(), 9);
    let copy = d.clone();
    assert_eq!(copy.severity, Severity::Other);
    assert_eq!(copy.text, "note: see above");
    assert_eq!(copy.sequence, 9);
}

#[test]
fn counts_zero_and_fields() {
    assert_eq!(BuildCounts::zero(), BuildCounts { warnings: 0, errors: 0, others: 0 });
}

#[test]
fn keys_map_to_commands() {
    assert_eq!(control_tui(Some(Key::Char('i'))), Command::ToggleFilter);
    assert_eq!(control_tui(Some(Key::Char('r'))), Command::Rebuild);
    assert_eq!(control_tui(Some(Key::Char('q'))), Command::Quit);
    for key in [Key::Char('j'), Key::Char('l'), Key::Down, Key::Right] {
        assert_eq!(control_tui(Some(key)), Command::Navigate(Step::Next));
    }
    for key in [Key::Char('k'), Key::Char('h'), Key::Up, Key::Left] {
        assert_eq!(control_tui(Some(key)), Command::Navigate(Step::Previous));
    }
}

#[test]
fn other_keys_and_timeouts_do_nothing() {
    assert_eq!(control_tui(None), Command::NoOp);
    assert_eq!(control_tui(Some(Key::Other)), Command::NoOp);
    for c in ['a', 'Q', 'I', 'R', 'J', ' ', '\n', '0'] {
        assert_eq!(control_tui(Some(Key::Char(c))), Command::NoOp);
    }
}

#[test]
fn default_arguments() {
    let args = FixieArgs::default();
    assert!(!args.ignore_warnings);
    assert_eq!(args.theme, "base16-ocean.dark");
    let args = FixieArgs::new(true, "InspiredGitHub".to_string());
    assert!(args.ignore_warnings);
    assert_eq!(args.theme, "InspiredGitHub");
    let cli = Cli::Fixie(args);
    assert!(cli.args().ignore_warnings);
    assert_eq!(cli.args().theme, "InspiredGitHub");
}

#[test]
fn unknown_theme_falls_back_to_the_default() {
    let args = FixieArgs::new(false, "Solarized (dark)".to_string());
    assert_eq!(args.effective_theme(true), "Solarized (dark)");
    assert_eq!(args.effective_theme(false), "base16-ocean.dark");
    assert_eq!(FixieArgs::default().effective_theme(false), "base16-ocean.dark");
    assert_eq!(FixieArgs::default().effective_theme(true), "base16-ocean.dark");
}
