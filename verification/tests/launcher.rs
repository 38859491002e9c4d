use fsel::cli::enums::MatchMode;
use fsel::keys::LauncherKeyAction;
use fsel::launcher::{
    direct_launch_choice, filter_rows, launch_arguments, launcher_start, launcher_step, matches_row, shows_rows,
    LauncherAction, LauncherEvent,
};
use fsel::navigation::{ListCursor, MouseKind};

fn names(values: &[&str]) -> Vec<String> {
    values.iter().map(|value| value.to_string()).collect()
}

#[test]
fn fuzzy_matching_keeps_rows_holding_the_query_in_order() {
    let texts = names(&["Firefox", "File Manager", "Terminal"]);
    assert_eq!(filter_rows(&texts, "fi", MatchMode::Fuzzy), vec![0, 1]);
    assert_eq!(filter_rows(&texts, "fmr", MatchMode::Fuzzy), vec![1]);
    assert_eq!(filter_rows(&texts, "", MatchMode::Fuzzy), vec![0, 1, 2]);
    assert!(matches_row("Terminal", "TML", MatchMode::Fuzzy));
    assert!(!matches_row("Terminal", "lt", MatchMode::Fuzzy));
}

#[test]
fn exact_matching_keeps_rows_containing_the_query() {
    let texts = names(&["Firefox", "File Manager", "Terminal"]);
    assert_eq!(filter_rows(&texts, "fi", MatchMode::Exact), vec![0, 1]);
    assert_eq!(filter_rows(&texts, "fmr", MatchMode::Exact), Vec::<usize>::new());
    assert_eq!(filter_rows(&texts, "MANAGER", MatchMode::Exact), vec![1]);
}

#[test]
fn program_launch_prefers_the_exact_name_then_the_first_match() {
    let apps = names(&["Firefox Developer", "firefox", "Files"]);
    assert_eq!(direct_launch_choice(&apps, "FIREFOX", MatchMode::Fuzzy), Some(1));
    assert_eq!(direct_launch_choice(&apps, "fdev", MatchMode::Fuzzy), Some(0));
    assert_eq!(direct_launch_choice(&apps, "fdev", MatchMode::Exact), None);
    assert_eq!(direct_launch_choice(&apps, "zzz", MatchMode::Fuzzy), None);
}

#[test]
fn typing_filters_again_and_select_launches_the_selected_app() {
    let apps = names(&["Firefox", "File Manager", "Terminal"]);
    let mut state = launcher_start(&apps, "", MatchMode::Fuzzy);
    assert_eq!(state.shown, vec![0, 1, 2]);
    assert!(!shows_rows(true, &state));
    let step = |state: &mut _, event| launcher_step(state, event, &apps, MatchMode::Fuzzy, false, 10);
    assert_eq!(step(&mut state, LauncherEvent::Key(LauncherKeyAction::CharInput('t'))), LauncherAction::Continue);
    assert_eq!(state.shown, vec![2]);
    assert!(shows_rows(true, &state));
    assert_eq!(step(&mut state, LauncherEvent::Key(LauncherKeyAction::Backspace)), LauncherAction::Continue);
    assert_eq!(state.shown, vec![0, 1, 2]);
    assert_eq!(step(&mut state, LauncherEvent::Key(LauncherKeyAction::MoveDown)), LauncherAction::Continue);
    assert_eq!(state.cursor, ListCursor { selected: Some(1), scroll_offset: 0 });
    assert_eq!(step(&mut state, LauncherEvent::Key(LauncherKeyAction::Select)), LauncherAction::Launch(1));
    assert_eq!(step(&mut state, LauncherEvent::Mouse(Some(2), MouseKind::LeftDown)), LauncherAction::Launch(2));
    assert_eq!(step(&mut state, LauncherEvent::Key(LauncherKeyAction::Exit)), LauncherAction::Exit);
}

#[test]
fn launch_arguments_put_the_method_before_the_terminal_and_the_shell() {
    let command = "firefox --new-window";
    assert_eq!(
        launch_arguments(None, false, false, None, command),
        vec!["sh", "-c", "firefox --new-window"]
    );
    assert_eq!(
        launch_arguments(None, true, true, None, command),
        vec!["systemd-run", "--user", "--scope", "sh", "-c", "firefox --new-window"]
    );
    assert_eq!(
        launch_arguments(None, false, true, None, command),
        vec!["uwsm", "app", "--", "sh", "-c", "firefox --new-window"]
    );
    let prefix = vec!["runapp".to_string(), "--".to_string()];
    let terminal = vec!["kitty".to_string(), "-e".to_string()];
    assert_eq!(
        launch_arguments(Some(&prefix), true, false, Some(&terminal), "htop"),
        vec!["runapp", "--", "kitty", "-e", "sh", "-c", "htop"]
    );
}
