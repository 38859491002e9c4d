use fsel::desktop::parse::locales_from_env;
use fsel::desktop::app::App;
use fsel::desktop::entry::LocalizedField;
use fsel::desktop::parse::{Action, DesktopEntryError};

fn chars(s: &str) -> Vec<char> {
    s.chars().collect()
}

fn no_locales() -> Vec<String> {
    Vec::new()
}

#[test]
fn parse_strips_exec_field_codes() {
    let app = App::parse(
        "[Desktop Entry]\nType=Application\nName=Editor\nExec=/usr/bin/editor %F %u\nComment=Editor",
        false,
        &no_locales(),
    )
    .expect("desktop entry should parse");

    assert_eq!(app.command, "/usr/bin/editor");
}

#[test]
fn hidden_tombstone_can_omit_exec_when_requested_by_discovery() {
    let app = App::parse_including_hidden(
        "[Desktop Entry]\nType=Application\nName=Override\nHidden=true",
        false,
        &no_locales(),
    )
    .expect("hidden tombstone should parse");

    assert!(app.hidden);
    assert!(app.command.is_empty());
    assert!(
        App::parse(
            "[Desktop Entry]\nType=Application\nName=Override\nHidden=true",
            false,
            &no_locales(),
        )
        .is_err()
    );
}

#[test]
fn parse_unescapes_icon_strings() {
    let app = App::parse(
        "[Desktop Entry]\nType=Application\nName=Editor\nExec=/usr/bin/editor\nIcon=/opt/My\\sApp/icon.png",
        false,
        &no_locales(),
    )
    .expect("desktop entry should parse");

    assert_eq!(app.icon.as_deref(), Some("/opt/My App/icon.png"));
}

#[test]
fn parse_action_uses_action_section_name() {
    let action = Action::new().name("OpenWindow").from("Editor");
    let app = App::parse_action(
        "[Desktop Entry]\nType=Application\nName=Editor\nExec=/usr/bin/editor\nActions=OpenWindow;\n\n[Desktop Action OpenWindow]\nName=Open Window\nExec=/usr/bin/editor --new-window",
        &action,
        false,
        &no_locales(),
    )
    .expect("desktop action should parse");

    assert_eq!(app.name, "Editor (Open Window)");
    assert_eq!(app.command, "/usr/bin/editor --new-window");
}

#[test]
fn parse_allows_no_display_when_desktop_filter_is_disabled() {
    let app = App::parse(
        "[Desktop Entry]\nType=Application\nName=Hidden Tool\nExec=/usr/bin/hidden-tool\nNoDisplay=true",
        false,
        &no_locales(),
    )
    .expect("NoDisplay entries should still parse when desktop filtering is disabled");

    assert_eq!(app.name, "Hidden Tool");
}

#[test]
fn localized_field_prefers_more_specific_locale_over_file_order() {
    let locales = vec!["en_US".to_string(), "en".to_string()];
    let mut field = LocalizedField::new();

    field.set(&chars("Name[en_US]"), &chars("US English"), &locales);
    field.set(&chars("Name[en]"), &chars("English"), &locales);
    field.set(&chars("Name"), &chars("Fallback"), &locales);

    assert_eq!(field.into_value().as_deref(), Some("US English"));
}

#[test]
fn malformed_localized_key_falls_back_without_panicking() {
    let app = App::parse(
        "[Desktop Entry]\nType=Application\nName[en_US=Broken\nName=Fallback\nExec=/usr/bin/fallback",
        false,
        &no_locales(),
    )
    .expect("desktop entry should parse even with malformed localized key");

    assert_eq!(app.name, "Fallback");
}

#[test]
fn parse_action_with_empty_from_avoids_leading_space() {
    let action = Action::new().name("Open").from("");
    let app = App::parse_action(
        "[Desktop Entry]\nType=Application\nName=Editor\nExec=/usr/bin/editor\nActions=Open;\n\n[Desktop Action Open]\nName=Open\nExec=/usr/bin/editor --open",
        &action,
        false,
        &no_locales(),
    )
    .expect("desktop action should parse");

    assert_eq!(app.name, "Open");
}

#[test]
fn parse_reports_each_rejection() {
    assert_eq!(
        App::parse("[Desktop Entry]\nType=Link\nName=Site\nExec=x", false, &no_locales()).err(),
        Some(DesktopEntryError::NotApplication)
    );
    assert_eq!(
        App::parse("[Desktop Entry]\nName=Tool", false, &no_locales()).err(),
        Some(DesktopEntryError::MissingExec)
    );
    assert_eq!(
        App::parse("[Desktop Entry]\nName=Tool\nExec=tool\nNoDisplay=true", true, &no_locales())
            .err(),
        Some(DesktopEntryError::Hidden)
    );
    assert_eq!(
        App::parse_action("[Desktop Entry]\nExec=x", &Action::new(), false, &no_locales()).err(),
        Some(DesktopEntryError::EmptyAction)
    );
    assert_eq!(DesktopEntryError::MissingExec.message(), "Missing required Exec field");
}

#[test]
fn parse_reads_lists_and_localized_names() {
    let locales = vec!["de_DE".to_string(), "de".to_string()];
    let app = App::parse(
        "# comment\n[Desktop Entry]\nName=Files\nName[de]=Dateien\nExec=files\nKeywords=a; b ;;c\nCategories=Utility;\nTerminal=TRUE\n[Other]\nName=Ignored",
        false,
        &locales,
    )
    .expect("desktop entry should parse");

    assert_eq!(app.name, "Dateien");
    assert_eq!(app.keywords, vec!["a", "b", "c"]);
    assert_eq!(app.categories, vec!["Utility"]);
    assert!(app.is_terminal);
    assert_eq!(app.entry_type, "Application");
}

#[test]
fn locales_come_from_the_first_set_locale_variable() {
    assert_eq!(
        locales_from_env(None, None, Some("de_DE.UTF-8")),
        vec!["de_DE".to_string(), "de".to_string()]
    );
    assert_eq!(
        locales_from_env(Some("fr"), Some("de_DE"), Some("en_US")),
        vec!["fr".to_string()]
    );
    assert_eq!(
        locales_from_env(None, Some("pt_BR@euro"), None),
        vec!["pt_BR@euro".to_string(), "pt".to_string()]
    );
    assert!(locales_from_env(None, None, None).is_empty());
    assert!(locales_from_env(Some("POSIX"), None, Some("de_DE")).is_empty());
}
