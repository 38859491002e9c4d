use fsel::desktop::discover::{
    apps_from_desktop_file, attach_desktop_id, components, desktop_file_id,
    desktop_id_component, desktop_names, executable_app, path_executable_apps,
    should_keep_for_desktop, DiscoverOptions,
};

fn bytes(s: &str) -> Vec<u8> {
    s.as_bytes().to_vec()
}

#[test]
fn desktop_file_id_uses_the_relative_path() {
    let root = bytes("/usr/share/applications");
    let nested = bytes("/usr/share/applications/vendor/editor.desktop");

    assert_eq!(
        desktop_file_id(&vec![root], &nested).as_deref(),
        Some("vendor-editor.desktop")
    );
}

#[test]
fn desktop_file_id_escapes_non_utf8_components_without_collisions() {
    let root = bytes("/usr/share/applications");
    let mut first = bytes("/usr/share/applications/");
    first.extend_from_slice(&[0xfe, b'.', b'd', b'e', b's', b'k', b't', b'o', b'p']);
    let mut second = bytes("/usr/share/applications/");
    second.extend_from_slice(&[0xff, b'.', b'd', b'e', b's', b'k', b't', b'o', b'p']);
    let escaped_literal = bytes("/usr/share/applications/%00fe2e6465736b746f70");

    let dirs = vec![root];
    let first_id = desktop_file_id(&dirs, &first).expect("first ID should be available");
    let second_id = desktop_file_id(&dirs, &second).expect("second ID should be available");
    let literal_id =
        desktop_file_id(&dirs, &escaped_literal).expect("literal ID should be available");

    assert_ne!(first_id, second_id);
    assert_ne!(first_id, literal_id);
    assert_eq!(first_id, "%00fe2e6465736b746f70");
    assert_eq!(literal_id, "%2500fe2e6465736b746f70");
}

#[test]
fn desktop_file_id_needs_a_matching_root() {
    let dirs = vec![bytes("/opt/apps"), bytes("/usr/share/applications/")];
    assert_eq!(
        desktop_file_id(&dirs, &bytes("/usr/share/applications//kde/./org.kde.foo.desktop"))
            .as_deref(),
        Some("kde-org.kde.foo.desktop")
    );
    assert_eq!(desktop_file_id(&dirs, &bytes("/usr/share/app/x.desktop")), None);
    assert_eq!(desktop_file_id(&dirs, &bytes("/opt/appsx/y.desktop")), None);
    assert_eq!(desktop_id_component(&bytes("50%")), "50%25");
}

#[test]
fn path_components_follow_the_root_and_current_directory() {
    assert_eq!(
        components(b"/a//b/./c/"),
        vec![bytes("/"), bytes("a"), bytes("b"), bytes("c")]
    );
    assert_eq!(components(b"./a"), vec![bytes("."), bytes("a")]);
    assert_eq!(components(b".hidden/x"), vec![bytes(".hidden"), bytes("x")]);
    assert_eq!(components(b""), Vec::<Vec<u8>>::new());
}

#[test]
fn current_desktop_names_split_at_colons() {
    assert_eq!(desktop_names("GNOME:Unity"), vec!["GNOME", "Unity"]);
    assert_eq!(desktop_names("KDE"), vec!["KDE"]);
    assert_eq!(desktop_names("a::b"), vec!["a", "", "b"]);
}

#[test]
fn desktop_filters_compare_names_ignoring_ascii_case() {
    let mut app = executable_app(&bytes("/usr/bin/tool"), "tool");
    assert!(should_keep_for_desktop(&app, None));
    let kde = vec!["kde".to_string()];
    assert!(should_keep_for_desktop(&app, Some(&kde)));
    app.not_show_in = vec!["KDE".to_string()];
    assert!(!should_keep_for_desktop(&app, Some(&kde)));
    app.not_show_in = Vec::new();
    app.only_show_in = vec!["GNOME".to_string()];
    assert!(!should_keep_for_desktop(&app, Some(&kde)));
    let both = vec!["kde".to_string(), "gnome".to_string()];
    assert!(should_keep_for_desktop(&app, Some(&both)));
    assert!(should_keep_for_desktop(&app, None));
}

#[test]
fn executables_become_plain_entries() {
    let app = executable_app(&bytes("/usr/bin/tool"), "tool");
    assert_eq!(app.name, "tool");
    assert_eq!(app.command, "/usr/bin/tool");
    assert_eq!(app.description, "Executable: tool");
    assert_eq!(app.categories, vec!["Executable".to_string()]);
    assert_eq!(app.entry_type, "Application");
    assert_eq!(app.source_path, Some(bytes("/usr/bin/tool")));
    assert!(!app.is_terminal);
}

#[test]
fn attached_ids_mark_desktop_actions() {
    let dirs = vec![bytes("/usr/share/applications")];
    let file = bytes("/usr/share/applications/editor.desktop");
    let mut app = executable_app(&bytes("/usr/bin/editor"), "editor");
    attach_desktop_id(&mut app, &dirs, &file, Some("new-window"));
    assert_eq!(app.desktop_id.as_deref(), Some("editor.desktop#new-window"));
    assert_eq!(app.source_path, Some(file.clone()));
    let mut outside = executable_app(&bytes("/usr/bin/editor"), "editor");
    attach_desktop_id(&mut outside, &dirs, &bytes("/tmp/editor.desktop"), None);
    assert_eq!(outside.desktop_id, None);
    assert_eq!(outside.source_path, Some(bytes("/tmp/editor.desktop")));
}

const EDITOR_WITH_ACTION: &str = "[Desktop Entry]\nType=Application\nName=Editor\nExec=/usr/bin/editor\nActions=OpenWindow;\n\n[Desktop Action OpenWindow]\nName=Open Window\nExec=/usr/bin/editor --new-window\n";

fn discover_options(filter_actions: bool, auto_hide_duplicates: bool) -> DiscoverOptions {
    DiscoverOptions {
        filter_desktop: false,
        filter_actions,
        list_executables: false,
        auto_hide_duplicates,
    }
}

fn names_from(contents: &str, filter_actions: bool) -> Vec<String> {
    let dirs = vec![bytes("/tmp/apps")];
    let apps = apps_from_desktop_file(
        contents,
        &bytes("/tmp/apps/editor.desktop"),
        &dirs,
        discover_options(filter_actions, false),
        None,
        &Vec::new(),
    );
    apps.into_iter().map(|app| app.name).collect()
}

#[test]
fn read_with_options_filters_desktop_actions_when_requested() {
    let names = names_from(EDITOR_WITH_ACTION, true);

    assert_eq!(names, vec!["Editor".to_string()]);
}

#[test]
fn read_with_options_keeps_desktop_actions_when_disabled() {
    let mut names = names_from(EDITOR_WITH_ACTION, false);
    names.sort();

    assert_eq!(
        names,
        vec!["Editor".to_string(), "Editor (Open Window)".to_string()]
    );
}

#[test]
fn desktop_actions_inherit_the_parent_icon_when_unspecified() {
    let contents = "[Desktop Entry]\nType=Application\nName=Editor\nExec=editor\nIcon=editor\nActions=New;\n\n[Desktop Action New]\nName=New\nExec=editor --new\n";
    let apps = apps_from_desktop_file(
        contents,
        &bytes("/tmp/apps/editor.desktop"),
        &vec![bytes("/tmp/apps")],
        discover_options(false, false),
        None,
        &Vec::new(),
    );
    let action = apps
        .iter()
        .find(|app| app.name == "Editor (New)")
        .expect("desktop action should be discovered");

    assert_eq!(action.icon.as_deref(), Some("editor"));
    assert_eq!(action.desktop_id.as_deref(), Some("editor.desktop#New"));
}

#[test]
fn automatic_discovery_keeps_hidden_tombstones_for_resolution() {
    let contents = "[Desktop Entry]\nType=Application\nName=Editor\nHidden=true\n";
    let dirs = vec![bytes("/tmp/apps")];
    let file = bytes("/tmp/apps/editor.desktop");
    let apps = apps_from_desktop_file(
        contents,
        &file,
        &dirs,
        discover_options(false, true),
        None,
        &Vec::new(),
    );

    assert_eq!(apps.len(), 1);
    assert!(apps[0].hidden);
    let skipped =
        apps_from_desktop_file(contents, &file, &dirs, discover_options(false, false), None, &Vec::new());
    assert!(skipped.is_empty());
}

#[test]
fn files_without_a_desktop_entry_section_contribute_nothing() {
    let apps = apps_from_desktop_file(
        "[Other]\nType=Application\nName=Editor\nExec=editor\n",
        &bytes("/tmp/apps/editor.desktop"),
        &vec![bytes("/tmp/apps")],
        discover_options(false, false),
        None,
        &Vec::new(),
    );
    assert!(apps.is_empty());
}

#[test]
fn entries_hidden_on_the_current_desktop_are_left_out() {
    let contents = "[Desktop Entry]\nType=Application\nName=Editor\nExec=editor\nOnlyShowIn=KDE;\n";
    let dirs = vec![bytes("/tmp/apps")];
    let file = bytes("/tmp/apps/editor.desktop");
    let gnome = vec!["GNOME".to_string()];
    let kde = vec!["kde".to_string()];
    let options = discover_options(false, false);
    assert!(apps_from_desktop_file(contents, &file, &dirs, options, Some(&gnome), &Vec::new()).is_empty());
    let shown = apps_from_desktop_file(contents, &file, &dirs, options, Some(&kde), &Vec::new());
    assert_eq!(shown.len(), 1);
    assert_eq!(shown[0].source_path.as_deref(), Some(file.as_slice()));
}

#[test]
fn path_executables_are_listed_once_by_name() {
    let candidates = vec![
        (bytes("/usr/bin/ls"), "ls".to_string(), true),
        (bytes("/usr/bin/notes.txt"), "notes.txt".to_string(), false),
        (bytes("/bin/ls"), "ls".to_string(), true),
        (bytes("/bin/cat"), "cat".to_string(), true),
    ];
    let apps = path_executable_apps(&candidates);
    let names: Vec<&str> = apps.iter().map(|app| app.name.as_str()).collect();
    assert_eq!(names, vec!["ls", "cat"]);
    assert_eq!(apps[0].command, "/usr/bin/ls");
}
