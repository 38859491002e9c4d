use fsel::icons::chain::{theme_chain, ThemeParents, MAX_THEME_DEPTH};
use fsel::icons::index::{DirectoryKind, ThemeDirectory};
use fsel::icons::lookup::{
    best_candidate, extension_rank, has_icon_name, icon_request, parse_directory_size,
    strip_icon_extension, IconCandidate, IconRequest,
};
use fsel::icons::theme::{detect_icon_theme, find_setting, join_path, theme_settings};

#[test]
fn exact_fixed_size_outranks_scalable_range() {
    let fixed = ThemeDirectory {
        path: "128x128/apps".to_string(),
        size: Some(128),
        scale: 1,
        kind: DirectoryKind::Fixed,
    };
    let scalable = ThemeDirectory {
        path: "scalable/apps".to_string(),
        size: Some(48),
        scale: 1,
        kind: DirectoryKind::Scalable {
            minimum: 16,
            maximum: 256,
        },
    };

    assert!(fixed.score(128) < scalable.score(128));
}

#[test]
fn scale_is_applied_to_fixed_directory_size() {
    let high_dpi = ThemeDirectory {
        path: "64x64@2/apps".to_string(),
        size: Some(64),
        scale: 2,
        kind: DirectoryKind::Fixed,
    };

    assert_eq!(high_dpi.score(128), (0, 0));
}

#[test]
fn reads_kde_icon_theme_only_from_icons_section() {
    let contents = "[General]\nTheme=Wrong\n[Icons]\nTheme=Breeze-Dark\n";

    assert_eq!(
        find_setting(contents, Some("Icons"), "Theme").as_deref(),
        Some("Breeze-Dark")
    );
}

#[test]
fn reads_quoted_gtk_icon_theme() {
    let contents = "[Settings]\ngtk-icon-theme-name = 'Papirus-Dark'\n";

    assert_eq!(
        find_setting(contents, None, "gtk-icon-theme-name").as_deref(),
        Some("Papirus-Dark")
    );
}

#[test]
fn rejects_relative_icon_paths() {
    assert!(matches!(icon_request("../outside"), IconRequest::Rejected));
    assert!(matches!(icon_request("folder/icon"), IconRequest::Rejected));
    assert!(matches!(icon_request("folder\\icon"), IconRequest::Rejected));
}

#[test]
fn absolute_icon_values_are_kept_whole() {
    match icon_request("/opt/app/icon.png") {
        IconRequest::Absolute(path) => assert_eq!(path, "/opt/app/icon.png"),
        _ => panic!("absolute path expected"),
    }
}

#[test]
fn icon_names_lose_a_known_extension() {
    match icon_request("editor.svgz") {
        IconRequest::Named(name) => assert_eq!(name, "editor"),
        _ => panic!("icon name expected"),
    }
    assert_eq!(strip_icon_extension("editor.png"), "editor");
    assert_eq!(strip_icon_extension("editor.xpm"), "editor");
    assert_eq!(strip_icon_extension("editor.ico"), "editor.ico");
    assert_eq!(strip_icon_extension("org.app.Editor"), "org.app.Editor");
}

#[test]
fn extension_rank_prefers_png_then_svg() {
    assert_eq!(extension_rank("/icons/a/editor.png"), 0);
    assert_eq!(extension_rank("/icons/a/editor.svg"), 1);
    assert_eq!(extension_rank("/icons/a/editor.svgz"), 1);
    assert_eq!(extension_rank("/icons/a/editor.xpm"), 2);
    assert_eq!(extension_rank("/icons/a.png/editor"), 2);
    assert_eq!(extension_rank("/icons/a/.png"), 2);
}

#[test]
fn icon_name_matches_stem_and_known_extension() {
    assert!(has_icon_name("/t/48x48/apps/editor.png", "editor"));
    assert!(has_icon_name("/t/scalable/apps/editor.svgz", "editor"));
    assert!(!has_icon_name("/t/48x48/apps/editor.ico", "editor"));
    assert!(!has_icon_name("/t/48x48/apps/editor-beta.png", "editor"));
    assert!(!has_icon_name("/t/48x48/apps/editor", "editor"));
    assert!(has_icon_name("/t/apps/org.app.Editor.svg", "org.app.Editor"));
}

#[test]
fn directory_sizes_come_from_the_leading_number() {
    assert_eq!(parse_directory_size("48x48"), Some(48));
    assert_eq!(parse_directory_size("64x64@2"), Some(64));
    assert_eq!(parse_directory_size("256"), Some(256));
    assert_eq!(parse_directory_size("scalable"), None);
    assert_eq!(parse_directory_size("x48"), None);
    assert_eq!(parse_directory_size("70000x70000"), None);
}

#[test]
fn fallback_candidates_measure_distance_from_the_first_sized_directory() {
    let near = IconCandidate::from_fallback("/usr/share/icons/T/32x32/apps/e.png".to_string(), 48, 1);
    assert_eq!(near.directory_score, (16, 3));
    assert_eq!(near.root_rank, 1);
    let no_size = IconCandidate::from_fallback("/usr/share/icons/T/apps/e.png".to_string(), 48, 0);
    assert_eq!(no_size.directory_score, (u32::MAX / 2, 3));
    assert_eq!(no_size.score(), (u32::MAX / 2, 3, 0, 0));
}

#[test]
fn best_candidate_takes_the_first_lowest_score() {
    let make = |path: &str, distance: u32, kind: u8, root: usize| IconCandidate {
        path: path.to_string(),
        directory_score: (distance, kind),
        root_rank: root,
    };
    assert_eq!(best_candidate(Vec::new()), None);
    let chosen = best_candidate(vec![
        make("a/editor.svg", 0, 0, 0),
        make("b/editor.png", 0, 0, 0),
        make("c/editor.png", 0, 0, 0),
        make("d/editor.png", 4, 0, 0),
    ]);
    assert_eq!(chosen.as_deref(), Some("b/editor.png"));
    let by_root = best_candidate(vec![
        make("user/editor.svg", 0, 0, 0),
        make("system/editor.png", 0, 0, 1),
    ]);
    assert_eq!(by_root.as_deref(), Some("user/editor.svg"));
}

#[test]
fn detects_lxqt_theme_from_system_config_dirs() {
    let root = b"/etc/xdg".to_vec();
    let settings = theme_settings(None, None, &vec![root]);
    let paths: Vec<String> = settings
        .iter()
        .map(|s| String::from_utf8(s.path.clone()).unwrap())
        .collect();
    assert_eq!(
        paths,
        vec![
            "/etc/xdg/gtk-4.0/settings.ini",
            "/etc/xdg/gtk-3.0/settings.ini",
            "/etc/xdg/kdeglobals",
            "/etc/xdg/lxqt/lxqt.conf",
        ]
    );
    let contents = vec![None, None, None, Some("[General]\nicon_theme=Breeze\n".to_string())];

    assert_eq!(detect_icon_theme(&settings, &contents).as_deref(), Some("Breeze"));
}

#[test]
fn user_settings_come_before_gtk2_and_system_settings() {
    let settings = theme_settings(
        Some(&b"/home/u/.config/".to_vec()),
        Some(&b"/home/u".to_vec()),
        &vec![b"/etc/xdg".to_vec()],
    );
    assert_eq!(settings.len(), 9);
    assert_eq!(settings[0].path, b"/home/u/.config/gtk-4.0/settings.ini".to_vec());
    assert_eq!(settings[2].section, Some("Icons"));
    assert_eq!(settings[4].path, b"/home/u/.gtkrc-2.0".to_vec());
    assert_eq!(settings[4].key, "gtk-icon-theme-name");
    let mut contents: Vec<Option<String>> = vec![None; 9];
    contents[4] = Some("gtk-icon-theme-name=\"Adwaita\"\n".to_string());
    contents[8] = Some("[General]\nicon_theme=Breeze\n".to_string());
    assert_eq!(detect_icon_theme(&settings, &contents).as_deref(), Some("Adwaita"));
    contents[4] = Some("[Other]\n".to_string());
    assert_eq!(detect_icon_theme(&settings, &contents).as_deref(), Some("Breeze"));
    assert_eq!(join_path(&Vec::new(), "x"), b"x".to_vec());
}

fn parents(theme: &str, inherits: &[&str]) -> ThemeParents {
    ThemeParents {
        theme: theme.to_string(),
        inherits: inherits.iter().map(|s| s.to_string()).collect(),
    }
}

#[test]
fn inherited_themes_are_traversed_depth_first() {
    let table = vec![
        parents("Selected", &["A", "B"]),
        parents("A", &["C"]),
        parents("B", &[]),
        parents("C", &[]),
    ];
    assert_eq!(
        theme_chain(&table, "Selected"),
        vec!["Selected", "A", "C", "B", "hicolor"]
    );
}

#[test]
fn hicolor_is_appended_after_the_inheritance_depth_cap() {
    let mut table = Vec::new();
    for index in 0..MAX_THEME_DEPTH {
        let inherits = if index + 1 < MAX_THEME_DEPTH {
            vec![format!("Theme{}", index + 1)]
        } else {
            Vec::new()
        };
        table.push(ThemeParents {
            theme: format!("Theme{index}"),
            inherits,
        });
    }
    let chain = theme_chain(&table, "Theme0");
    assert_eq!(chain.len(), MAX_THEME_DEPTH + 1);
    assert_eq!(chain.last().map(String::as_str), Some("hicolor"));
}

#[test]
fn first_theme_metadata_controls_inheritance() {
    let table = vec![
        parents("Selected", &["UserParent"]),
        parents("Selected", &["SystemParent"]),
    ];
    assert_eq!(
        theme_chain(&table, "Selected"),
        vec!["Selected", "UserParent", "hicolor"]
    );
}

#[test]
fn cycles_and_hicolor_are_not_repeated() {
    let table = vec![
        parents("A", &["B", "hicolor"]),
        parents("B", &["A"]),
    ];
    assert_eq!(theme_chain(&table, "A"), vec!["A", "B", "hicolor"]);
}
