use fsel::cli::enums::DesktopIconMode;
use fsel::cli::options::Opts;
use fsel::cli::validate::validate;

#[test]
fn reject_both_index_modes() {
    let mut cli = Opts {
        dmenu_index_mode: true,
        dmenu_index_original_mode: true,
        ..Default::default()
    };

    let result = validate(&mut cli, 0);
    assert!(
        result
            .err()
            .expect("both index modes should be rejected")
            .message()
            .contains("Cannot use --index and --index-original")
    );
}

#[test]
fn disabled_icon_layout_ignores_unused_dimensions() {
    let mut options = Opts {
        desktop_icon_mode: DesktopIconMode::Off,
        desktop_icon_preview_width_percent: 0,
        desktop_icon_size: 0,
        ..Opts::default()
    };

    assert!(validate(&mut options, 0).is_ok());
}

#[test]
fn active_icon_layout_rejects_alignment_over_one_hundred() {
    let mut options = Opts {
        desktop_icon_horizontal_align_percent: 101,
        ..Opts::default()
    };

    let error = validate(&mut options, 0).err().expect("alignment should be rejected");
    assert!(error.message().contains("alignment must be between 0 and 100"));
}

#[test]
fn non_launcher_modes_ignore_launcher_icon_dimensions() {
    for mut options in [
        Opts {
            dmenu_mode: true,
            desktop_icon_preview_width_percent: 0,
            desktop_icon_size: 0,
            ..Opts::default()
        },
        Opts {
            cclip_mode: true,
            desktop_icon_preview_width_percent: 0,
            desktop_icon_size: 0,
            ..Opts::default()
        },
        Opts {
            program: Some("true".to_string()),
            desktop_icon_preview_width_percent: 0,
            desktop_icon_size: 0,
            ..Opts::default()
        },
        Opts {
            stdout: true,
            desktop_icon_preview_width_percent: 0,
            desktop_icon_size: 0,
            ..Opts::default()
        },
    ] {
        assert!(validate(&mut options, 0).is_ok());
    }
}

#[test]
fn modes_that_never_launch_set_no_exec() {
    let mut options = Opts {
        dmenu_mode: true,
        dmenu_prompt_only: true,
        dmenu_show_line_numbers: true,
        systemd_run: true,
        ..Opts::default()
    };
    assert_eq!(validate(&mut options, 0).ok(), Some(true));
    assert!(options.no_exec);
    assert!(!options.dmenu_show_line_numbers);

    let mut launcher = Opts { systemd_run: true, uwsm: true, ..Opts::default() };
    let error = validate(&mut launcher, 0).err().expect("two launch methods");
    assert!(error.message().starts_with("Error: Only one launch method"));
    assert!(!launcher.no_exec);

    let mut tagged = Opts { cclip_tag_list: true, ..Opts::default() };
    assert!(validate(&mut tagged, 0)
        .err()
        .expect("tags need the clipboard mode")
        .message()
        .contains("--tag requires --cclip mode"));
}

#[test]
fn a_failed_check_keeps_what_the_modes_settled_before_it() {
    // An early problem stops the check before anything is settled.
    let mut early = Opts {
        dmenu_mode: true,
        dmenu_prompt_only: true,
        dmenu_show_line_numbers: true,
        program: Some("firefox".to_string()),
        ..Opts::default()
    };
    assert!(validate(&mut early, 0).is_err());
    assert!(!early.no_exec);
    assert!(early.dmenu_show_line_numbers);

    // The dmenu mode has settled its options when --select and
    // --select-index are rejected.
    let mut middle = Opts {
        dmenu_mode: true,
        dmenu_prompt_only: true,
        dmenu_show_line_numbers: true,
        dmenu_select: Some("a".to_string()),
        dmenu_select_index: Some(1),
        ..Opts::default()
    };
    assert!(validate(&mut middle, 0).is_err());
    assert!(middle.no_exec);
    assert!(!middle.dmenu_show_line_numbers);

    // Both modes have settled when they are rejected together.
    let mut late = Opts { dmenu_mode: true, cclip_mode: true, ..Opts::default() };
    let error = validate(&mut late, 0).err().expect("both modes");
    assert!(error.message().contains("cannot be used together"));
    assert!(late.no_exec);
}
