use fsel::cli::arguments::{classify, CliArg, CliCommand, CliOption};
use fsel::cli::options::Opts;
use fsel::cli::parse::{collect_args, find_config_path, parse_with_config, split_search};
use fsel::cli::validate::CliError;
use fsel::config::schema::FselConfig;

fn args(values: &[&str]) -> Vec<String> {
    values.iter().map(|value| value.to_string()).collect()
}

#[test]
fn short_help_returns_command_without_exiting() {
    let command = parse_with_config(&args(&["fsel", "-h"]), FselConfig::default()).ok().unwrap();
    assert!(matches!(command, CliCommand::PrintShortHelp { .. }));
}

#[test]
fn version_returns_command_without_exiting() {
    let command =
        parse_with_config(&args(&["fsel", "--version"]), FselConfig::default()).ok().unwrap();
    assert!(matches!(command, CliCommand::PrintVersion));
}

#[test]
fn invalid_tag_mode_returns_typed_error() {
    let error = parse_with_config(&args(&["fsel", "--tag", "list"]), FselConfig::default())
        .err()
        .unwrap();
    assert!(
        matches!(error, CliError::Message(message) if message.contains("--tag requires --cclip mode"))
    );
}

#[test]
fn tag_list_does_not_consume_following_flag_as_tag_name() {
    let command = parse_with_config(
        &args(&["fsel", "--cclip", "--tag", "list", "--help"]),
        FselConfig::default(),
    )
    .ok()
    .unwrap();

    assert!(matches!(command, CliCommand::PrintLongHelp { .. }));
}

#[test]
fn filter_actions_flag_parses_yes_and_no_forms() {
    let enabled = parse_with_config(&args(&["fsel", "--filter-actions"]), FselConfig::default())
        .ok()
        .unwrap();
    let disabled = parse_with_config(
        &args(&["fsel", "--filter-actions=no"]),
        FselConfig::default(),
    )
    .ok()
    .unwrap();

    let CliCommand::Run(enabled_opts) = enabled else {
        panic!("expected run command");
    };
    let CliCommand::Run(disabled_opts) = disabled else {
        panic!("expected run command");
    };

    let enabled_opts: Box<Opts> = enabled_opts;
    let disabled_opts: Box<Opts> = disabled_opts;
    assert!(enabled_opts.filter_actions);
    assert!(!disabled_opts.filter_actions);
}

#[test]
fn auto_hide_duplicates_flag_parses_yes_and_no_forms() {
    let enabled = parse_with_config(
        &args(&["fsel", "--auto-hide-duplicates"]),
        FselConfig::default(),
    )
    .ok()
    .unwrap();
    let disabled = parse_with_config(
        &args(&["fsel", "--auto-hide-duplicates=no"]),
        FselConfig::default(),
    )
    .ok()
    .unwrap();

    let CliCommand::Run(enabled_opts) = enabled else {
        panic!("expected run command");
    };
    let CliCommand::Run(disabled_opts) = disabled else {
        panic!("expected run command");
    };

    assert!(enabled_opts.auto_hide_duplicates);
    assert!(!disabled_opts.auto_hide_duplicates);
}

#[test]
fn hidden_entry_management_flags_parse() {
    let command = parse_with_config(&args(&["fsel", "--unhide", "42"]), FselConfig::default())
        .ok()
        .unwrap();
    let CliCommand::Run(opts) = command else {
        panic!("expected run command");
    };

    assert_eq!(opts.unhide, Some(42));
}

#[test]
fn hidden_entry_management_flags_are_mutually_exclusive() {
    let error = parse_with_config(
        &args(&["fsel", "--list-hidden", "--unhide-all"]),
        FselConfig::default(),
    )
    .err()
    .unwrap();

    assert!(
        matches!(error, CliError::Message(message) if message.contains("cannot be combined"))
    );
}

#[test]
fn hidden_entry_management_does_not_silently_ignore_launch_requests() {
    let error = parse_with_config(
        &args(&["fsel", "--unhide", "42", "--program", "firefox"]),
        FselConfig::default(),
    )
    .err()
    .unwrap();

    assert!(
        matches!(error, CliError::Message(message) if message.contains("launch or search"))
    );
}

#[test]
fn preview_flag_enables_dmenu_mode_and_preserves_command() {
    let command = parse_with_config(
        &args(&["fsel", "--preview", "cat {}"]),
        FselConfig::default(),
    )
    .ok()
    .unwrap();

    let CliCommand::Run(opts) = command else {
        panic!("expected run command");
    };
    assert!(opts.dmenu_mode);
    assert_eq!(opts.dmenu_preview.as_deref(), Some("cat {}"));
}

#[test]
fn unknown_options_suggest_the_intended_one() {
    let error = parse_with_config(&args(&["fsel", "--clip"]), FselConfig::default())
        .err()
        .unwrap();
    assert!(error.message().starts_with("Error: Unknown option '--clip'. Did you mean '--cclip'?"));
    let error = parse_with_config(&args(&["fsel", "-P"]), FselConfig::default()).err().unwrap();
    assert!(error.message().contains("Did you mean '-p' for --program?"));
    assert!(parse_with_config(&args(&["fsel", "stray"]), FselConfig::default()).is_err());
    let error = parse_with_config(&args(&["fsel", "--unhide", "x"]), FselConfig::default())
        .err()
        .unwrap();
    assert_eq!(error.message(), "Hidden entry ID must be an integer");
}

#[test]
fn search_shortcut_and_program_name_select_modes() {
    let command = parse_with_config(
        &args(&["fsel-dmenu", "-d", "-ss", "two", "words"]),
        FselConfig::default(),
    )
    .ok()
    .unwrap();
    let CliCommand::Run(opts) = command else {
        panic!("expected run command");
    };
    assert!(opts.dmenu_mode);
    assert!(opts.detach);
    assert!(opts.no_exec);
    assert_eq!(opts.search_string.as_deref(), Some("two words"));

    let (parser_args, search) = split_search(&args(&["fsel", "-v", "-ss", "a"]));
    assert_eq!(parser_args, vec!["-v"]);
    assert_eq!(search.as_deref(), Some("a"));
    assert_eq!(
        find_config_path(&args(&["fsel", "-v", "--config", "/tmp/x.toml"])).as_deref(),
        Some("/tmp/x.toml")
    );
    assert_eq!(find_config_path(&args(&["fsel", "-c"])), None);
    assert_eq!(collect_args(Vec::new()), vec!["fsel"]);
}

#[test]
fn options_with_values_update_the_run() {
    let command = parse_with_config(
        &args(&[
            "fsel",
            "-vv",
            "--match-mode",
            "EXACT",
            "--with-nth",
            "1, 3",
            "--panel",
            "log:left:20:tail {}",
            "--launch-prefix",
            "runapp --",
            "--desktop-icons=list",
            "--icon-list-vertical-align",
            "-35",
        ]),
        FselConfig::default(),
    )
    .ok()
    .unwrap();
    let CliCommand::Run(opts) = command else {
        panic!("expected run command");
    };
    assert_eq!(opts.verbose, Some(2));
    assert_eq!(opts.match_mode, fsel::cli::enums::MatchMode::Exact);
    assert_eq!(opts.dmenu_with_nth, Some(vec![1, 3]));
    assert_eq!(opts.dmenu_panels.len(), 1);
    assert!(opts.dmenu_mode);
    assert_eq!(
        opts.launch_prefix,
        Some(vec!["runapp".to_string(), "--".to_string()])
    );
    assert_eq!(opts.desktop_icon_mode, fsel::cli::enums::DesktopIconMode::List);
    assert_eq!(opts.desktop_icon_list_vertical_align_percent, -35);
}

#[test]
fn tag_list_takes_a_separate_tag_name() {
    let result = parse_with_config(&args(&["fsel", "--cclip", "--tag", "list", "work"]), FselConfig::default());
    match result {
        Ok(CliCommand::Run(opts)) => {
            assert!(opts.cclip_tag_list);
            assert_eq!(opts.cclip_tag.as_deref(), Some("work"));
        }
        _ => panic!("the tag name should be read"),
    }
}

#[test]
fn long_option_names_read_as_their_options() {
    assert!(matches!(classify(CliArg::Long("version".to_string())), CliOption::Version));
    assert!(matches!(classify(CliArg::Long("help".to_string())), CliOption::LongHelp));
    assert!(matches!(classify(CliArg::Long("unhide".to_string())), CliOption::Unhide));
    assert!(matches!(classify(CliArg::Long("unhide-all".to_string())), CliOption::UnhideAll));
    assert!(matches!(classify(CliArg::Long("panel".to_string())), CliOption::Panel));
    assert!(matches!(
        classify(CliArg::Long("versions".to_string())),
        CliOption::UnknownLong(name) if name == "versions"
    ));
}

#[test]
fn a_stray_argument_is_reported_with_its_debug_text() {
    let error = parse_with_config(&args(&["fsel", "stray"]), FselConfig::default())
        .err()
        .expect("positional arguments are rejected");
    assert_eq!(error.message(), "unexpected argument \"stray\"");
}
