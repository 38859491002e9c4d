//! Checks of the option set after parsing.
use crate::cli::enums::DesktopIconMode;
use crate::cli::options::{active_launch_method_count, launch_method_count, Opts};
use vstd::prelude::*;

verus! {

/// An error of the command line, with the message to print.
pub enum CliError {
    Message(String),
}

impl CliError {
    /// The message of this error.
    pub fn message(&self) -> (s: String)
        ensures
            self matches CliError::Message(m) && s@ == m@,
    {
        match self {
            CliError::Message(m) => m.clone(),
        }
    }
}

/// How many of the hidden-entry commands are requested.
pub open spec fn hidden_commands(o: Opts) -> int {
    (if o.list_hidden {
        1int
    } else {
        0
    }) + (if o.unhide is Some {
        1int
    } else {
        0
    }) + (if o.unhide_all {
        1int
    } else {
        0
    })
}

/// The launcher interface with its icons will be shown.
pub open spec fn uses_desktop_icons(o: Opts) -> bool {
    !o.dmenu_mode && !o.cclip_mode && !o.stdout && o.program is None && hidden_commands(o) == 0
        && !o.clear_history && !o.clear_cache && !o.refresh_cache
}

pub open spec fn tag_usage_message() -> Seq<char> {
    "Error: --tag requires --cclip mode\nUse one of these forms:\n  fsel --cclip --tag <name>\n  fsel --cclip --tag list\n  fsel --cclip --tag list <name>\n  fsel --cclip --tag clear\n  fsel --cclip --tag wipe\n"@
}

/// The problems checked before the dmenu mode settles its options: the
/// hidden-entry commands, the icon layout, `-p` with `-ss`, and the dmenu
/// mode's own conflicts.
#[verifier::opaque]
pub open spec fn early_error(o: Opts) -> Option<Seq<char>> {
    let hidden = hidden_commands(o);
    let icons = uses_desktop_icons(o);
    if hidden > 1 {
        Some("Error: --list-hidden, --unhide, and --unhide-all cannot be combined\n"@)
    } else if hidden > 0 && (o.clear_history || o.clear_cache || o.refresh_cache) {
        Some("Error: hidden-entry commands cannot be combined with cache/history maintenance\n"@)
    } else if hidden > 0 && (o.program is Some || o.search_string is Some) {
        Some("Error: hidden-entry commands cannot be combined with launch or search requests\n"@)
    } else if icons && (o.desktop_icon_mode == DesktopIconMode::Preview || o.desktop_icon_mode
        == DesktopIconMode::Both) && !(10 <= o.desktop_icon_preview_width_percent <= 90) {
        Some("Error: Desktop icon preview width must be between 10 and 90\n"@)
    } else if icons && o.desktop_icon_mode != DesktopIconMode::Off && (o.desktop_icon_size == 0
        || o.desktop_icon_size > 4096) {
        Some("Error: Desktop icon size must be between 1 and 4096\n"@)
    } else if icons && o.desktop_icon_mode != DesktopIconMode::Off && (
    o.desktop_icon_horizontal_align_percent > 100 || o.desktop_icon_vertical_align_percent > 100) {
        Some("Error: Desktop icon alignment must be between 0 and 100\n"@)
    } else if o.program is Some && o.search_string is Some {
        Some(
            "Error: Cannot use -p/--program and -ss together\nUse -p for direct launch or -ss for pre-filled TUI search\n"@,
        )
    } else if o.dmenu_mode && hidden > 0 {
        Some("Error: hidden-entry commands are only available in app-launcher mode\n"@)
    } else if o.dmenu_mode && o.program is Some {
        Some(
            "Error: --dmenu cannot be used with -p/--program\nDmenu mode reads from stdin and outputs to stdout\n"@,
        )
    } else {
        None
    }
}

/// The problems checked after the dmenu mode settled its options and
/// before the clipboard mode settles its own: the selection and index
/// options, and the clipboard mode's own conflicts.
#[verifier::opaque]
pub open spec fn middle_error(o: Opts) -> Option<Seq<char>> {
    let hidden = hidden_commands(o);
    if o.dmenu_select is Some && o.dmenu_select_index is Some {
        Some("Error: Cannot use --select and --select-index together\n"@)
    } else if o.dmenu_index_mode && o.dmenu_index_original_mode {
        Some("Error: Cannot use --index and --index-original together\n"@)
    } else if o.cclip_mode && hidden > 0 {
        Some("Error: hidden-entry commands are only available in app-launcher mode\n"@)
    } else if o.cclip_mode && o.program is Some {
        Some(
            "Error: --cclip cannot be used with -p/--program\nCclip mode browses clipboard history and copies selection\n"@,
        )
    } else {
        None
    }
}

/// The problems checked last: tag commands outside the clipboard mode,
/// both picker modes at once, and more than one launch method when
/// something is executed.
#[verifier::opaque]
pub open spec fn late_error(o: Opts, cli_launch_methods: usize) -> Option<Seq<char>> {
    if (o.cclip_tag is Some || o.cclip_tag_list || o.cclip_clear_tags || o.cclip_wipe_tags)
        && !o.cclip_mode {
        Some(tag_usage_message())
    } else if o.dmenu_mode && o.cclip_mode {
        Some("Error: --dmenu and --cclip cannot be used together\n"@)
    } else if !(o.no_exec || o.dmenu_mode || o.cclip_mode) && (cli_launch_methods > 1
        || launch_method_count(o) > 1) {
        Some(
            "Error: Only one launch method can be specified at a time\nAvailable methods: --launch-prefix, --systemd-run, --uwsm\n"@,
        )
    } else {
        None
    }
}

/// The first problem of the option set, in the order they are checked.
pub open spec fn validation_error(o: Opts, cli_launch_methods: usize) -> Option<Seq<char>> {
    match early_error(o) {
        Some(m) => Some(m),
        None => match middle_error(o) {
            Some(m) => Some(m),
            None => late_error(o, cli_launch_methods),
        },
    }
}

/// The options once the dmenu mode settled them: it never executes, and
/// prompt-only dmenu shows no line numbers.
#[verifier::opaque]
pub open spec fn dmenu_settled(o: Opts) -> Opts {
    Opts {
        no_exec: o.no_exec || o.dmenu_mode,
        dmenu_show_line_numbers: o.dmenu_show_line_numbers && !(o.dmenu_prompt_only
            && o.dmenu_mode),
        ..o
    }
}

/// The option set after a successful check: the dmenu and clipboard
/// modes never execute, and prompt-only dmenu shows no line numbers.
#[verifier::opaque]
pub open spec fn validated(o: Opts) -> Opts {
    Opts {
        no_exec: o.no_exec || o.dmenu_mode || o.cclip_mode,
        dmenu_show_line_numbers: o.dmenu_show_line_numbers && !(o.dmenu_prompt_only
            && o.dmenu_mode),
        ..o
    }
}

fn message(s: &str) -> (e: CliError)
    ensures
        e matches CliError::Message(m) && m@ == s@,
{
    CliError::Message(s.to_owned())
}

fn hidden_count(opts: &Opts) -> (n: usize)
    ensures
        n == hidden_commands(*opts),
{
    (if opts.list_hidden {
        1
    } else {
        0
    }) + (if opts.unhide.is_some() {
        1
    } else {
        0
    }) + (if opts.unhide_all {
        1
    } else {
        0
    })
}

/// The early problem of the options (see [`early_error`]).
fn early_problem(opts: &Opts) -> (r: Option<CliError>)
    ensures
        match early_error(*opts) {
            Some(m) => r matches Some(CliError::Message(e)) && e@ == m,
            None => r is None,
        },
{
    reveal(early_error);
    let hidden = hidden_count(opts);
    if hidden > 1 {
        return Some(message("Error: --list-hidden, --unhide, and --unhide-all cannot be combined\n"));
    }
    if hidden > 0 && (opts.clear_history || opts.clear_cache || opts.refresh_cache) {
        return Some(
            message(
                "Error: hidden-entry commands cannot be combined with cache/history maintenance\n",
            ),
        );
    }
    if hidden > 0 && (opts.program.is_some() || opts.search_string.is_some()) {
        return Some(
            message(
                "Error: hidden-entry commands cannot be combined with launch or search requests\n",
            ),
        );
    }
    let icons = !opts.dmenu_mode && !opts.cclip_mode && !opts.stdout && opts.program.is_none()
        && hidden == 0 && !opts.clear_history && !opts.clear_cache && !opts.refresh_cache;
    if icons && opts.desktop_icon_mode.shows_preview() && !(10
        <= opts.desktop_icon_preview_width_percent && opts.desktop_icon_preview_width_percent
        <= 90) {
        return Some(message("Error: Desktop icon preview width must be between 10 and 90\n"));
    }
    let icons_on = opts.desktop_icon_mode != DesktopIconMode::Off;
    if icons && icons_on && (opts.desktop_icon_size == 0 || opts.desktop_icon_size > 4096) {
        return Some(message("Error: Desktop icon size must be between 1 and 4096\n"));
    }
    if icons && icons_on && (opts.desktop_icon_horizontal_align_percent > 100
        || opts.desktop_icon_vertical_align_percent > 100) {
        return Some(message("Error: Desktop icon alignment must be between 0 and 100\n"));
    }
    if opts.program.is_some() && opts.search_string.is_some() {
        return Some(
            message(
                "Error: Cannot use -p/--program and -ss together\nUse -p for direct launch or -ss for pre-filled TUI search\n",
            ),
        );
    }
    if opts.dmenu_mode {
        if hidden > 0 {
            return Some(
                message("Error: hidden-entry commands are only available in app-launcher mode\n"),
            );
        }
        if opts.program.is_some() {
            return Some(
                message(
                    "Error: --dmenu cannot be used with -p/--program\nDmenu mode reads from stdin and outputs to stdout\n",
                ),
            );
        }
    }
    None
}

/// The middle problem of the options (see [`middle_error`]).
fn middle_problem(opts: &Opts) -> (r: Option<CliError>)
    ensures
        match middle_error(*opts) {
            Some(m) => r matches Some(CliError::Message(e)) && e@ == m,
            None => r is None,
        },
{
    reveal(middle_error);
    let hidden = hidden_count(opts);
    if opts.dmenu_select.is_some() && opts.dmenu_select_index.is_some() {
        return Some(message("Error: Cannot use --select and --select-index together\n"));
    }
    if opts.dmenu_index_mode && opts.dmenu_index_original_mode {
        return Some(message("Error: Cannot use --index and --index-original together\n"));
    }
    if opts.cclip_mode {
        if hidden > 0 {
            return Some(
                message("Error: hidden-entry commands are only available in app-launcher mode\n"),
            );
        }
        if opts.program.is_some() {
            return Some(
                message(
                    "Error: --cclip cannot be used with -p/--program\nCclip mode browses clipboard history and copies selection\n",
                ),
            );
        }
    }
    None
}

/// The late problem of the options (see [`late_error`]).
fn late_problem(opts: &Opts, cli_launch_methods: usize) -> (r: Option<CliError>)
    ensures
        match late_error(*opts, cli_launch_methods) {
            Some(m) => r matches Some(CliError::Message(e)) && e@ == m,
            None => r is None,
        },
{
    reveal(late_error);
    if (opts.cclip_tag.is_some() || opts.cclip_tag_list || opts.cclip_clear_tags
        || opts.cclip_wipe_tags) && !opts.cclip_mode {
        return Some(
            message(
                "Error: --tag requires --cclip mode\nUse one of these forms:\n  fsel --cclip --tag <name>\n  fsel --cclip --tag list\n  fsel --cclip --tag list <name>\n  fsel --cclip --tag clear\n  fsel --cclip --tag wipe\n",
            ),
        );
    }
    if opts.dmenu_mode && opts.cclip_mode {
        return Some(message("Error: --dmenu and --cclip cannot be used together\n"));
    }
    let no_exec = opts.no_exec || opts.dmenu_mode || opts.cclip_mode;
    let active = active_launch_method_count(opts);
    if !no_exec && (cli_launch_methods > 1 || active > 1) {
        return Some(
            message(
                "Error: Only one launch method can be specified at a time\nAvailable methods: --launch-prefix, --systemd-run, --uwsm\n",
            ),
        );
    }
    None
}

/// Settles what the dmenu mode implies (see [`dmenu_settled`]).
fn settle_dmenu(opts: &mut Opts)
    ensures
        *final(opts) == dmenu_settled(*old(opts)),
{
    let no_exec = opts.no_exec || opts.dmenu_mode;
    let show = opts.dmenu_show_line_numbers && !(opts.dmenu_prompt_only && opts.dmenu_mode);
    let mut taken = Opts::default();
    std::mem::swap(&mut taken, opts);
    *opts = Opts { no_exec, dmenu_show_line_numbers: show, ..taken };
    proof {
        reveal(validated);
        reveal(dmenu_settled);
    }
}

/// Settles what both picker modes imply (see [`validated`]).
fn settle_modes(opts: &mut Opts)
    ensures
        *final(opts) == validated(*old(opts)),
{
    let no_exec = opts.no_exec || opts.dmenu_mode || opts.cclip_mode;
    let show = opts.dmenu_show_line_numbers && !(opts.dmenu_prompt_only && opts.dmenu_mode);
    let mut taken = Opts::default();
    std::mem::swap(&mut taken, opts);
    *opts = Opts { no_exec, dmenu_show_line_numbers: show, ..taken };
    proof {
        reveal(validated);
        reveal(dmenu_settled);
    }
}

/// Checks the options and settles what the modes imply, in the order the
/// rules are checked: the dmenu mode settles its options after the early
/// problems, the clipboard mode after the middle ones. `Ok(true)` asks to
/// warn that `--no-exec` overrides the chosen launch method. On an error
/// the options stay as far as they were settled: untouched after an early
/// problem, settled by the dmenu mode after a middle one, settled by both
/// modes after a late one.
pub fn validate(opts: &mut Opts, cli_launch_methods: usize) -> (r: Result<bool, CliError>)
    ensures
        match validation_error(*old(opts), cli_launch_methods) {
            Some(m) => r matches Err(CliError::Message(e)) && e@ == m,
            None => r == Ok::<bool, CliError>(
                validated(*old(opts)).no_exec && launch_method_count(*old(opts)) > 0,
            ),
        },
        early_error(*old(opts)) is Some ==> *final(opts) == *old(opts),
        early_error(*old(opts)) is None && middle_error(*old(opts)) is Some ==> *final(opts)
            == dmenu_settled(*old(opts)),
        early_error(*old(opts)) is None && middle_error(*old(opts)) is None ==> *final(opts)
            == validated(*old(opts)),
{
    match early_problem(opts) {
        Some(e) => return Err(e),
        None => {},
    }
    match middle_problem(opts) {
        Some(e) => {
            settle_dmenu(opts);
            return Err(e);
        },
        None => {},
    }
    let active = active_launch_method_count(opts);
    let late = late_problem(opts, cli_launch_methods);
    settle_modes(opts);
    match late {
        Some(e) => return Err(e),
        None => {},
    }
    Ok(opts.no_exec && active > 0)
}

/// The rules the usage notes promise: only one launch method may be
/// chosen unless nothing is executed; the dmenu and clipboard modes imply
/// `--no-exec` and exclude each other; `--select` and `--select-index`
/// exclude each other; tag commands need the clipboard mode.
pub proof fn lemma_usage_rules(o: Opts, cli_launch_methods: usize)
    ensures
        (o.dmenu_mode || o.cclip_mode) ==> validated(o).no_exec,
        !(o.no_exec || o.dmenu_mode || o.cclip_mode) && (cli_launch_methods > 1
            || launch_method_count(o) > 1) ==> validation_error(o, cli_launch_methods) is Some,
        o.dmenu_mode && o.cclip_mode ==> validation_error(o, cli_launch_methods) is Some,
        o.dmenu_select is Some && o.dmenu_select_index is Some ==> validation_error(
            o,
            cli_launch_methods,
        ) is Some,
        (o.cclip_tag is Some || o.cclip_tag_list || o.cclip_clear_tags || o.cclip_wipe_tags)
            && !o.cclip_mode ==> validation_error(o, cli_launch_methods) is Some,
{
    reveal(validated);
    reveal(early_error);
    reveal(middle_error);
    reveal(late_error);
}

} // verus!
