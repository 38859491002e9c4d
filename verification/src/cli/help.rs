//! The usage summaries printed by `-h` and `--help`.
use vstd::prelude::*;

verus! {

/// The summary printed by `-h`, for the program named `program`.
pub open spec fn short_usage_text(program: Seq<char>) -> Seq<char> {
    "fsel — Fast terminal application launcher\n"@
        + "Usage:\n"@
        + "  "@
        + program
        + " [OPTIONS]\n"@
        + "\n"@
        + "├─ Core Modes\n"@
        + "│  ├─ -p, --program <NAME>         Launch one app immediately; exact mode refuses near matches\n"@
        + "│  ├─ --dmenu                      Read choices from stdin and print the selection\n"@
        + "│  └─ --cclip                      Browse clipboard history and copy the selection\n"@
        + "│\n"@
        + "├─ Common Flags\n"@
        + "│  ├─ -c, --config <FILE>          Read config from FILE instead of ~/.config/fsel/config.toml\n"@
        + "│  ├─ -r, --replace                Replace an existing fsel/cclip instance before starting\n"@
        + "│  ├─ -d, --detach                 Start launched apps without keeping this terminal attached\n"@
        + "│  ├─ -t, --tty                    Run terminal apps in this TTY instead of a terminal launcher\n"@
        + "│  ├─ -v, --verbose                Print more diagnostics; repeat as -vv or -vvv for more detail\n"@
        + "│  ├─ -T, --test                   Enable debug logging and imply maximum verbosity\n"@
        + "│  └─ -ss <SEARCH>                 Pre-fill the search box; place this last on the command line\n"@
        + "│\n"@
        + "├─ Launch Methods\n"@
        + "│  ├─ --no-exec                    Print the selected item instead of launching it\n"@
        + "│  ├─ --launch-prefix <CMD>        Prefix launches with a custom command such as 'runapp --'\n"@
        + "│  ├─ --systemd-run                Launch through systemd-run --user --scope\n"@
        + "│  └─ --uwsm                       Launch through uwsm app --\n"@
        + "│\n"@
        + "├─ App Launcher Extras\n"@
        + "│  ├─ --clear-history              Delete launch history, then exit\n"@
        + "│  ├─ --clear-cache                Delete the desktop entry cache, then exit\n"@
        + "│  ├─ --refresh-cache              Rescan desktop entries before showing results\n"@
        + "│  ├─ --list-hidden                List manually hidden launcher entries, then exit\n"@
        + "│  ├─ --unhide <ID>                Restore one manually hidden entry, then exit\n"@
        + "│  ├─ --unhide-all                 Restore every manually hidden entry, then exit\n"@
        + "│  ├─ --filter-desktop[=no]        Respect OnlyShowIn/NotShowIn; pass =no to ignore them\n"@
        + "│  ├─ --filter-actions[=no]        Hide desktop actions; pass =no to keep entries like new window\n"@
        + "│  ├─ --auto-hide-duplicates[=no]  Suppress duplicate IDs/names using XDG source precedence\n"@
        + "│  ├─ --hide-before-typing         Keep the list hidden until you type the first character\n"@
        + "│  ├─ --stdout                     Print filtered desktop entries to stdout in json form\n"@
        + "│  ├─ --list-executables-in-path   Include executables from $PATH in launcher mode\n"@
        + "│  ├─ --desktop-icons[=MODE]       Use preview, list, both, or none (default: preview)\n"@
        + "│  ├─ --icon-position <POSITION>   Place the preview left, center, or right\n"@
        + "│  ├─ --icon-arrow-before          Put the selection arrow before a left list icon\n"@
        + "│  ├─ --icon-list-gap <N>          Add 0-16 columns between each icon and label\n"@
        + "│  ├─ --icon-list-vertical-align <N>  Offset artwork; negatives overflow upward (-100 to 100)\n"@
        + "│  ├─ --icon-horizontal-align <N>  Align icon content from left (0) to right (100)\n"@
        + "│  ├─ --icon-vertical-align <N>    Align preview artwork top (0) to bottom (100)\n"@
        + "│  ├─ --icon-theme <THEME>         Override automatic desktop icon-theme detection\n"@
        + "│  ├─ --match-mode <MODE>          Choose fuzzy or exact matching\n"@
        + "│  └─ --prefix-depth <N>           Tune how long prefix matches outrank fuzzy matches\n"@
        + "│\n"@
        + "├─ Mode-Specific Flags\n"@
        + "│  ├─ Dmenu: --dmenu0 --password[=CHAR] --index --with-nth --accept-nth\n"@
        + "│  ├─        --match-nth --delimiter --only-match --exit-if-empty\n"@
        + "│  ├─        --select --select-index --auto-select --prompt-only --preview\n"@
        + "│  └─ Cclip: --tag <NAME|list|clear|wipe> --cclip-show-tag-color-names\n"@
        + "│\n"@
        + "└─ Help\n"@
        + "   ├─ -h                           Show this summary\n"@
        + "   ├─ -H, --help                   Show the full option tree with notes\n"@
        + "   └─ -V, --version                Print the version and exit\n"@
}

/// The summary printed by `-h` (see [`short_usage_text`]).
pub fn short_usage(program_name: &str) -> (s: String)
    ensures
        s@ == short_usage_text(program_name@),
{
    let mut s = String::from_str("fsel — Fast terminal application launcher\n");
    s.append("Usage:\n");
    s.append("  ");
    s.append(program_name);
    s.append(" [OPTIONS]\n");
    s.append("\n");
    s.append("├─ Core Modes\n");
    s.append("│  ├─ -p, --program <NAME>         Launch one app immediately; exact mode refuses near matches\n");
    s.append("│  ├─ --dmenu                      Read choices from stdin and print the selection\n");
    s.append("│  └─ --cclip                      Browse clipboard history and copy the selection\n");
    s.append("│\n");
    s.append("├─ Common Flags\n");
    s.append("│  ├─ -c, --config <FILE>          Read config from FILE instead of ~/.config/fsel/config.toml\n");
    s.append("│  ├─ -r, --replace                Replace an existing fsel/cclip instance before starting\n");
    s.append("│  ├─ -d, --detach                 Start launched apps without keeping this terminal attached\n");
    s.append("│  ├─ -t, --tty                    Run terminal apps in this TTY instead of a terminal launcher\n");
    s.append("│  ├─ -v, --verbose                Print more diagnostics; repeat as -vv or -vvv for more detail\n");
    s.append("│  ├─ -T, --test                   Enable debug logging and imply maximum verbosity\n");
    s.append("│  └─ -ss <SEARCH>                 Pre-fill the search box; place this last on the command line\n");
    s.append("│\n");
    s.append("├─ Launch Methods\n");
    s.append("│  ├─ --no-exec                    Print the selected item instead of launching it\n");
    s.append("│  ├─ --launch-prefix <CMD>        Prefix launches with a custom command such as 'runapp --'\n");
    s.append("│  ├─ --systemd-run                Launch through systemd-run --user --scope\n");
    s.append("│  └─ --uwsm                       Launch through uwsm app --\n");
    s.append("│\n");
    s.append("├─ App Launcher Extras\n");
    s.append("│  ├─ --clear-history              Delete launch history, then exit\n");
    s.append("│  ├─ --clear-cache                Delete the desktop entry cache, then exit\n");
    s.append("│  ├─ --refresh-cache              Rescan desktop entries before showing results\n");
    s.append("│  ├─ --list-hidden                List manually hidden launcher entries, then exit\n");
    s.append("│  ├─ --unhide <ID>                Restore one manually hidden entry, then exit\n");
    s.append("│  ├─ --unhide-all                 Restore every manually hidden entry, then exit\n");
    s.append("│  ├─ --filter-desktop[=no]        Respect OnlyShowIn/NotShowIn; pass =no to ignore them\n");
    s.append("│  ├─ --filter-actions[=no]        Hide desktop actions; pass =no to keep entries like new window\n");
    s.append("│  ├─ --auto-hide-duplicates[=no]  Suppress duplicate IDs/names using XDG source precedence\n");
    s.append("│  ├─ --hide-before-typing         Keep the list hidden until you type the first character\n");
    s.append("│  ├─ --stdout                     Print filtered desktop entries to stdout in json form\n");
    s.append("│  ├─ --list-executables-in-path   Include executables from $PATH in launcher mode\n");
    s.append("│  ├─ --desktop-icons[=MODE]       Use preview, list, both, or none (default: preview)\n");
    s.append("│  ├─ --icon-position <POSITION>   Place the preview left, center, or right\n");
    s.append("│  ├─ --icon-arrow-before          Put the selection arrow before a left list icon\n");
    s.append("│  ├─ --icon-list-gap <N>          Add 0-16 columns between each icon and label\n");
    s.append("│  ├─ --icon-list-vertical-align <N>  Offset artwork; negatives overflow upward (-100 to 100)\n");
    s.append("│  ├─ --icon-horizontal-align <N>  Align icon content from left (0) to right (100)\n");
    s.append("│  ├─ --icon-vertical-align <N>    Align preview artwork top (0) to bottom (100)\n");
    s.append("│  ├─ --icon-theme <THEME>         Override automatic desktop icon-theme detection\n");
    s.append("│  ├─ --match-mode <MODE>          Choose fuzzy or exact matching\n");
    s.append("│  └─ --prefix-depth <N>           Tune how long prefix matches outrank fuzzy matches\n");
    s.append("│\n");
    s.append("├─ Mode-Specific Flags\n");
    s.append("│  ├─ Dmenu: --dmenu0 --password[=CHAR] --index --with-nth --accept-nth\n");
    s.append("│  ├─        --match-nth --delimiter --only-match --exit-if-empty\n");
    s.append("│  ├─        --select --select-index --auto-select --prompt-only --preview\n");
    s.append("│  └─ Cclip: --tag <NAME|list|clear|wipe> --cclip-show-tag-color-names\n");
    s.append("│\n");
    s.append("└─ Help\n");
    s.append("   ├─ -h                           Show this summary\n");
    s.append("   ├─ -H, --help                   Show the full option tree with notes\n");
    s.append("   └─ -V, --version                Print the version and exit\n");
    s
}

/// The full option tree printed by `--help`, for the program named `program`.
pub open spec fn detailed_usage_text(program: Seq<char>) -> Seq<char> {
    "fsel — Fast terminal application launcher\n"@
        + "Usage:\n"@
        + "  "@
        + program
        + " [OPTIONS]\n"@
        + "\n"@
        + "├─ Core Modes\n"@
        + "│  ├─ -p, --program <NAME>         Launch one app immediately; exact mode requires an exact hit\n"@
        + "│  ├─ --cclip                      Browse clipboard history and copy the selected item\n"@
        + "│  └─ --dmenu                      Read choices from stdin and print the selection to stdout\n"@
        + "│\n"@
        + "├─ Startup and Output\n"@
        + "│  ├─ -c, --config <FILE>          Read config from FILE before applying CLI overrides\n"@
        + "│  ├─ -r, --replace                Replace an existing fsel/cclip instance before starting\n"@
        + "│  ├─ -d, --detach                 Start launched GUI apps without keeping this terminal attached\n"@
        + "│  ├─ -t, --tty                    Run terminal apps in this TTY and replace the fsel process\n"@
        + "│  ├─ -v, --verbose                Print more diagnostics; repeat as -vv or -vvv for more detail\n"@
        + "│  ├─ -T, --test                   Enable debug logging, write logs under ~/.config/fsel/logs/, and imply -vvv\n"@
        + "│  ├─ --stdout                     Print filtered desktop entries to stdout in json form\n"@
        + "│  ├─ --no-exec                    Print the selected item instead of launching it\n"@
        + "│  └─ -ss <SEARCH>                 Pre-fill the search box; place this last so it captures the rest\n"@
        + "│\n"@
        + "├─ Launch Methods\n"@
        + "│  ├─ --launch-prefix <CMD>        Prefix launches with a custom command such as 'runapp --'\n"@
        + "│  ├─ --systemd-run                Launch through systemd-run --user --scope\n"@
        + "│  └─ --uwsm                       Launch through uwsm app --\n"@
        + "│\n"@
        + "├─ App Launcher Tuning\n"@
        + "│  ├─ --clear-history              Delete launch history, then exit\n"@
        + "│  ├─ --clear-cache                Delete the desktop entry cache, then exit\n"@
        + "│  ├─ --refresh-cache              Rescan desktop entries before showing results\n"@
        + "│  ├─ --list-hidden                List manually hidden launcher entries, then exit\n"@
        + "│  ├─ --unhide <ID>                Restore one manually hidden entry, then exit\n"@
        + "│  ├─ --unhide-all                 Restore every manually hidden entry, then exit\n"@
        + "│  ├─ --filter-desktop[=no]        Respect OnlyShowIn/NotShowIn; pass =no to ignore them\n"@
        + "│  ├─ --filter-actions[=no]        Hide desktop actions; pass =no to keep entries like new window\n"@
        + "│  ├─ --auto-hide-duplicates[=no]  Suppress duplicate IDs/names using XDG source precedence\n"@
        + "│  ├─ --hide-before-typing         Keep the list hidden until you type the first character\n"@
        + "│  ├─ --list-executables-in-path   Include executables from $PATH in launcher mode\n"@
        + "│  ├─ --desktop-icons[=MODE]       Use preview, list, both, or none (default: preview)\n"@
        + "│  ├─ --icon-position <POSITION>   Put the preview left, center, or right\n"@
        + "│  ├─ --icon-preview-width <N>     Give the icon 10-90 percent of the title panel\n"@
        + "│  ├─ --icon-list-width <N>        Reserve 1-16 terminal columns for each list icon\n"@
        + "│  ├─ --icon-list-height <N>       Give each icon/list row 1-8 terminal rows\n"@
        + "│  ├─ --icon-list-gap <N>          Add 0-16 columns between each icon and label\n"@
        + "│  ├─ --icon-list-vertical-align <N>  Offset artwork; negatives overflow upward (-100 to 100)\n"@
        + "│  ├─ --icon-arrow-before          Put the selection arrow before a left list icon\n"@
        + "│  ├─ --icon-size <PX>             Request a themed icon size from 1-4096 pixels\n"@
        + "│  ├─ --icon-horizontal-align <N>  Align icon content from left (0) to right (100)\n"@
        + "│  ├─ --icon-vertical-align <N>    Align preview artwork top (0) to bottom (100)\n"@
        + "│  ├─ --icon-theme <THEME>         Override automatic desktop icon-theme detection\n"@
        + "│  ├─ --match-mode <MODE>          Choose fuzzy or exact matching (default: fuzzy)\n"@
        + "│  └─ --prefix-depth <N>           Set how long prefix matches outrank fuzzy matches (default: 3)\n"@
        + "│\n"@
        + "├─ Dmenu Mode Options\n"@
        + "│  ├─ --dmenu0                     Read NUL-separated input instead of newline-separated input\n"@
        + "│  ├─ --password[=CHAR]            Mask typed input; optionally choose the mask character\n"@
        + "│  ├─ --index                      Print the selected row index instead of the row text\n"@
        + "│  ├─ --index-original             Print the absolute original row index instead of the row text\n"@
        + "│  ├─ --with-nth <COLS>            Show only these 1-based columns (example: 1,3)\n"@
        + "│  ├─ --accept-nth <COLS>          Print only these columns after selection\n"@
        + "│  ├─ --match-nth <COLS>           Search only within these columns\n"@
        + "│  ├─ --delimiter <CHAR>           Split columns on CHAR instead of spaces\n"@
        + "│  ├─ --only-match                 Reject custom text and require a selection from stdin\n"@
        + "│  ├─ --exit-if-empty              Quit immediately when stdin provides no items\n"@
        + "│  ├─ --select <STRING>            Start with the first matching row preselected\n"@
        + "│  ├─ --select-index <N>           Start with row N preselected\n"@
        + "│  ├─ --auto-select                Accept automatically when the filtered list reaches one row\n"@
        + "│  ├─ --prompt-only                Show only the input prompt and hide the list pane\n"@
        + "│  └─ --preview <COMMAND>          Preview the selected row; supports {}, {q}, and {n}\n"@
        + "│\n"@
        + "├─ Clipboard Mode Options\n"@
        + "│  ├─ --tag <NAME>                 Show only clipboard entries tagged NAME\n"@
        + "│  ├─ --tag list                   List known tags, then exit\n"@
        + "│  ├─ --tag list <NAME>            List clipboard entries carrying NAME, then exit\n"@
        + "│  ├─ --tag clear                  Remove stored tag metadata\n"@
        + "│  ├─ --tag wipe                   Remove all tags from every clipboard entry\n"@
        + "│  └─ --cclip-show-tag-color-names Show tag color names next to tags in cclip mode\n"@
        + "│\n"@
        + "├─ General\n"@
        + "│  ├─ -h                           Show the short summary\n"@
        + "│  ├─ -H, --help                   Show this full option tree\n"@
        + "│  └─ -V, --version                Print the version and exit\n"@
        + "│\n"@
        + "└─ Notes\n"@
        + "   ├─ Pick only one launch method: --launch-prefix, --systemd-run, or --uwsm\n"@
        + "   ├─ --dmenu and --cclip both imply --no-exec\n"@
        + "   ├─ --preview implies --dmenu and renders text or image bytes from command stdout\n"@
        + "   ├─ --program respects --match-mode: exact requires an exact app or executable name\n"@
        + "   ├─ --select and --select-index cannot be combined\n"@
        + "   └─ Default config path: ~/.config/fsel/config.toml\n"@
}

/// The full option tree printed by `--help` (see [`detailed_usage_text`]).
pub fn detailed_usage(program_name: &str) -> (s: String)
    ensures
        s@ == detailed_usage_text(program_name@),
{
    let mut s = String::from_str("fsel — Fast terminal application launcher\n");
    s.append("Usage:\n");
    s.append("  ");
    s.append(program_name);
    s.append(" [OPTIONS]\n");
    s.append("\n");
    s.append("├─ Core Modes\n");
    s.append("│  ├─ -p, --program <NAME>         Launch one app immediately; exact mode requires an exact hit\n");
    s.append("│  ├─ --cclip                      Browse clipboard history and copy the selected item\n");
    s.append("│  └─ --dmenu                      Read choices from stdin and print the selection to stdout\n");
    s.append("│\n");
    s.append("├─ Startup and Output\n");
    s.append("│  ├─ -c, --config <FILE>          Read config from FILE before applying CLI overrides\n");
    s.append("│  ├─ -r, --replace                Replace an existing fsel/cclip instance before starting\n");
    s.append("│  ├─ -d, --detach                 Start launched GUI apps without keeping this terminal attached\n");
    s.append("│  ├─ -t, --tty                    Run terminal apps in this TTY and replace the fsel process\n");
    s.append("│  ├─ -v, --verbose                Print more diagnostics; repeat as -vv or -vvv for more detail\n");
    s.append("│  ├─ -T, --test                   Enable debug logging, write logs under ~/.config/fsel/logs/, and imply -vvv\n");
    s.append("│  ├─ --stdout                     Print filtered desktop entries to stdout in json form\n");
    s.append("│  ├─ --no-exec                    Print the selected item instead of launching it\n");
    s.append("│  └─ -ss <SEARCH>                 Pre-fill the search box; place this last so it captures the rest\n");
    s.append("│\n");
    s.append("├─ Launch Methods\n");
    s.append("│  ├─ --launch-prefix <CMD>        Prefix launches with a custom command such as 'runapp --'\n");
    s.append("│  ├─ --systemd-run                Launch through systemd-run --user --scope\n");
    s.append("│  └─ --uwsm                       Launch through uwsm app --\n");
    s.append("│\n");
    s.append("├─ App Launcher Tuning\n");
    s.append("│  ├─ --clear-history              Delete launch history, then exit\n");
    s.append("│  ├─ --clear-cache                Delete the desktop entry cache, then exit\n");
    s.append("│  ├─ --refresh-cache              Rescan desktop entries before showing results\n");
    s.append("│  ├─ --list-hidden                List manually hidden launcher entries, then exit\n");
    s.append("│  ├─ --unhide <ID>                Restore one manually hidden entry, then exit\n");
    s.append("│  ├─ --unhide-all                 Restore every manually hidden entry, then exit\n");
    s.append("│  ├─ --filter-desktop[=no]        Respect OnlyShowIn/NotShowIn; pass =no to ignore them\n");
    s.append("│  ├─ --filter-actions[=no]        Hide desktop actions; pass =no to keep entries like new window\n");
    s.append("│  ├─ --auto-hide-duplicates[=no]  Suppress duplicate IDs/names using XDG source precedence\n");
    s.append("│  ├─ --hide-before-typing         Keep the list hidden until you type the first character\n");
    s.append("│  ├─ --list-executables-in-path   Include executables from $PATH in launcher mode\n");
    s.append("│  ├─ --desktop-icons[=MODE]       Use preview, list, both, or none (default: preview)\n");
    s.append("│  ├─ --icon-position <POSITION>   Put the preview left, center, or right\n");
    s.append("│  ├─ --icon-preview-width <N>     Give the icon 10-90 percent of the title panel\n");
    s.append("│  ├─ --icon-list-width <N>        Reserve 1-16 terminal columns for each list icon\n");
    s.append("│  ├─ --icon-list-height <N>       Give each icon/list row 1-8 terminal rows\n");
    s.append("│  ├─ --icon-list-gap <N>          Add 0-16 columns between each icon and label\n");
    s.append("│  ├─ --icon-list-vertical-align <N>  Offset artwork; negatives overflow upward (-100 to 100)\n");
    s.append("│  ├─ --icon-arrow-before          Put the selection arrow before a left list icon\n");
    s.append("│  ├─ --icon-size <PX>             Request a themed icon size from 1-4096 pixels\n");
    s.append("│  ├─ --icon-horizontal-align <N>  Align icon content from left (0) to right (100)\n");
    s.append("│  ├─ --icon-vertical-align <N>    Align preview artwork top (0) to bottom (100)\n");
    s.append("│  ├─ --icon-theme <THEME>         Override automatic desktop icon-theme detection\n");
    s.append("│  ├─ --match-mode <MODE>          Choose fuzzy or exact matching (default: fuzzy)\n");
    s.append("│  └─ --prefix-depth <N>           Set how long prefix matches outrank fuzzy matches (default: 3)\n");
    s.append("│\n");
    s.append("├─ Dmenu Mode Options\n");
    s.append("│  ├─ --dmenu0                     Read NUL-separated input instead of newline-separated input\n");
    s.append("│  ├─ --password[=CHAR]            Mask typed input; optionally choose the mask character\n");
    s.append("│  ├─ --index                      Print the selected row index instead of the row text\n");
    s.append("│  ├─ --index-original             Print the absolute original row index instead of the row text\n");
    s.append("│  ├─ --with-nth <COLS>            Show only these 1-based columns (example: 1,3)\n");
    s.append("│  ├─ --accept-nth <COLS>          Print only these columns after selection\n");
    s.append("│  ├─ --match-nth <COLS>           Search only within these columns\n");
    s.append("│  ├─ --delimiter <CHAR>           Split columns on CHAR instead of spaces\n");
    s.append("│  ├─ --only-match                 Reject custom text and require a selection from stdin\n");
    s.append("│  ├─ --exit-if-empty              Quit immediately when stdin provides no items\n");
    s.append("│  ├─ --select <STRING>            Start with the first matching row preselected\n");
    s.append("│  ├─ --select-index <N>           Start with row N preselected\n");
    s.append("│  ├─ --auto-select                Accept automatically when the filtered list reaches one row\n");
    s.append("│  ├─ --prompt-only                Show only the input prompt and hide the list pane\n");
    s.append("│  └─ --preview <COMMAND>          Preview the selected row; supports {}, {q}, and {n}\n");
    s.append("│\n");
    s.append("├─ Clipboard Mode Options\n");
    s.append("│  ├─ --tag <NAME>                 Show only clipboard entries tagged NAME\n");
    s.append("│  ├─ --tag list                   List known tags, then exit\n");
    s.append("│  ├─ --tag list <NAME>            List clipboard entries carrying NAME, then exit\n");
    s.append("│  ├─ --tag clear                  Remove stored tag metadata\n");
    s.append("│  ├─ --tag wipe                   Remove all tags from every clipboard entry\n");
    s.append("│  └─ --cclip-show-tag-color-names Show tag color names next to tags in cclip mode\n");
    s.append("│\n");
    s.append("├─ General\n");
    s.append("│  ├─ -h                           Show the short summary\n");
    s.append("│  ├─ -H, --help                   Show this full option tree\n");
    s.append("│  └─ -V, --version                Print the version and exit\n");
    s.append("│\n");
    s.append("└─ Notes\n");
    s.append("   ├─ Pick only one launch method: --launch-prefix, --systemd-run, or --uwsm\n");
    s.append("   ├─ --dmenu and --cclip both imply --no-exec\n");
    s.append("   ├─ --preview implies --dmenu and renders text or image bytes from command stdout\n");
    s.append("   ├─ --program respects --match-mode: exact requires an exact app or executable name\n");
    s.append("   ├─ --select and --select-index cannot be combined\n");
    s.append("   └─ Default config path: ~/.config/fsel/config.toml\n");
    s
}

} // verus!
