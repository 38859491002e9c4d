//! Reading the configured icon theme from desktop settings files.
use crate::text::{
    chars_of, eq_ignore_ascii_case, find_char, first_from, range_eq_ignore_ascii_case,
    slice_vec, string_from_range, trim, trim_bounds,
};
use vstd::prelude::*;

verus! {

/// `line` is a section header `[name]`; the trimmed name.
pub open spec fn header_name(line: Seq<char>) -> Option<Seq<char>> {
    if line.len() >= 2 && line[0] == '[' && line.last() == ']' {
        Some(trim(line.subrange(1, line.len() - 1)))
    } else {
        None
    }
}

/// `v` without the quotes `'` and `"` at either end, then trimmed.
pub open spec fn unquoted(v: Seq<char>) -> Seq<char> {
    trim(strip_quotes_end(strip_quotes_start(v)))
}

pub open spec fn is_quote(c: char) -> bool {
    c == '\'' || c == '"'
}

pub open spec fn strip_quotes_start(v: Seq<char>) -> Seq<char>
    decreases v.len(),
{
    if v.len() > 0 && is_quote(v[0]) {
        strip_quotes_start(v.drop_first())
    } else {
        v
    }
}

pub open spec fn strip_quotes_end(v: Seq<char>) -> Seq<char>
    decreases v.len(),
{
    if v.len() > 0 && is_quote(v.last()) {
        strip_quotes_end(v.drop_last())
    } else {
        v
    }
}

/// The value of `key` (ASCII case ignored) in `t[pos..]`, looking only in
/// the section `required` when one is given; `current` is the section the
/// scan is in. Empty values are passed over.
pub open spec fn setting_from(
    t: Seq<char>,
    pos: int,
    current: Option<Seq<char>>,
    required: Option<Seq<char>>,
    key: Seq<char>,
) -> Option<Seq<char>>
    decreases t.len() - pos,
{
    if pos < 0 || pos >= t.len() {
        None
    } else {
        let e = first_from(t, pos, '\n');
        let line = trim(t.subrange(pos, e));
        let next = if e >= t.len() || e < pos {
            t.len() as int
        } else {
            e + 1
        };
        let (section, found) = match header_name(line) {
            Some(name) => (Some(name), None::<Seq<char>>),
            None => if required is Some && current != required {
                (current, None)
            } else {
                let eq = first_from(line, 0, '=');
                if eq < line.len() {
                    let value = unquoted(trim(line.subrange(eq + 1, line.len() as int)));
                    if eq_ignore_ascii_case(trim(line.take(eq)), key) && value.len() > 0 {
                        (current, Some(value))
                    } else {
                        (current, None)
                    }
                } else {
                    (current, None)
                }
            },
        };
        if found is Some {
            found
        } else if next <= pos {
            None
        } else {
            setting_from(t, next, section, required, key)
        }
    }
}

fn strip_quotes(v: &Vec<char>, a: usize, b: usize) -> (r: (usize, usize))
    requires
        a <= b <= v@.len(),
    ensures
        a <= r.0 <= r.1 <= b,
        v@.subrange(r.0 as int, r.1 as int) == strip_quotes_end(
            strip_quotes_start(v@.subrange(a as int, b as int)),
        ),
{
    let mut s = a;
    while s < b && (v[s] == '\'' || v[s] == '"')
        invariant
            a <= s <= b <= v@.len(),
            strip_quotes_start(v@.subrange(a as int, b as int)) == strip_quotes_start(
                v@.subrange(s as int, b as int),
            ),
        decreases b - s,
    {
        assert(v@.subrange(s as int, b as int).drop_first() =~= v@.subrange(s + 1, b as int));
        s += 1;
    }
    assert(strip_quotes_start(v@.subrange(s as int, b as int)) == v@.subrange(s as int, b as int));
    let mut e = b;
    while e > s && (v[e - 1] == '\'' || v[e - 1] == '"')
        invariant
            s <= e <= b <= v@.len(),
            strip_quotes_end(v@.subrange(s as int, b as int)) == strip_quotes_end(
                v@.subrange(s as int, e as int),
            ),
        decreases e,
    {
        assert(v@.subrange(s as int, e as int).drop_last() =~= v@.subrange(s as int, e - 1));
        e -= 1;
    }
    (s, e)
}

/// The value of `key` in `contents` (see [`setting_from`]), read from the
/// start with no section.
pub fn find_setting(contents: &str, required_section: Option<&str>, key: &str) -> (r: Option<
    String,
>)
    ensures
        crate::desktop::entry::opt_string_view(r) == setting_from(
            contents@,
            0,
            None,
            match required_section {
                Some(s) => Some(s@),
                None => None,
            },
            key@,
        ),
{
    let t = chars_of(contents);
    let n = t.len();
    let required: Option<Vec<char>> = match required_section {
        Some(s) => Some(chars_of(s)),
        None => None,
    };
    let ghost req = match required_section {
        Some(s) => Some(s@),
        None => None::<Seq<char>>,
    };
    let k = chars_of(key);
    let mut current: Option<Vec<char>> = None;
    let mut pos: usize = 0;
    assert(t@.take(n as int) =~= t@);
    while pos < n
        invariant
            pos <= n == t@.len(),
            t@.take(n as int) == t@,
            k@ == key@,
            match required {
                Some(v) => req == Some(v@),
                None => req is None,
            },
            setting_from(contents@, 0, None, req, key@) == setting_from(
                t@,
                pos as int,
                match current {
                    Some(c) => Some(c@),
                    None => None,
                },
                req,
                key@,
            ),
            contents@ == t@,
            req == match required_section {
                Some(s) => Some(s@),
                None => None::<Seq<char>>,
            },
        decreases n - pos,
    {
        let ghost cur = match &current {
            Some(c) => Some(c@),
            None => None::<Seq<char>>,
        };
        let e = find_char(&t, pos, n, '\n');
        let (a, b) = trim_bounds(&t, pos, e);
        let line = slice_vec(&t, a, b);
        let ln = line.len();
        let next = if e >= n {
            n
        } else {
            e + 1
        };
        if ln >= 2 && line[0] == '[' && line[ln - 1] == ']' {
            let (x, y) = trim_bounds(&line, 1, ln - 1);
            current = Some(slice_vec(&line, x, y));
            pos = next;
            continue;
        }
        let in_section = match (&required, &current) {
            (Some(r), Some(c)) => crate::text::chars_eq(r, c),
            (Some(_), None) => false,
            (None, _) => true,
        };
        if !in_section {
            pos = next;
            continue;
        }
        assert(line@.take(ln as int) =~= line@);
        let eq = find_char(&line, 0, ln, '=');
        if eq < ln {
            let (va, vb) = trim_bounds(&line, eq + 1, ln);
            let (qa, qb) = strip_quotes(&line, va, vb);
            let (ua, ub) = trim_bounds(&line, qa, qb);
            let (ka, kb) = trim_bounds(&line, 0, eq);
            assert(line@.subrange(0, eq as int) =~= line@.take(eq as int));
            proof {
                let inner = line@.subrange(qa as int, qb as int);
                assert(line@.subrange(ua as int, ub as int) == trim(inner));
            }
            if ub > ua && range_eq_ignore_ascii_case(&line, ka, kb, key) {
                let found = string_from_range(&line, ua, ub);
                assert(header_name(line@) is None);
                assert(line@ == trim(t@.subrange(pos as int, e as int)));
                assert(e == first_from(t@, pos as int, '\n'));
                assert(eq == first_from(line@, 0, '='));
                assert(found@ == unquoted(trim(line@.subrange(eq + 1, line@.len() as int))));
                assert(setting_from(t@, pos as int, cur, req, key@) == Some(found@));
                return Some(found);
            }
        }
        pos = next;
    }
    None
}

/// A settings file that may name the icon theme: where it is, the section
/// the key must be in (any, when `None`), and the key.
pub struct ThemeSetting {
    pub path: Vec<u8>,
    pub section: Option<&'static str>,
    pub key: &'static str,
}

pub open spec fn setting_view(t: ThemeSetting) -> (Seq<u8>, Option<Seq<char>>, Seq<char>) {
    (
        t.path@,
        match t.section {
            Some(s) => Some(s@),
            None => None,
        },
        t.key@,
    )
}

pub open spec fn settings_view(v: Seq<ThemeSetting>) -> Seq<(Seq<u8>, Option<Seq<char>>, Seq<char>)> {
    v.map_values(|t: ThemeSetting| setting_view(t))
}

/// `rel` (a relative path) under `root`, with one `/` between them.
pub open spec fn joined(root: Seq<u8>, rel: Seq<char>) -> Seq<u8> {
    let sep: Seq<u8> = if root.len() > 0 && root.last() != 47u8 {
        seq![47u8]
    } else {
        seq![]
    };
    root + sep + vstd::utf8::encode_utf8(rel)
}

/// The settings files of the desktops under one configuration directory,
/// in the order they are read: GTK 4, GTK 3, KDE, LXQt.
pub open spec fn desktop_settings(root: Seq<u8>) -> Seq<(Seq<u8>, Option<Seq<char>>, Seq<char>)> {
    seq![
        (joined(root, "gtk-4.0/settings.ini"@), None, "gtk-icon-theme-name"@),
        (joined(root, "gtk-3.0/settings.ini"@), None, "gtk-icon-theme-name"@),
        (joined(root, "kdeglobals"@), Some("Icons"@), "Theme"@),
        (joined(root, "lxqt/lxqt.conf"@), Some("General"@), "icon_theme"@),
    ]
}

/// All candidate settings: those under the user's configuration directory,
/// then `~/.gtkrc-2.0`, then those under each system configuration
/// directory in turn.
pub open spec fn theme_settings_of(
    config_home: Option<Seq<u8>>,
    home: Option<Seq<u8>>,
    config_dirs: Seq<Seq<u8>>,
) -> Seq<(Seq<u8>, Option<Seq<char>>, Seq<char>)> {
    let user = match config_home {
        Some(c) => desktop_settings(c),
        None => seq![],
    };
    let gtk2 = match home {
        Some(h) => seq![(joined(h, ".gtkrc-2.0"@), None, "gtk-icon-theme-name"@)],
        None => seq![],
    };
    user + gtk2 + system_settings(config_dirs)
}

pub open spec fn system_settings(dirs: Seq<Seq<u8>>) -> Seq<(Seq<u8>, Option<Seq<char>>, Seq<char>)>
    decreases dirs.len(),
{
    if dirs.len() == 0 {
        seq![]
    } else {
        system_settings(dirs.drop_last()) + desktop_settings(dirs.last())
    }
}

fn str_bytes(s: &str) -> (b: Vec<u8>)
    ensures
        b@ == vstd::utf8::encode_utf8(s@),
{
    let bytes = s.as_bytes();
    let mut v: Vec<u8> = Vec::new();
    let mut i: usize = 0;
    while i < bytes.len()
        invariant
            i <= bytes@.len(),
            bytes@ == vstd::utf8::encode_utf8(s@),
            v@ == bytes@.take(i as int),
        decreases bytes@.len() - i,
    {
        v.push(bytes[i]);
        assert(v@ =~= bytes@.take(i + 1));
        i += 1;
    }
    assert(bytes@.take(bytes@.len() as int) =~= bytes@);
    v
}

/// `rel` under `root` (see [`joined`]).
pub fn join_path(root: &Vec<u8>, rel: &str) -> (p: Vec<u8>)
    ensures
        p@ == joined(root@, rel@),
{
    let mut p = root.clone();
    if root.len() > 0 && root[root.len() - 1] != 47u8 {
        p.push(47u8);
    }
    let mut tail = str_bytes(rel);
    p.append(&mut tail);
    assert(p@ =~= joined(root@, rel@));
    p
}

fn setting(path: Vec<u8>, section: Option<&'static str>, key: &'static str) -> (t: ThemeSetting)
    ensures
        t.path@ == path@,
        t.section == section,
        t.key == key,
{
    ThemeSetting { path, section, key }
}

/// Appends the settings files of the desktops under `root`.
pub fn push_desktop_settings(settings: &mut Vec<ThemeSetting>, root: &Vec<u8>)
    ensures
        settings_view(final(settings)@) == settings_view(old(settings)@) + desktop_settings(root@),
{
    let ghost before = settings_view(settings@);
    settings.push(setting(join_path(root, "gtk-4.0/settings.ini"), None, "gtk-icon-theme-name"));
    settings.push(setting(join_path(root, "gtk-3.0/settings.ini"), None, "gtk-icon-theme-name"));
    settings.push(setting(join_path(root, "kdeglobals"), Some("Icons"), "Theme"));
    settings.push(setting(join_path(root, "lxqt/lxqt.conf"), Some("General"), "icon_theme"));
    assert(settings_view(settings@) =~= before + desktop_settings(root@));
}

/// The settings files that may name the icon theme, in the order they are
/// consulted (see [`theme_settings_of`]).
pub fn theme_settings(
    config_home: Option<&Vec<u8>>,
    home: Option<&Vec<u8>>,
    config_dirs: &Vec<Vec<u8>>,
) -> (r: Vec<ThemeSetting>)
    ensures
        settings_view(r@) == theme_settings_of(
            match config_home {
                Some(c) => Some(c@),
                None => None,
            },
            match home {
                Some(h) => Some(h@),
                None => None,
            },
            config_dirs@.map_values(|d: Vec<u8>| d@),
        ),
{
    let mut settings: Vec<ThemeSetting> = Vec::new();
    match config_home {
        Some(c) => push_desktop_settings(&mut settings, c),
        None => {},
    }
    let ghost user = settings_view(settings@);
    match home {
        Some(h) => {
            settings.push(setting(join_path(h, ".gtkrc-2.0"), None, "gtk-icon-theme-name"));
        },
        None => {},
    }
    let ghost head = settings_view(settings@);
    let ghost dirs = config_dirs@.map_values(|d: Vec<u8>| d@);
    assert(head =~= user + match home {
        Some(h) => seq![(joined(h@, ".gtkrc-2.0"@), None, "gtk-icon-theme-name"@)],
        None => seq![],
    });
    let mut i: usize = 0;
    while i < config_dirs.len()
        invariant
            i <= config_dirs@.len(),
            dirs == config_dirs@.map_values(|d: Vec<u8>| d@),
            settings_view(settings@) == head + system_settings(dirs.take(i as int)),
        decreases config_dirs@.len() - i,
    {
        push_desktop_settings(&mut settings, &config_dirs[i]);
        assert(dirs.take(i + 1).drop_last() =~= dirs.take(i as int));
        assert(settings_view(settings@) =~= head + system_settings(dirs.take(i + 1)));
        i += 1;
    }
    assert(dirs.take(config_dirs@.len() as int) =~= dirs);
    settings
}

/// The theme named by the first setting that gives one, where `contents`
/// holds the text of each settings file (`None` when it cannot be read).
pub open spec fn first_theme(
    settings: Seq<(Seq<u8>, Option<Seq<char>>, Seq<char>)>,
    contents: Seq<Option<Seq<char>>>,
    i: int,
) -> Option<Seq<char>>
    decreases settings.len() - i,
{
    if i < 0 || i >= settings.len() || i >= contents.len() {
        None
    } else {
        let found = match contents[i] {
            Some(c) => setting_from(c, 0, None, settings[i].1, settings[i].2),
            None => None,
        };
        match found {
            Some(t) => Some(t),
            None => first_theme(settings, contents, i + 1),
        }
    }
}

/// The icon theme named by the settings files (see [`first_theme`]);
/// `contents[i]` is the text of the file of `settings[i]`.
pub fn detect_icon_theme(settings: &Vec<ThemeSetting>, contents: &Vec<Option<String>>) -> (r:
    Option<String>)
    ensures
        crate::desktop::entry::opt_string_view(r) == first_theme(
            settings_view(settings@),
            contents@.map_values(|c: Option<String>| crate::desktop::entry::opt_string_view(c)),
            0,
        ),
{
    let ghost sv = settings_view(settings@);
    let ghost cv = contents@.map_values(|c: Option<String>| crate::desktop::entry::opt_string_view(c));
    let mut i: usize = 0;
    while i < settings.len() && i < contents.len()
        invariant
            i <= settings@.len(),
            sv == settings_view(settings@),
            cv == contents@.map_values(|c: Option<String>| crate::desktop::entry::opt_string_view(c)),
            first_theme(sv, cv, 0) == first_theme(sv, cv, i as int),
        decreases settings@.len() - i,
    {
        match &contents[i] {
            Some(text) => {
                let found = find_setting(text.as_str(), settings[i].section, settings[i].key);
                match found {
                    Some(t) => {
                        return Some(t);
                    },
                    None => {},
                }
            },
            None => {},
        }
        i += 1;
    }
    None
}

} // verus!
