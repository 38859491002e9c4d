//! The decisions of application discovery: desktop-file IDs, which entries
//! the current desktop shows, and entries for plain executables.
use crate::desktop::app::{App, AppModel};
use crate::desktop::entry::opt_string_view;
use crate::desktop::parse::{opt_str_view, parse_section_spec, Action};
use crate::path_key::{hex_encode, hex_of};
use crate::text::{
    chars_of, contains_chars, eq_ignore_ascii_case, from_utf8, from_utf8_lossy, join_strings,
    join_with, occurs_in, push_char, strings_view, utf8_lossy,
};
use vstd::prelude::*;

verus! {

/// What application discovery includes.
#[derive(Clone, Copy, Debug, PartialEq, Eq, Structural)]
pub struct DiscoverOptions {
    /// Respect `OnlyShowIn`/`NotShowIn` for the current desktop.
    pub filter_desktop: bool,
    /// Leave out desktop actions such as "New Window".
    pub filter_actions: bool,
    /// Also list the executables found on `PATH`.
    pub list_executables: bool,
    /// Keep `Hidden=true` entries, to resolve duplicates automatically.
    pub auto_hide_duplicates: bool,
}

impl Default for DiscoverOptions {
    fn default() -> (o: DiscoverOptions)
        ensures
            o == (DiscoverOptions {
                filter_desktop: false,
                filter_actions: false,
                list_executables: false,
                auto_hide_duplicates: false,
            }),
    {
        DiscoverOptions {
            filter_desktop: false,
            filter_actions: false,
            list_executables: false,
            auto_hide_duplicates: false,
        }
    }
}

/// The first index at or after `i` that holds `b`, or the length.
pub open spec fn byte_from(s: Seq<u8>, i: int, b: u8) -> int
    decreases s.len() - i,
{
    if i >= s.len() {
        s.len() as int
    } else if i >= 0 && s[i] == b {
        i
    } else {
        byte_from(s, i + 1, b)
    }
}

pub proof fn lemma_byte_from_bounds(s: Seq<u8>, i: int, b: u8)
    requires
        0 <= i <= s.len(),
    ensures
        i <= byte_from(s, i, b) <= s.len(),
        byte_from(s, i, b) < s.len() ==> s[byte_from(s, i, b)] == b,
        forall|j: int| i <= j < byte_from(s, i, b) ==> s[j] != b,
    decreases s.len() - i,
{
    if i < s.len() && s[i] != b {
        lemma_byte_from_bounds(s, i + 1, b);
    }
}

/// The named parts of a path from position `pos`: the pieces between `/`
/// that are neither empty nor `.`.
pub open spec fn named_parts(p: Seq<u8>, pos: int) -> Seq<Seq<u8>>
    decreases p.len() - pos,
{
    if pos < 0 || pos > p.len() {
        seq![]
    } else {
        let e = byte_from(p, pos, 47u8);
        let piece = p.subrange(pos, e);
        let head = if piece.len() > 0 && piece != seq![46u8] {
            seq![piece]
        } else {
            seq![]
        };
        if e < p.len() {
            proof {
                lemma_byte_from_bounds(p, pos, 47u8);
            }
            head + named_parts(p, e + 1)
        } else {
            head
        }
    }
}

/// The components of a path, each as its bytes: `/` for the root, `.` for
/// a leading current directory, then the named parts.
pub open spec fn path_components(p: Seq<u8>) -> Seq<Seq<u8>> {
    let lead: Seq<Seq<u8>> = if p.len() > 0 && p[0] == 47u8 {
        seq![seq![47u8]]
    } else if p.len() > 0 && p[0] == 46u8 && (p.len() == 1 || p[1] == 47u8) {
        seq![seq![46u8]]
    } else {
        seq![]
    };
    lead + named_parts(p, 0)
}

pub open spec fn bytes_view(v: Seq<Vec<u8>>) -> Seq<Seq<u8>> {
    v.map_values(|b: Vec<u8>| b@)
}

fn bytes_eq(a: &[u8], b: &[u8]) -> (r: bool)
    ensures
        r == (a@ == b@),
{
    if a.len() != b.len() {
        return false;
    }
    let mut i: usize = 0;
    while i < a.len()
        invariant
            a@.len() == b@.len(),
            i <= a@.len(),
            forall|j: int| 0 <= j < i ==> a@[j] == b@[j],
        decreases a@.len() - i,
    {
        if a[i] != b[i] {
            return false;
        }
        i += 1;
    }
    assert(a@ =~= b@);
    true
}

fn slice_bytes(s: &[u8], start: usize, end: usize) -> (r: Vec<u8>)
    requires
        start <= end <= s@.len(),
    ensures
        r@ == s@.subrange(start as int, end as int),
{
    let mut r: Vec<u8> = Vec::new();
    let mut i = start;
    while i < end
        invariant
            start <= i <= end <= s@.len(),
            r@ == s@.subrange(start as int, i as int),
        decreases end - i,
    {
        r.push(s[i]);
        assert(r@ =~= s@.subrange(start as int, i + 1));
        i += 1;
    }
    r
}

/// The components of a path (see [`path_components`]).
pub fn components(p: &[u8]) -> (r: Vec<Vec<u8>>)
    ensures
        bytes_view(r@) == path_components(p@),
{
    let n = p.len();
    let mut out: Vec<Vec<u8>> = Vec::new();
    if n > 0 && p[0] == 47u8 {
        let mut mark: Vec<u8> = Vec::new();
        mark.push(47u8);
        assert(mark@ =~= seq![47u8]);
        out.push(mark);
        assert(bytes_view(out@) =~= seq![seq![47u8]]);
    } else if n > 0 && p[0] == 46u8 && (n == 1 || p[1] == 47u8) {
        let mut mark: Vec<u8> = Vec::new();
        mark.push(46u8);
        assert(mark@ =~= seq![46u8]);
        out.push(mark);
        assert(bytes_view(out@) =~= seq![seq![46u8]]);
    } else {
        assert(bytes_view(out@) =~= Seq::<Seq<u8>>::empty());
    }
    let ghost lead = bytes_view(out@);
    assert(path_components(p@) =~= lead + named_parts(p@, 0));
    let mut pos: usize = 0;
    loop
        invariant_except_break
            pos <= n,
            n == p@.len(),
            bytes_view(out@) + named_parts(p@, pos as int) == lead + named_parts(p@, 0),
        ensures
            bytes_view(out@) == lead + named_parts(p@, 0),
        decreases n - pos,
    {
        let mut e = pos;
        while e < n && p[e] != 47u8
            invariant
                pos <= e <= n,
                n == p@.len(),
                forall|j: int| pos <= j < e ==> p@[j] != 47u8,
            decreases n - e,
        {
            e += 1;
        }
        proof {
            lemma_byte_from_bounds(p@, pos as int, 47u8);
            if (e as int) < byte_from(p@, pos as int, 47u8) {
                assert(p@[e as int] != 47u8);
            }
        }
        assert(e == byte_from(p@, pos as int, 47u8));
        let piece = slice_bytes(p, pos, e);
        let ghost before = bytes_view(out@);
        let keep = piece.len() > 0 && !(piece.len() == 1 && piece[0] == 46u8);
        assert(keep == (piece@.len() > 0 && piece@ != seq![46u8])) by {
            if piece@.len() == 1 && piece@[0] == 46u8 {
                assert(piece@ =~= seq![46u8]);
            }
        }
        if keep {
            out.push(piece);
        }
        assert(bytes_view(out@) =~= before + (if piece@.len() > 0 && piece@ != seq![46u8] {
            seq![piece@]
        } else {
            seq![]
        }));
        if e == n {
            assert(bytes_view(out@) == before + named_parts(p@, pos as int));
            break ;
        }
        assert(bytes_view(out@) + named_parts(p@, e + 1) =~= before + named_parts(p@, pos as int));
        pos = e + 1;
    }
    out
}

/// `%` becomes `%25`; nothing else changes.
pub open spec fn escape_percent(s: Seq<char>) -> Seq<char>
    decreases s.len(),
{
    if s.len() == 0 {
        seq![]
    } else {
        escape_percent(s.drop_last()) + if s.last() == '%' {
            "%25"@
        } else {
            seq![s.last()]
        }
    }
}

/// The ID part for one path component: its text with `%` escaped, or `%00`
/// and its bytes in hex when it is not UTF-8.
pub open spec fn component_id(c: Seq<u8>) -> Seq<char> {
    if vstd::utf8::valid_utf8(c) {
        escape_percent(vstd::utf8::decode_utf8(c))
    } else {
        "%00"@ + hex_of(c)
    }
}

/// The ID part for one path component (see [`component_id`]).
pub fn desktop_id_component(component: &Vec<u8>) -> (r: String)
    ensures
        r@ == component_id(component@),
{
    match from_utf8(component.clone()) {
        Some(text) => {
            let c = chars_of(text.as_str());
            let mut out = String::new();
            let mut i: usize = 0;
            while i < c.len()
                invariant
                    i <= c@.len(),
                    out@ == escape_percent(c@.take(i as int)),
                decreases c@.len() - i,
            {
                assert(c@.take(i + 1).drop_last() =~= c@.take(i as int));
                if c[i] == '%' {
                    out.append("%25");
                    proof {
                        reveal_strlit("%25");
                    }
                } else {
                    push_char(&mut out, c[i]);
                }
                i += 1;
            }
            assert(c@.take(c@.len() as int) =~= c@);
            out
        },
        None => {
            let mut out = String::from_str("%00");
            let hex = hex_encode(component.as_slice());
            out.append(hex.as_str());
            out
        },
    }
}

/// `prefix` is a prefix of `s`.
pub open spec fn is_prefix_of(prefix: Seq<Seq<u8>>, s: Seq<Seq<u8>>) -> bool {
    prefix.len() <= s.len() && s.take(prefix.len() as int) == prefix
}

/// The first application directory, from index `k` on, under which the
/// file lies.
pub open spec fn first_root(dirs: Seq<Seq<u8>>, file: Seq<u8>, k: int) -> Option<int>
    decreases dirs.len() - k,
{
    if k < 0 || k >= dirs.len() {
        None
    } else if is_prefix_of(path_components(dirs[k]), path_components(file)) {
        Some(k)
    } else {
        first_root(dirs, file, k + 1)
    }
}

/// The desktop-file ID: the file's path relative to the first application
/// directory it lies under, its components joined by `-`.
pub open spec fn desktop_file_id_of(dirs: Seq<Seq<u8>>, file: Seq<u8>) -> Option<Seq<char>> {
    match first_root(dirs, file, 0) {
        Some(k) => {
            let fc = path_components(file);
            let rest = fc.skip(path_components(dirs[k]).len() as int);
            Some(join_with(rest.map_values(|c: Seq<u8>| component_id(c)), "-"@))
        },
        None => None,
    }
}

fn is_prefix_exec(prefix: &Vec<Vec<u8>>, s: &Vec<Vec<u8>>) -> (r: bool)
    ensures
        r == is_prefix_of(bytes_view(prefix@), bytes_view(s@)),
{
    if prefix.len() > s.len() {
        return false;
    }
    let mut i: usize = 0;
    while i < prefix.len()
        invariant
            prefix@.len() <= s@.len(),
            i <= prefix@.len(),
            forall|j: int| 0 <= j < i ==> prefix@[j]@ == s@[j]@,
        decreases prefix@.len() - i,
    {
        if !bytes_eq(prefix[i].as_slice(), s[i].as_slice()) {
            assert(bytes_view(s@).take(prefix@.len() as int)[i as int] != bytes_view(prefix@)[i as int]);
            return false;
        }
        i += 1;
    }
    assert(bytes_view(s@).take(prefix@.len() as int) =~= bytes_view(prefix@));
    true
}

/// The desktop-file ID of `file_path` (see [`desktop_file_id_of`]).
pub fn desktop_file_id(application_dirs: &Vec<Vec<u8>>, file_path: &[u8]) -> (r: Option<String>)
    ensures
        opt_string_view(r) == desktop_file_id_of(bytes_view(application_dirs@), file_path@),
{
    let ghost dirs = bytes_view(application_dirs@);
    let fc = components(file_path);
    let mut k: usize = 0;
    while k < application_dirs.len()
        invariant
            k <= application_dirs@.len(),
            dirs == bytes_view(application_dirs@),
            bytes_view(fc@) == path_components(file_path@),
            first_root(dirs, file_path@, 0) == first_root(dirs, file_path@, k as int),
        decreases application_dirs@.len() - k,
    {
        let rc = components(application_dirs[k].as_slice());
        assert(dirs[k as int] == application_dirs@[k as int]@);
        if is_prefix_exec(&rc, &fc) {
            let mut parts: Vec<String> = Vec::new();
            let mut i = rc.len();
            let ghost rest = bytes_view(fc@).skip(rc@.len() as int);
            while i < fc.len()
                invariant
                    rc@.len() <= i <= fc@.len(),
                    rest == bytes_view(fc@).skip(rc@.len() as int),
                    strings_view(parts@) == rest.take(i - rc@.len()).map_values(
                        |c: Seq<u8>| component_id(c),
                    ),
                decreases fc@.len() - i,
            {
                let id = desktop_id_component(&fc[i]);
                let ghost before = strings_view(parts@);
                parts.push(id);
                assert(rest[i - rc@.len()] == fc@[i as int]@);
                assert(rest.take(i + 1 - rc@.len()) =~= rest.take(i - rc@.len()).push(
                    fc@[i as int]@,
                ));
                assert(strings_view(parts@) =~= before.push(id@));
                assert(strings_view(parts@) =~= rest.take(i + 1 - rc@.len()).map_values(
                    |c: Seq<u8>| component_id(c),
                ));
                i += 1;
            }
            assert(rest.take(fc@.len() - rc@.len()) =~= rest);
            return Some(join_strings(&parts, "-"));
        }
        k += 1;
    }
    None
}

/// `value` split at every `:`, empty pieces included.
pub open spec fn colon_pieces(v: Seq<char>, pos: int) -> Seq<Seq<char>>
    decreases v.len() - pos,
{
    if pos < 0 || pos > v.len() {
        seq![]
    } else {
        let e = crate::text::first_from(v, pos, ':');
        if e < v.len() {
            proof {
                crate::text::lemma_first_from_bounds(v, pos, ':');
            }
            seq![v.subrange(pos, e)] + colon_pieces(v, e + 1)
        } else {
            seq![v.subrange(pos, v.len() as int)]
        }
    }
}

/// The desktop names in an `XDG_CURRENT_DESKTOP` value.
pub fn desktop_names(value: &str) -> (r: Vec<String>)
    ensures
        strings_view(r@) == colon_pieces(value@, 0),
{
    let c = chars_of(value);
    let n = c.len();
    let mut out: Vec<String> = Vec::new();
    let mut pos: usize = 0;
    assert(c@.take(n as int) =~= c@);
    loop
        invariant_except_break
            pos <= n,
            n == c@.len(),
            c@ == value@,
            c@.take(n as int) == c@,
            strings_view(out@) + colon_pieces(value@, pos as int) == colon_pieces(value@, 0),
        ensures
            strings_view(out@) == colon_pieces(value@, 0),
        decreases n - pos,
    {
        let e = crate::text::find_char(&c, pos, n, ':');
        let piece = crate::text::string_from_range(&c, pos, e);
        let ghost before = strings_view(out@);
        out.push(piece);
        if e == n {
            assert(strings_view(out@) =~= before + colon_pieces(value@, pos as int));
            break ;
        }
        assert(strings_view(out@) + colon_pieces(value@, e + 1) =~= before + colon_pieces(
            value@,
            pos as int,
        ));
        pos = e + 1;
    }
    out
}

/// Some desktop of `current` is named in `listed`, ignoring ASCII case.
pub open spec fn names_any(listed: Seq<Seq<char>>, current: Seq<Seq<char>>) -> bool {
    exists|i: int, j: int|
        0 <= i < listed.len() && 0 <= j < current.len() && eq_ignore_ascii_case(
            #[trigger] current[j],
            #[trigger] listed[i],
        )
}

/// Whether an app is shown on the current desktop: always when no desktop
/// is known; never when `NotShowIn` names it; otherwise when `OnlyShowIn`
/// is empty or names it.
pub open spec fn keeps_for_desktop(app: AppModel, current: Option<Seq<Seq<char>>>) -> bool {
    match current {
        None => true,
        Some(d) => !names_any(app.not_show_in, d) && (app.only_show_in.len() == 0 || names_any(
            app.only_show_in,
            d,
        )),
    }
}

pub(crate) fn eq_ignore_case_exec(a: &str, b: &str) -> (r: bool)
    ensures
        r == eq_ignore_ascii_case(a@, b@),
{
    let c = chars_of(a);
    assert(c@.subrange(0, c@.len() as int) =~= c@);
    crate::text::range_eq_ignore_ascii_case(&c, 0, c.len(), b)
}

fn names_any_exec(listed: &Vec<String>, current: &Vec<String>) -> (r: bool)
    ensures
        r == names_any(strings_view(listed@), strings_view(current@)),
{
    let ghost l = strings_view(listed@);
    let ghost d = strings_view(current@);
    let mut i: usize = 0;
    while i < listed.len()
        invariant
            i <= listed@.len(),
            l == strings_view(listed@),
            d == strings_view(current@),
            forall|a: int, b: int|
                0 <= a < i && 0 <= b < d.len() ==> !eq_ignore_ascii_case(#[trigger] d[b], #[trigger] l[a]),
        decreases listed@.len() - i,
    {
        let mut j: usize = 0;
        while j < current.len()
            invariant
                i < listed@.len(),
                j <= current@.len(),
                l == strings_view(listed@),
                d == strings_view(current@),
                forall|b: int| 0 <= b < j ==> !eq_ignore_ascii_case(#[trigger] d[b], l[i as int]),
            decreases current@.len() - j,
        {
            if eq_ignore_case_exec(current[j].as_str(), listed[i].as_str()) {
                assert(eq_ignore_ascii_case(d[j as int], l[i as int]));
                return true;
            }
            j += 1;
        }
        i += 1;
    }
    false
}

pub open spec fn opt_names_view(o: Option<&Vec<String>>) -> Option<Seq<Seq<char>>> {
    match o {
        Some(v) => Some(strings_view(v@)),
        None => None,
    }
}

/// Whether `app` is shown on the desktops in `current_desktop`.
pub fn should_keep_for_desktop(app: &App, current_desktop: Option<&Vec<String>>) -> (r: bool)
    ensures
        r == keeps_for_desktop(app@, opt_names_view(current_desktop)),
{
    match current_desktop {
        None => true,
        Some(desktops) => {
            if names_any_exec(&app.not_show_in, desktops) {
                return false;
            }
            if app.only_show_in.len() == 0 {
                return true;
            }
            names_any_exec(&app.only_show_in, desktops)
        },
    }
}

/// The entry listed for an executable found on `PATH`.
pub open spec fn executable_app_model(path: Seq<u8>, file_name: Seq<char>) -> AppModel {
    AppModel {
        name: file_name,
        command: utf8_lossy(path),
        description: "Executable: "@ + file_name,
        generic_name: None,
        keywords: seq![],
        categories: seq!["Executable"@],
        mime_types: seq![],
        icon: None,
        is_terminal: false,
        path: None,
        only_show_in: seq![],
        not_show_in: seq![],
        hidden: false,
        startup_notify: false,
        startup_wm_class: None,
        try_exec: None,
        entry_type: "Application"@,
        desktop_id: None,
        source_path: Some(path),
        score: 0,
        history: 0,
        pinned: false,
        last_access: None,
        actions: None,
    }
}

/// The entry for the executable at `path`, named `file_name`.
pub fn executable_app(path: &Vec<u8>, file_name: &str) -> (a: App)
    ensures
        a@ == executable_app_model(path@, file_name@),
{
    let mut description = String::from_str("Executable: ");
    description.append(file_name);
    let a = App {
        name: file_name.to_owned(),
        command: from_utf8_lossy(path.as_slice()),
        description,
        generic_name: None,
        keywords: Vec::new(),
        categories: vec![String::from_str("Executable")],
        mime_types: Vec::new(),
        icon: None,
        is_terminal: false,
        path: None,
        only_show_in: Vec::new(),
        not_show_in: Vec::new(),
        hidden: false,
        startup_notify: false,
        startup_wm_class: None,
        try_exec: None,
        entry_type: String::from_str("Application"),
        desktop_id: None,
        source_path: Some(path.clone()),
        score: 0,
        history: 0,
        pinned: false,
        last_access: None,
        actions: None,
    };
    assert(strings_view(a.categories@) =~= seq!["Executable"@]);
    assert(strings_view(a.keywords@) =~= Seq::<Seq<char>>::empty());
    assert(strings_view(a.mime_types@) =~= Seq::<Seq<char>>::empty());
    assert(strings_view(a.only_show_in@) =~= Seq::<Seq<char>>::empty());
    assert(strings_view(a.not_show_in@) =~= Seq::<Seq<char>>::empty());
    a
}

/// The desktop ID given to an entry: the file's ID, with `#action` for a
/// desktop action.
pub open spec fn entry_desktop_id(
    dirs: Seq<Seq<u8>>,
    file: Seq<u8>,
    suffix: Option<Seq<char>>,
) -> Option<Seq<char>> {
    match desktop_file_id_of(dirs, file) {
        Some(id) => match suffix {
            Some(s) => Some(id + "#"@ + s),
            None => Some(id),
        },
        None => None,
    }
}

/// `app` read from `file`: its source path set and, when the file lies
/// under one of `dirs`, its desktop ID (with `#suffix` for an action).
pub open spec fn with_desktop_id(
    app: AppModel,
    dirs: Seq<Seq<u8>>,
    file: Seq<u8>,
    suffix: Option<Seq<char>>,
) -> AppModel {
    AppModel {
        source_path: Some(file),
        desktop_id: match entry_desktop_id(dirs, file, suffix) {
            Some(id) => Some(id),
            None => app.desktop_id,
        },
        ..app
    }
}

/// Records where `app` was read from and, when the file lies under an
/// application directory, its desktop ID (with `#suffix` for an action).
pub fn attach_desktop_id(
    app: &mut App,
    application_dirs: &Vec<Vec<u8>>,
    file_path: &Vec<u8>,
    suffix: Option<&str>,
)
    ensures
        final(app)@ == with_desktop_id(
            old(app)@,
            bytes_view(application_dirs@),
            file_path@,
            opt_str_view(suffix),
        ),
{
    app.set_source_path(file_path);
    match desktop_file_id(application_dirs, file_path.as_slice()) {
        Some(id) => {
            let full = match suffix {
                Some(s) => {
                    let mut f = id;
                    f.append("#");
                    f.append(s);
                    f
                },
                None => id,
            };
            app.desktop_id = Some(full);
        },
        None => {},
    }
}

/// The entries of `v` as plain values.
pub open spec fn apps_view(v: Seq<App>) -> Seq<AppModel> {
    v.map_values(|a: App| a@)
}

/// The entry for the desktop action `name` of `parent`, when its section
/// parses: it takes the parent's icon when it names none, and the desktop
/// ID of the file with `#name`.
pub open spec fn action_entry(
    contents: Seq<char>,
    name: Seq<char>,
    parent: AppModel,
    dirs: Seq<Seq<u8>>,
    file: Seq<u8>,
    filter_desktop: bool,
    locales: Seq<Seq<char>>,
) -> Option<AppModel> {
    match parse_section_spec(contents, Some((name, parent.name)), filter_desktop, false, locales) {
        Ok(a) => Some(
            with_desktop_id(
                AppModel {
                    icon: if a.icon is None {
                        parent.icon
                    } else {
                        a.icon
                    },
                    ..a
                },
                dirs,
                file,
                Some(name),
            ),
        ),
        Err(_) => None,
    }
}

/// The entries of the desktop actions `names` of `parent`, in order,
/// leaving out those whose section does not parse.
pub open spec fn action_entries(
    contents: Seq<char>,
    names: Seq<Seq<char>>,
    parent: AppModel,
    dirs: Seq<Seq<u8>>,
    file: Seq<u8>,
    filter_desktop: bool,
    locales: Seq<Seq<char>>,
) -> Seq<AppModel>
    decreases names.len(),
{
    if names.len() == 0 {
        seq![]
    } else {
        let before = action_entries(
            contents,
            names.drop_last(),
            parent,
            dirs,
            file,
            filter_desktop,
            locales,
        );
        match action_entry(contents, names.last(), parent, dirs, file, filter_desktop, locales) {
            Some(a) => before.push(a),
            None => before,
        }
    }
}

/// The entries that a desktop file contributes to the listing: none when
/// it has no `[Desktop Entry]` section, when that section does not parse
/// (hidden entries are kept only to resolve duplicates), or when the
/// current desktop does not show it; otherwise the entries of its desktop
/// actions (unless it is hidden or actions are left out), then the
/// application itself.
pub open spec fn file_entries(
    contents: Seq<char>,
    file: Seq<u8>,
    dirs: Seq<Seq<u8>>,
    options: DiscoverOptions,
    current_desktop: Option<Seq<Seq<char>>>,
    locales: Seq<Seq<char>>,
) -> Seq<AppModel> {
    if !occurs_in("[Desktop Entry]"@, contents) {
        seq![]
    } else {
        match parse_section_spec(
            contents,
            None,
            options.filter_desktop,
            options.auto_hide_duplicates,
            locales,
        ) {
            Err(_) => seq![],
            Ok(m) => {
                let app = with_desktop_id(m, dirs, file, None);
                if !keeps_for_desktop(app, current_desktop) {
                    seq![]
                } else {
                    let actions = if !app.hidden && !options.filter_actions {
                        match app.actions {
                            Some(names) => action_entries(
                                contents,
                                names,
                                app,
                                dirs,
                                file,
                                options.filter_desktop,
                                locales,
                            ),
                            None => seq![],
                        }
                    } else {
                        seq![]
                    };
                    actions.push(app)
                }
            },
        }
    }
}

/// The entries of the desktop actions `names` of `parent` (see
/// [`action_entries`]).
fn action_apps(
    contents: &str,
    names: &Vec<String>,
    parent: &App,
    application_dirs: &Vec<Vec<u8>>,
    file_path: &Vec<u8>,
    filter_desktop: bool,
    locales: &Vec<String>,
) -> (r: Vec<App>)
    ensures
        apps_view(r@) == action_entries(
            contents@,
            strings_view(names@),
            parent@,
            bytes_view(application_dirs@),
            file_path@,
            filter_desktop,
            strings_view(locales@),
        ),
{
    let ghost names_v = strings_view(names@);
    let ghost dirs_v = bytes_view(application_dirs@);
    let ghost loc_v = strings_view(locales@);
    let mut out: Vec<App> = Vec::new();
    let mut i: usize = 0;
    assert(names_v.take(0) =~= Seq::<Seq<char>>::empty());
    assert(apps_view(out@) =~= Seq::<AppModel>::empty());
    while i < names.len()
        invariant
            i <= names@.len(),
            names_v == strings_view(names@),
            dirs_v == bytes_view(application_dirs@),
            loc_v == strings_view(locales@),
            apps_view(out@) == action_entries(
                contents@,
                names_v.take(i as int),
                parent@,
                dirs_v,
                file_path@,
                filter_desktop,
                loc_v,
            ),
        decreases names@.len() - i,
    {
        let name = &names[i];
        assert(names_v.take(i + 1).drop_last() =~= names_v.take(i as int));
        assert(names_v.take(i + 1).last() == name@);
        let action = Action::new().name(name.as_str()).from(parent.name.as_str());
        match App::parse_action(contents, &action, filter_desktop, locales) {
            Ok(mut a) => {
                if a.icon.is_none() {
                    a.icon = parent.icon.clone();
                }
                attach_desktop_id(&mut a, application_dirs, file_path, Some(name.as_str()));
                let ghost before = out@;
                out.push(a);
                assert(apps_view(out@) =~= apps_view(before).push(a@));
            },
            Err(_) => {},
        }
        i += 1;
    }
    assert(names_v.take(names@.len() as int) =~= names_v);
    out
}

/// The entries that the desktop file at `file_path` with `contents`
/// contributes to the listing (see [`file_entries`]); `current_desktop`
/// holds the names of the current desktop when entries are filtered by it.
pub fn apps_from_desktop_file(
    contents: &str,
    file_path: &Vec<u8>,
    application_dirs: &Vec<Vec<u8>>,
    options: DiscoverOptions,
    current_desktop: Option<&Vec<String>>,
    locales: &Vec<String>,
) -> (r: Vec<App>)
    ensures
        apps_view(r@) == file_entries(
            contents@,
            file_path@,
            bytes_view(application_dirs@),
            options,
            opt_names_view(current_desktop),
            strings_view(locales@),
        ),
{
    let header = chars_of("[Desktop Entry]");
    proof {
        reveal_strlit("[Desktop Entry]");
    }
    if !contains_chars(&chars_of(contents), &header) {
        return Vec::new();
    }
    let parsed = if options.auto_hide_duplicates {
        App::parse_including_hidden(contents, options.filter_desktop, locales)
    } else {
        App::parse(contents, options.filter_desktop, locales)
    };
    let mut app = match parsed {
        Ok(a) => a,
        Err(_) => {
            return Vec::new();
        },
    };
    attach_desktop_id(&mut app, application_dirs, file_path, None);
    if !should_keep_for_desktop(&app, current_desktop) {
        return Vec::new();
    }
    let mut out: Vec<App> = if !app.hidden && !options.filter_actions {
        match &app.actions {
            Some(names) => action_apps(
                contents,
                names,
                &app,
                application_dirs,
                file_path,
                options.filter_desktop,
                locales,
            ),
            None => Vec::new(),
        }
    } else {
        Vec::new()
    };
    let ghost before = out@;
    out.push(app);
    assert(apps_view(out@) =~= apps_view(before).push(app@));
    out
}

/// The entries for the executables found on `PATH`, in order: each
/// candidate (path, file name, whether it is an executable file) that is
/// executable and whose name was not listed before.
pub open spec fn path_executable_entries(
    candidates: Seq<(Seq<u8>, Seq<char>, bool)>,
) -> Seq<AppModel>
    decreases candidates.len(),
{
    if candidates.len() == 0 {
        seq![]
    } else {
        let before = path_executable_entries(candidates.drop_last());
        let c = candidates.last();
        if c.2 && !before.map_values(|a: AppModel| a.name).contains(c.1) {
            before.push(executable_app_model(c.0, c.1))
        } else {
            before
        }
    }
}

/// The candidates of `v` as plain values.
pub open spec fn candidates_view(v: Seq<(Vec<u8>, String, bool)>) -> Seq<(Seq<u8>, Seq<char>, bool)> {
    v.map_values(|c: (Vec<u8>, String, bool)| (c.0@, c.1@, c.2))
}

/// The entries for the executables found on `PATH` (see
/// [`path_executable_entries`]).
pub fn path_executable_apps(candidates: &Vec<(Vec<u8>, String, bool)>) -> (r: Vec<App>)
    ensures
        apps_view(r@) == path_executable_entries(candidates_view(candidates@)),
{
    let ghost cv = candidates_view(candidates@);
    let mut out: Vec<App> = Vec::new();
    let mut i: usize = 0;
    assert(cv.take(0) =~= Seq::<(Seq<u8>, Seq<char>, bool)>::empty());
    assert(apps_view(out@) =~= Seq::<AppModel>::empty());
    while i < candidates.len()
        invariant
            i <= candidates@.len(),
            cv == candidates_view(candidates@),
            apps_view(out@) == path_executable_entries(cv.take(i as int)),
        decreases candidates@.len() - i,
    {
        let c = &candidates[i];
        assert(cv.take(i + 1).drop_last() =~= cv.take(i as int));
        assert(cv.take(i + 1).last() == (c.0@, c.1@, c.2));
        if c.2 {
            let ghost names = apps_view(out@).map_values(|a: AppModel| a.name);
            let mut seen = false;
            let mut j: usize = 0;
            while j < out.len()
                invariant
                    j <= out@.len(),
                    names == apps_view(out@).map_values(|a: AppModel| a.name),
                    seen == (exists|k: int| 0 <= k < j && names[k] == c.1@),
                decreases out@.len() - j,
            {
                assert(names[j as int] == out@[j as int].name@);
                if out[j].name == c.1 {
                    seen = true;
                    assert(names[j as int] == c.1@);
                }
                j += 1;
            }
            assert(seen == names.contains(c.1@));
            if !seen {
                let a = executable_app(&c.0, c.1.as_str());
                let ghost before = out@;
                out.push(a);
                assert(apps_view(out@) =~= apps_view(before).push(a@));
            }
        }
        i += 1;
    }
    assert(cv.take(candidates@.len() as int) =~= cv);
    out
}

/// Every entry that a desktop action contributes was read from `file`, and
/// names an icon whenever its application does.
pub proof fn lemma_action_entries_keep_file_and_icon(
    contents: Seq<char>,
    names: Seq<Seq<char>>,
    parent: AppModel,
    dirs: Seq<Seq<u8>>,
    file: Seq<u8>,
    filter_desktop: bool,
    locales: Seq<Seq<char>>,
)
    ensures
        forall|i: int|
            0 <= i < action_entries(contents, names, parent, dirs, file, filter_desktop, locales).len()
                ==> {
                let e = #[trigger] action_entries(
                    contents,
                    names,
                    parent,
                    dirs,
                    file,
                    filter_desktop,
                    locales,
                )[i];
                &&& e.source_path == Some(file)
                &&& (parent.icon is Some ==> e.icon is Some)
            },
    decreases names.len(),
{
    if names.len() > 0 {
        lemma_action_entries_keep_file_and_icon(
            contents,
            names.drop_last(),
            parent,
            dirs,
            file,
            filter_desktop,
            locales,
        );
    }
}

/// With desktop actions left out, a desktop file contributes at most its
/// application; and every entry it contributes was read from that file and,
/// when it comes from an action, shows the application's icon unless it
/// names its own.
pub proof fn lemma_file_entries_shape(
    contents: Seq<char>,
    file: Seq<u8>,
    dirs: Seq<Seq<u8>>,
    options: DiscoverOptions,
    current_desktop: Option<Seq<Seq<char>>>,
    locales: Seq<Seq<char>>,
)
    ensures
        options.filter_actions ==> file_entries(
            contents,
            file,
            dirs,
            options,
            current_desktop,
            locales,
        ).len() <= 1,
        forall|i: int|
            0 <= i < file_entries(contents, file, dirs, options, current_desktop, locales).len()
                ==> (#[trigger] file_entries(
                contents,
                file,
                dirs,
                options,
                current_desktop,
                locales,
            )[i]).source_path == Some(file),
{
    if occurs_in("[Desktop Entry]"@, contents) {
        match parse_section_spec(
            contents,
            None,
            options.filter_desktop,
            options.auto_hide_duplicates,
            locales,
        ) {
            Ok(m) => {
                let app = with_desktop_id(m, dirs, file, None);
                match app.actions {
                    Some(names) => lemma_action_entries_keep_file_and_icon(
                        contents,
                        names,
                        app,
                        dirs,
                        file,
                        options.filter_desktop,
                        locales,
                    ),
                    None => {},
                }
            },
            Err(_) => {},
        }
    }
}

/// No executable name is listed twice.
pub proof fn lemma_path_executables_are_distinct(candidates: Seq<(Seq<u8>, Seq<char>, bool)>)
    ensures
        forall|i: int, j: int|
            0 <= i < j < path_executable_entries(candidates).len() ==> (
            #[trigger] path_executable_entries(candidates)[i]).name != (
            #[trigger] path_executable_entries(candidates)[j]).name,
    decreases candidates.len(),
{
    if candidates.len() > 0 {
        let before = path_executable_entries(candidates.drop_last());
        lemma_path_executables_are_distinct(candidates.drop_last());
        let c = candidates.last();
        if c.2 && !before.map_values(|a: AppModel| a.name).contains(c.1) {
            let after = before.push(executable_app_model(c.0, c.1));
            assert forall|i: int, j: int| 0 <= i < j < after.len() implies after[i].name
                != after[j].name by {
                if j == before.len() {
                    assert(before.map_values(|a: AppModel| a.name)[i] == before[i].name);
                }
            }
        }
    }
}
} // verus!
