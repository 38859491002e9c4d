//! Parsing of `[Desktop Entry]` and `[Desktop Action ...]` sections.
use crate::desktop::app::{App, AppModel};
use crate::desktop::entry::{
    clean_command, clean_exec, localized_set, localized_value, opt_string_view,
    localized_rank, parse_semicolon_list, rank_from, semicolon_list, unescape_icon, unescape_icon_string, LocalizedField,
    LocalizedModel,
};
use crate::text::{
    chars_of, eq_ignore_ascii_case, find_char, first_from, lemma_first_from_bounds, range_eq, range_eq_ignore_ascii_case,
    slice_vec, string_from_chars, strings_view, trim, trim_bounds,
};
use vstd::prelude::*;

verus! {

/// Model of the keys collected from the target section so far.
pub struct FieldsModel {
    pub name: LocalizedModel,
    pub generic_name: LocalizedModel,
    pub exec_line: Option<Seq<char>>,
    pub description: LocalizedModel,
    pub keywords: Seq<Seq<char>>,
    pub categories: Seq<Seq<char>>,
    pub mime_types: Seq<Seq<char>>,
    pub icon: Option<Seq<char>>,
    pub terminal: bool,
    pub path: Option<Seq<char>>,
    pub only_show_in: Seq<Seq<char>>,
    pub not_show_in: Seq<Seq<char>>,
    pub hidden: bool,
    pub no_display: bool,
    pub startup_notify: bool,
    pub startup_wm_class: Option<Seq<char>>,
    pub try_exec: Option<Seq<char>>,
    pub entry_type: Option<Seq<char>>,
    pub actions: Option<Seq<Seq<char>>>,
    pub in_target: bool,
}

pub open spec fn initial_fields() -> FieldsModel {
    FieldsModel {
        name: LocalizedModel { base: None, localized: None },
        generic_name: LocalizedModel { base: None, localized: None },
        exec_line: None,
        description: LocalizedModel { base: None, localized: None },
        keywords: seq![],
        categories: seq![],
        mime_types: seq![],
        icon: None,
        terminal: false,
        path: None,
        only_show_in: seq![],
        not_show_in: seq![],
        hidden: false,
        no_display: false,
        startup_notify: false,
        startup_wm_class: None,
        try_exec: None,
        entry_type: None,
        actions: None,
        in_target: false,
    }
}

/// `value` reads `true` in any ASCII case.
pub open spec fn is_true(value: Seq<char>) -> bool {
    eq_ignore_ascii_case(value, "true"@)
}

/// Records `key=value` of the target section. The key is matched on its
/// part before `[`; list and single-valued keys keep their first value.
pub open spec fn apply_entry(
    st: FieldsModel,
    key: Seq<char>,
    value: Seq<char>,
    locales: Seq<Seq<char>>,
    main_section: bool,
) -> FieldsModel {
    let base = key.take(first_from(key, 0, '['));
    if base == "Type"@ {
        FieldsModel { entry_type: Some(value), ..st }
    } else if base == "Name"@ {
        FieldsModel { name: localized_set(st.name, key, value, locales), ..st }
    } else if base == "GenericName"@ {
        FieldsModel { generic_name: localized_set(st.generic_name, key, value, locales), ..st }
    } else if base == "Comment"@ {
        FieldsModel { description: localized_set(st.description, key, value, locales), ..st }
    } else if base == "Keywords"@ {
        if st.keywords.len() == 0 {
            FieldsModel { keywords: semicolon_list(value), ..st }
        } else {
            st
        }
    } else if base == "Categories"@ {
        if st.categories.len() == 0 {
            FieldsModel { categories: semicolon_list(value), ..st }
        } else {
            st
        }
    } else if base == "MimeType"@ {
        if st.mime_types.len() == 0 {
            FieldsModel { mime_types: semicolon_list(value), ..st }
        } else {
            st
        }
    } else if base == "Icon"@ {
        if st.icon is None {
            FieldsModel { icon: Some(unescape_icon(value)), ..st }
        } else {
            st
        }
    } else if base == "Terminal"@ {
        FieldsModel { terminal: is_true(value), ..st }
    } else if base == "Exec"@ {
        if st.exec_line is None {
            FieldsModel { exec_line: Some(clean_command(value)), ..st }
        } else {
            st
        }
    } else if base == "Path"@ {
        if st.path is None {
            FieldsModel { path: Some(value), ..st }
        } else {
            st
        }
    } else if base == "TryExec"@ {
        if st.try_exec is None {
            FieldsModel { try_exec: Some(value), ..st }
        } else {
            st
        }
    } else if base == "OnlyShowIn"@ {
        if st.only_show_in.len() == 0 {
            FieldsModel { only_show_in: semicolon_list(value), ..st }
        } else {
            st
        }
    } else if base == "NotShowIn"@ {
        if st.not_show_in.len() == 0 {
            FieldsModel { not_show_in: semicolon_list(value), ..st }
        } else {
            st
        }
    } else if base == "Hidden"@ {
        FieldsModel { hidden: is_true(value), ..st }
    } else if base == "NoDisplay"@ {
        FieldsModel { no_display: is_true(value), ..st }
    } else if base == "StartupNotify"@ {
        FieldsModel { startup_notify: is_true(value), ..st }
    } else if base == "StartupWMClass"@ {
        if st.startup_wm_class is None {
            FieldsModel { startup_wm_class: Some(value), ..st }
        } else {
            st
        }
    } else if base == "Actions"@ {
        if st.actions is None && main_section {
            FieldsModel { actions: Some(semicolon_list(value)), ..st }
        } else {
            st
        }
    } else {
        st
    }
}

/// Handles one trimmed line; the flag is set when the target section ended.
pub open spec fn process_line(
    st: FieldsModel,
    line: Seq<char>,
    pattern: Seq<char>,
    locales: Seq<Seq<char>>,
    main_section: bool,
) -> (FieldsModel, bool) {
    if line.len() == 0 || line[0] == '#' {
        (st, false)
    } else if line[0] == '[' && st.in_target && line != pattern {
        (st, true)
    } else if line == pattern {
        (FieldsModel { in_target: true, ..st }, false)
    } else if st.in_target {
        let eq = first_from(line, 0, '=');
        if eq < line.len() {
            (
                apply_entry(
                    st,
                    trim(line.take(eq)),
                    trim(line.subrange(eq + 1, line.len() as int)),
                    locales,
                    main_section,
                ),
                false,
            )
        } else {
            (st, false)
        }
    } else {
        (st, false)
    }
}

/// Folds the lines of `t` from index `pos` into the collected keys.
pub open spec fn scan(
    t: Seq<char>,
    pos: int,
    st: FieldsModel,
    pattern: Seq<char>,
    locales: Seq<Seq<char>>,
    main_section: bool,
) -> FieldsModel
    decreases t.len() - pos,
{
    if pos < 0 || pos >= t.len() {
        st
    } else {
        let e = first_from(t, pos, '\n');
        let line = trim(t.subrange(pos, e));
        let (next, stop) = process_line(st, line, pattern, locales, main_section);
        if stop || e >= t.len() || e < pos {
            next
        } else {
            scan(t, e + 1, next, pattern, locales, main_section)
        }
    }
}

/// Why a section cannot become an application.
#[derive(Clone, Copy, Debug, PartialEq, Eq, Structural)]
pub enum DesktopEntryError {
    /// The action to parse has an empty name.
    EmptyAction,
    /// `Type` is set to something other than `Application`.
    NotApplication,
    /// There is no `Exec` key.
    MissingExec,
    /// The entry is hidden (`Hidden`, or `NoDisplay` with desktop filtering).
    Hidden,
}

impl DesktopEntryError {
    /// The message of this error.
    pub fn message(&self) -> (s: String)
        ensures
            s@ == desktop_entry_error_message(*self),
    {
        match self {
            DesktopEntryError::EmptyAction => String::from_str("Action is empty"),
            DesktopEntryError::NotApplication => String::from_str(
                "Not an Application type desktop entry",
            ),
            DesktopEntryError::MissingExec => String::from_str("Missing required Exec field"),
            DesktopEntryError::Hidden => String::from_str("Application is hidden"),
        }
    }
}

pub open spec fn desktop_entry_error_message(e: DesktopEntryError) -> Seq<char> {
    match e {
        DesktopEntryError::EmptyAction => "Action is empty"@,
        DesktopEntryError::NotApplication => "Not an Application type desktop entry"@,
        DesktopEntryError::MissingExec => "Missing required Exec field"@,
        DesktopEntryError::Hidden => "Application is hidden"@,
    }
}

/// A desktop action to parse: its section name and the name of its app.
pub struct Action {
    pub name: String,
    pub from: String,
}

impl Action {
    /// An action with empty names.
    pub fn new() -> (a: Action)
        ensures
            a.name@ == Seq::<char>::empty(),
            a.from@ == Seq::<char>::empty(),
    {
        Action { name: String::new(), from: String::new() }
    }

    /// Sets the section name of the action.
    pub fn name(self, name: &str) -> (a: Action)
        ensures
            a.name@ == name@,
            a.from@ == self.from@,
    {
        Action { name: name.to_owned(), from: self.from }
    }

    /// Sets the name of the application that the action belongs to.
    pub fn from(self, from: &str) -> (a: Action)
        ensures
            a.name@ == self.name@,
            a.from@ == from@,
    {
        Action { name: self.name, from: from.to_owned() }
    }
}

/// The header line of the section to parse.
pub open spec fn section_pattern(action: Option<Seq<char>>) -> Seq<char> {
    match action {
        Some(name) => "[Desktop Action "@ + name + "]"@,
        None => "[Desktop Entry]"@,
    }
}

/// The name shown for an action: `"<app> (<action name>)"`.
pub open spec fn display_name(value: Option<Seq<char>>, from: Option<Seq<char>>) -> Seq<char> {
    match value {
        Some(v) => match from {
            Some(f) => if f.len() > 0 {
                f + " ("@ + v + ")"@
            } else {
                v
            },
            None => v,
        },
        None => "Unknown"@,
    }
}

/// The application described by the target section of `contents`.
/// `action` is `(section name, app name)` for a desktop action.
pub open spec fn parse_section_spec(
    contents: Seq<char>,
    action: Option<(Seq<char>, Seq<char>)>,
    filter_desktop: bool,
    include_hidden: bool,
    locales: Seq<Seq<char>>,
) -> Result<AppModel, DesktopEntryError> {
    if action matches Some((name, _)) && name.len() == 0 {
        Err(DesktopEntryError::EmptyAction)
    } else {
        let pattern = section_pattern(
            match action {
                Some((n, _)) => Some(n),
                None => None,
            },
        );
        let st = scan(contents, 0, initial_fields(), pattern, locales, action is None);
        let entry_type = match st.entry_type {
            Some(t) => t,
            None => "Application"@,
        };
        if entry_type != "Application"@ {
            Err(DesktopEntryError::NotApplication)
        } else if st.exec_line is None && !(st.hidden && include_hidden) {
            Err(DesktopEntryError::MissingExec)
        } else if (st.hidden && !include_hidden) || (!st.hidden && filter_desktop && st.no_display) {
            Err(DesktopEntryError::Hidden)
        } else {
            Ok(
                AppModel {
                    name: display_name(
                        localized_value(st.name),
                        match action {
                            Some((_, f)) => Some(f),
                            None => None,
                        },
                    ),
                    command: match st.exec_line {
                        Some(c) => c,
                        None => seq![],
                    },
                    description: match localized_value(st.description) {
                        Some(d) => d,
                        None => seq![],
                    },
                    generic_name: localized_value(st.generic_name),
                    keywords: st.keywords,
                    categories: st.categories,
                    mime_types: st.mime_types,
                    icon: st.icon,
                    is_terminal: st.terminal,
                    path: st.path,
                    only_show_in: st.only_show_in,
                    not_show_in: st.not_show_in,
                    hidden: st.hidden,
                    startup_notify: st.startup_notify,
                    startup_wm_class: st.startup_wm_class,
                    try_exec: st.try_exec,
                    entry_type,
                    desktop_id: None,
                    source_path: None,
                    score: 0,
                    history: 0,
                    pinned: false,
                    last_access: None,
                    actions: st.actions,
                },
            )
        }
    }
}

} // verus!

verus! {

/// The keys collected from the target section so far.
struct Fields {
    name: LocalizedField,
    generic_name: LocalizedField,
    exec_line: Option<String>,
    description: LocalizedField,
    keywords: Vec<String>,
    categories: Vec<String>,
    mime_types: Vec<String>,
    icon: Option<String>,
    terminal: bool,
    path: Option<String>,
    only_show_in: Vec<String>,
    not_show_in: Vec<String>,
    hidden: bool,
    no_display: bool,
    startup_notify: bool,
    startup_wm_class: Option<String>,
    try_exec: Option<String>,
    entry_type: Option<String>,
    actions: Option<Vec<String>>,
    in_target: bool,
}

impl View for Fields {
    type V = FieldsModel;

    closed spec fn view(&self) -> FieldsModel {
        FieldsModel {
            name: self.name@,
            generic_name: self.generic_name@,
            exec_line: opt_string_view(self.exec_line),
            description: self.description@,
            keywords: strings_view(self.keywords@),
            categories: strings_view(self.categories@),
            mime_types: strings_view(self.mime_types@),
            icon: opt_string_view(self.icon),
            terminal: self.terminal,
            path: opt_string_view(self.path),
            only_show_in: strings_view(self.only_show_in@),
            not_show_in: strings_view(self.not_show_in@),
            hidden: self.hidden,
            no_display: self.no_display,
            startup_notify: self.startup_notify,
            startup_wm_class: opt_string_view(self.startup_wm_class),
            try_exec: opt_string_view(self.try_exec),
            entry_type: opt_string_view(self.entry_type),
            actions: match self.actions {
                Some(v) => Some(strings_view(v@)),
                None => None,
            },
            in_target: self.in_target,
        }
    }
}

impl Fields {
    fn new() -> (f: Fields)
        ensures
            f@ == initial_fields(),
    {
        let f = Fields {
            name: LocalizedField::new(),
            generic_name: LocalizedField::new(),
            exec_line: None,
            description: LocalizedField::new(),
            keywords: Vec::new(),
            categories: Vec::new(),
            mime_types: Vec::new(),
            icon: None,
            terminal: false,
            path: None,
            only_show_in: Vec::new(),
            not_show_in: Vec::new(),
            hidden: false,
            no_display: false,
            startup_notify: false,
            startup_wm_class: None,
            try_exec: None,
            entry_type: None,
            actions: None,
            in_target: false,
        };
        assert(strings_view(f.keywords@) =~= Seq::<Seq<char>>::empty());
        assert(strings_view(f.categories@) =~= Seq::<Seq<char>>::empty());
        assert(strings_view(f.mime_types@) =~= Seq::<Seq<char>>::empty());
        assert(strings_view(f.only_show_in@) =~= Seq::<Seq<char>>::empty());
        assert(strings_view(f.not_show_in@) =~= Seq::<Seq<char>>::empty());
        f
    }

    /// Records one `key=value` line of the target section.
    fn apply(
        &mut self,
        key: &Vec<char>,
        value: &Vec<char>,
        locales: &Vec<String>,
        main_section: bool,
    )
        ensures
            final(self)@ == apply_entry(
                old(self)@,
                key@,
                value@,
                strings_view(locales@),
                main_section,
            ),
    {
        let n = key.len();
        let vn = value.len();
        assert(key@.take(n as int) =~= key@);
        assert(value@.subrange(0, vn as int) =~= value@);
        let b = find_char(key, 0, n, '[');
        assert(key@.subrange(0, b as int) =~= key@.take(b as int));
        if range_eq(key, 0, b, "Type") {
            self.entry_type = Some(string_from_chars(value.as_slice()));
        } else if range_eq(key, 0, b, "Name") {
            self.name.set(key, value, locales);
        } else if range_eq(key, 0, b, "GenericName") {
            self.generic_name.set(key, value, locales);
        } else if range_eq(key, 0, b, "Comment") {
            self.description.set(key, value, locales);
        } else if range_eq(key, 0, b, "Keywords") {
            if self.keywords.len() == 0 {
                self.keywords = parse_semicolon_list(value, 0, vn);
            }
        } else if range_eq(key, 0, b, "Categories") {
            if self.categories.len() == 0 {
                self.categories = parse_semicolon_list(value, 0, vn);
            }
        } else if range_eq(key, 0, b, "MimeType") {
            if self.mime_types.len() == 0 {
                self.mime_types = parse_semicolon_list(value, 0, vn);
            }
        } else if range_eq(key, 0, b, "Icon") {
            if self.icon.is_none() {
                self.icon = Some(unescape_icon_string(value, 0, vn));
            }
        } else if range_eq(key, 0, b, "Terminal") {
            self.terminal = range_eq_ignore_ascii_case(value, 0, vn, "true");
        } else if range_eq(key, 0, b, "Exec") {
            if self.exec_line.is_none() {
                self.exec_line = Some(clean_exec(value, 0, vn));
            }
        } else if range_eq(key, 0, b, "Path") {
            if self.path.is_none() {
                self.path = Some(string_from_chars(value.as_slice()));
            }
        } else if range_eq(key, 0, b, "TryExec") {
            if self.try_exec.is_none() {
                self.try_exec = Some(string_from_chars(value.as_slice()));
            }
        } else if range_eq(key, 0, b, "OnlyShowIn") {
            if self.only_show_in.len() == 0 {
                self.only_show_in = parse_semicolon_list(value, 0, vn);
            }
        } else if range_eq(key, 0, b, "NotShowIn") {
            if self.not_show_in.len() == 0 {
                self.not_show_in = parse_semicolon_list(value, 0, vn);
            }
        } else if range_eq(key, 0, b, "Hidden") {
            self.hidden = range_eq_ignore_ascii_case(value, 0, vn, "true");
        } else if range_eq(key, 0, b, "NoDisplay") {
            self.no_display = range_eq_ignore_ascii_case(value, 0, vn, "true");
        } else if range_eq(key, 0, b, "StartupNotify") {
            self.startup_notify = range_eq_ignore_ascii_case(value, 0, vn, "true");
        } else if range_eq(key, 0, b, "StartupWMClass") {
            if self.startup_wm_class.is_none() {
                self.startup_wm_class = Some(string_from_chars(value.as_slice()));
            }
        } else if range_eq(key, 0, b, "Actions") {
            if self.actions.is_none() && main_section {
                self.actions = Some(parse_semicolon_list(value, 0, vn));
            }
        }
    }
}

} // verus!

verus! {

/// Handles one trimmed line; returns whether the target section ended.
fn handle_line(
    fields: &mut Fields,
    line: &Vec<char>,
    pattern: &Vec<char>,
    locales: &Vec<String>,
    main_section: bool,
) -> (stop: bool)
    ensures
        (final(fields)@, stop) == process_line(
            old(fields)@,
            line@,
            pattern@,
            strings_view(locales@),
            main_section,
        ),
{
    let n = line.len();
    if n == 0 || line[0] == '#' {
        return false;
    }
    let is_pattern = crate::text::chars_eq(line, pattern);
    if line[0] == '[' && fields.in_target && !is_pattern {
        return true;
    }
    if is_pattern {
        fields.in_target = true;
        return false;
    }
    if fields.in_target {
        assert(line@.take(n as int) =~= line@);
        let eq = find_char(line, 0, n, '=');
        if eq < n {
            let (ka, kb) = trim_bounds(line, 0, eq);
            let key = slice_vec(line, ka, kb);
            let (va, vb) = trim_bounds(line, eq + 1, n);
            let value = slice_vec(line, va, vb);
            assert(line@.subrange(0, eq as int) =~= line@.take(eq as int));
            fields.apply(&key, &value, locales, main_section);
        }
    }
    false
}

/// Parses the section of `contents` named by `action` (or the main
/// `[Desktop Entry]` section).
fn parse_section(
    contents: &str,
    action: Option<&Action>,
    filter_desktop: bool,
    include_hidden: bool,
    locales: &Vec<String>,
) -> (r: Result<App, DesktopEntryError>)
    ensures
        match parse_section_spec(
            contents@,
            match action {
                Some(a) => Some((a.name@, a.from@)),
                None => None,
            },
            filter_desktop,
            include_hidden,
            strings_view(locales@),
        ) {
            Ok(m) => r is Ok && r->Ok_0@ == m,
            Err(e) => r == Err::<App, DesktopEntryError>(e),
        },
{
    let mut pattern: Vec<char> = Vec::new();
    let main_section = action.is_none();
    match action {
        Some(a) => {
            if a.name.as_str().unicode_len() == 0 {
                return Err(DesktopEntryError::EmptyAction);
            }
            crate::text::extend_chars(&mut pattern, "[Desktop Action ");
            crate::text::extend_chars(&mut pattern, a.name.as_str());
            crate::text::extend_chars(&mut pattern, "]");
        },
        None => {
            crate::text::extend_chars(&mut pattern, "[Desktop Entry]");
        },
    }
    let ghost pattern_spec = section_pattern(
        match action {
            Some(a) => Some(a.name@),
            None => None,
        },
    );
    assert(pattern@ =~= pattern_spec);
    let ghost loc = strings_view(locales@);
    let t = chars_of(contents);
    let n = t.len();
    let mut fields = Fields::new();
    let mut pos: usize = 0;
    assert(t@.take(n as int) =~= t@);
    loop
        invariant_except_break
            pos <= n,
            loc == strings_view(locales@),
            n == t@.len(),
            t@.take(n as int) == t@,
            scan(t@, pos as int, fields@, pattern@, loc, main_section) == scan(
                t@,
                0,
                initial_fields(),
                pattern@,
                loc,
                main_section,
            ),
        ensures
            fields@ == scan(t@, 0, initial_fields(), pattern@, loc, main_section),
        decreases n - pos,
    {
        if pos >= n {
            break;
        }
        let e = find_char(&t, pos, n, '\n');
        let (a, b) = trim_bounds(&t, pos, e);
        let line = slice_vec(&t, a, b);
        let ghost before = fields@;
        let stop = handle_line(&mut fields, &line, &pattern, locales, main_section);
        proof {
            assert(e == first_from(t@, pos as int, '\n'));
            assert(line@ == trim(t@.subrange(pos as int, e as int)));
            assert(process_line(before, line@, pattern@, loc, main_section) == (fields@, stop));
            if stop || e >= n {
                assert(scan(t@, pos as int, before, pattern@, loc, main_section) == fields@);
            } else {
                assert(scan(t@, pos as int, before, pattern@, loc, main_section) == scan(
                    t@,
                    e + 1,
                    fields@,
                    pattern@,
                    loc,
                    main_section,
                ));
            }
        }
        if stop || e >= n {
            break;
        }
        pos = e + 1;
    }
    let entry_type = match fields.entry_type {
        Some(t) => t,
        None => String::from_str("Application"),
    };
    if !crate::text::chars_eq(&chars_of(entry_type.as_str()), &chars_of("Application")) {
        return Err(DesktopEntryError::NotApplication);
    }
    if fields.exec_line.is_none() && !(fields.hidden && include_hidden) {
        return Err(DesktopEntryError::MissingExec);
    }
    if (fields.hidden && !include_hidden) || (!fields.hidden && filter_desktop
        && fields.no_display) {
        return Err(DesktopEntryError::Hidden);
    }
    let value = fields.name.into_value();
    let name = match value {
        Some(v) => match action {
            Some(a) => {
                if a.from.as_str().unicode_len() > 0 {
                    let mut named = a.from.clone();
                    named.append(" (");
                    named.append(v.as_str());
                    named.append(")");
                    named
                } else {
                    v
                }
            },
            None => v,
        },
        None => String::from_str("Unknown"),
    };
    let command = match fields.exec_line {
        Some(c) => c,
        None => String::new(),
    };
    let description = match fields.description.into_value() {
        Some(d) => d,
        None => String::new(),
    };
    Ok(
        App {
            name,
            command,
            description,
            generic_name: fields.generic_name.into_value(),
            keywords: fields.keywords,
            categories: fields.categories,
            mime_types: fields.mime_types,
            icon: fields.icon,
            is_terminal: fields.terminal,
            path: fields.path,
            only_show_in: fields.only_show_in,
            not_show_in: fields.not_show_in,
            hidden: fields.hidden,
            startup_notify: fields.startup_notify,
            startup_wm_class: fields.startup_wm_class,
            try_exec: fields.try_exec,
            entry_type,
            desktop_id: None,
            source_path: None,
            score: 0,
            history: 0,
            pinned: false,
            last_access: None,
            actions: fields.actions,
        },
    )
}

impl App {
    /// Parses the application of the main `[Desktop Entry]` section.
    /// `locales` are the user's locales, most specific first.
    pub fn parse(contents: &str, filter_desktop: bool, locales: &Vec<String>) -> (r: Result<
        App,
        DesktopEntryError,
    >)
        ensures
            match parse_section_spec(
                contents@,
                None,
                filter_desktop,
                false,
                strings_view(locales@),
            ) {
                Ok(m) => r is Ok && r->Ok_0@ == m,
                Err(e) => r == Err::<App, DesktopEntryError>(e),
            },
    {
        parse_section(contents, None, filter_desktop, false, locales)
    }

    /// Like [`App::parse`], but a `Hidden=true` entry is returned (with an
    /// empty command when it has no `Exec`) so that it can shadow others.
    pub fn parse_including_hidden(
        contents: &str,
        filter_desktop: bool,
        locales: &Vec<String>,
    ) -> (r: Result<App, DesktopEntryError>)
        ensures
            match parse_section_spec(contents@, None, filter_desktop, true, strings_view(locales@)) {
                Ok(m) => r is Ok && r->Ok_0@ == m,
                Err(e) => r == Err::<App, DesktopEntryError>(e),
            },
    {
        parse_section(contents, None, filter_desktop, true, locales)
    }

    /// Parses the application of a `[Desktop Action <name>]` section.
    pub fn parse_action(
        contents: &str,
        action: &Action,
        filter_desktop: bool,
        locales: &Vec<String>,
    ) -> (r: Result<App, DesktopEntryError>)
        ensures
            match parse_section_spec(
                contents@,
                Some((action.name@, action.from@)),
                filter_desktop,
                false,
                strings_view(locales@),
            ) {
                Ok(m) => r is Ok && r->Ok_0@ == m,
                Err(e) => r == Err::<App, DesktopEntryError>(e),
            },
    {
        parse_section(contents, Some(action), filter_desktop, false, locales)
    }
}

/// The locale setting that names the message language: `LC_ALL`, else
/// `LC_MESSAGES`, else `LANG`, else `C`.
pub open spec fn locale_setting(
    lc_all: Option<Seq<char>>,
    lc_messages: Option<Seq<char>>,
    lang: Option<Seq<char>>,
) -> Seq<char> {
    match lc_all {
        Some(v) => v,
        None => match lc_messages {
            Some(v) => v,
            None => match lang {
                Some(v) => v,
                None => "C"@,
            },
        },
    }
}

/// The locales a setting asks for, most specific first: none for `C` and
/// `POSIX`; otherwise the setting without its `.encoding`, then, when it
/// has a `_territory`, the bare language.
pub open spec fn locales_for(setting: Seq<char>) -> Seq<Seq<char>> {
    if setting == "C"@ || setting == "POSIX"@ {
        seq![]
    } else {
        let base = setting.take(first_from(setting, 0, '.'));
        let language = base.take(first_from(base, 0, '_'));
        if language != base {
            seq![base, language]
        } else {
            seq![base]
        }
    }
}

pub open spec fn opt_str_view(o: Option<&str>) -> Option<Seq<char>> {
    match o {
        Some(s) => Some(s@),
        None => None,
    }
}

/// The locales for localized keys, from the values of `LC_ALL`,
/// `LC_MESSAGES` and `LANG` (each `None` when unset).
pub fn locales_from_env(lc_all: Option<&str>, lc_messages: Option<&str>, lang: Option<&str>) -> (r:
    Vec<String>)
    ensures
        strings_view(r@) == locales_for(
            locale_setting(opt_str_view(lc_all), opt_str_view(lc_messages), opt_str_view(lang)),
        ),
{
    let setting: &str = match lc_all {
        Some(v) => v,
        None => match lc_messages {
            Some(v) => v,
            None => match lang {
                Some(v) => v,
                None => "C",
            },
        },
    };
    let c = chars_of(setting);
    let n = c.len();
    let mut out: Vec<String> = Vec::new();
    if range_eq(&c, 0, n, "C") || range_eq(&c, 0, n, "POSIX") {
        assert(c@.subrange(0, n as int) =~= c@);
        assert(strings_view(out@) =~= Seq::<Seq<char>>::empty());
        return out;
    }
    assert(c@.subrange(0, n as int) =~= c@);
    assert(c@.take(n as int) =~= c@);
    let dot = find_char(&c, 0, n, '.');
    let base = slice_vec(&c, 0, dot);
    assert(base@ =~= c@.take(dot as int));
    let m = base.len();
    assert(base@.take(m as int) =~= base@);
    let underscore = find_char(&base, 0, m, '_');
    out.push(string_from_chars(base.as_slice()));
    if underscore < m {
        let language = crate::text::string_from_range(&base, 0, underscore);
        assert(language@ =~= base@.take(underscore as int));
        assert(language@.len() < base@.len());
        out.push(language);
        assert(strings_view(out@) =~= seq![base@, base@.take(underscore as int)]);
    } else {
        assert(base@.take(underscore as int) =~= base@);
        assert(strings_view(out@) =~= seq![base@]);
    }
    out
}

} // verus!

verus! {

/// The `key=value` pairs of the section headed `pattern` in `t[pos..]`,
/// both sides trimmed, in the order of their lines; `in_target` says
/// whether `pos` lies inside that section. Blank lines, comments and
/// lines without `=` hold no pair; the section ends at the next header.
pub open spec fn section_entries_from(
    t: Seq<char>,
    pos: int,
    in_target: bool,
    pattern: Seq<char>,
) -> Seq<(Seq<char>, Seq<char>)>
    decreases t.len() - pos,
{
    if pos < 0 || pos >= t.len() {
        seq![]
    } else {
        let e = first_from(t, pos, '\n');
        let line = trim(t.subrange(pos, e));
        let blank = line.len() == 0 || line[0] == '#';
        let ends = !blank && line[0] == '[' && in_target && line != pattern;
        let header = !blank && !ends && line == pattern;
        let eq = first_from(line, 0, '=');
        let here: Seq<(Seq<char>, Seq<char>)> = if !blank && !ends && !header && in_target && eq
            < line.len() {
            seq![(trim(line.take(eq)), trim(line.subrange(eq + 1, line.len() as int)))]
        } else {
            seq![]
        };
        if ends || e >= t.len() || e < pos {
            here
        } else {
            here + section_entries_from(t, e + 1, in_target || header, pattern)
        }
    }
}

/// The `key=value` pairs of the section headed `pattern` in `t`.
pub open spec fn section_entries(t: Seq<char>, pattern: Seq<char>) -> Seq<(Seq<char>, Seq<char>)> {
    section_entries_from(t, 0, false, pattern)
}

/// The `key=value` pairs of the section that `action` names (the main
/// section when it is `None`).
pub open spec fn entries_for(
    contents: Seq<char>,
    action: Option<(Seq<char>, Seq<char>)>,
) -> Seq<(Seq<char>, Seq<char>)> {
    section_entries(
        contents,
        section_pattern(
            match action {
                Some((n, _)) => Some(n),
                None => None,
            },
        ),
    )
}

/// The part of the key `k` before `[`: the key without its locale.
pub open spec fn key_base(k: Seq<char>) -> Seq<char> {
    k.take(first_from(k, 0, '['))
}

/// Where the locale of the localized key `k` (`name[locale]`) stands
/// among the user's `locales`; `None` for any other key, a key whose
/// bracket is not closed, or a locale the user does not have.
pub open spec fn locale_rank(k: Seq<char>, name: Seq<char>, locales: Seq<Seq<char>>) -> Option<nat> {
    let b = first_from(k, 0, '[');
    let c = first_from(k, b + 1, ']');
    if key_base(k) == name && b < k.len() && c < k.len() {
        rank_from(locales, k.subrange(b + 1, c), 0)
    } else {
        None
    }
}

/// `es[i]` is the `name` value in the best-ranked of the user's locales,
/// the last of them when several share that locale.
pub open spec fn best_localized(
    es: Seq<(Seq<char>, Seq<char>)>,
    name: Seq<char>,
    locales: Seq<Seq<char>>,
    i: int,
) -> bool {
    &&& 0 <= i < es.len()
    &&& locale_rank(es[i].0, name, locales) is Some
    &&& forall|j: int|
        0 <= j < es.len() && #[trigger] locale_rank(es[j].0, name, locales) is Some ==> locale_rank(
            es[j].0,
            name,
            locales,
        )->0 >= locale_rank(es[i].0, name, locales)->0
    &&& forall|j: int|
        i < j < es.len() && #[trigger] locale_rank(es[j].0, name, locales) is Some ==> locale_rank(
            es[j].0,
            name,
            locales,
        )->0 > locale_rank(es[i].0, name, locales)->0
}

/// `es[i]` is the first pair whose key is exactly `name`.
pub open spec fn first_plain(es: Seq<(Seq<char>, Seq<char>)>, name: Seq<char>, i: int) -> bool {
    &&& 0 <= i < es.len()
    &&& es[i].0 == name
    &&& forall|j: int| 0 <= j < i ==> #[trigger] es[j].0 != name
}

/// The value a localizable key `name` takes from the pairs `es`: the value
/// in the best-ranked of the user's locales (the last one on a tie), else
/// the first unlocalized value, else none.
pub open spec fn chosen_localized(
    es: Seq<(Seq<char>, Seq<char>)>,
    name: Seq<char>,
    locales: Seq<Seq<char>>,
    v: Option<Seq<char>>,
) -> bool {
    &&& (exists|i: int| 0 <= i < es.len() && #[trigger] locale_rank(es[i].0, name, locales) is Some)
        ==> exists|i: int| #[trigger] best_localized(es, name, locales, i) && v == Some(es[i].1)
    &&& (forall|i: int| 0 <= i < es.len() ==> #[trigger] locale_rank(es[i].0, name, locales) is None)
        && (exists|i: int| 0 <= i < es.len() && #[trigger] es[i].0 == name) ==> exists|i: int|
        #[trigger] first_plain(es, name, i) && v == Some(es[i].1)
    &&& (forall|i: int| 0 <= i < es.len() ==> #[trigger] locale_rank(es[i].0, name, locales) is None)
        && (forall|i: int| 0 <= i < es.len() ==> #[trigger] es[i].0 != name) ==> v is None
}

/// `es[i]` is the first pair of key `name` (locale aside).
pub open spec fn first_keyed(es: Seq<(Seq<char>, Seq<char>)>, name: Seq<char>, i: int) -> bool {
    &&& 0 <= i < es.len()
    &&& key_base(es[i].0) == name
    &&& forall|j: int| 0 <= j < i ==> key_base(#[trigger] es[j].0) != name
}

/// `es[i]` is the last pair of key `name` (locale aside).
pub open spec fn last_keyed(es: Seq<(Seq<char>, Seq<char>)>, name: Seq<char>, i: int) -> bool {
    &&& 0 <= i < es.len()
    &&& key_base(es[i].0) == name
    &&& forall|j: int| i < j < es.len() ==> key_base(#[trigger] es[j].0) != name
}

/// No pair has key `name` (locale aside).
pub open spec fn unkeyed(es: Seq<(Seq<char>, Seq<char>)>, name: Seq<char>) -> bool {
    forall|j: int| 0 <= j < es.len() ==> key_base(#[trigger] es[j].0) != name
}

/// `es[i]` is the first pair of key `name` whose list is not empty.
pub open spec fn first_listed(es: Seq<(Seq<char>, Seq<char>)>, name: Seq<char>, i: int) -> bool {
    &&& 0 <= i < es.len()
    &&& key_base(es[i].0) == name
    &&& semicolon_list(es[i].1).len() > 0
    &&& forall|j: int|
        0 <= j < i && key_base(#[trigger] es[j].0) == name ==> semicolon_list(es[j].1).len() == 0
}

/// No pair of key `name` holds a non-empty list.
pub open spec fn unlisted(es: Seq<(Seq<char>, Seq<char>)>, name: Seq<char>) -> bool {
    forall|j: int|
        0 <= j < es.len() && key_base(#[trigger] es[j].0) == name ==> semicolon_list(es[j].1).len()
            == 0
}

// How one pair changes each kind of field.
spec fn localized_step(
    d: LocalizedModel,
    kv: (Seq<char>, Seq<char>),
    name: Seq<char>,
    locales: Seq<Seq<char>>,
) -> LocalizedModel {
    if key_base(kv.0) == name {
        localized_set(d, kv.0, kv.1, locales)
    } else {
        d
    }
}

spec fn first_step(
    cur: Option<Seq<char>>,
    kv: (Seq<char>, Seq<char>),
    name: Seq<char>,
    f: spec_fn(Seq<char>) -> Seq<char>,
) -> Option<Seq<char>> {
    if key_base(kv.0) == name && cur is None {
        Some(f(kv.1))
    } else {
        cur
    }
}

spec fn list_step(cur: Seq<Seq<char>>, kv: (Seq<char>, Seq<char>), name: Seq<char>) -> Seq<Seq<char>> {
    if key_base(kv.0) == name && cur.len() == 0 {
        semicolon_list(kv.1)
    } else {
        cur
    }
}

spec fn flag_step(cur: bool, kv: (Seq<char>, Seq<char>), name: Seq<char>) -> bool {
    if key_base(kv.0) == name {
        is_true(kv.1)
    } else {
        cur
    }
}

spec fn last_step(cur: Option<Seq<char>>, kv: (Seq<char>, Seq<char>), name: Seq<char>) -> Option<
    Seq<char>,
> {
    if key_base(kv.0) == name {
        Some(kv.1)
    } else {
        cur
    }
}

spec fn actions_step(cur: Option<Seq<Seq<char>>>, kv: (Seq<char>, Seq<char>), main: bool) -> Option<
    Seq<Seq<char>>,
> {
    if key_base(kv.0) == "Actions"@ && cur is None && main {
        Some(semicolon_list(kv.1))
    } else {
        cur
    }
}

spec fn same_text() -> spec_fn(Seq<char>) -> Seq<char> {
    |v: Seq<char>| v
}

spec fn cleaned_command() -> spec_fn(Seq<char>) -> Seq<char> {
    |v: Seq<char>| clean_command(v)
}

spec fn unescaped_icon() -> spec_fn(Seq<char>) -> Seq<char> {
    |v: Seq<char>| unescape_icon(v)
}

// The folds of those steps over the pairs, one after another.
spec fn localized_fold(
    d: LocalizedModel,
    es: Seq<(Seq<char>, Seq<char>)>,
    name: Seq<char>,
    locales: Seq<Seq<char>>,
) -> LocalizedModel
    decreases es.len(),
{
    if es.len() == 0 {
        d
    } else {
        localized_fold(localized_step(d, es[0], name, locales), es.drop_first(), name, locales)
    }
}

spec fn first_fold(
    cur: Option<Seq<char>>,
    es: Seq<(Seq<char>, Seq<char>)>,
    name: Seq<char>,
    f: spec_fn(Seq<char>) -> Seq<char>,
) -> Option<Seq<char>>
    decreases es.len(),
{
    if es.len() == 0 {
        cur
    } else {
        first_fold(first_step(cur, es[0], name, f), es.drop_first(), name, f)
    }
}

spec fn list_fold(cur: Seq<Seq<char>>, es: Seq<(Seq<char>, Seq<char>)>, name: Seq<char>) -> Seq<
    Seq<char>,
>
    decreases es.len(),
{
    if es.len() == 0 {
        cur
    } else {
        list_fold(list_step(cur, es[0], name), es.drop_first(), name)
    }
}

spec fn flag_fold(cur: bool, es: Seq<(Seq<char>, Seq<char>)>, name: Seq<char>) -> bool
    decreases es.len(),
{
    if es.len() == 0 {
        cur
    } else {
        flag_fold(flag_step(cur, es[0], name), es.drop_first(), name)
    }
}

spec fn last_fold(cur: Option<Seq<char>>, es: Seq<(Seq<char>, Seq<char>)>, name: Seq<char>) -> Option<
    Seq<char>,
>
    decreases es.len(),
{
    if es.len() == 0 {
        cur
    } else {
        last_fold(last_step(cur, es[0], name), es.drop_first(), name)
    }
}

spec fn actions_fold(cur: Option<Seq<Seq<char>>>, es: Seq<(Seq<char>, Seq<char>)>, main: bool) -> Option<
    Seq<Seq<char>>,
>
    decreases es.len(),
{
    if es.len() == 0 {
        cur
    } else {
        actions_fold(actions_step(cur, es[0], main), es.drop_first(), main)
    }
}


/// Each key of the section changes only its own field, as the steps say,
/// and never where the parser is.
proof fn lemma_entry_fields(
    st: FieldsModel,
    key: Seq<char>,
    value: Seq<char>,
    locales: Seq<Seq<char>>,
    main_section: bool,
)
    ensures
        ({
            let n = apply_entry(st, key, value, locales, main_section);
            let kv = (key, value);
            &&& n.name == localized_step(st.name, kv, "Name"@, locales)
            &&& n.generic_name == localized_step(st.generic_name, kv, "GenericName"@, locales)
            &&& n.description == localized_step(st.description, kv, "Comment"@, locales)
            &&& n.exec_line == first_step(st.exec_line, kv, "Exec"@, cleaned_command())
            &&& n.icon == first_step(st.icon, kv, "Icon"@, unescaped_icon())
            &&& n.path == first_step(st.path, kv, "Path"@, same_text())
            &&& n.try_exec == first_step(st.try_exec, kv, "TryExec"@, same_text())
            &&& n.startup_wm_class == first_step(st.startup_wm_class, kv, "StartupWMClass"@, same_text())
            &&& n.keywords == list_step(st.keywords, kv, "Keywords"@)
            &&& n.categories == list_step(st.categories, kv, "Categories"@)
            &&& n.mime_types == list_step(st.mime_types, kv, "MimeType"@)
            &&& n.only_show_in == list_step(st.only_show_in, kv, "OnlyShowIn"@)
            &&& n.not_show_in == list_step(st.not_show_in, kv, "NotShowIn"@)
            &&& n.terminal == flag_step(st.terminal, kv, "Terminal"@)
            &&& n.hidden == flag_step(st.hidden, kv, "Hidden"@)
            &&& n.no_display == flag_step(st.no_display, kv, "NoDisplay"@)
            &&& n.startup_notify == flag_step(st.startup_notify, kv, "StartupNotify"@)
            &&& n.entry_type == last_step(st.entry_type, kv, "Type"@)
            &&& n.actions == actions_step(st.actions, kv, main_section)
            &&& n.in_target == st.in_target
        }),
{
    reveal_strlit("Type");
    reveal_strlit("Name");
    reveal_strlit("GenericName");
    reveal_strlit("Comment");
    reveal_strlit("Keywords");
    reveal_strlit("Categories");
    reveal_strlit("MimeType");
    reveal_strlit("Icon");
    reveal_strlit("Terminal");
    reveal_strlit("Exec");
    reveal_strlit("Path");
    reveal_strlit("TryExec");
    reveal_strlit("OnlyShowIn");
    reveal_strlit("NotShowIn");
    reveal_strlit("Hidden");
    reveal_strlit("NoDisplay");
    reveal_strlit("StartupNotify");
    reveal_strlit("StartupWMClass");
    reveal_strlit("Actions");
    assert("Type"@.len() == 4);
    assert("Name"@.len() == 4);
    assert("GenericName"@.len() == 11);
    assert("Comment"@.len() == 7);
    assert("Keywords"@.len() == 8);
    assert("Categories"@.len() == 10);
    assert("MimeType"@.len() == 8);
    assert("Icon"@.len() == 4);
    assert("Terminal"@.len() == 8);
    assert("Exec"@.len() == 4);
    assert("Path"@.len() == 4);
    assert("TryExec"@.len() == 7);
    assert("OnlyShowIn"@.len() == 10);
    assert("NotShowIn"@.len() == 9);
    assert("Hidden"@.len() == 6);
    assert("NoDisplay"@.len() == 9);
    assert("StartupNotify"@.len() == 13);
    assert("StartupWMClass"@.len() == 14);
    assert("Actions"@.len() == 7);
    assert("Name"@[0] != "Type"@[0]);
    assert("MimeType"@[0] != "Keywords"@[0]);
    assert("Icon"@[0] != "Type"@[0]);
    assert("Icon"@[0] != "Name"@[0]);
    assert("Terminal"@[0] != "Keywords"@[0]);
    assert("Terminal"@[0] != "MimeType"@[0]);
    assert("Exec"@[0] != "Type"@[0]);
    assert("Exec"@[0] != "Name"@[0]);
    assert("Exec"@[0] != "Icon"@[0]);
    assert("Path"@[0] != "Type"@[0]);
    assert("Path"@[0] != "Name"@[0]);
    assert("Path"@[0] != "Icon"@[0]);
    assert("Path"@[0] != "Exec"@[0]);
    assert("TryExec"@[0] != "Comment"@[0]);
    assert("OnlyShowIn"@[0] != "Categories"@[0]);
    assert("NoDisplay"@[2] != "NotShowIn"@[2]);
    assert("Actions"@[0] != "Comment"@[0]);
    assert("Actions"@[0] != "TryExec"@[0]);
    assert(cleaned_command()(value) == clean_command(value));
    assert(unescaped_icon()(value) == unescape_icon(value));
    assert(same_text()(value) == value);
}


/// The fields of the section after scanning, each as its fold over the
/// pairs `es` of the target section says, from `st`.
spec fn folded_fields(
    st: FieldsModel,
    es: Seq<(Seq<char>, Seq<char>)>,
    n: FieldsModel,
    locales: Seq<Seq<char>>,
    main_section: bool,
) -> bool {
    &&& n.name == localized_fold(st.name, es, "Name"@, locales)
    &&& n.generic_name == localized_fold(st.generic_name, es, "GenericName"@, locales)
    &&& n.description == localized_fold(st.description, es, "Comment"@, locales)
    &&& n.exec_line == first_fold(st.exec_line, es, "Exec"@, cleaned_command())
    &&& n.icon == first_fold(st.icon, es, "Icon"@, unescaped_icon())
    &&& n.path == first_fold(st.path, es, "Path"@, same_text())
    &&& n.try_exec == first_fold(st.try_exec, es, "TryExec"@, same_text())
    &&& n.startup_wm_class == first_fold(st.startup_wm_class, es, "StartupWMClass"@, same_text())
    &&& n.keywords == list_fold(st.keywords, es, "Keywords"@)
    &&& n.categories == list_fold(st.categories, es, "Categories"@)
    &&& n.mime_types == list_fold(st.mime_types, es, "MimeType"@)
    &&& n.only_show_in == list_fold(st.only_show_in, es, "OnlyShowIn"@)
    &&& n.not_show_in == list_fold(st.not_show_in, es, "NotShowIn"@)
    &&& n.terminal == flag_fold(st.terminal, es, "Terminal"@)
    &&& n.hidden == flag_fold(st.hidden, es, "Hidden"@)
    &&& n.no_display == flag_fold(st.no_display, es, "NoDisplay"@)
    &&& n.startup_notify == flag_fold(st.startup_notify, es, "StartupNotify"@)
    &&& n.entry_type == last_fold(st.entry_type, es, "Type"@)
    &&& n.actions == actions_fold(st.actions, es, main_section)
}

/// Scanning the lines collects every field from the pairs of the target
/// section, one after another.
proof fn lemma_scan_fields(
    t: Seq<char>,
    pos: int,
    st: FieldsModel,
    pattern: Seq<char>,
    locales: Seq<Seq<char>>,
    main_section: bool,
)
    ensures
        folded_fields(
            st,
            section_entries_from(t, pos, st.in_target, pattern),
            scan(t, pos, st, pattern, locales, main_section),
            locales,
            main_section,
        ),
    decreases t.len() - pos,
{
    if pos < 0 || pos >= t.len() {
    } else {
        let e = first_from(t, pos, '\n');
        let line = trim(t.subrange(pos, e));
        let (next, stop) = process_line(st, line, pattern, locales, main_section);
        let blank = line.len() == 0 || line[0] == '#';
        let ends = !blank && line[0] == '[' && st.in_target && line != pattern;
        let header = !blank && !ends && line == pattern;
        let eq = first_from(line, 0, '=');
        let pair = !blank && !ends && !header && st.in_target && eq < line.len();
        let kv = (trim(line.take(eq)), trim(line.subrange(eq + 1, line.len() as int)));
        let here: Seq<(Seq<char>, Seq<char>)> = if pair {
            seq![kv]
        } else {
            seq![]
        };
        if pair {
            lemma_entry_fields(st, kv.0, kv.1, locales, main_section);
        }
        assert(next.in_target == (st.in_target || header));
        assert(stop == ends);
        if stop || e >= t.len() || e < pos {
            if pair {
                assert(here.drop_first() =~= Seq::<(Seq<char>, Seq<char>)>::empty());
                reveal_with_fuel(localized_fold, 2);
                reveal_with_fuel(first_fold, 2);
                reveal_with_fuel(list_fold, 2);
                reveal_with_fuel(flag_fold, 2);
                reveal_with_fuel(last_fold, 2);
                reveal_with_fuel(actions_fold, 2);
            }
        } else {
            let rest = section_entries_from(t, e + 1, st.in_target || header, pattern);
            lemma_scan_fields(t, e + 1, next, pattern, locales, main_section);
            if pair {
                assert((here + rest)[0] == kv);
                assert((here + rest).drop_first() =~= rest);
            } else {
                assert(here + rest =~= rest);
            }
        }
    }
}


proof fn lemma_folds_push(
    es: Seq<(Seq<char>, Seq<char>)>,
    x: (Seq<char>, Seq<char>),
    name: Seq<char>,
    locales: Seq<Seq<char>>,
    f: spec_fn(Seq<char>) -> Seq<char>,
    main: bool,
    d: LocalizedModel,
    o: Option<Seq<char>>,
    l: Seq<Seq<char>>,
    b: bool,
    a: Option<Seq<Seq<char>>>,
)
    ensures
        localized_fold(d, es.push(x), name, locales) == localized_step(
            localized_fold(d, es, name, locales),
            x,
            name,
            locales,
        ),
        first_fold(o, es.push(x), name, f) == first_step(first_fold(o, es, name, f), x, name, f),
        list_fold(l, es.push(x), name) == list_step(list_fold(l, es, name), x, name),
        flag_fold(b, es.push(x), name) == flag_step(flag_fold(b, es, name), x, name),
        last_fold(o, es.push(x), name) == last_step(last_fold(o, es, name), x, name),
        actions_fold(a, es.push(x), main) == actions_step(actions_fold(a, es, main), x, main),
    decreases es.len(),
{
    if es.len() == 0 {
        assert(es.push(x).drop_first() =~= es);
        assert(es.push(x)[0] == x);
        reveal_with_fuel(localized_fold, 2);
        reveal_with_fuel(first_fold, 2);
        reveal_with_fuel(list_fold, 2);
        reveal_with_fuel(flag_fold, 2);
        reveal_with_fuel(last_fold, 2);
        reveal_with_fuel(actions_fold, 2);
    } else {
        assert(es.push(x)[0] == es[0]);
        assert(es.push(x).drop_first() =~= es.drop_first().push(x));
        lemma_folds_push(
            es.drop_first(),
            x,
            name,
            locales,
            f,
            main,
            localized_step(d, es[0], name, locales),
            first_step(o, es[0], name, f),
            list_step(l, es[0], name),
            flag_step(b, es[0], name),
            a,
        );
        lemma_folds_push(
            es.drop_first(),
            x,
            name,
            locales,
            f,
            main,
            d,
            last_step(o, es[0], name),
            l,
            b,
            actions_step(a, es[0], main),
        );
    }
}

/// A single-valued key keeps its first value.
proof fn lemma_first_fold_chooses(
    es: Seq<(Seq<char>, Seq<char>)>,
    name: Seq<char>,
    f: spec_fn(Seq<char>) -> Seq<char>,
)
    ensures
        unkeyed(es, name) ==> first_fold(None, es, name, f) is None,
        forall|i: int|
            #[trigger] first_keyed(es, name, i) ==> first_fold(None, es, name, f) == Some(
                f(es[i].1),
            ),
        first_fold(None, es, name, f) is None ==> unkeyed(es, name),
    decreases es.len(),
{
    if es.len() > 0 {
        let p = es.drop_last();
        let x = es.last();
        assert(p.push(x) =~= es);
        lemma_first_fold_chooses(p, name, f);
        lemma_folds_push(
            p,
            x,
            name,
            seq![],
            f,
            true,
            LocalizedModel { base: None, localized: None },
            None,
            seq![],
            false,
            None,
        );
        assert forall|j: int| 0 <= j < p.len() implies #[trigger] es[j] == p[j] by {}
        assert forall|i: int| #[trigger] first_keyed(es, name, i) implies first_fold(
            None,
            es,
            name,
            f,
        ) == Some(f(es[i].1)) by {
            if i < p.len() {
                assert(first_keyed(p, name, i));
            } else {
                assert(unkeyed(p, name));
            }
        }
        if first_fold(None, es, name, f) is None {
            assert(es[es.len() - 1] == x);
        }
    }
}

/// A list key keeps the first of its values that holds a non-empty list.
proof fn lemma_list_fold_chooses(es: Seq<(Seq<char>, Seq<char>)>, name: Seq<char>)
    ensures
        unlisted(es, name) ==> list_fold(seq![], es, name) == Seq::<Seq<char>>::empty(),
        forall|i: int|
            #[trigger] first_listed(es, name, i) ==> list_fold(seq![], es, name) == semicolon_list(
                es[i].1,
            ),
        list_fold(seq![], es, name).len() == 0 ==> unlisted(es, name),
    decreases es.len(),
{
    if es.len() > 0 {
        let p = es.drop_last();
        let x = es.last();
        assert(p.push(x) =~= es);
        lemma_list_fold_chooses(p, name);
        lemma_folds_push(
            p,
            x,
            name,
            seq![],
            same_text(),
            true,
            LocalizedModel { base: None, localized: None },
            None,
            seq![],
            false,
            None,
        );
        assert forall|j: int| 0 <= j < p.len() implies #[trigger] es[j] == p[j] by {}
        assert forall|i: int| #[trigger] first_listed(es, name, i) implies list_fold(
            seq![],
            es,
            name,
        ) == semicolon_list(es[i].1) by {
            if i < p.len() {
                assert(first_listed(p, name, i));
            } else {
                assert(unlisted(p, name));
            }
        }
        if list_fold(seq![], es, name).len() == 0 {
            assert(es[es.len() - 1] == x);
        }
    }
}

/// A flag takes its last value; an absent flag is false.
proof fn lemma_flag_fold_chooses(es: Seq<(Seq<char>, Seq<char>)>, name: Seq<char>)
    ensures
        unkeyed(es, name) ==> !flag_fold(false, es, name),
        forall|i: int| #[trigger] last_keyed(es, name, i) ==> flag_fold(false, es, name) == is_true(es[i].1),
        unkeyed(es, name) ==> last_fold(None, es, name) is None,
        forall|i: int| #[trigger] last_keyed(es, name, i) ==> last_fold(None, es, name) == Some(es[i].1),
    decreases es.len(),
{
    if es.len() > 0 {
        let p = es.drop_last();
        let x = es.last();
        assert(p.push(x) =~= es);
        lemma_flag_fold_chooses(p, name);
        lemma_folds_push(
            p,
            x,
            name,
            seq![],
            same_text(),
            true,
            LocalizedModel { base: None, localized: None },
            None,
            seq![],
            false,
            None,
        );
        assert forall|j: int| 0 <= j < p.len() implies #[trigger] es[j] == p[j] by {}
        assert(es[es.len() - 1] == x);
        assert forall|i: int| #[trigger] last_keyed(es, name, i) implies flag_fold(false, es, name)
            == is_true(es[i].1) && last_fold(None, es, name) == Some(es[i].1) by {
            if i < p.len() {
                assert(last_keyed(p, name, i));
            }
        }
    }
}


spec fn held_text(o: Option<(nat, Seq<char>)>) -> Seq<char> {
    match o {
        Some((_, v)) => v,
        None => seq![],
    }
}

spec fn held_rank(o: Option<(nat, Seq<char>)>) -> nat {
    match o {
        Some((r, _)) => r,
        None => 0,
    }
}

/// A key name without `[` is the only key of that name without a locale.
proof fn lemma_plain_key(k: Seq<char>, name: Seq<char>)
    requires
        forall|j: int| 0 <= j < name.len() ==> name[j] != '[',
    ensures
        k == name ==> key_base(k) == name && first_from(k, 0, '[') == k.len(),
        key_base(k) == name && first_from(k, 0, '[') >= k.len() ==> k == name,
        key_base(k) == name && first_from(k, 0, '[') < k.len() ==> k != name,
{
    lemma_first_from_bounds(k, 0, '[');
    if k == name {
        assert(k.take(k.len() as int) =~= k);
    }
    if key_base(k) == name && first_from(k, 0, '[') >= k.len() {
        assert(k.take(k.len() as int) =~= k);
    }
    if key_base(k) == name && first_from(k, 0, '[') < k.len() && k == name {
        assert(k[first_from(k, 0, '[')] == '[');
    }
}

proof fn lemma_best_kept(
    p: Seq<(Seq<char>, Seq<char>)>,
    x: (Seq<char>, Seq<char>),
    name: Seq<char>,
    locales: Seq<Seq<char>>,
    i: int,
)
    requires
        best_localized(p, name, locales, i),
        locale_rank(x.0, name, locales) is None || locale_rank(x.0, name, locales)->0 > locale_rank(
            p[i].0,
            name,
            locales,
        )->0,
    ensures
        best_localized(p.push(x), name, locales, i),
{
    let es = p.push(x);
    assert forall|j: int| 0 <= j < p.len() implies #[trigger] es[j] == p[j] by {}
    assert(es[p.len() as int] == x);
}

/// A localizable key takes its value in the best-ranked of the user's
/// locales (the last one on a tie), else its first unlocalized value.
proof fn lemma_localized_fold_chooses(
    es: Seq<(Seq<char>, Seq<char>)>,
    name: Seq<char>,
    locales: Seq<Seq<char>>,
)
    requires
        forall|j: int| 0 <= j < name.len() ==> name[j] != '[',
    ensures
        ({
            let d = localized_fold(LocalizedModel { base: None, localized: None }, es, name, locales);
            &&& d.base is None <==> forall|i: int| 0 <= i < es.len() ==> #[trigger] es[i].0 != name
            &&& d.base is Some ==> exists|i: int| #[trigger] first_plain(es, name, i) && d.base == Some(es[i].1)
            &&& d.localized is None <==> forall|i: int|
                0 <= i < es.len() ==> #[trigger] locale_rank(es[i].0, name, locales) is None
            &&& d.localized is Some ==> exists|i: int|
                #[trigger] best_localized(es, name, locales, i) && held_text(d.localized) == es[i].1
                    && held_rank(d.localized) == locale_rank(es[i].0, name, locales)->0
        }),
    decreases es.len(),
{
    let d0 = LocalizedModel { base: None, localized: None };
    if es.len() == 0 {
        return;
    }
    let p = es.drop_last();
    let x = es.last();
    assert(p.push(x) =~= es);
    lemma_localized_fold_chooses(p, name, locales);
    lemma_folds_push(p, x, name, locales, same_text(), true, d0, None, seq![], false, None);
    let d = localized_fold(d0, p, name, locales);
    let n = localized_fold(d0, es, name, locales);
    let k = x.0;
    let last = es.len() - 1;
    assert(es[last] == x);
    assert forall|j: int| 0 <= j < p.len() implies #[trigger] es[j] == p[j] by {}
    lemma_plain_key(k, name);
    lemma_first_from_bounds(k, 0, '[');
    let b = first_from(k, 0, '[');
    if d.localized is Some {
        let i = choose|i: int|
            #[trigger] best_localized(p, name, locales, i) && held_text(d.localized) == p[i].1
                && held_rank(d.localized) == locale_rank(p[i].0, name, locales)->0;
        if locale_rank(k, name, locales) is None || locale_rank(k, name, locales)->0 > held_rank(
            d.localized,
        ) {
            lemma_best_kept(p, x, name, locales, i);
            assert(es[i] == p[i]);
        }
    }
    if key_base(k) != name {
        assert(n == d);
        assert(k != name);
        assert(locale_rank(k, name, locales) is None);
    } else if b < k.len() {
        assert(k != name);
        let c = first_from(k, b + 1, ']');
        if c >= k.len() {
            assert(n == d);
            assert(locale_rank(k, name, locales) is None);
        } else {
            let r = rank_from(locales, k.subrange(b + 1, c), 0);
            assert(locale_rank(k, name, locales) == r);
            if r is None {
                assert(n == d);
            } else {
                let rank = r->0;
                if d.localized is None || rank <= localized_rank(d) {
                    assert(n.localized == Some((rank, x.1)));
                    assert(best_localized(es, name, locales, last));
                } else {
                    assert(n == d);
                }
            }
        }
    } else {
        assert(k == name);
        assert(locale_rank(k, name, locales) is None);
        if d.base is None {
            assert(n.base == Some(x.1));
            assert(first_plain(es, name, last));
        } else {
            assert(n == d);
        }
    }
    if n.base is Some && d.base is Some {
        let i = choose|i: int| #[trigger] first_plain(p, name, i) && d.base == Some(p[i].1);
        assert(first_plain(es, name, i));
    }
}

/// The value a localizable key takes is the one the rule of
/// [`chosen_localized`] picks.
proof fn lemma_localized_value_chosen(
    es: Seq<(Seq<char>, Seq<char>)>,
    name: Seq<char>,
    locales: Seq<Seq<char>>,
)
    requires
        forall|j: int| 0 <= j < name.len() ==> name[j] != '[',
    ensures
        chosen_localized(
            es,
            name,
            locales,
            localized_value(localized_fold(LocalizedModel { base: None, localized: None }, es, name, locales)),
        ),
{
    lemma_localized_fold_chooses(es, name, locales);
    let d = localized_fold(LocalizedModel { base: None, localized: None }, es, name, locales);
    if d.localized is Some {
        let i = choose|i: int|
            #[trigger] best_localized(es, name, locales, i) && held_text(d.localized) == es[i].1
                && held_rank(d.localized) == locale_rank(es[i].0, name, locales)->0;
        assert(best_localized(es, name, locales, i));
        assert(localized_value(d) == Some(es[i].1));
    } else if d.base is Some {
        let i = choose|i: int| #[trigger] first_plain(es, name, i) && d.base == Some(es[i].1);
        assert(first_plain(es, name, i));
    }
}


/// Only the main section lists actions, and it keeps the first list.
proof fn lemma_actions_fold_chooses(es: Seq<(Seq<char>, Seq<char>)>, main: bool)
    ensures
        !main || unkeyed(es, "Actions"@) ==> actions_fold(None, es, main) is None,
        forall|i: int|
            main && #[trigger] first_keyed(es, "Actions"@, i) ==> actions_fold(None, es, main)
                == Some(semicolon_list(es[i].1)),
    decreases es.len(),
{
    if es.len() > 0 {
        let p = es.drop_last();
        let x = es.last();
        assert(p.push(x) =~= es);
        lemma_actions_fold_chooses(p, main);
        lemma_folds_push(
            p,
            x,
            "Actions"@,
            seq![],
            same_text(),
            main,
            LocalizedModel { base: None, localized: None },
            None,
            seq![],
            false,
            None,
        );
        assert forall|j: int| 0 <= j < p.len() implies #[trigger] es[j] == p[j] by {}
        assert(es[es.len() - 1] == x);
        assert forall|i: int| main && #[trigger] first_keyed(es, "Actions"@, i) implies actions_fold(
            None,
            es,
            main,
        ) == Some(semicolon_list(es[i].1)) by {
            if i < p.len() {
                assert(first_keyed(p, "Actions"@, i));
            } else {
                assert(unkeyed(p, "Actions"@));
            }
        }
    }
}

/// The value of an optional text: the text, or empty when there is none.
pub open spec fn text_or_empty(v: Option<Seq<char>>) -> Seq<char> {
    match v {
        Some(t) => t,
        None => seq![],
    }
}

/// What a parsed application says, in terms of the `key=value` pairs of
/// its section (see [`entries_for`]):
/// - its name, generic name and description are the values of `Name`,
///   `GenericName` and `Comment` in the best-ranked of the user's locales
///   (the last on a tie), else their first unlocalized values (see
///   [`chosen_localized`]); a missing name reads `Unknown`, and an action
///   is named after its application;
/// - its command is the first `Exec` cleaned of field codes, its icon the
///   first `Icon` unescaped, and its path, `TryExec` and `StartupWMClass`
///   their first values;
/// - its keywords, categories, MIME types and desktop lists are the first
///   non-empty lists of their keys;
/// - the terminal, hidden and startup-notification flags are their last
///   values, false when absent, and its type is the last `Type`, else
///   `Application`;
/// - only the main section lists actions: its first `Actions` list.
pub proof fn lemma_parsed_fields(
    contents: Seq<char>,
    action: Option<(Seq<char>, Seq<char>)>,
    filter_desktop: bool,
    include_hidden: bool,
    locales: Seq<Seq<char>>,
    m: AppModel,
)
    requires
        parse_section_spec(contents, action, filter_desktop, include_hidden, locales) == Ok::<
            AppModel,
            DesktopEntryError,
        >(m),
    ensures
        exists|v: Option<Seq<char>>|
            #[trigger] chosen_localized(entries_for(contents, action), "Comment"@, locales, v)
                && m.description == text_or_empty(v),
        exists|v: Option<Seq<char>>|
            #[trigger] chosen_localized(entries_for(contents, action), "Name"@, locales, v) && m.name
                == display_name(
                v,
                match action {
                    Some((_, f)) => Some(f),
                    None => None,
                },
            ),
        chosen_localized(entries_for(contents, action), "GenericName"@, locales, m.generic_name),
        forall|i: int|
            #[trigger] first_keyed(entries_for(contents, action), "Exec"@, i) ==> m.command
                == clean_command(entries_for(contents, action)[i].1),
        unkeyed(entries_for(contents, action), "Exec"@) ==> m.command == Seq::<char>::empty(),
        forall|i: int|
            #[trigger] first_keyed(entries_for(contents, action), "Icon"@, i) ==> m.icon == Some(
                unescape_icon(entries_for(contents, action)[i].1),
            ),
        unkeyed(entries_for(contents, action), "Icon"@) ==> m.icon is None,
        forall|i: int|
            #[trigger] first_keyed(entries_for(contents, action), "Path"@, i) ==> m.path == Some(
                entries_for(contents, action)[i].1,
            ),
        unkeyed(entries_for(contents, action), "Path"@) ==> m.path is None,
        forall|i: int|
            #[trigger] first_keyed(entries_for(contents, action), "TryExec"@, i) ==> m.try_exec
                == Some(entries_for(contents, action)[i].1),
        unkeyed(entries_for(contents, action), "TryExec"@) ==> m.try_exec is None,
        forall|i: int|
            #[trigger] first_keyed(entries_for(contents, action), "StartupWMClass"@, i)
                ==> m.startup_wm_class == Some(entries_for(contents, action)[i].1),
        unkeyed(entries_for(contents, action), "StartupWMClass"@) ==> m.startup_wm_class is None,
        forall|i: int|
            #[trigger] first_listed(entries_for(contents, action), "Keywords"@, i) ==> m.keywords
                == semicolon_list(entries_for(contents, action)[i].1),
        unlisted(entries_for(contents, action), "Keywords"@) ==> m.keywords.len() == 0,
        forall|i: int|
            #[trigger] first_listed(entries_for(contents, action), "Categories"@, i) ==> m.categories
                == semicolon_list(entries_for(contents, action)[i].1),
        unlisted(entries_for(contents, action), "Categories"@) ==> m.categories.len() == 0,
        forall|i: int|
            #[trigger] first_listed(entries_for(contents, action), "MimeType"@, i) ==> m.mime_types
                == semicolon_list(entries_for(contents, action)[i].1),
        unlisted(entries_for(contents, action), "MimeType"@) ==> m.mime_types.len() == 0,
        forall|i: int|
            #[trigger] first_listed(entries_for(contents, action), "OnlyShowIn"@, i)
                ==> m.only_show_in == semicolon_list(entries_for(contents, action)[i].1),
        unlisted(entries_for(contents, action), "OnlyShowIn"@) ==> m.only_show_in.len() == 0,
        forall|i: int|
            #[trigger] first_listed(entries_for(contents, action), "NotShowIn"@, i) ==> m.not_show_in
                == semicolon_list(entries_for(contents, action)[i].1),
        unlisted(entries_for(contents, action), "NotShowIn"@) ==> m.not_show_in.len() == 0,
        forall|i: int|
            #[trigger] last_keyed(entries_for(contents, action), "Terminal"@, i) ==> m.is_terminal
                == is_true(entries_for(contents, action)[i].1),
        unkeyed(entries_for(contents, action), "Terminal"@) ==> !m.is_terminal,
        forall|i: int|
            #[trigger] last_keyed(entries_for(contents, action), "Hidden"@, i) ==> m.hidden
                == is_true(entries_for(contents, action)[i].1),
        unkeyed(entries_for(contents, action), "Hidden"@) ==> !m.hidden,
        forall|i: int|
            #[trigger] last_keyed(entries_for(contents, action), "StartupNotify"@, i)
                ==> m.startup_notify == is_true(entries_for(contents, action)[i].1),
        unkeyed(entries_for(contents, action), "StartupNotify"@) ==> !m.startup_notify,
        forall|i: int|
            #[trigger] last_keyed(entries_for(contents, action), "Type"@, i) ==> m.entry_type
                == entries_for(contents, action)[i].1,
        unkeyed(entries_for(contents, action), "Type"@) ==> m.entry_type == "Application"@,
        forall|i: int|
            action is None && #[trigger] first_keyed(entries_for(contents, action), "Actions"@, i)
                ==> m.actions == Some(semicolon_list(entries_for(contents, action)[i].1)),
        action is Some || unkeyed(entries_for(contents, action), "Actions"@) ==> m.actions is None,
{
    let pattern = section_pattern(
        match action {
            Some((n, _)) => Some(n),
            None => None,
        },
    );
    let main = action is None;
    let es = entries_for(contents, action);
    let st = scan(contents, 0, initial_fields(), pattern, locales, main);
    lemma_scan_fields(contents, 0, initial_fields(), pattern, locales, main);
    reveal_strlit("Comment");
    reveal_strlit("Name");
    reveal_strlit("GenericName");
    lemma_localized_value_chosen(es, "Comment"@, locales);
    lemma_localized_value_chosen(es, "Name"@, locales);
    lemma_localized_value_chosen(es, "GenericName"@, locales);
    assert(chosen_localized(es, "Comment"@, locales, localized_value(st.description)));
    assert(chosen_localized(es, "Name"@, locales, localized_value(st.name)));
    lemma_first_fold_chooses(es, "Exec"@, cleaned_command());
    lemma_first_fold_chooses(es, "Icon"@, unescaped_icon());
    lemma_first_fold_chooses(es, "Path"@, same_text());
    lemma_first_fold_chooses(es, "TryExec"@, same_text());
    lemma_first_fold_chooses(es, "StartupWMClass"@, same_text());
    lemma_list_fold_chooses(es, "Keywords"@);
    lemma_list_fold_chooses(es, "Categories"@);
    lemma_list_fold_chooses(es, "MimeType"@);
    lemma_list_fold_chooses(es, "OnlyShowIn"@);
    lemma_list_fold_chooses(es, "NotShowIn"@);
    lemma_flag_fold_chooses(es, "Terminal"@);
    lemma_flag_fold_chooses(es, "Hidden"@);
    lemma_flag_fold_chooses(es, "StartupNotify"@);
    lemma_flag_fold_chooses(es, "Type"@);
    lemma_actions_fold_chooses(es, main);
    assert forall|i: int| #[trigger] first_keyed(es, "Exec"@, i) implies m.command == clean_command(
        es[i].1,
    ) by {
        assert(cleaned_command()(es[i].1) == clean_command(es[i].1));
    }
    assert forall|i: int| #[trigger] first_keyed(es, "Icon"@, i) implies m.icon == Some(
        unescape_icon(es[i].1),
    ) by {
        assert(unescaped_icon()(es[i].1) == unescape_icon(es[i].1));
    }
    assert forall|i: int| #[trigger] first_keyed(es, "Path"@, i) implies m.path == Some(es[i].1) by {
        assert(same_text()(es[i].1) == es[i].1);
    }
    assert forall|i: int| #[trigger] first_keyed(es, "TryExec"@, i) implies m.try_exec == Some(
        es[i].1,
    ) by {
        assert(same_text()(es[i].1) == es[i].1);
    }
    assert forall|i: int| #[trigger] first_keyed(es, "StartupWMClass"@, i) implies m.startup_wm_class
        == Some(es[i].1) by {
        assert(same_text()(es[i].1) == es[i].1);
    }
}


/// The flag `name` is set: its last value reads `true`.
pub open spec fn flag_set(es: Seq<(Seq<char>, Seq<char>)>, name: Seq<char>) -> bool {
    exists|i: int| #[trigger] last_keyed(es, name, i) && is_true(es[i].1)
}

/// The section describes an application: its last `Type` is
/// `Application`, or it has none.
pub open spec fn typed_application(es: Seq<(Seq<char>, Seq<char>)>) -> bool {
    unkeyed(es, "Type"@) || exists|i: int| #[trigger] last_keyed(es, "Type"@, i) && es[i].1
        == "Application"@
}

proof fn lemma_last_keyed_unique(es: Seq<(Seq<char>, Seq<char>)>, name: Seq<char>, i: int, j: int)
    requires
        last_keyed(es, name, i),
        last_keyed(es, name, j),
    ensures
        i == j,
{
    if i < j {
        assert(key_base(es[j].0) == name);
    } else if j < i {
        assert(key_base(es[i].0) == name);
    }
}

proof fn lemma_some_last_keyed(es: Seq<(Seq<char>, Seq<char>)>, name: Seq<char>)
    requires
        !unkeyed(es, name),
    ensures
        exists|i: int| #[trigger] last_keyed(es, name, i),
    decreases es.len(),
{
    let last = es.len() - 1;
    if key_base(es[last].0) == name {
        assert(last_keyed(es, name, last));
    } else {
        let p = es.drop_last();
        assert forall|j: int| 0 <= j < p.len() implies #[trigger] es[j] == p[j] by {}
        let k = choose|k: int| 0 <= k < es.len() && key_base(#[trigger] es[k].0) == name;
        assert(key_base(p[k].0) == name);
        lemma_some_last_keyed(p, name);
        let i = choose|i: int| #[trigger] last_keyed(p, name, i);
        assert(last_keyed(es, name, i));
    }
}

/// When a section parses, in terms of the `key=value` pairs of the section
/// (see [`entries_for`]): an action needs a name; the section must be of
/// type `Application`; it needs an `Exec` unless it is hidden and hidden
/// entries are wanted; a hidden entry is refused unless wanted, and one
/// marked `NoDisplay` when desktop filtering is on.
pub proof fn lemma_parse_outcome(
    contents: Seq<char>,
    action: Option<(Seq<char>, Seq<char>)>,
    filter_desktop: bool,
    include_hidden: bool,
    locales: Seq<Seq<char>>,
)
    ensures
        ({
            let es = entries_for(contents, action);
            let r = parse_section_spec(contents, action, filter_desktop, include_hidden, locales);
            let hidden = flag_set(es, "Hidden"@);
            &&& (action matches Some((n, _)) && n.len() == 0) ==> r == Err::<AppModel, DesktopEntryError>(
                DesktopEntryError::EmptyAction,
            )
            &&& !(action matches Some((n, _)) && n.len() == 0) ==> {
                if !typed_application(es) {
                    r == Err::<AppModel, DesktopEntryError>(DesktopEntryError::NotApplication)
                } else if unkeyed(es, "Exec"@) && !(hidden && include_hidden) {
                    r == Err::<AppModel, DesktopEntryError>(DesktopEntryError::MissingExec)
                } else if (hidden && !include_hidden) || (!hidden && filter_desktop && flag_set(
                    es,
                    "NoDisplay"@,
                )) {
                    r == Err::<AppModel, DesktopEntryError>(DesktopEntryError::Hidden)
                } else {
                    r is Ok
                }
            }
        }),
{
    let pattern = section_pattern(
        match action {
            Some((n, _)) => Some(n),
            None => None,
        },
    );
    let main = action is None;
    let es = entries_for(contents, action);
    let st = scan(contents, 0, initial_fields(), pattern, locales, main);
    lemma_scan_fields(contents, 0, initial_fields(), pattern, locales, main);
    lemma_first_fold_chooses(es, "Exec"@, cleaned_command());
    lemma_flag_fold_chooses(es, "Hidden"@);
    lemma_flag_fold_chooses(es, "NoDisplay"@);
    lemma_flag_fold_chooses(es, "Type"@);
    assert(st.hidden == flag_set(es, "Hidden"@)) by {
        if !unkeyed(es, "Hidden"@) {
            lemma_some_last_keyed(es, "Hidden"@);
            let i = choose|i: int| #[trigger] last_keyed(es, "Hidden"@, i);
            if flag_set(es, "Hidden"@) {
                let j = choose|j: int| #[trigger] last_keyed(es, "Hidden"@, j) && is_true(es[j].1);
                lemma_last_keyed_unique(es, "Hidden"@, i, j);
            }
        }
    }
    assert(st.no_display == flag_set(es, "NoDisplay"@)) by {
        if !unkeyed(es, "NoDisplay"@) {
            lemma_some_last_keyed(es, "NoDisplay"@);
            let i = choose|i: int| #[trigger] last_keyed(es, "NoDisplay"@, i);
            if flag_set(es, "NoDisplay"@) {
                let j = choose|j: int| #[trigger] last_keyed(es, "NoDisplay"@, j) && is_true(es[j].1);
                lemma_last_keyed_unique(es, "NoDisplay"@, i, j);
            }
        }
    }
    let entry_type = match st.entry_type {
        Some(t) => t,
        None => "Application"@,
    };
    assert((entry_type == "Application"@) == typed_application(es)) by {
        if !unkeyed(es, "Type"@) {
            lemma_some_last_keyed(es, "Type"@);
            let i = choose|i: int| #[trigger] last_keyed(es, "Type"@, i);
            if typed_application(es) {
                let j = choose|j: int| #[trigger] last_keyed(es, "Type"@, j) && es[j].1 == "Application"@;
                lemma_last_keyed_unique(es, "Type"@, i, j);
            }
        }
    }
    assert((st.exec_line is None) == unkeyed(es, "Exec"@)) by {
        if !unkeyed(es, "Exec"@) {
            lemma_some_first_keyed(es, "Exec"@);
        }
    }
}

proof fn lemma_some_first_keyed(es: Seq<(Seq<char>, Seq<char>)>, name: Seq<char>)
    requires
        !unkeyed(es, name),
    ensures
        exists|i: int| #[trigger] first_keyed(es, name, i),
    decreases es.len(),
{
    if key_base(es[0].0) == name {
        assert(first_keyed(es, name, 0));
    } else {
        let p = es.drop_first();
        assert forall|j: int| 0 <= j < p.len() implies #[trigger] p[j] == es[j + 1] by {}
        let k = choose|k: int| 0 <= k < es.len() && key_base(#[trigger] es[k].0) == name;
        assert(key_base(p[k - 1].0) == name);
        lemma_some_first_keyed(p, name);
        let i = choose|i: int| #[trigger] first_keyed(p, name, i);
        assert forall|j: int| 0 <= j < i + 1 implies key_base(#[trigger] es[j].0) != name by {
            if j > 0 {
                assert(es[j] == p[j - 1]);
                assert(key_base(p[j - 1].0) != name);
            }
        }
        assert(first_keyed(es, name, i + 1));
    }
}

} // verus!
