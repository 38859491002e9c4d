//! The application record that the launcher lists.
use crate::desktop::entry::opt_string_view;
use crate::text::strings_view;
use vstd::prelude::*;

verus! {

/// An XDG application with its desktop-entry metadata and launcher state.
pub struct App {
    /// App name (`Name` field).
    pub name: String,
    /// Command to run (`Exec` field, without field codes).
    pub command: String,
    /// Description (`Comment` field).
    pub description: String,
    /// `GenericName` field.
    pub generic_name: Option<String>,
    /// `Keywords` field.
    pub keywords: Vec<String>,
    /// `Categories` field.
    pub categories: Vec<String>,
    /// `MimeType` field.
    pub mime_types: Vec<String>,
    /// `Icon` field, escapes decoded.
    pub icon: Option<String>,
    /// `Terminal` field.
    pub is_terminal: bool,
    /// `Path` field: the working directory of the command.
    pub path: Option<String>,
    /// `OnlyShowIn` field.
    pub only_show_in: Vec<String>,
    /// `NotShowIn` field.
    pub not_show_in: Vec<String>,
    /// `Hidden` field.
    pub hidden: bool,
    /// `StartupNotify` field.
    pub startup_notify: bool,
    /// `StartupWMClass` field.
    pub startup_wm_class: Option<String>,
    /// `TryExec` field.
    pub try_exec: Option<String>,
    /// Desktop Entry type (usually "Application").
    pub entry_type: String,
    /// Desktop file ID for tracking.
    pub desktop_id: Option<String>,
    /// Bytes of the path that the entry was read from.
    pub source_path: Option<Vec<u8>>,
    /// Matching score.
    pub score: i64,
    /// Number of times this app was run.
    pub history: u64,
    /// Whether this app is pinned.
    pub pinned: bool,
    /// Last access timestamp (Unix epoch seconds).
    pub last_access: Option<u64>,
    /// The `Actions` field of the main section.
    pub actions: Option<Vec<String>>,
}

/// Mathematical model of an [`App`].
pub struct AppModel {
    pub name: Seq<char>,
    pub command: Seq<char>,
    pub description: Seq<char>,
    pub generic_name: Option<Seq<char>>,
    pub keywords: Seq<Seq<char>>,
    pub categories: Seq<Seq<char>>,
    pub mime_types: Seq<Seq<char>>,
    pub icon: Option<Seq<char>>,
    pub is_terminal: bool,
    pub path: Option<Seq<char>>,
    pub only_show_in: Seq<Seq<char>>,
    pub not_show_in: Seq<Seq<char>>,
    pub hidden: bool,
    pub startup_notify: bool,
    pub startup_wm_class: Option<Seq<char>>,
    pub try_exec: Option<Seq<char>>,
    pub entry_type: Seq<char>,
    pub desktop_id: Option<Seq<char>>,
    pub source_path: Option<Seq<u8>>,
    pub score: i64,
    pub history: u64,
    pub pinned: bool,
    pub last_access: Option<u64>,
    pub actions: Option<Seq<Seq<char>>>,
}

pub open spec fn opt_strings_view(o: Option<Vec<String>>) -> Option<Seq<Seq<char>>> {
    match o {
        Some(v) => Some(strings_view(v@)),
        None => None,
    }
}

pub open spec fn opt_bytes_view(o: Option<Vec<u8>>) -> Option<Seq<u8>> {
    match o {
        Some(v) => Some(v@),
        None => None,
    }
}

impl View for App {
    type V = AppModel;

    open spec fn view(&self) -> AppModel {
        AppModel {
            name: self.name@,
            command: self.command@,
            description: self.description@,
            generic_name: opt_string_view(self.generic_name),
            keywords: strings_view(self.keywords@),
            categories: strings_view(self.categories@),
            mime_types: strings_view(self.mime_types@),
            icon: opt_string_view(self.icon),
            is_terminal: self.is_terminal,
            path: opt_string_view(self.path),
            only_show_in: strings_view(self.only_show_in@),
            not_show_in: strings_view(self.not_show_in@),
            hidden: self.hidden,
            startup_notify: self.startup_notify,
            startup_wm_class: opt_string_view(self.startup_wm_class),
            try_exec: opt_string_view(self.try_exec),
            entry_type: self.entry_type@,
            desktop_id: opt_string_view(self.desktop_id),
            source_path: opt_bytes_view(self.source_path),
            score: self.score,
            history: self.history,
            pinned: self.pinned,
            last_access: self.last_access,
            actions: opt_strings_view(self.actions),
        }
    }
}

/// The score that ranks an app: the match score when it was never run, the
/// run count when it does not match, otherwise their product (saturating).
pub open spec fn corrected_score_spec(score: i64, history: u64) -> i64 {
    let h: int = if history > i64::MAX {
        i64::MAX as int
    } else {
        history as int
    };
    if history < 1 {
        score
    } else if score < 1 {
        h as i64
    } else if score * h > i64::MAX {
        i64::MAX
    } else {
        (score * h) as i64
    }
}

impl App {
    /// The score blended from history and match score.
    pub fn corrected_score(&self) -> (s: i64)
        ensures
            s == corrected_score_spec(self.score, self.history),
    {
        let history: i64 = if self.history > 9223372036854775807u64 {
            9223372036854775807i64
        } else {
            self.history as i64
        };
        if self.history < 1 {
            self.score
        } else if self.score < 1 {
            history
        } else {
            let a = self.score as i128;
            let b = history as i128;
            assert(0 < a * b <= 9223372036854775807 * 9223372036854775807) by (nonlinear_arith)
                requires
                    1 <= a <= 9223372036854775807,
                    1 <= b <= 9223372036854775807,
            ;
            let product = a * b;
            if product > 9223372036854775807i128 {
                9223372036854775807i64
            } else {
                product as i64
            }
        }
    }

    /// The path that the entry was read from.
    pub fn source_path(&self) -> (p: Option<&Vec<u8>>)
        ensures
            match p {
                Some(v) => self.source_path == Some(*v),
                None => self.source_path is None,
            },
    {
        match &self.source_path {
            Some(v) => Some(v),
            None => None,
        }
    }

    /// Records the path that the entry was read from.
    pub fn set_source_path(&mut self, source_path: &Vec<u8>)
        ensures
            final(self)@ == (AppModel { source_path: Some(source_path@), ..old(self)@ }),
    {
        self.source_path = Some(source_path.clone());
    }
}

} // verus!
