//! Named command panels of the dmenu mode and their checks.
use crate::cli::enums::{invalid_message, panel_side_named, PanelSide};
use crate::text::{
    chars_of, find_char, first_from, lowercase, parse_unsigned, parse_unsigned_spec,
    string_from_range, trim,
};
use vstd::prelude::*;

verus! {

/// A named command panel beside the primary preview.
pub struct DmenuPanel {
    /// Title of the panel and the name it is moved by.
    pub name: String,
    /// Shell command, with the placeholders of `--preview`.
    pub command: String,
    /// The edge the panel docks to.
    pub position: PanelSide,
    /// Percentage of the available width or height; zero hides the panel.
    pub size: u16,
}

/// A panel as plain values.
pub struct PanelModel {
    pub name: Seq<char>,
    pub command: Seq<char>,
    pub position: PanelSide,
    pub size: u16,
}

impl View for DmenuPanel {
    type V = PanelModel;

    open spec fn view(&self) -> PanelModel {
        PanelModel {
            name: self.name@,
            command: self.command@,
            position: self.position,
            size: self.size,
        }
    }
}

/// A control character (Unicode category Cc).
pub open spec fn is_control(c: char) -> bool {
    (c as u32) <= 0x1f || (0x7f <= (c as u32) && (c as u32) <= 0x9f)
}

/// What is wrong with a panel, if anything: its name must be 1 to 64
/// UTF-8 bytes without control characters and not a built-in panel's
/// name, its size at most 90, and its command not blank.
pub open spec fn panel_error(p: PanelModel) -> Option<Seq<char>> {
    if p.name.len() == 0 || (vstd::utf8::encode_utf8(p.name).len() as usize) > 64 || exists|i: int|
        0 <= i < p.name.len() && is_control(#[trigger] p.name[i]) {
        Some("panel name must contain 1-64 bytes without control characters"@)
    } else if p.name == "preview"@ || p.name == "input"@ || p.name == "items"@ {
        Some("preview, input, and items are reserved panel names"@)
    } else if p.size > 90 {
        Some("panel size must be between 0 and 90 percent"@)
    } else if trim(p.command).len() == 0 {
        Some("panel command must not be empty"@)
    } else {
        None
    }
}

/// The first problem among `ps[i..]`: a bad panel, or a name used by an
/// earlier panel.
pub open spec fn first_panel_error(ps: Seq<PanelModel>, i: int) -> Option<Seq<char>>
    decreases ps.len() - i,
{
    if i < 0 || i >= ps.len() {
        None
    } else {
        match panel_error(ps[i]) {
            Some(e) => Some(e),
            None => if exists|j: int| 0 <= j < i && #[trigger] ps[j].name == ps[i].name {
                Some("duplicate panel name: "@ + ps[i].name)
            } else {
                first_panel_error(ps, i + 1)
            },
        }
    }
}

/// What is wrong with a set of panels: more than three, or the first
/// problem in order.
pub open spec fn panels_error(ps: Seq<PanelModel>) -> Option<Seq<char>> {
    if ps.len() > 3 {
        Some("at most three custom dmenu panels are supported"@)
    } else {
        first_panel_error(ps, 0)
    }
}

/// The panel that `NAME:SIDE:PERCENT:COMMAND` describes (the command may
/// hold colons), or why it is malformed.
pub open spec fn panel_from_spec(v: Seq<char>) -> Result<PanelModel, Seq<char>> {
    let c1 = first_from(v, 0, ':');
    if c1 >= v.len() {
        Err("panel needs NAME:SIDE:PERCENT:COMMAND"@)
    } else {
        let c2 = first_from(v, c1 + 1, ':');
        let side = v.subrange(c1 + 1, c2);
        match panel_side_named(lowercase(trim(side))) {
            None => Err(invalid_message("panel side"@, side)),
            Some(position) => if c2 >= v.len() {
                Err("panel needs a size"@)
            } else {
                let c3 = first_from(v, c2 + 1, ':');
                match parse_unsigned_spec(v.subrange(c2 + 1, c3), 0xffff) {
                    None => Err("panel size must be an integer"@),
                    Some(size) => if c3 >= v.len() {
                        Err("panel needs a command"@)
                    } else {
                        let p = PanelModel {
                            name: v.take(c1),
                            command: v.subrange(c3 + 1, v.len() as int),
                            position,
                            size: size as u16,
                        };
                        match panel_error(p) {
                            Some(e) => Err(e),
                            None => Ok(p),
                        }
                    },
                }
            },
        }
    }
}

fn has_control(s: &str) -> (b: bool)
    ensures
        b == exists|i: int| 0 <= i < s@.len() && is_control(#[trigger] s@[i]),
{
    let c = chars_of(s);
    let mut i: usize = 0;
    while i < c.len()
        invariant
            i <= c@.len(),
            c@ == s@,
            forall|j: int| 0 <= j < i ==> !is_control(#[trigger] c@[j]),
        decreases c@.len() - i,
    {
        let u = c[i] as u32;
        if u <= 0x1f || (0x7f <= u && u <= 0x9f) {
            assert(is_control(s@[i as int]));
            return true;
        }
        i += 1;
    }
    false
}

fn is_blank(s: &str) -> (b: bool)
    ensures
        b == (trim(s@).len() == 0),
{
    let c = chars_of(s);
    let (a, b) = crate::text::trim_bounds(&c, 0, c.len());
    assert(c@.subrange(0, c@.len() as int) =~= c@);
    a == b
}

impl DmenuPanel {
    /// Reads a panel from `NAME:SIDE:PERCENT:COMMAND` and checks it.
    pub fn parse(value: &str) -> (r: Result<DmenuPanel, String>)
        ensures
            match panel_from_spec(value@) {
                Ok(p) => r is Ok && r->Ok_0@ == p,
                Err(e) => r is Err && r->Err_0@ == e,
            },
    {
        let v = chars_of(value);
        let n = v.len();
        assert(v@.take(n as int) =~= v@);
        let c1 = find_char(&v, 0, n, ':');
        if c1 >= n {
            return Err(String::from_str("panel needs NAME:SIDE:PERCENT:COMMAND"));
        }
        let c2 = find_char(&v, c1 + 1, n, ':');
        let side = string_from_range(&v, c1 + 1, c2);
        let position = match PanelSide::parse(side.as_str()) {
            Ok(p) => p,
            Err(e) => return Err(e),
        };
        if c2 >= n {
            return Err(String::from_str("panel needs a size"));
        }
        let c3 = find_char(&v, c2 + 1, n, ':');
        let size_text = string_from_range(&v, c2 + 1, c3);
        let size = match parse_unsigned(size_text.as_str(), 0xffff) {
            Some(s) => s as u16,
            None => return Err(String::from_str("panel size must be an integer")),
        };
        if c3 >= n {
            return Err(String::from_str("panel needs a command"));
        }
        let name = string_from_range(&v, 0, c1);
        assert(v@.subrange(0, c1 as int) =~= v@.take(c1 as int));
        let command = string_from_range(&v, c3 + 1, n);
        let panel = DmenuPanel { name, command, position, size };
        match panel.check() {
            Some(e) => Err(e),
            None => Ok(panel),
        }
    }

    /// What is wrong with this panel (see [`panel_error`]).
    pub fn check(&self) -> (r: Option<String>)
        ensures
            match panel_error(self@) {
                Some(e) => r is Some && r->Some_0@ == e,
                None => r is None,
            },
    {
        let name = self.name.as_str();
        if name.unicode_len() == 0 || name.len() > 64 || has_control(name) {
            return Some(
                String::from_str("panel name must contain 1-64 bytes without control characters"),
            );
        }
        let c = chars_of(name);
        if crate::text::vec_is(&c, "preview") || crate::text::vec_is(&c, "input")
            || crate::text::vec_is(&c, "items") {
            return Some(String::from_str("preview, input, and items are reserved panel names"));
        }
        if self.size > 90 {
            return Some(String::from_str("panel size must be between 0 and 90 percent"));
        }
        if is_blank(self.command.as_str()) {
            return Some(String::from_str("panel command must not be empty"));
        }
        None
    }
}

/// Checks a set of panels (see [`panels_error`]).
pub fn validate(panels: &Vec<DmenuPanel>) -> (r: Result<(), String>)
    ensures
        match panels_error(panels@.map_values(|p: DmenuPanel| p@)) {
            Some(e) => r is Err && r->Err_0@ == e,
            None => r is Ok,
        },
{
    let ghost ps = panels@.map_values(|p: DmenuPanel| p@);
    if panels.len() > 3 {
        return Err(String::from_str("at most three custom dmenu panels are supported"));
    }
    let mut i: usize = 0;
    while i < panels.len()
        invariant
            i <= panels@.len() <= 3,
            ps == panels@.map_values(|p: DmenuPanel| p@),
            first_panel_error(ps, 0) == first_panel_error(ps, i as int),
        decreases panels@.len() - i,
    {
        assert(ps[i as int] == panels@[i as int]@);
        match panels[i].check() {
            Some(e) => return Err(e),
            None => {},
        }
        let name = chars_of(panels[i].name.as_str());
        let mut j: usize = 0;
        while j < i
            invariant
                j <= i < panels@.len() <= 3,
                ps == panels@.map_values(|p: DmenuPanel| p@),
                name@ == ps[i as int].name,
                first_panel_error(ps, 0) == first_panel_error(ps, i as int),
                panel_error(ps[i as int]) is None,
                forall|k: int| 0 <= k < j ==> #[trigger] ps[k].name != ps[i as int].name,
            decreases i - j,
        {
            let other = chars_of(panels[j].name.as_str());
            assert(ps[j as int] == panels@[j as int]@);
            if crate::text::chars_eq(&other, &name) {
                assert(ps[j as int].name == ps[i as int].name);
                let mut e = String::from_str("duplicate panel name: ");
                e.append(panels[i].name.as_str());
                return Err(e);
            }
            j += 1;
        }
        i += 1;
    }
    Ok(())
}

} // verus!
