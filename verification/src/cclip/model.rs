//! History entries as `cclip list` prints them, and their list labels.
use crate::cclip::html::{display_text, is_html, is_html_mime, text_for_display};
use crate::desktop::entry::{pieces_from, split_trimmed};
use crate::text::{
    chars_of, find_char, first_from, join_strings, join_with, prefix_chars, slice_vec,
    starts_with, str_starts_with, string_from_range, strings_view, take_chars,
};
use vstd::prelude::*;

verus! {

/// A clipboard history entry.
pub struct CclipItem {
    /// The entry's id in the history database.
    pub rowid: String,
    pub mime_type: String,
    /// The text shown for the entry (HTML reduced to its visible text).
    pub preview: String,
    /// The line the entry was read from.
    pub original_line: String,
    pub tags: Vec<String>,
}

/// The fields of a history entry as plain values.
pub struct CclipItemModel {
    pub rowid: Seq<char>,
    pub mime_type: Seq<char>,
    pub preview: Seq<char>,
    pub original_line: Seq<char>,
    pub tags: Seq<Seq<char>>,
}

impl View for CclipItem {
    type V = CclipItemModel;

    open spec fn view(&self) -> CclipItemModel {
        CclipItemModel {
            rowid: self.rowid@,
            mime_type: self.mime_type@,
            preview: self.preview@,
            original_line: self.original_line@,
            tags: strings_view(self.tags@),
        }
    }
}

/// The entry that the line `rowid<TAB>mime<TAB>preview[<TAB>tags]` describes;
/// the tags are comma-separated, trimmed, and empty ones are dropped.
/// `None` when the line has fewer than three fields.
pub open spec fn item_from_line(l: Seq<char>) -> Option<CclipItemModel> {
    let t1 = first_from(l, 0, '\t');
    let t2 = first_from(l, t1 + 1, '\t');
    if t1 >= l.len() || t2 >= l.len() {
        None
    } else {
        let t3 = first_from(l, t2 + 1, '\t');
        let mime = l.subrange(t1 + 1, t2);
        Some(
            CclipItemModel {
                rowid: l.take(t1),
                mime_type: mime,
                preview: display_text(mime, l.subrange(t2 + 1, t3)),
                original_line: l,
                tags: if t3 < l.len() {
                    pieces_from(l.subrange(t3 + 1, l.len() as int), 0, ',')
                } else {
                    seq![]
                },
            },
        )
    }
}

/// The message for a line with fewer than three fields.
pub open spec fn invalid_line_message() -> Seq<char> {
    "Invalid cclip list format: expected at least 3 tab-separated fields"@
}

/// The label of an entry before its tags: up to 80 characters of text
/// (`[HTML content]` for HTML whose text is not known yet), or up to 50
/// characters followed by the MIME type.
pub open spec fn base_label(m: CclipItemModel) -> Seq<char> {
    if starts_with(m.mime_type, "text/"@) {
        let p = take_chars(m.preview, 80);
        if p.len() == 0 && is_html(m.mime_type) {
            "[HTML content]"@
        } else {
            p
        }
    } else {
        take_chars(m.preview, 50) + " ("@ + m.mime_type + ")"@
    }
}

/// `base` after the tag labels, as `[a, b] base`; unchanged without tags.
pub open spec fn with_tags(
    tags: Seq<Seq<char>>,
    labels: Option<Seq<Seq<char>>>,
    base: Seq<char>,
) -> Seq<char> {
    if tags.len() == 0 {
        base
    } else {
        let shown = match labels {
            Some(l) => l,
            None => tags,
        };
        "["@ + join_with(shown, ", "@) + "] "@ + base
    }
}

/// The label of an entry in the list.
pub open spec fn item_label(m: CclipItemModel, labels: Option<Seq<Seq<char>>>) -> Seq<char> {
    with_tags(m.tags, labels, base_label(m))
}

/// `n` spaces.
pub open spec fn spaces(n: int) -> Seq<char> {
    Seq::new(if n > 0 { n as nat } else { 0 }, |i: int| ' ')
}

/// The label with the row id in front, left-aligned in a column as wide
/// as the id's UTF-8 length and at least three.
pub open spec fn numbered_label(m: CclipItemModel, labels: Option<Seq<Seq<char>>>) -> Seq<char> {
    let bytes = vstd::utf8::encode_utf8(m.rowid).len() as usize;
    let width = if bytes > 3 {
        bytes as int
    } else {
        3
    };
    m.rowid + spaces(width - m.rowid.len()) + " "@ + item_label(m, labels)
}

pub open spec fn labels_view(labels: Option<&Vec<String>>) -> Option<Seq<Seq<char>>> {
    match labels {
        Some(l) => Some(strings_view(l@)),
        None => None,
    }
}

impl CclipItem {
    /// Reads an entry from a line of `cclip list`:
    /// `rowid<TAB>mime_type<TAB>preview[<TAB>tags]`.
    pub fn from_line(line: String) -> (r: Result<CclipItem, String>)
        ensures
            match item_from_line(line@) {
                Some(m) => r is Ok && r->Ok_0@ == m,
                None => r is Err && r->Err_0@ == invalid_line_message(),
            },
    {
        let l = chars_of(line.as_str());
        let n = l.len();
        assert(l@.take(n as int) =~= l@);
        let t1 = find_char(&l, 0, n, '\t');
        if t1 >= n {
            return Err(
                String::from_str("Invalid cclip list format: expected at least 3 tab-separated fields"),
            );
        }
        let t2 = find_char(&l, t1 + 1, n, '\t');
        if t2 >= n {
            return Err(
                String::from_str("Invalid cclip list format: expected at least 3 tab-separated fields"),
            );
        }
        let t3 = find_char(&l, t2 + 1, n, '\t');
        let tags = if t3 < n {
            split_trimmed(&l, t3 + 1, n, ',')
        } else {
            Vec::new()
        };
        let mime_type = string_from_range(&l, t1 + 1, t2);
        let raw_preview = string_from_range(&l, t2 + 1, t3);
        let preview = text_for_display(mime_type.as_str(), raw_preview.as_str());
        let rowid = string_from_range(&l, 0, t1);
        assert(l@.subrange(0, t1 as int) =~= l@.take(t1 as int));
        proof {
            if t3 >= n {
                assert(strings_view(tags@) =~= Seq::<Seq<char>>::empty());
            }
        }
        Ok(CclipItem { rowid, mime_type, preview, original_line: line, tags })
    }

    /// The label of the entry; `labels` are the tags as a tag formatter
    /// renders them (the plain tag names when `None`).
    pub fn get_display_name_with_formatter(&self, labels: Option<&Vec<String>>) -> (s: String)
        ensures
            s@ == item_label(self@, labels_view(labels)),
    {
        let base = if str_starts_with(self.mime_type.as_str(), "text/") {
            let p = prefix_chars(self.preview.as_str(), 80);
            if p.as_str().unicode_len() == 0 && is_html_mime(self.mime_type.as_str()) {
                String::from_str("[HTML content]")
            } else {
                p
            }
        } else {
            let mut b = prefix_chars(self.preview.as_str(), 50);
            b.append(" (");
            b.append(self.mime_type.as_str());
            b.append(")");
            b
        };
        if self.tags.len() == 0 {
            return base;
        }
        let joined = match labels {
            Some(l) => join_strings(l, ", "),
            None => join_strings(&self.tags, ", "),
        };
        let mut s = String::from_str("[");
        s.append(joined.as_str());
        s.append("] ");
        s.append(base.as_str());
        s
    }

    /// The label of the entry with its plain tag names.
    pub fn get_display_name(&self) -> (s: String)
        ensures
            s@ == item_label(self@, None),
    {
        self.get_display_name_with_formatter(None)
    }

    /// The label with the row id in front (for numbered lists).
    pub fn get_display_name_with_number(&self) -> (s: String)
        ensures
            s@ == numbered_label(self@, None),
    {
        self.get_display_name_with_number_formatter(None)
    }

    /// The numbered label, with the tags as `labels` renders them.
    pub fn get_display_name_with_number_formatter(&self, labels: Option<&Vec<String>>) -> (s:
        String)
        ensures
            s@ == numbered_label(self@, labels_view(labels)),
    {
        let name = self.get_display_name_with_formatter(labels);
        let bytes = self.rowid.as_str().len();
        let width = if bytes > 3 {
            bytes
        } else {
            3
        };
        let chars = self.rowid.as_str().unicode_len();
        let mut s = self.rowid.clone();
        let mut k = chars;
        while k < width
            invariant
                chars == self.rowid@.len(),
                chars <= k <= width || (width < chars && k == chars),
                s@ == self.rowid@ + spaces(k - chars),
            decreases width - k,
        {
            s.append(" ");
            assert(spaces(k + 1 - chars) =~= spaces(k - chars) + " "@) by {
                reveal_strlit(" ");
            }
            k += 1;
        }
        proof {
            if width < chars {
                assert(spaces(width - chars) =~= spaces(0));
            }
        }
        let ghost padded = s@;
        s.append(" ");
        s.append(name.as_str());
        proof {
            let b = vstd::utf8::encode_utf8(self.rowid@).len() as usize;
            assert(bytes == b);
            assert(padded == self.rowid@ + spaces((if b > 3 { b as int } else { 3 }) - self.rowid@.len()));
            assert(s@ =~= padded + " "@ + name@);
        }
        s
    }
}


/// The tags as rendered by a tag formatter: each tag's label without and
/// with its colour name; `include_color_names` picks which.
pub open spec fn chosen_labels(
    labels: Option<Seq<(Seq<char>, Seq<char>)>>,
    include_color_names: bool,
) -> Option<Seq<Seq<char>>> {
    match labels {
        Some(l) => Some(
            l.map_values(
                |p: (Seq<char>, Seq<char>)|
                    if include_color_names {
                        p.1
                    } else {
                        p.0
                    },
            ),
        ),
        None => None,
    }
}

pub open spec fn label_pairs_view(labels: Option<&Vec<(String, String)>>) -> Option<
    Seq<(Seq<char>, Seq<char>)>,
> {
    match labels {
        Some(v) => Some(v@.map_values(|p: (String, String)| (p.0@, p.1@))),
        None => None,
    }
}

fn pick_labels(labels: &Vec<(String, String)>, include_color_names: bool) -> (r: Vec<String>)
    ensures
        Some(strings_view(r@)) == chosen_labels(label_pairs_view(Some(labels)), include_color_names),
{
    let ghost lv = labels@.map_values(|p: (String, String)| (p.0@, p.1@));
    let mut out: Vec<String> = Vec::new();
    let mut i: usize = 0;
    while i < labels.len()
        invariant
            i <= labels@.len(),
            lv == labels@.map_values(|p: (String, String)| (p.0@, p.1@)),
            strings_view(out@) =~= lv.take(i as int).map_values(
                |p: (Seq<char>, Seq<char>)|
                    if include_color_names {
                        p.1
                    } else {
                        p.0
                    },
            ),
        decreases labels@.len() - i,
    {
        let pair = &labels[i];
        let label = if include_color_names {
            pair.1.clone()
        } else {
            pair.0.clone()
        };
        let ghost before = out@;
        out.push(label);
        assert(strings_view(out@) =~= strings_view(before).push(label@));
        assert(lv.take(i + 1) =~= lv.take(i as int).push(lv[i as int]));
        i += 1;
    }
    assert(lv.take(labels@.len() as int) =~= lv);
    out
}

impl CclipItem {
    /// The label of the entry with its tags as a tag formatter renders them:
    /// `labels` holds each tag's label without and with its colour name,
    /// and `include_color_names` picks which (the plain tag names when
    /// `labels` is `None`).
    pub fn get_display_name_with_formatter_options(
        &self,
        labels: Option<&Vec<(String, String)>>,
        include_color_names: bool,
    ) -> (s: String)
        ensures
            s@ == item_label(self@, chosen_labels(label_pairs_view(labels), include_color_names)),
    {
        match labels {
            Some(l) => {
                let picked = pick_labels(l, include_color_names);
                self.get_display_name_with_formatter(Some(&picked))
            },
            None => self.get_display_name_with_formatter(None),
        }
    }

    /// The numbered label with the tags rendered as in
    /// [`CclipItem::get_display_name_with_formatter_options`].
    pub fn get_display_name_with_number_formatter_options(
        &self,
        labels: Option<&Vec<(String, String)>>,
        include_color_names: bool,
    ) -> (s: String)
        ensures
            s@ == numbered_label(self@, chosen_labels(label_pairs_view(labels), include_color_names)),
    {
        match labels {
            Some(l) => {
                let picked = pick_labels(l, include_color_names);
                self.get_display_name_with_number_formatter(Some(&picked))
            },
            None => self.get_display_name_with_number_formatter(None),
        }
    }
}

/// The entries of `v` as plain values.
pub open spec fn items_view(v: Seq<CclipItem>) -> Seq<CclipItemModel> {
    v.map_values(|i: CclipItem| i@)
}

/// The tags of `items`, one entry after another, each entry's in order.
pub open spec fn all_item_tags(items: Seq<CclipItemModel>) -> Seq<Seq<char>>
    decreases items.len(),
{
    if items.len() == 0 {
        seq![]
    } else {
        all_item_tags(items.drop_last()) + items.last().tags
    }
}

/// The values of `s` in the order they first occur, each once.
pub open spec fn first_occurrences(s: Seq<Seq<char>>) -> Seq<Seq<char>>
    decreases s.len(),
{
    if s.len() == 0 {
        seq![]
    } else {
        let before = first_occurrences(s.drop_last());
        if before.contains(s.last()) {
            before
        } else {
            before.push(s.last())
        }
    }
}

/// The positions of the entries of `items` that carry `tag`, in order.
pub open spec fn positions_with_tag(items: Seq<CclipItemModel>, tag: Seq<char>) -> Seq<int>
    decreases items.len(),
{
    if items.len() == 0 {
        seq![]
    } else {
        let before = positions_with_tag(items.drop_last(), tag);
        if items.last().tags.contains(tag) {
            before.push(items.len() - 1)
        } else {
            before
        }
    }
}

fn contains_string(v: &Vec<String>, s: &String) -> (r: bool)
    ensures
        r == strings_view(v@).contains(s@),
{
    let ghost sv = strings_view(v@);
    let mut i: usize = 0;
    while i < v.len()
        invariant
            i <= v@.len(),
            sv == strings_view(v@),
            forall|k: int| 0 <= k < i ==> sv[k] != s@,
        decreases v@.len() - i,
    {
        if v[i] == *s {
            assert(sv[i as int] == s@);
            return true;
        }
        i += 1;
    }
    false
}

impl CclipItem {
    /// Whether the entry carries `tag`.
    pub fn has_tag(&self, tag: &String) -> (r: bool)
        ensures
            r == self@.tags.contains(tag@),
    {
        contains_string(&self.tags, tag)
    }
}

/// Every tag that occurs on `items`, in the order first seen, each once.
pub fn distinct_tags(items: &Vec<CclipItem>) -> (r: Vec<String>)
    ensures
        strings_view(r@) == first_occurrences(all_item_tags(items_view(items@))),
{
    let ghost iv = items_view(items@);
    let mut out: Vec<String> = Vec::new();
    let mut i: usize = 0;
    assert(iv.take(0) =~= Seq::<CclipItemModel>::empty());
    assert(strings_view(out@) =~= Seq::<Seq<char>>::empty());
    while i < items.len()
        invariant
            i <= items@.len(),
            iv == items_view(items@),
            strings_view(out@) == first_occurrences(all_item_tags(iv.take(i as int))),
        decreases items@.len() - i,
    {
        let tags = &items[i].tags;
        let ghost prefix = all_item_tags(iv.take(i as int));
        let ghost tv = strings_view(tags@);
        assert(tv == iv[i as int].tags);
        let mut j: usize = 0;
        assert(prefix + tv.take(0) =~= prefix);
        while j < tags.len()
            invariant
                j <= tags@.len(),
                tv == strings_view(tags@),
                strings_view(out@) == first_occurrences(prefix + tv.take(j as int)),
            decreases tags@.len() - j,
        {
            let t = &tags[j];
            assert((prefix + tv.take(j + 1)).drop_last() =~= prefix + tv.take(j as int));
            assert((prefix + tv.take(j + 1)).last() == t@);
            if !contains_string(&out, t) {
                let ghost before = out@;
                out.push(t.clone());
                assert(strings_view(out@) =~= strings_view(before).push(t@));
            }
            j += 1;
        }
        assert(iv.take(i + 1).drop_last() =~= iv.take(i as int));
        assert(tv.take(tags@.len() as int) =~= tv);
        i += 1;
    }
    assert(iv.take(items@.len() as int) =~= iv);
    out
}

/// The positions of the entries of `items` that carry `tag`, in order.
pub fn entries_with_tag(items: &Vec<CclipItem>, tag: &String) -> (r: Vec<usize>)
    ensures
        r@.map_values(|k: usize| k as int) == positions_with_tag(items_view(items@), tag@),
{
    let ghost iv = items_view(items@);
    let mut out: Vec<usize> = Vec::new();
    let mut i: usize = 0;
    assert(iv.take(0) =~= Seq::<CclipItemModel>::empty());
    assert(out@.map_values(|k: usize| k as int) =~= Seq::<int>::empty());
    while i < items.len()
        invariant
            i <= items@.len(),
            iv == items_view(items@),
            out@.map_values(|k: usize| k as int) == positions_with_tag(iv.take(i as int), tag@),
        decreases items@.len() - i,
    {
        assert(iv.take(i + 1).drop_last() =~= iv.take(i as int));
        assert(iv.take(i + 1).last() == items@[i as int]@);
        if items[i].has_tag(tag) {
            let ghost before = out@;
            out.push(i);
            assert(out@.map_values(|k: usize| k as int) =~= before.map_values(|k: usize| k as int).push(
                i as int,
            ));
        }
        i += 1;
    }
    assert(iv.take(items@.len() as int) =~= iv);
    out
}

/// No tag is listed twice, and every tag of every entry is listed.
pub proof fn lemma_first_occurrences_distinct_and_complete(s: Seq<Seq<char>>)
    ensures
        forall|i: int, j: int|
            0 <= i < j < first_occurrences(s).len() ==> #[trigger] first_occurrences(s)[i]
                != #[trigger] first_occurrences(s)[j],
        forall|k: int| 0 <= k < s.len() ==> first_occurrences(s).contains(#[trigger] s[k]),
        forall|t: Seq<char>| #[trigger] first_occurrences(s).contains(t) ==> s.contains(t),
    decreases s.len(),
{
    if s.len() > 0 {
        let p = s.drop_last();
        lemma_first_occurrences_distinct_and_complete(p);
        let before = first_occurrences(p);
        assert forall|k: int| 0 <= k < s.len() implies first_occurrences(s).contains(
            #[trigger] s[k],
        ) by {
            if k < s.len() - 1 {
                assert(p[k] == s[k]);
                if !before.contains(s.last()) {
                    let w = choose|w: int| 0 <= w < before.len() && before[w] == s[k];
                    assert(before.push(s.last())[w] == s[k]);
                }
            } else if !before.contains(s.last()) {
                assert(before.push(s.last())[before.len() as int] == s[k]);
            }
        }
        assert forall|t: Seq<char>| first_occurrences(s).contains(t) implies s.contains(t) by {
            if before.contains(t) {
                assert(p.contains(t));
                let w = choose|w: int| 0 <= w < p.len() && p[w] == t;
                assert(s[w] == t);
            } else {
                assert(s[s.len() - 1] == t);
            }
        }
        if !before.contains(s.last()) {
            let after = before.push(s.last());
            assert forall|i: int, j: int| 0 <= i < j < after.len() implies after[i] != after[j] by {
                if j == before.len() {
                    assert(before[i] == after[i]);
                }
            }
        }
    }
}
} // verus!
