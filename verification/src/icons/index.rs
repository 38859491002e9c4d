//! Icon theme metadata (`index.theme`) and how well a theme directory fits
//! a requested icon size.
use crate::desktop::entry::{pieces_from, split_trimmed};
use crate::icons::theme::header_name;
use crate::text::{
    chars_of, eq_ignore_ascii_case, find_char, first_from, parse_unsigned, parse_unsigned_spec,
    range_eq, range_eq_ignore_ascii_case, slice_vec, string_from_chars, string_from_range,
    strings_view, trim, trim_bounds,
};
use vstd::prelude::*;

verus! {

/// How a theme directory's icons relate to sizes.
#[derive(Clone, Copy, Debug, PartialEq, Eq, Structural)]
pub enum DirectoryKind {
    /// Icons of exactly the directory size.
    Fixed,
    /// Icons that scale between the two sizes.
    Scalable { minimum: u16, maximum: u16 },
    /// Icons usable within `threshold` of the directory size.
    Threshold { threshold: u16 },
}

/// A directory of an icon theme.
pub struct ThemeDirectory {
    /// Path relative to the theme root.
    pub path: String,
    pub size: Option<u16>,
    pub scale: u16,
    pub kind: DirectoryKind,
}

/// How far `value` lies outside `minimum..=maximum`.
pub open spec fn distance_to_range(value: int, minimum: int, maximum: int) -> int {
    if value < minimum {
        minimum - value
    } else if value > maximum {
        value - maximum
    } else {
        0
    }
}

/// How far `value` lies outside `minimum..=maximum`.
pub fn range_distance(value: u32, minimum: u32, maximum: u32) -> (d: u32)
    ensures
        d == distance_to_range(value as int, minimum as int, maximum as int),
{
    if value < minimum {
        minimum - value
    } else {
        value.saturating_sub(maximum)
    }
}

/// The score of a directory for icons of `requested` pixels: the distance
/// from the sizes it serves (scaled), then a rank of its kind (fixed,
/// threshold, scalable, unsized). Lower is better.
pub open spec fn directory_score(
    size: Option<u16>,
    scale: u16,
    kind: DirectoryKind,
    requested: u16,
) -> (int, int) {
    match size {
        None => (0x7fff_ffff, 3),
        Some(s) => {
            let k: int = if scale > 1 {
                scale as int
            } else {
                1
            };
            match kind {
                DirectoryKind::Fixed => (
                    if requested >= s * k {
                        requested - s * k
                    } else {
                        s * k - requested
                    },
                    0,
                ),
                DirectoryKind::Threshold { threshold } => {
                    let low: int = if s >= threshold {
                        s - threshold
                    } else {
                        0
                    };
                    let high: int = if s + threshold <= 0xffff {
                        s + threshold
                    } else {
                        0xffff
                    };
                    (distance_to_range(requested as int, low * k, high * k), 1)
                },
                DirectoryKind::Scalable { minimum, maximum } => (
                    distance_to_range(requested as int, minimum * k, maximum * k),
                    2,
                ),
            }
        },
    }
}

impl ThemeDirectory {
    /// The directory's score for icons of `requested_size` pixels (see
    /// [`directory_score`]).
    pub fn score(&self, requested_size: u16) -> (r: (u32, u8))
        ensures
            (r.0 as int, r.1 as int) == directory_score(
                self.size,
                self.scale,
                self.kind,
                requested_size,
            ),
    {
        let size = match self.size {
            None => return (0x7fff_ffff, 3),
            Some(s) => s,
        };
        let scale: u32 = if self.scale > 1 {
            self.scale as u32
        } else {
            1
        };
        let requested = requested_size as u32;
        assert((size as u32) * scale <= 0xffff * 0xffff) by (nonlinear_arith)
            requires
                size <= 0xffff,
                scale <= 0xffff,
        ;
        match self.kind {
            DirectoryKind::Fixed => {
                let target = (size as u32) * scale;
                let d = if requested >= target {
                    requested - target
                } else {
                    target - requested
                };
                (d, 0)
            },
            DirectoryKind::Threshold { threshold } => {
                let low = size.saturating_sub(threshold);
                let high = size.saturating_add(threshold);
                assert((low as u32) * scale <= 0xffff * 0xffff) by (nonlinear_arith)
                    requires
                        low <= 0xffff,
                        scale <= 0xffff,
                ;
                assert((high as u32) * scale <= 0xffff * 0xffff) by (nonlinear_arith)
                    requires
                        high <= 0xffff,
                        scale <= 0xffff,
                ;
                (range_distance(requested, (low as u32) * scale, (high as u32) * scale), 1)
            },
            DirectoryKind::Scalable { minimum, maximum } => {
                assert((minimum as u32) * scale <= 0xffff * 0xffff) by (nonlinear_arith)
                    requires
                        minimum <= 0xffff,
                        scale <= 0xffff,
                ;
                assert((maximum as u32) * scale <= 0xffff * 0xffff) by (nonlinear_arith)
                    requires
                        maximum <= 0xffff,
                        scale <= 0xffff,
                ;
                (
                    range_distance(requested, (minimum as u32) * scale, (maximum as u32) * scale),
                    2,
                )
            },
        }
    }
}

/// Appends the non-empty trimmed comma-separated items of `source`.
pub fn extend_list(values: &mut Vec<String>, source: &str)
    ensures
        strings_view(final(values)@) == strings_view(old(values)@) + pieces_from(source@, 0, ','),
{
    let c = chars_of(source);
    assert(c@.subrange(0, c@.len() as int) =~= c@);
    let mut items = split_trimmed(&c, 0, c.len(), ',');
    let ghost before = strings_view(values@);
    let ghost added = strings_view(items@);
    values.append(&mut items);
    assert(strings_view(values@) =~= before + added);
}

/// The keys collected for one theme directory.
#[derive(Clone, Copy, Debug, PartialEq, Eq, Structural)]
pub struct DirectoryBuilder {
    pub size: Option<u16>,
    pub scale: Option<u16>,
    pub kind: Option<KindName>,
    pub minimum: Option<u16>,
    pub maximum: Option<u16>,
    pub threshold: Option<u16>,
}

/// The value of a directory's `Type` key.
#[derive(Clone, Copy, Debug, PartialEq, Eq, Structural)]
pub enum KindName {
    Fixed,
    Scalable,
    /// Any other value (a threshold directory).
    Other,
}

pub open spec fn empty_builder() -> DirectoryBuilder {
    DirectoryBuilder {
        size: None,
        scale: None,
        kind: None,
        minimum: None,
        maximum: None,
        threshold: None,
    }
}

/// What `str::parse::<u16>` gives, as an option.
pub open spec fn u16_of(v: Seq<char>) -> Option<u16> {
    match parse_unsigned_spec(v, 0xffff) {
        Some(n) => Some(n as u16),
        None => None,
    }
}

/// `b` after the line `key=value` of its section.
pub open spec fn builder_key(b: DirectoryBuilder, key: Seq<char>, value: Seq<char>) -> DirectoryBuilder {
    if key == "Size"@ {
        DirectoryBuilder { size: u16_of(value), ..b }
    } else if key == "Scale"@ {
        DirectoryBuilder { scale: u16_of(value), ..b }
    } else if key == "Type"@ {
        DirectoryBuilder {
            kind: Some(
                if value == "Fixed"@ {
                    KindName::Fixed
                } else if value == "Scalable"@ {
                    KindName::Scalable
                } else {
                    KindName::Other
                },
            ),
            ..b
        }
    } else if key == "MinSize"@ {
        DirectoryBuilder { minimum: u16_of(value), ..b }
    } else if key == "MaxSize"@ {
        DirectoryBuilder { maximum: u16_of(value), ..b }
    } else if key == "Threshold"@ {
        DirectoryBuilder { threshold: u16_of(value), ..b }
    } else {
        b
    }
}

/// The builder of the first entry named `name`.
pub open spec fn builder_of(bs: Seq<(Seq<char>, DirectoryBuilder)>, name: Seq<char>) -> Option<
    DirectoryBuilder,
>
    decreases bs.len(),
{
    if bs.len() == 0 {
        None
    } else if bs[0].0 == name {
        Some(bs[0].1)
    } else {
        builder_of(bs.drop_first(), name)
    }
}

/// The index of the first entry named `name`, or the length.
pub open spec fn builder_index(bs: Seq<(Seq<char>, DirectoryBuilder)>, name: Seq<char>, i: int) -> int
    decreases bs.len() - i,
{
    if i < 0 || i >= bs.len() {
        bs.len() as int
    } else if bs[i].0 == name {
        i
    } else {
        builder_index(bs, name, i + 1)
    }
}

/// The builders after the line `key=value` of section `section`.
pub open spec fn builders_after(
    bs: Seq<(Seq<char>, DirectoryBuilder)>,
    section: Seq<char>,
    key: Seq<char>,
    value: Seq<char>,
) -> Seq<(Seq<char>, DirectoryBuilder)> {
    let i = builder_index(bs, section, 0);
    if i < bs.len() {
        bs.update(i, (section, builder_key(bs[i].1, key, value)))
    } else {
        bs.push((section, builder_key(empty_builder(), key, value)))
    }
}

/// What has been read of an `index.theme` so far.
pub struct MetadataModel {
    pub section: Seq<char>,
    pub directory_names: Seq<Seq<char>>,
    pub inherits: Seq<Seq<char>>,
    pub builders: Seq<(Seq<char>, DirectoryBuilder)>,
}

/// The state after one trimmed line.
pub open spec fn metadata_line(st: MetadataModel, line: Seq<char>) -> MetadataModel {
    if line.len() == 0 || line[0] == '#' {
        st
    } else if header_name(line) is Some {
        MetadataModel { section: header_name(line).unwrap(), ..st }
    } else {
        let eq = first_from(line, 0, '=');
        if eq >= line.len() {
            st
        } else {
            let key = trim(line.take(eq));
            let value = trim(line.subrange(eq + 1, line.len() as int));
            if eq_ignore_ascii_case(st.section, "Icon Theme"@) {
                if key == "Directories"@ || key == "ScaledDirectories"@ {
                    MetadataModel {
                        directory_names: st.directory_names + pieces_from(value, 0, ','),
                        ..st
                    }
                } else if key == "Inherits"@ {
                    MetadataModel { inherits: st.inherits + pieces_from(value, 0, ','), ..st }
                } else {
                    st
                }
            } else {
                MetadataModel { builders: builders_after(st.builders, st.section, key, value), ..st }
            }
        }
    }
}

/// Folds the lines of `t` from index `pos` into the state.
pub open spec fn metadata_scan(t: Seq<char>, pos: int, st: MetadataModel) -> MetadataModel
    decreases t.len() - pos,
{
    if pos < 0 || pos >= t.len() {
        st
    } else {
        let e = first_from(t, pos, '\n');
        let next = metadata_line(st, trim(t.subrange(pos, e)));
        if e >= t.len() || e < pos {
            next
        } else {
            metadata_scan(t, e + 1, next)
        }
    }
}

/// The directory that `name` and its collected keys describe: a scalable
/// directory's bounds default to its size (else 0 and 65535), a
/// threshold directory's threshold to 2, the scale to at least 1.
pub open spec fn directory_from(b: DirectoryBuilder) -> (Option<u16>, u16, DirectoryKind) {
    (
        b.size,
        match b.scale {
            Some(s) => if s > 1 {
                s
            } else {
                1
            },
            None => 1,
        },
        match b.kind {
            Some(KindName::Fixed) => DirectoryKind::Fixed,
            Some(KindName::Scalable) => DirectoryKind::Scalable {
                minimum: match b.minimum {
                    Some(m) => m,
                    None => match b.size {
                        Some(s) => s,
                        None => 0,
                    },
                },
                maximum: match b.maximum {
                    Some(m) => m,
                    None => match b.size {
                        Some(s) => s,
                        None => 0xffff,
                    },
                },
            },
            _ => DirectoryKind::Threshold {
                threshold: match b.threshold {
                    Some(t) => t,
                    None => 2,
                },
            },
        },
    )
}

/// The keys of the `i`-th listed directory: those of its section, unless
/// the name was listed before (its keys then went to the first listing).
pub open spec fn listed_builder(st: MetadataModel, i: int) -> DirectoryBuilder {
    let name = st.directory_names[i];
    if exists|j: int| 0 <= j < i && st.directory_names[j] == name {
        empty_builder()
    } else {
        match builder_of(st.builders, name) {
            Some(b) => b,
            None => empty_builder(),
        }
    }
}

/// Theme metadata: its directories and the themes it inherits from.
pub struct ThemeMetadata {
    pub directories: Vec<ThemeDirectory>,
    pub inherits: Vec<String>,
}

pub open spec fn metadata_of(contents: Seq<char>) -> MetadataModel {
    metadata_scan(
        contents,
        0,
        MetadataModel { section: seq![], directory_names: seq![], inherits: seq![], builders: seq![] },
    )
}

/// `m` describes the directories and inherited themes listed in `contents`.
pub open spec fn metadata_matches(m: ThemeMetadata, contents: Seq<char>) -> bool {
    let st = metadata_of(contents);
    &&& strings_view(m.inherits@) == st.inherits
    &&& m.directories@.len() == st.directory_names.len()
    &&& forall|i: int|
        0 <= i < m.directories@.len() ==> {
            let d = #[trigger] m.directories@[i];
            &&& d.path@ == st.directory_names[i]
            &&& (d.size, d.scale, d.kind) == directory_from(listed_builder(st, i))
        }
}

pub open spec fn builders_view(bs: Seq<(Vec<char>, DirectoryBuilder)>) -> Seq<
    (Seq<char>, DirectoryBuilder),
> {
    bs.map_values(|p: (Vec<char>, DirectoryBuilder)| (p.0@, p.1))
}

fn parse_u16(v: &Vec<char>) -> (r: Option<u16>)
    ensures
        r == u16_of(v@),
{
    let s = string_from_chars(v.as_slice());
    match parse_unsigned(s.as_str(), 0xffff) {
        Some(n) => Some(n as u16),
        None => None,
    }
}

fn apply_key(b: DirectoryBuilder, key: &Vec<char>, value: &Vec<char>) -> (r: DirectoryBuilder)
    ensures
        r == builder_key(b, key@, value@),
{
    let n = key.len();
    assert(key@.subrange(0, n as int) =~= key@);
    let vn = value.len();
    assert(value@.subrange(0, vn as int) =~= value@);
    if range_eq(key, 0, n, "Size") {
        DirectoryBuilder { size: parse_u16(value), ..b }
    } else if range_eq(key, 0, n, "Scale") {
        DirectoryBuilder { scale: parse_u16(value), ..b }
    } else if range_eq(key, 0, n, "Type") {
        let kind = if range_eq(value, 0, vn, "Fixed") {
            KindName::Fixed
        } else if range_eq(value, 0, vn, "Scalable") {
            KindName::Scalable
        } else {
            KindName::Other
        };
        DirectoryBuilder { kind: Some(kind), ..b }
    } else if range_eq(key, 0, n, "MinSize") {
        DirectoryBuilder { minimum: parse_u16(value), ..b }
    } else if range_eq(key, 0, n, "MaxSize") {
        DirectoryBuilder { maximum: parse_u16(value), ..b }
    } else if range_eq(key, 0, n, "Threshold") {
        DirectoryBuilder { threshold: parse_u16(value), ..b }
    } else {
        b
    }
}

fn find_builder(bs: &Vec<(Vec<char>, DirectoryBuilder)>, name: &Vec<char>) -> (r: usize)
    ensures
        r == builder_index(builders_view(bs@), name@, 0),
        r <= bs@.len(),
{
    let ghost v = builders_view(bs@);
    let mut i: usize = 0;
    while i < bs.len()
        invariant
            i <= bs@.len(),
            v == builders_view(bs@),
            builder_index(v, name@, 0) == builder_index(v, name@, i as int),
        decreases bs@.len() - i,
    {
        assert(v[i as int] == (bs@[i as int].0@, bs@[i as int].1));
        if crate::text::chars_eq(&bs[i].0, name) {
            return i;
        }
        i += 1;
    }
    i
}

proof fn lemma_builder_of(bs: Seq<(Seq<char>, DirectoryBuilder)>, name: Seq<char>, i: int)
    requires
        0 <= i <= bs.len(),
        forall|j: int| 0 <= j < i ==> bs[j].0 != name,
    ensures
        builder_of(bs, name) == builder_of(bs.skip(i), name),
    decreases i,
{
    if i > 0 {
        lemma_builder_of(bs, name, i - 1);
        assert(bs.skip(i - 1).drop_first() =~= bs.skip(i));
        assert(bs.skip(i - 1)[0] == bs[i - 1]);
    } else {
        assert(bs.skip(0) =~= bs);
    }
}

proof fn lemma_builder_index_found(bs: Seq<(Seq<char>, DirectoryBuilder)>, name: Seq<char>, i: int)
    requires
        0 <= i,
    ensures
        builder_index(bs, name, i) < bs.len() ==> bs[builder_index(bs, name, i)].0 == name,
        builder_index(bs, name, i) <= bs.len(),
    decreases bs.len() - i,
{
    if i < bs.len() && bs[i].0 != name {
        lemma_builder_index_found(bs, name, i + 1);
    }
}

proof fn lemma_builder_index(bs: Seq<(Seq<char>, DirectoryBuilder)>, name: Seq<char>, i: int)
    requires
        0 <= i <= bs.len(),
        forall|j: int| 0 <= j < i ==> bs[j].0 != name,
    ensures
        builder_index(bs, name, 0) == builder_index(bs, name, i),
    decreases i,
{
    if i > 0 {
        lemma_builder_index(bs, name, i - 1);
    }
}

/// The builder recorded for `name`, if any.
fn lookup_builder(bs: &Vec<(Vec<char>, DirectoryBuilder)>, name: &Vec<char>) -> (r: Option<
    DirectoryBuilder,
>)
    ensures
        r == builder_of(builders_view(bs@), name@),
{
    let ghost v = builders_view(bs@);
    let mut i: usize = 0;
    while i < bs.len()
        invariant
            i <= bs@.len(),
            v == builders_view(bs@),
            forall|j: int| 0 <= j < i ==> v[j].0 != name@,
        decreases bs@.len() - i,
    {
        assert(v[i as int] == (bs@[i as int].0@, bs@[i as int].1));
        if crate::text::chars_eq(&bs[i].0, name) {
            proof {
                lemma_builder_of(v, name@, i as int);
            }
            return Some(bs[i].1);
        }
        i += 1;
    }
    proof {
        lemma_builder_of(v, name@, i as int);
        assert(v.skip(i as int) =~= Seq::<(Seq<char>, DirectoryBuilder)>::empty());
    }
    None
}

struct MetaState {
    section: Vec<char>,
    names: Vec<String>,
    inherits: Vec<String>,
    builders: Vec<(Vec<char>, DirectoryBuilder)>,
}

impl View for MetaState {
    type V = MetadataModel;

    closed spec fn view(&self) -> MetadataModel {
        MetadataModel {
            section: self.section@,
            directory_names: strings_view(self.names@),
            inherits: strings_view(self.inherits@),
            builders: builders_view(self.builders@),
        }
    }
}

impl MetaState {
    fn apply_line(&mut self, line: &Vec<char>)
        ensures
            final(self)@ == metadata_line(old(self)@, line@),
    {
        let n = line.len();
        if n == 0 || line[0] == '#' {
            return;
        }
        if n >= 2 && line[0] == '[' && line[n - 1] == ']' {
            let (a, b) = trim_bounds(line, 1, n - 1);
            self.section = slice_vec(line, a, b);
            return;
        }
        assert(line@.take(n as int) =~= line@);
        let eq = find_char(line, 0, n, '=');
        if eq >= n {
            return;
        }
        let (ka, kb) = trim_bounds(line, 0, eq);
        assert(line@.subrange(0, eq as int) =~= line@.take(eq as int));
        let key = slice_vec(line, ka, kb);
        let (va, vb) = trim_bounds(line, eq + 1, n);
        let value = slice_vec(line, va, vb);
        let sn = self.section.len();
        assert(self.section@.subrange(0, sn as int) =~= self.section@);
        if range_eq_ignore_ascii_case(&self.section, 0, sn, "Icon Theme") {
            let kn = key.len();
            assert(key@.subrange(0, kn as int) =~= key@);
            let vs = string_from_chars(value.as_slice());
            if range_eq(&key, 0, kn, "Directories") || range_eq(&key, 0, kn, "ScaledDirectories") {
                extend_list(&mut self.names, vs.as_str());
            } else if range_eq(&key, 0, kn, "Inherits") {
                extend_list(&mut self.inherits, vs.as_str());
            }
            return;
        }
        let i = find_builder(&self.builders, &self.section);
        let ghost bv = builders_view(self.builders@);
        if i < self.builders.len() {
            proof {
                lemma_builder_index_found(bv, self.section@, 0);
            }
            let b = self.builders[i].1;
            let nb = apply_key(b, &key, &value);
            let sec = slice_vec(&self.section, 0, sn);
            self.builders.set(i, (sec, nb));
            assert(builders_view(self.builders@) =~= bv.update(
                i as int,
                (self.section@, builder_key(bv[i as int].1, key@, value@)),
            ));
        } else {
            let nb = apply_key(
                DirectoryBuilder {
                    size: None,
                    scale: None,
                    kind: None,
                    minimum: None,
                    maximum: None,
                    threshold: None,
                },
                &key,
                &value,
            );
            let sec = slice_vec(&self.section, 0, sn);
            self.builders.push((sec, nb));
            assert(builders_view(self.builders@) =~= bv.push(
                (self.section@, builder_key(empty_builder(), key@, value@)),
            ));
        }
    }
}

fn directory(path: String, b: DirectoryBuilder) -> (d: ThemeDirectory)
    ensures
        d.path@ == path@,
        (d.size, d.scale, d.kind) == directory_from(b),
{
    let scale = match b.scale {
        Some(s) => if s > 1 {
            s
        } else {
            1
        },
        None => 1,
    };
    let kind = match b.kind {
        Some(KindName::Fixed) => DirectoryKind::Fixed,
        Some(KindName::Scalable) => DirectoryKind::Scalable {
            minimum: match b.minimum {
                Some(m) => m,
                None => match b.size {
                    Some(s) => s,
                    None => 0,
                },
            },
            maximum: match b.maximum {
                Some(m) => m,
                None => match b.size {
                    Some(s) => s,
                    None => 0xffff,
                },
            },
        },
        _ => DirectoryKind::Threshold {
            threshold: match b.threshold {
                Some(t) => t,
                None => 2,
            },
        },
    };
    ThemeDirectory { path, size: b.size, scale, kind }
}

/// Reads the metadata of an icon theme from the contents of its
/// `index.theme` (see [`metadata_matches`]).
pub fn parse_theme_metadata(contents: &str) -> (m: ThemeMetadata)
    ensures
        metadata_matches(m, contents@),
{
    let t = chars_of(contents);
    let n = t.len();
    let mut st = MetaState {
        section: Vec::new(),
        names: Vec::new(),
        inherits: Vec::new(),
        builders: Vec::new(),
    };
    assert(strings_view(st.names@) =~= Seq::<Seq<char>>::empty());
    assert(strings_view(st.inherits@) =~= Seq::<Seq<char>>::empty());
    assert(builders_view(st.builders@) =~= Seq::<(Seq<char>, DirectoryBuilder)>::empty());
    assert(st.section@ =~= Seq::<char>::empty());
    let mut pos: usize = 0;
    assert(t@.take(n as int) =~= t@);
    loop
        invariant_except_break
            pos <= n == t@.len(),
            t@.take(n as int) == t@,
            contents@ == t@,
            metadata_scan(t@, pos as int, st@) == metadata_of(contents@),
        ensures
            st@ == metadata_of(contents@),
        decreases n - pos,
    {
        if pos >= n {
            break;
        }
        let e = find_char(&t, pos, n, '\n');
        let (a, b) = trim_bounds(&t, pos, e);
        let line = slice_vec(&t, a, b);
        let ghost before = st@;
        st.apply_line(&line);
        proof {
            assert(e == first_from(t@, pos as int, '\n'));
            if e >= n {
                assert(metadata_scan(t@, pos as int, before) == st@);
            } else {
                assert(metadata_scan(t@, pos as int, before) == metadata_scan(t@, e + 1, st@));
            }
        }
        if e >= n {
            break;
        }
        pos = e + 1;
    }
    let ghost fin = st@;
    let MetaState { section: _, names, inherits, builders } = st;
    let mut directories: Vec<ThemeDirectory> = Vec::new();
    let mut i: usize = 0;
    while i < names.len()
        invariant
            i <= names@.len(),
            fin.directory_names == strings_view(names@),
            fin.builders == builders_view(builders@),
            directories@.len() == i,
            forall|k: int|
                0 <= k < i ==> {
                    let d = #[trigger] directories@[k];
                    &&& d.path@ == fin.directory_names[k]
                    &&& (d.size, d.scale, d.kind) == directory_from(listed_builder(fin, k))
                },
        decreases names@.len() - i,
    {
        let name = chars_of(names[i].as_str());
        let mut j: usize = 0;
        let mut repeated = false;
        while j < i && !repeated
            invariant
                j <= i < names@.len(),
                name@ == names@[i as int]@,
                fin.directory_names == strings_view(names@),
                repeated ==> j < i && fin.directory_names[j as int] == name@,
                forall|k: int| 0 <= k < j ==> fin.directory_names[k] != name@,
            decreases i - j + (if repeated { 0int } else { 1 }),
        {
            if crate::text::chars_eq(&chars_of(names[j].as_str()), &name) {
                repeated = true;
            } else {
                j += 1;
            }
        }
        let b = if repeated {
            assert(fin.directory_names[j as int] == fin.directory_names[i as int]);
            DirectoryBuilder {
                size: None,
                scale: None,
                kind: None,
                minimum: None,
                maximum: None,
                threshold: None,
            }
        } else {
            match lookup_builder(&builders, &name) {
                Some(b) => b,
                None => DirectoryBuilder {
                    size: None,
                    scale: None,
                    kind: None,
                    minimum: None,
                    maximum: None,
                    threshold: None,
                },
            }
        };
        assert(b == listed_builder(fin, i as int));
        directories.push(directory(names[i].clone(), b));
        i += 1;
    }
    ThemeMetadata { directories, inherits }
}

} // verus!
