//! When cached desktop entries and cached file lists may be used, and how
//! the name index follows a rewritten entry. Times are modification times
//! in nanoseconds from the Unix epoch (negative before it).
use crate::path_key::{hex_encode, hex_of};
use crate::text::{chars_of, find_char, from_utf8_lossy, utf8_lossy};
use vstd::prelude::*;

verus! {

/// A cached entry may be used when its file still has the modification
/// time it was cached with, unless its icon holds a `\` (such rows predate
/// icon unescaping and are parsed again).
pub open spec fn entry_is_fresh(icon: Option<Seq<char>>, cached_mtime: int, current_mtime: Option<int>) -> bool {
    let escaped = match icon {
        Some(i) => i.contains('\\'),
        None => false,
    };
    !escaped && current_mtime == Some(cached_mtime)
}

/// Whether a cached entry may be used (see [`entry_is_fresh`]);
/// `current_mtime` is `None` when the file's time cannot be read.
pub fn cache_entry_is_fresh(icon: Option<&str>, cached_mtime: i128, current_mtime: Option<i128>) -> (r: bool)
    ensures
        r == entry_is_fresh(
            match icon {
                Some(i) => Some(i@),
                None => None,
            },
            cached_mtime as int,
            match current_mtime {
                Some(m) => Some(m as int),
                None => None,
            },
        ),
{
    match icon {
        Some(i) => {
            let c = chars_of(i);
            let k = find_char(&c, 0, c.len(), '\\');
            assert(c@.take(c@.len() as int) =~= c@);
            if k < c.len() {
                return false;
            }
            assert(!i@.contains('\\'));
        },
        None => {},
    }
    match current_mtime {
        Some(m) => m == cached_mtime,
        None => false,
    }
}

/// The cached time of `dir` among the cached directories, if any.
pub open spec fn cached_time(cached: Seq<(Seq<u8>, i128)>, dir: Seq<u8>) -> Option<int> {
    if exists|i: int| 0 <= i < cached.len() && cached[i].0 == dir {
        let i = choose|i: int| 0 <= i < cached.len() && cached[i].0 == dir;
        Some(cached[i].1 as int)
    } else {
        None
    }
}

/// No directory is listed twice.
pub open spec fn distinct_dirs(cached: Seq<(Seq<u8>, i128)>) -> bool {
    forall|i: int, j: int| 0 <= i < j < cached.len() ==> cached[i].0 != cached[j].0
}

/// The directories of `dirs`, without repeats.
pub open spec fn dir_set(dirs: Seq<Seq<u8>>) -> Set<Seq<u8>> {
    dirs.to_set()
}

/// A cached file list may be used when every scanned directory has its
/// cached time, still the current one, and no other directory was cached.
/// `current[i]` is the time of `dirs[i]`, `None` when it cannot be read.
pub open spec fn file_list_is_fresh(
    cached: Seq<(Seq<u8>, i128)>,
    dirs: Seq<Seq<u8>>,
    current: Seq<Option<i128>>,
) -> bool {
    &&& forall|i: int|
        0 <= i < dirs.len() ==> match (#[trigger] current[i]) {
            Some(m) => cached_time(cached, dirs[i]) == Some(m as int),
            None => false,
        }
    &&& cached.len() == dir_set(dirs).len()
}

fn bytes_equal(a: &Vec<u8>, b: &Vec<u8>) -> (r: bool)
    ensures
        r == (a@ == b@),
{
    if a.len() != b.len() {
        return false;
    }
    let mut i: usize = 0;
    while i < a.len()
        invariant
            a@.len() == b@.len(),
            i <= a@.len(),
            forall|j: int| 0 <= j < i ==> a@[j] == b@[j],
        decreases a@.len() - i,
    {
        if a[i] != b[i] {
            return false;
        }
        i += 1;
    }
    assert(a@ =~= b@);
    true
}

fn lookup_time(cached: &Vec<(Vec<u8>, i128)>, dir: &Vec<u8>) -> (r: Option<i128>)
    requires
        distinct_dirs(cached@.map_values(|e: (Vec<u8>, i128)| (e.0@, e.1))),
    ensures
        match r {
            Some(m) => cached_time(cached@.map_values(|e: (Vec<u8>, i128)| (e.0@, e.1)), dir@)
                == Some(m as int),
            None => cached_time(cached@.map_values(|e: (Vec<u8>, i128)| (e.0@, e.1)), dir@) is None,
        },
{
    let ghost cv = cached@.map_values(|e: (Vec<u8>, i128)| (e.0@, e.1));
    let mut i: usize = 0;
    while i < cached.len()
        invariant
            i <= cached@.len(),
            cv == cached@.map_values(|e: (Vec<u8>, i128)| (e.0@, e.1)),
            distinct_dirs(cv),
            forall|j: int| 0 <= j < i ==> cv[j].0 != dir@,
        decreases cached@.len() - i,
    {
        if bytes_equal(&cached[i].0, dir) {
            assert(cv[i as int].0 == dir@);
            let ghost k = choose|k: int| 0 <= k < cv.len() && cv[k].0 == dir@;
            assert(k == i) by {
                if k != i {
                    if k < i {
                        assert(cv[k].0 != cv[i as int].0);
                    } else {
                        assert(cv[i as int].0 != cv[k].0);
                    }
                }
            }
            return Some(cached[i].1);
        }
        i += 1;
    }
    None
}

proof fn lemma_dir_set_push(dirs: Seq<Seq<u8>>, d: Seq<u8>)
    ensures
        dir_set(dirs.push(d)) == dir_set(dirs).insert(d),
{
    assert(dirs.push(d).to_set() =~= dirs.to_set().insert(d)) by {
        assert forall|x: Seq<u8>| dirs.push(d).to_set().contains(x) implies dirs.to_set().insert(d).contains(x) by {
            let i = choose|i: int| 0 <= i < dirs.push(d).len() && dirs.push(d)[i] == x;
            if i < dirs.len() {
                assert(dirs[i] == x);
            }
        }
        assert forall|x: Seq<u8>| dirs.to_set().insert(d).contains(x) implies dirs.push(d).to_set().contains(x) by {
            if x == d {
                assert(dirs.push(d)[dirs.len() as int] == d);
            } else {
                let i = choose|i: int| 0 <= i < dirs.len() && dirs[i] == x;
                assert(dirs.push(d)[i] == x);
            }
        }
    }
}

/// Whether a cached file list may be used (see [`file_list_is_fresh`]).
pub fn file_list_cache_is_fresh(
    cached: &Vec<(Vec<u8>, i128)>,
    dirs: &Vec<Vec<u8>>,
    current: &Vec<Option<i128>>,
) -> (r: bool)
    requires
        distinct_dirs(cached@.map_values(|e: (Vec<u8>, i128)| (e.0@, e.1))),
        current@.len() == dirs@.len(),
    ensures
        r == file_list_is_fresh(
            cached@.map_values(|e: (Vec<u8>, i128)| (e.0@, e.1)),
            dirs@.map_values(|d: Vec<u8>| d@),
            current@,
        ),
{
    let ghost cv = cached@.map_values(|e: (Vec<u8>, i128)| (e.0@, e.1));
    let ghost dv = dirs@.map_values(|d: Vec<u8>| d@);
    let mut i: usize = 0;
    let mut unique: usize = 0;
    assert(dir_set(dv.take(0)) =~= Set::<Seq<u8>>::empty());
    while i < dirs.len()
        invariant
            i <= dirs@.len(),
            current@.len() == dirs@.len(),
            cv == cached@.map_values(|e: (Vec<u8>, i128)| (e.0@, e.1)),
            dv == dirs@.map_values(|d: Vec<u8>| d@),
            distinct_dirs(cv),
            dir_set(dv.take(i as int)).finite(),
            unique == dir_set(dv.take(i as int)).len(),
            unique <= i,
            forall|j: int|
                0 <= j < i ==> match (#[trigger] current@[j]) {
                    Some(m) => cached_time(cv, dv[j]) == Some(m as int),
                    None => false,
                },
        decreases dirs@.len() - i,
    {
        let fresh = match lookup_time(cached, &dirs[i]) {
            Some(t) => match current[i] {
                Some(m) => m == t,
                None => false,
            },
            None => false,
        };
        if !fresh {
            return false;
        }
        let mut seen = false;
        let mut j: usize = 0;
        while j < i
            invariant
                j <= i < dirs@.len(),
                dv == dirs@.map_values(|d: Vec<u8>| d@),
                seen <==> exists|k: int| 0 <= k < j && dv[k] == dv[i as int],
            decreases i - j,
        {
            assert(dv[j as int] == dirs@[j as int]@);
            assert(dv[i as int] == dirs@[i as int]@);
            if bytes_equal(&dirs[j], &dirs[i]) {
                seen = true;
            }
            j += 1;
        }
        proof {
            lemma_dir_set_push(dv.take(i as int), dv[i as int]);
            assert(dv.take(i + 1) =~= dv.take(i as int).push(dv[i as int]));
            if seen {
                let k = choose|k: int| 0 <= k < i && dv[k] == dv[i as int];
                assert(dv.take(i as int)[k] == dv[i as int]);
                assert(dir_set(dv.take(i as int)).contains(dv[i as int]));
                assert(dir_set(dv.take(i as int)).insert(dv[i as int]) =~= dir_set(dv.take(i as int)));
            } else {
                assert(!dir_set(dv.take(i as int)).contains(dv[i as int])) by {
                    if dir_set(dv.take(i as int)).contains(dv[i as int]) {
                        let k = choose|k: int| 0 <= k < i && dv.take(i as int)[k] == dv[i as int];
                        assert(dv[k] == dv[i as int]);
                    }
                }
            }
        }
        if !seen {
            unique += 1;
        }
        i += 1;
    }
    assert(dv.take(dirs@.len() as int) =~= dv);
    cached.len() == unique
}

/// When an entry is rewritten under another name, its old name leaves the
/// name index only if the index still points at this entry's key.
pub open spec fn removes_old_name(
    previous_name: Option<Seq<char>>,
    new_name: Seq<char>,
    indexed_key: Option<Seq<u8>>,
    path_key: Seq<char>,
) -> bool {
    match previous_name {
        Some(p) => p != new_name && indexed_key == Some(vstd::utf8::encode_utf8(path_key)),
        None => false,
    }
}

fn str_to_bytes(s: &str) -> (b: Vec<u8>)
    ensures
        b@ == vstd::utf8::encode_utf8(s@),
{
    let bytes = s.as_bytes();
    let mut v: Vec<u8> = Vec::new();
    let mut i: usize = 0;
    while i < bytes.len()
        invariant
            i <= bytes@.len(),
            bytes@ == vstd::utf8::encode_utf8(s@),
            v@ == bytes@.take(i as int),
        decreases bytes@.len() - i,
    {
        v.push(bytes[i]);
        assert(v@ =~= bytes@.take(i + 1));
        i += 1;
    }
    assert(bytes@.take(bytes@.len() as int) =~= bytes@);
    v
}

/// Whether rewriting an entry removes its previous name from the name
/// index (see [`removes_old_name`]); `indexed_key` is what the index holds
/// for the previous name.
pub fn should_remove_old_name(
    previous_name: Option<&str>,
    new_name: &str,
    indexed_key: Option<&Vec<u8>>,
    path_key: &str,
) -> (r: bool)
    ensures
        r == removes_old_name(
            match previous_name {
                Some(p) => Some(p@),
                None => None,
            },
            new_name@,
            match indexed_key {
                Some(k) => Some(k@),
                None => None,
            },
            path_key@,
        ),
{
    match previous_name {
        Some(p) => {
            let a = chars_of(p);
            let b = chars_of(new_name);
            if crate::text::chars_eq(&a, &b) {
                return false;
            }
            match indexed_key {
                Some(k) => {
                    let key_bytes = str_to_bytes(path_key);
                    bytes_equal(k, &key_bytes)
                },
                None => false,
            }
        },
        None => false,
    }
}

/// The keys a file's cached entry is looked up under, in order: the hex of
/// its path bytes, then (for rows of older versions) its path as text.
pub fn entry_keys(path: &Vec<u8>) -> (r: (String, String))
    ensures
        r.0@ == hex_of(path@),
        r.1@ == utf8_lossy(path@),
{
    (hex_encode(path.as_slice()), from_utf8_lossy(path.as_slice()))
}

/// An entry cached from a file whose time has not changed is used again,
/// unless its icon holds a `\`.
pub proof fn lemma_unchanged_file_reuses_entry(icon: Option<Seq<char>>, mtime: int)
    ensures
        entry_is_fresh(icon, mtime, Some(mtime)) == !(match icon {
            Some(i) => i.contains('\\'),
            None => false,
        }),
{
}

/// A file list cached with the current times of exactly the scanned
/// directories is fresh.
pub proof fn lemma_list_cached_from_current_times_is_fresh(
    cached: Seq<(Seq<u8>, i128)>,
    dirs: Seq<Seq<u8>>,
    current: Seq<i128>,
)
    requires
        distinct_dirs(cached),
        current.len() == dirs.len(),
        forall|i: int| 0 <= i < dirs.len() ==> cached_time(cached, #[trigger] dirs[i]) == Some(current[i] as int),
        cached.len() == dir_set(dirs).len(),
    ensures
        file_list_is_fresh(cached, dirs, current.map_values(|m: i128| Some(m))),
{
}

} // verus!
