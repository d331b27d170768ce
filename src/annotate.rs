use vstd::prelude::*;
use crate::models::{Item, MetaSet};
use crate::text::{lower_of, to_lower};

verus! {

/// The mime type that `mime_guess` gives first for an extension, or
/// `application/octet-stream` when it knows none.
pub uninterp spec fn mime_of_ext(ext: Seq<char>) -> Seq<char>;

/// Relies on `mime_guess::from_ext(..).first_or_octet_stream()`: a lookup in a
/// fixed table by extension; an empty extension has no entry.
#[verifier::external_body]
fn guess_mime_ext(ext: &str) -> (r: String)
    ensures
        r@ == mime_of_ext(ext@),
        ext@.len() == 0 ==> r@ == "application/octet-stream"@,
{
    mime_guess::from_ext(ext).first_or_octet_stream().to_string()
}

/// What one metadata stat of an entry gave.
#[derive(Clone, Copy, Debug, PartialEq, Eq, Structural)]
pub struct EntryStat {
    /// Length in bytes.
    pub len: u64,
    /// Modification time in seconds since the epoch, when the platform gives it.
    pub tm: Option<u64>,
}

/// Position of the last `.` among the first `n` characters of `s`.
pub open spec fn last_dot(s: Seq<char>, n: int) -> Option<int>
    decreases n,
{
    if n <= 0 {
        None
    } else if s[n - 1] == '.' {
        Some(n - 1)
    } else {
        last_dot(s, n - 1)
    }
}

/// The extension of a file name, as `Path::extension` reads it: the text
/// after the last `.`, unless there is no `.`, the only `.` leads the name,
/// or the name is `..`.
pub open spec fn extension_of(name: Seq<char>) -> Option<Seq<char>> {
    if name == seq!['.', '.'] {
        None
    } else {
        match last_dot(name, name.len() as int) {
            None => None,
            Some(i) => if i == 0 {
                None
            } else {
                Some(name.subrange(i + 1, name.len() as int))
            },
        }
    }
}

/// The mime type guessed from a file name's extension.
pub open spec fn mime_for_name(name: Seq<char>) -> Seq<char> {
    match extension_of(name) {
        Some(e) => mime_of_ext(e),
        None => "application/octet-stream"@,
    }
}

/// Whether one metadata stat is needed for the requested kinds.
pub open spec fn stat_needed(kinds: MetaSet) -> bool {
    kinds.sz || kinds.tm || kinds.has
}

/// Whether an entry must be tested for children.
pub open spec fn probe_needed(kinds: MetaSet, is_dir: bool) -> bool {
    is_dir && kinds.has
}

/// `r` is the annotation of an entry named `name` with the requested kinds,
/// given what the stat and the child probe gave (each `None` when it was not
/// made or failed).
pub open spec fn annotation(
    r: Item,
    name: Seq<char>,
    is_dir: bool,
    kinds: MetaSet,
    stat: Option<EntryStat>,
    has_children: Option<bool>,
) -> bool {
    &&& r.nm@ == name
    &&& r.dir == is_dir
    &&& r.ext.is_some() == (!is_dir && kinds.ext && extension_of(name).is_some())
    &&& r.ext.is_some() ==> r.ext->0@ == lower_of(extension_of(name)->0)
    &&& r.mt.is_some() == (!is_dir && kinds.mt)
    &&& r.mt.is_some() ==> r.mt->0@ == mime_for_name(name)
    &&& r.sz == (if !is_dir && kinds.sz && stat.is_some() { Some(stat->0.len) } else { None })
    &&& r.tm == (if kinds.tm && stat.is_some() { stat->0.tm } else { None })
    &&& r.has == (if is_dir && kinds.has && stat.is_some() { has_children } else { None })
    &&& r.cnt.is_none()
}

/// Whether one metadata stat is needed for the requested kinds.
pub fn needs_stat(kinds: MetaSet) -> (r: bool)
    ensures
        r == stat_needed(kinds),
{
    kinds.sz || kinds.tm || kinds.has
}

/// Whether an entry must be tested for children.
pub fn needs_probe(kinds: MetaSet, is_dir: bool) -> (r: bool)
    ensures
        r == probe_needed(kinds, is_dir),
{
    is_dir && kinds.has
}

/// The extension of a file name, as `extension_of` states it.
pub fn extension(name: &str) -> (r: Option<String>)
    ensures
        r.is_some() == extension_of(name@).is_some(),
        r.is_some() ==> r->0@ == extension_of(name@)->0,
{
    let n = name.unicode_len();
    if n == 2 && name.get_char(0) == '.' && name.get_char(1) == '.' {
        assert(name@ == seq!['.', '.']);
        return None;
    }
    assert(name@ != seq!['.', '.']);
    let mut k: usize = n;
    while k > 0 && name.get_char(k - 1) != '.'
        invariant
            k <= n,
            n == name@.len(),
            last_dot(name@, n as int) == last_dot(name@, k as int),
        decreases k,
    {
        k = k - 1;
    }
    if k <= 1 {
        None
    } else {
        Some(name.substring_char(k, n).to_string())
    }
}

/// The mime type guessed from a file name's extension.
pub fn mime_of_name(name: &str) -> (r: String)
    ensures
        r@ == mime_for_name(name@),
{
    match extension(name) {
        Some(e) => guess_mime_ext(e.as_str()),
        None => String::from_str("application/octet-stream"),
    }
}

/// Annotates the entry named `name`. Extension and mime type are computed for
/// files only, and only when requested; size for files, the child test for
/// directories and time for both come from `stat` and `has_children`, and are
/// absent when not requested or when the stat failed.
pub fn make_item(
    name: &String,
    is_dir: bool,
    kinds: MetaSet,
    stat: Option<EntryStat>,
    has_children: Option<bool>,
) -> (r: Item)
    ensures
        annotation(r, name@, is_dir, kinds, stat, has_children),
{
    let mut ext: Option<String> = None;
    let mut mt: Option<String> = None;
    if !is_dir {
        if kinds.ext {
            ext = match extension(name.as_str()) {
                Some(e) => Some(to_lower(e.as_str())),
                None => None,
            };
        }
        if kinds.mt {
            mt = Some(mime_of_name(name.as_str()));
        }
    }
    let mut sz: Option<u64> = None;
    let mut tm: Option<u64> = None;
    let mut has: Option<bool> = None;
    match stat {
        Some(st) => {
            if !is_dir && kinds.sz {
                sz = Some(st.len);
            }
            if kinds.tm {
                tm = st.tm;
            }
            if is_dir && kinds.has {
                has = has_children;
            }
        },
        None => {},
    }
    Item { nm: name.clone(), dir: is_dir, ext, mt, sz, cnt: None, has, tm }
}

} // verus!
