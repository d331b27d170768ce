use vstd::prelude::*;

verus! {

/// A metadata kind that a listing may request for each entry.
#[derive(Clone, Copy, Debug, PartialEq, Eq, Hash, PartialOrd, Ord, Structural)]
pub enum MetaType {
    Sz,
    Tm,
    Has,
    Mt,
    Ext,
}

/// A sort criterion.
#[derive(Clone, Copy, Debug, PartialEq, Eq, Hash, Structural)]
pub enum OrderBy {
    Dir,
    Nm,
    Sz,
    Tm,
    Mt,
    Ext,
}

/// The direction of a sort criterion.
#[derive(Clone, Copy, Debug, PartialEq, Eq, Hash, Structural)]
pub enum OrderAsc {
    Asc,
    Desc,
}

/// Well-known user directories a caller may ask for.
#[derive(Clone, Copy, Debug, PartialEq, Eq, Hash, Structural)]
pub enum HomeType {
    HomeDir,
    DownloadDir,
    VideoDir,
    DocumentDir,
    DesktopDir,
    PictureDir,
    AudioDir,
    ConfigDir,
    DataDir,
    DataLocalDir,
    CacheDir,
    FontDir,
    PublicDir,
    ExecutableDir,
    RuntimeDir,
    TemplateDir,
}

/// One (criterion, direction) pair of a sort specifier.
#[derive(Clone, Copy, Debug, PartialEq, Eq, Hash, Structural)]
pub struct OrdItem {
    pub nm: OrderBy,
    pub asc: OrderAsc,
}

/// A set of requested metadata kinds, one flag per kind. Two requests that
/// name the same kinds, in any order and with any repetition, give equal sets.
#[derive(Clone, Copy, Debug, PartialEq, Eq, Hash, Structural)]
pub struct MetaSet {
    pub sz: bool,
    pub tm: bool,
    pub has: bool,
    pub mt: bool,
    pub ext: bool,
}

impl MetaSet {
    /// The kinds named in `v`, as a set.
    pub open spec fn of_seq(v: Seq<MetaType>) -> MetaSet {
        MetaSet {
            sz: v.contains(MetaType::Sz),
            tm: v.contains(MetaType::Tm),
            has: v.contains(MetaType::Has),
            mt: v.contains(MetaType::Mt),
            ext: v.contains(MetaType::Ext),
        }
    }

    /// Collects the kinds named in `v`.
    pub fn from_kinds(v: &Vec<MetaType>) -> (r: MetaSet)
        ensures
            r == MetaSet::of_seq(v@),
    {
        let mut r = MetaSet { sz: false, tm: false, has: false, mt: false, ext: false };
        let mut i: usize = 0;
        while i < v.len()
            invariant
                i <= v@.len(),
                r == MetaSet::of_seq(v@.subrange(0, i as int)),
            decreases v@.len() - i,
        {
            let k = v[i];
            match k {
                MetaType::Sz => { r.sz = true; },
                MetaType::Tm => { r.tm = true; },
                MetaType::Has => { r.has = true; },
                MetaType::Mt => { r.mt = true; },
                MetaType::Ext => { r.ext = true; },
            }
            proof {
                let s0 = v@.subrange(0, i as int);
                let s1 = v@.subrange(0, i + 1);
                assert(s1 == s0.push(k));
                assert forall|m: MetaType| s1.contains(m) <==> (s0.contains(m) || m == k) by {
                    if s1.contains(m) && m != k {
                        let j = choose|j: int| 0 <= j < s1.len() && s1[j] == m;
                        assert(s0[j] == m);
                    }
                    if m == k {
                        assert(s1[i as int] == k);
                    }
                    if s0.contains(m) {
                        let j = choose|j: int| 0 <= j < s0.len() && s0[j] == m;
                        assert(s1[j] == m);
                    }
                }
            }
            i = i + 1;
        }
        assert(v@.subrange(0, v@.len() as int) == v@);
        r
    }
}

/// One annotated directory entry. The optional fields hold a value only when
/// the matching metadata kind was requested and could be collected; `cnt` is
/// set on a listed directory only, to the number of children on the page.
#[derive(Clone, Debug)]
pub struct Item {
    pub nm: String,
    pub dir: bool,
    pub ext: Option<String>,
    pub mt: Option<String>,
    pub sz: Option<u64>,
    pub cnt: Option<usize>,
    pub has: Option<bool>,
    pub tm: Option<u64>,
}

impl Item {
    /// A copy with every field equal.
    pub fn copy(&self) -> (r: Item)
        ensures
            r == *self,
    {
        Item {
            nm: self.nm.clone(),
            dir: self.dir,
            ext: match &self.ext {
                Some(e) => Some(e.clone()),
                None => None,
            },
            mt: match &self.mt {
                Some(m) => Some(m.clone()),
                None => None,
            },
            sz: self.sz,
            cnt: self.cnt,
            has: self.has,
            tm: self.tm,
        }
    }
}

/// A copy of each item, in order.
pub fn copy_items(v: &Vec<Item>) -> (r: Vec<Item>)
    ensures
        r@ == v@,
{
    let mut r: Vec<Item> = Vec::new();
    let mut i: usize = 0;
    while i < v.len()
        invariant
            i <= v@.len(),
            r@ == v@.subrange(0, i as int),
        decreases v@.len() - i,
    {
        r.push(v[i].copy());
        proof {
            assert(v@.subrange(0, i + 1) == v@.subrange(0, i as int).push(v@[i as int]));
        }
        i = i + 1;
    }
    assert(v@.subrange(0, v@.len() as int) == v@);
    r
}

/// Folder-cache key: one directory snapshot (namespace, absolute path,
/// modification time in nanoseconds since the epoch) and the requested kinds.
#[derive(Clone, Debug, PartialEq, Eq, Hash)]
pub struct CacheKey {
    pub nm: String,
    pub path: String,
    pub tm: u128,
    pub meta_types: MetaSet,
}

/// Entry-cache key: one directory snapshot.
#[derive(Clone, Debug, PartialEq, Eq, Hash)]
pub struct CachePathsKey {
    pub nm: String,
    pub path: String,
    pub tm: u128,
}

/// Key of a cached file, by the same snapshot identity as `CachePathsKey`.
#[derive(Clone, Debug, PartialEq, Eq, Hash)]
pub struct CacheFileKey {
    pub nm: String,
    pub path: String,
    pub tm: u128,
}

/// Folder-cache value: annotated items in the order that `ordering` gives.
#[derive(Debug)]
pub struct CacheVal {
    pub items: Vec<Item>,
    pub ordering: Vec<OrdItem>,
}

/// The result of a listing: the target directory as an item, the page of its
/// children, the path used, the base directory, and the window and ordering
/// that were applied.
#[derive(Debug)]
pub struct Folder {
    pub item: Item,
    pub items: Vec<Item>,
    pub path_param: String,
    pub base_nm: String,
    pub tot: Option<usize>,
    pub skip_n: Option<usize>,
    pub take_n: Option<usize>,
    pub ordering: Option<Vec<OrdItem>>,
}

/// The result of reading a file as text.
#[derive(Clone, Debug, Default)]
pub struct TextContent {
    pub path: String,
    pub mimetype: String,
    pub enc: Option<String>,
    pub text: Option<String>,
}

/// Listing parameters as a caller sends them, every field optional.
#[derive(Clone, Debug, Default)]
pub struct OptParams {
    pub path_str: Option<String>,
    pub meta_types: Option<Vec<MetaType>>,
    pub ordering: Option<Vec<OrdItem>>,
    pub skip_n: Option<usize>,
    pub take_n: Option<usize>,
    pub is_pretty: Option<bool>,
    pub cache_nm: Option<String>,
}

/// Listing parameters with defaults filled in.
#[derive(Clone, Debug)]
pub struct Params {
    pub path_str: String,
    pub meta_types: Vec<MetaType>,
    pub ordering: Vec<OrdItem>,
    pub skip_n: Option<usize>,
    pub take_n: Option<usize>,
    pub is_pretty: bool,
    pub cache_nm: Option<String>,
}

impl Default for Params {
    fn default() -> (r: Params)
        ensures
            r.path_str@ == "."@,
            r.meta_types@ == seq![MetaType::Has, MetaType::Sz, MetaType::Tm],
            r.ordering@ == seq![
                OrdItem { nm: OrderBy::Dir, asc: OrderAsc::Asc },
                OrdItem { nm: OrderBy::Nm, asc: OrderAsc::Asc },
            ],
            r.skip_n.is_none(),
            r.take_n == Some(5usize),
            r.is_pretty,
            r.cache_nm.is_none(),
    {
        Params {
            path_str: String::from_str("."),
            meta_types: vec![MetaType::Has, MetaType::Sz, MetaType::Tm],
            ordering: vec![
                OrdItem { nm: OrderBy::Dir, asc: OrderAsc::Asc },
                OrdItem { nm: OrderBy::Nm, asc: OrderAsc::Asc },
            ],
            skip_n: None,
            take_n: Some(5),
            is_pretty: true,
            cache_nm: None,
        }
    }
}

impl Params {
    /// Fills in what a caller left out: the current directory, size, time and
    /// children test, directories first then by name, compact output.
    pub fn from_opt(o: OptParams) -> (r: Params)
        ensures
            r.path_str@ == (match o.path_str {
                Some(p) => p@,
                None => "."@,
            }),
            r.meta_types@ == (match o.meta_types {
                Some(m) => m@,
                None => seq![MetaType::Sz, MetaType::Tm, MetaType::Has],
            }),
            r.ordering@ == (match o.ordering {
                Some(m) => m@,
                None => seq![
                    OrdItem { nm: OrderBy::Dir, asc: OrderAsc::Asc },
                    OrdItem { nm: OrderBy::Nm, asc: OrderAsc::Asc },
                ],
            }),
            r.skip_n == o.skip_n,
            r.take_n == o.take_n,
            r.is_pretty == (match o.is_pretty {
                Some(b) => b,
                None => false,
            }),
            r.cache_nm == o.cache_nm,
    {
        Params {
            path_str: match o.path_str {
                Some(p) => p,
                None => String::from_str("."),
            },
            meta_types: match o.meta_types {
                Some(m) => m,
                None => vec![MetaType::Sz, MetaType::Tm, MetaType::Has],
            },
            ordering: match o.ordering {
                Some(m) => m,
                None => vec![
                    OrdItem { nm: OrderBy::Dir, asc: OrderAsc::Asc },
                    OrdItem { nm: OrderBy::Nm, asc: OrderAsc::Asc },
                ],
            },
            skip_n: o.skip_n,
            take_n: o.take_n,
            is_pretty: match o.is_pretty {
                Some(b) => b,
                None => false,
            },
            cache_nm: o.cache_nm,
        }
    }
}

/// Why a request failed.
#[derive(Clone, Debug, PartialEq, Eq)]
pub enum ApiError {
    /// The resolved path does not exist.
    NotFound(String),
    /// A scan, stat or read failed.
    Io(String),
    /// Parameters could not be read.
    Json(String),
    /// A path could not be split into parent and name.
    Folder(String),
}

} // verus!
