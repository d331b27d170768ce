use vstd::prelude::*;
use crate::models::{ApiError, CacheKey, CachePathsKey, CacheVal, Folder, Item, MetaSet, MetaType, OrdItem, copy_items};
use crate::resolve::{ResolvedPath, base_of, name_of, split_path, splits};
use crate::sort::{lemma_sorted_multiset, sort_items, sorted_spec};

verus! {

/// One listing request: the directory and what the filesystem said of it,
/// the requested path annotated like any entry, and the caller's parameters.
#[derive(Clone, Debug)]
pub struct ListRequest {
    /// The directory to list: the requested path, or its parent when it names a file.
    pub dir: ResolvedPath,
    /// The requested path exists.
    pub exists: bool,
    /// The directory's modification time in nanoseconds since the epoch, when known.
    pub tm_ns: Option<u128>,
    /// The requested path, annotated with the requested kinds.
    pub root: Item,
    pub meta_types: Vec<MetaType>,
    pub ordering: Vec<OrdItem>,
    pub skip_n: Option<usize>,
    pub take_n: Option<usize>,
    /// Cache namespace; without one both caches are bypassed.
    pub cache_nm: Option<String>,
}

/// Where a listing stands between two steps.
#[derive(Debug)]
pub enum ListState {
    Begin,
    AwaitFolder,
    AwaitPaths,
    AwaitScan,
    /// Entries being stored in the entry cache; annotated next.
    AwaitPathsStored(Vec<String>),
    AwaitAnnotation,
    /// Sorted items being stored in the folder cache; returned next.
    AwaitFolderStored(Vec<Item>),
    Over,
}

/// What the caller does next.
#[derive(Debug)]
pub enum ListAction {
    /// Look the key up in the folder cache; answer `FolderFound`.
    GetFolder(CacheKey),
    /// Look the key up in the entry cache; answer `PathsFound`.
    GetPaths(CachePathsKey),
    /// List the directory's children, skipping unreadable ones; answer
    /// `Scanned`, or `ScanFailed` when the directory cannot be opened.
    Scan(String),
    /// Store the entries in the entry cache; answer `Stored`.
    PutPaths(CachePathsKey, Vec<String>),
    /// Annotate each path with `make_item` and the requested kinds; answer `Annotated`.
    Annotate(Vec<String>),
    /// Store the value in the folder cache; answer `Stored`.
    PutFolder(CacheKey, CacheVal),
    /// The listing is complete.
    Done(Folder),
    /// The listing failed.
    Fail(ApiError),
}

/// What the caller reports back.
#[derive(Debug)]
pub enum ListEvent {
    Start,
    FolderFound(Option<CacheVal>),
    PathsFound(Option<Vec<String>>),
    Scanned(Vec<String>),
    /// The directory could not be opened for listing.
    ScanFailed(String),
    Stored,
    Annotated(Vec<Item>),
}

impl CacheKey {
    pub open spec fn view(&self) -> (Seq<char>, Seq<char>, u128, MetaSet) {
        (self.nm@, self.path@, self.tm, self.meta_types)
    }
}

impl CachePathsKey {
    pub open spec fn view(&self) -> (Seq<char>, Seq<char>, u128) {
        (self.nm@, self.path@, self.tm)
    }
}

/// The folder-cache key of a request that has a namespace and a time.
pub open spec fn folder_key_for(req: ListRequest) -> (Seq<char>, Seq<char>, u128, MetaSet) {
    (req.cache_nm->0@, req.dir.full@, req.tm_ns->0, MetaSet::of_seq(req.meta_types@))
}

/// The entry-cache key of a request that has a namespace and a time.
pub open spec fn paths_key_for(req: ListRequest) -> (Seq<char>, Seq<char>, u128) {
    (req.cache_nm->0@, req.dir.full@, req.tm_ns->0)
}

/// The page window: `skip` clamped to `[0, total]`, `take` clamped to
/// `[0, total - skip]`, all remaining when absent.
pub open spec fn window(total: nat, skip_n: Option<usize>, take_n: Option<usize>) -> (nat, nat) {
    let s = match skip_n {
        Some(n) => if n <= total { n as nat } else { total },
        None => 0,
    };
    let t = match take_n {
        Some(n) => if n <= total - s { n as nat } else { (total - s) as nat },
        None => (total - s) as nat,
    };
    (s, t)
}

/// `f` is the view of the sorted children `sorted` for `req`.
pub open spec fn folder_ok(req: ListRequest, sorted: Seq<Item>, f: Folder) -> bool {
    let (s, t) = window(sorted.len(), req.skip_n, req.take_n);
    &&& f.path_param@ == req.dir.full@
    &&& f.base_nm@ == base_of(req.dir)
    &&& f.tot == Some(sorted.len() as usize)
    &&& f.skip_n == Some(s as usize)
    &&& f.take_n == Some(t as usize)
    &&& (f.ordering matches Some(o) && o@ == req.ordering@)
    &&& f.items@ == sorted.subrange(s as int, (s + t) as int)
    &&& f.item.nm@ == (if req.root.dir { name_of(req.dir) } else { req.root.nm@ })
    &&& f.item.dir == req.root.dir
    &&& f.item.ext == req.root.ext
    &&& f.item.mt == req.root.mt
    &&& f.item.sz == req.root.sz
    &&& f.item.tm == req.root.tm
    &&& f.item.cnt == Some(t as usize)
    &&& f.item.has == (if MetaSet::of_seq(req.meta_types@).has { Some(sorted.len() > 0) } else { None })
}

/// `a` completes the listing with the view of `sorted`, or fails when the
/// directory path does not split.
pub open spec fn finished(req: ListRequest, sorted: Seq<Item>, a: ListAction) -> bool {
    if splits(req.dir) {
        (a matches ListAction::Done(f) && folder_ok(req, sorted, f))
    } else {
        (a matches ListAction::Fail(e) && e is Folder)
    }
}

/// The readable entries of a directory scan, in scan order.
pub open spec fn readable(entries: Seq<Option<String>>) -> Seq<String>
    decreases entries.len(),
{
    if entries.len() == 0 {
        Seq::empty()
    } else {
        let rest = readable(entries.drop_last());
        match entries.last() {
            Some(p) => rest.push(p),
            None => rest,
        }
    }
}

/// Keeps the entries that a scan could read (`Some`) and drops those it
/// reported as unreadable, so that one bad entry does not fail the listing.
pub fn keep_readable(entries: Vec<Option<String>>) -> (r: Vec<String>)
    ensures
        r@ == readable(entries@),
{
    let mut r: Vec<String> = Vec::new();
    let mut i: usize = 0;
    while i < entries.len()
        invariant
            i <= entries@.len(),
            r@ == readable(entries@.subrange(0, i as int)),
        decreases entries@.len() - i,
    {
        let ghost before = entries@.subrange(0, i as int);
        assert(entries@.subrange(0, i + 1).drop_last() == before);
        match &entries[i] {
            Some(p) => r.push(p.clone()),
            None => {},
        }
        i = i + 1;
    }
    assert(entries@.subrange(0, entries@.len() as int) == entries@);
    r
}

/// Computes the page window.
pub fn page_window(total: usize, skip_n: Option<usize>, take_n: Option<usize>) -> (r: (usize, usize))
    ensures
        r.0 as nat == window(total as nat, skip_n, take_n).0,
        r.1 as nat == window(total as nat, skip_n, take_n).1,
        r.0 + r.1 <= total,
        (match skip_n { Some(n) => n >= total, None => total == 0 }) ==> r.0 == total && r.1 == 0,
        take_n is None ==> r.1 == total - r.0,
{
    let skip = match skip_n {
        Some(n) => if n <= total { n } else { total },
        None => 0,
    };
    let take = match take_n {
        Some(n) => if n <= total - skip { n } else { total - skip },
        None => total - skip,
    };
    (skip, take)
}

fn copy_ordering(v: &Vec<OrdItem>) -> (r: Vec<OrdItem>)
    ensures
        r@ == v@,
{
    let mut r: Vec<OrdItem> = Vec::new();
    let mut i: usize = 0;
    while i < v.len()
        invariant
            i <= v@.len(),
            r@ == v@.subrange(0, i as int),
        decreases v@.len() - i,
    {
        r.push(v[i]);
        assert(v@.subrange(0, i + 1) == v@.subrange(0, i as int).push(v@[i as int]));
        i = i + 1;
    }
    assert(v@.subrange(0, v@.len() as int) == v@);
    r
}

fn copy_paths(v: &Vec<String>) -> (r: Vec<String>)
    ensures
        r@ == v@,
{
    let mut r: Vec<String> = Vec::new();
    let mut i: usize = 0;
    while i < v.len()
        invariant
            i <= v@.len(),
            r@ == v@.subrange(0, i as int),
        decreases v@.len() - i,
    {
        r.push(v[i].clone());
        assert(v@.subrange(0, i + 1) == v@.subrange(0, i as int).push(v@[i as int]));
        i = i + 1;
    }
    assert(v@.subrange(0, v@.len() as int) == v@);
    r
}

/// Builds the listing view from the sorted children: the window of `sorted`
/// that `skip_n` and `take_n` select, the totals, and the root item.
pub fn build_folder(req: &ListRequest, sorted: Vec<Item>) -> (r: Result<Folder, ApiError>)
    ensures
        r.is_ok() == splits(req.dir),
        r matches Ok(f) ==> folder_ok(*req, sorted@, f),
        r matches Err(e) ==> e is Folder,
{
    let (base, name) = match split_path(&req.dir) {
        Ok(p) => p,
        Err(e) => {
            return Err(e);
        },
    };
    let total = sorted.len();
    let (skip, take) = page_window(total, req.skip_n, req.take_n);
    let mut page: Vec<Item> = Vec::new();
    let mut i: usize = skip;
    while i < skip + take
        invariant
            skip <= i <= skip + take,
            skip + take <= total,
            total == sorted@.len(),
            page@ == sorted@.subrange(skip as int, i as int),
        decreases skip + take - i,
    {
        page.push(sorted[i].copy());
        assert(sorted@.subrange(skip as int, i + 1) == sorted@.subrange(skip as int, i as int).push(
            sorted@[i as int],
        ));
        i = i + 1;
    }
    let kinds = MetaSet::from_kinds(&req.meta_types);
    let root = &req.root;
    let item = Item {
        nm: if root.dir { name } else { root.nm.clone() },
        dir: root.dir,
        ext: match &root.ext {
            Some(e) => Some(e.clone()),
            None => None,
        },
        mt: match &root.mt {
            Some(m) => Some(m.clone()),
            None => None,
        },
        sz: root.sz,
        cnt: Some(take),
        has: if kinds.has { Some(total > 0) } else { None },
        tm: root.tm,
    };
    Ok(Folder {
        item,
        items: page,
        path_param: req.dir.full.clone(),
        base_nm: base,
        tot: Some(total),
        skip_n: Some(skip),
        take_n: Some(take),
        ordering: Some(copy_ordering(&req.ordering)),
    })
}

fn folder_key(req: &ListRequest, ns: &String, tm: u128) -> (k: CacheKey)
    ensures
        k@ == (ns@, req.dir.full@, tm, MetaSet::of_seq(req.meta_types@)),
{
    CacheKey {
        nm: ns.clone(),
        path: req.dir.full.clone(),
        tm,
        meta_types: MetaSet::from_kinds(&req.meta_types),
    }
}

fn paths_key(req: &ListRequest, ns: &String, tm: u128) -> (k: CachePathsKey)
    ensures
        k@ == (ns@, req.dir.full@, tm),
{
    CachePathsKey { nm: ns.clone(), path: req.dir.full.clone(), tm }
}

/// Two specifiers are the same list of (criterion, direction) pairs.
fn same_ordering(a: &Vec<OrdItem>, b: &Vec<OrdItem>) -> (r: bool)
    ensures
        r == (a@ == b@),
{
    if a.len() != b.len() {
        return false;
    }
    let mut i: usize = 0;
    while i < a.len()
        invariant
            i <= a@.len(),
            a@.len() == b@.len(),
            forall|j: int| 0 <= j < i ==> a@[j] == b@[j],
        decreases a@.len() - i,
    {
        if a[i] != b[i] {
            return false;
        }
        i = i + 1;
    }
    assert(a@ =~= b@);
    true
}

/// The request has a namespace and a known directory time, so the caches apply.
pub open spec fn cached(req: ListRequest) -> bool {
    req.cache_nm.is_some() && req.tm_ns.is_some()
}

/// The step that follows `event` in `state`. Without a namespace the
/// directory is scanned, annotated and sorted afresh. With one, a folder-cache
/// hit whose stored ordering equals the requested one is returned as stored;
/// any other outcome takes the entries from the entry cache (scanning and
/// storing them on a miss), annotates and sorts them, and stores the result
/// with its ordering in the folder cache, replacing what was there. A
/// directory that cannot be opened ends the listing with an I/O error.
pub open spec fn step_ok(req: ListRequest, state: ListState, event: ListEvent, r: (ListState, ListAction)) -> bool {
    match (state, event) {
        (ListState::Begin, ListEvent::Start) => if !req.exists {
            r.0 is Over && (r.1 matches ListAction::Fail(e) && e is NotFound)
        } else if !splits(req.dir) {
            r.0 is Over && (r.1 matches ListAction::Fail(e) && e is Folder)
        } else if req.cache_nm.is_none() {
            r.0 is AwaitScan && (r.1 matches ListAction::Scan(p) && p@ == req.dir.full@)
        } else if req.tm_ns.is_none() {
            r.0 is Over && (r.1 matches ListAction::Fail(e) && e is Folder)
        } else {
            r.0 is AwaitFolder && (r.1 matches ListAction::GetFolder(k) && k@ == folder_key_for(req))
        },
        (ListState::AwaitFolder, ListEvent::FolderFound(found)) => if cached(req) && found.is_some()
            && found->0.ordering@ == req.ordering@ {
            r.0 is Over && finished(req, found->0.items@, r.1)
        } else if cached(req) {
            r.0 is AwaitPaths && (r.1 matches ListAction::GetPaths(k) && k@ == paths_key_for(req))
        } else {
            r.0 is Over && r.1 is Fail
        },
        (ListState::AwaitPaths, ListEvent::PathsFound(found)) => match found {
            Some(p) => r.0 is AwaitAnnotation && (r.1 matches ListAction::Annotate(q) && q@ == p@),
            None => r.0 is AwaitScan && (r.1 matches ListAction::Scan(d) && d@ == req.dir.full@),
        },
        (ListState::AwaitScan, ListEvent::Scanned(p)) => if cached(req) {
            &&& (r.0 matches ListState::AwaitPathsStored(q) && q@ == p@)
            &&& (r.1 matches ListAction::PutPaths(k, q) && k@ == paths_key_for(req) && q@ == p@)
        } else {
            r.0 is AwaitAnnotation && (r.1 matches ListAction::Annotate(q) && q@ == p@)
        },
        (ListState::AwaitScan, ListEvent::ScanFailed(m)) => r.0 is Over && (r.1 matches ListAction::Fail(
            e,
        ) && e == ApiError::Io(m)),
        (ListState::AwaitPathsStored(p), ListEvent::Stored) => r.0 is AwaitAnnotation && (
        r.1 matches ListAction::Annotate(q) && q@ == p@),
        (ListState::AwaitAnnotation, ListEvent::Annotated(items)) => if cached(req) {
            &&& (r.0 matches ListState::AwaitFolderStored(s) && s@ == sorted_spec(
                items@,
                req.ordering@,
            ))
            &&& (r.1 matches ListAction::PutFolder(k, v) && k@ == folder_key_for(req) && v.items@
                == sorted_spec(items@, req.ordering@) && v.ordering@ == req.ordering@)
        } else {
            r.0 is Over && finished(req, sorted_spec(items@, req.ordering@), r.1)
        },
        (ListState::AwaitFolderStored(s), ListEvent::Stored) => r.0 is Over && finished(req, s@, r.1),
        _ => r.0 is Over && r.1 is Fail,
    }
}

fn out_of_order() -> (r: (ListState, ListAction))
    ensures
        r.0 is Over && r.1 is Fail,
{
    (ListState::Over, ListAction::Fail(ApiError::Folder(String::from_str("Err Step"))))
}

fn finish(req: &ListRequest, sorted: Vec<Item>) -> (r: (ListState, ListAction))
    ensures
        r.0 is Over && finished(*req, sorted@, r.1),
{
    match build_folder(req, sorted) {
        Ok(f) => (ListState::Over, ListAction::Done(f)),
        Err(e) => (ListState::Over, ListAction::Fail(e)),
    }
}

/// Decides the next step of a listing.
pub fn next_step(req: &ListRequest, state: ListState, event: ListEvent) -> (r: (ListState, ListAction))
    ensures
        step_ok(*req, state, event, r),
{
    match (state, event) {
        (ListState::Begin, ListEvent::Start) => {
            if !req.exists {
                return (ListState::Over, ListAction::Fail(ApiError::NotFound(req.dir.full.clone())));
            }
            match split_path(&req.dir) {
                Ok(_) => {},
                Err(e) => {
                    return (ListState::Over, ListAction::Fail(e));
                },
            }
            match &req.cache_nm {
                None => (ListState::AwaitScan, ListAction::Scan(req.dir.full.clone())),
                Some(ns) => match req.tm_ns {
                    None => (
                        ListState::Over,
                        ListAction::Fail(ApiError::Folder(String::from_str("Err SystemTime"))),
                    ),
                    Some(tm) => (ListState::AwaitFolder, ListAction::GetFolder(folder_key(req, ns, tm))),
                },
            }
        },
        (ListState::AwaitFolder, ListEvent::FolderFound(found)) => {
            match (&req.cache_nm, req.tm_ns) {
                (Some(ns), Some(tm)) => {
                    match found {
                        Some(v) => {
                            if same_ordering(&v.ordering, &req.ordering) {
                                return finish(req, v.items);
                            }
                        },
                        None => {},
                    }
                    (ListState::AwaitPaths, ListAction::GetPaths(paths_key(req, ns, tm)))
                },
                _ => out_of_order(),
            }
        },
        (ListState::AwaitPaths, ListEvent::PathsFound(found)) => {
            match found {
                Some(p) => (ListState::AwaitAnnotation, ListAction::Annotate(p)),
                None => (ListState::AwaitScan, ListAction::Scan(req.dir.full.clone())),
            }
        },
        (ListState::AwaitScan, ListEvent::Scanned(p)) => {
            match (&req.cache_nm, req.tm_ns) {
                (Some(ns), Some(tm)) => {
                    let q = copy_paths(&p);
                    (ListState::AwaitPathsStored(q), ListAction::PutPaths(paths_key(req, ns, tm), p))
                },
                _ => (ListState::AwaitAnnotation, ListAction::Annotate(p)),
            }
        },
        (ListState::AwaitScan, ListEvent::ScanFailed(m)) => (ListState::Over, ListAction::Fail(ApiError::Io(m))),
        (ListState::AwaitPathsStored(p), ListEvent::Stored) => {
            (ListState::AwaitAnnotation, ListAction::Annotate(p))
        },
        (ListState::AwaitAnnotation, ListEvent::Annotated(items)) => {
            let mut items = items;
            sort_items(&mut items, &req.ordering);
            match (&req.cache_nm, req.tm_ns) {
                (Some(ns), Some(tm)) => {
                    let v = CacheVal { items: copy_items(&items), ordering: copy_ordering(&req.ordering) };
                    (ListState::AwaitFolderStored(items), ListAction::PutFolder(folder_key(req, ns, tm), v))
                },
                _ => finish(req, items),
            }
        },
        (ListState::AwaitFolderStored(s), ListEvent::Stored) => finish(req, s),
        _ => out_of_order(),
    }
}


/// Two listing views show the same thing.
pub open spec fn same_view(a: Folder, b: Folder) -> bool {
    &&& a.path_param@ == b.path_param@
    &&& a.base_nm@ == b.base_nm@
    &&& a.tot == b.tot
    &&& a.skip_n == b.skip_n
    &&& a.take_n == b.take_n
    &&& a.ordering.is_some() == b.ordering.is_some()
    &&& a.ordering.is_some() ==> a.ordering->0@ == b.ordering->0@
    &&& a.items@ == b.items@
    &&& a.item.nm@ == b.item.nm@
    &&& a.item.dir == b.item.dir
    &&& a.item.ext == b.item.ext
    &&& a.item.mt == b.item.mt
    &&& a.item.sz == b.item.sz
    &&& a.item.cnt == b.item.cnt
    &&& a.item.has == b.item.has
    &&& a.item.tm == b.item.tm
}

/// Requests for one directory snapshot that differ only in the requested
/// metadata kinds use different folder-cache keys and one entry-cache key:
/// their folder views are kept apart, their entry lists are shared.
pub proof fn law_kinds_share_entries(
    r1: ListRequest,
    r2: ListRequest,
    s1: ListState,
    e1: ListEvent,
    a1: (ListState, ListAction),
    s2: ListState,
    e2: ListEvent,
    a2: (ListState, ListAction),
)
    requires
        cached(r1),
        cached(r2),
        r1.cache_nm->0@ == r2.cache_nm->0@,
        r1.dir.full@ == r2.dir.full@,
        r1.tm_ns == r2.tm_ns,
        MetaSet::of_seq(r1.meta_types@) != MetaSet::of_seq(r2.meta_types@),
        step_ok(r1, s1, e1, a1),
        step_ok(r2, s2, e2, a2),
    ensures
        paths_key_for(r1) == paths_key_for(r2),
        folder_key_for(r1) != folder_key_for(r2),
        a1.1 matches ListAction::GetPaths(k1) ==> (a2.1 matches ListAction::GetPaths(k2) ==> k1@ == k2@),
        a1.1 matches ListAction::PutPaths(k1, q1) ==> (a2.1 matches ListAction::PutPaths(k2, q2) ==> k1@ == k2@),
        a1.1 matches ListAction::GetFolder(k1) ==> (a2.1 matches ListAction::GetFolder(k2) ==> k1@ != k2@),
        a1.1 matches ListAction::PutFolder(k1, v1) ==> (a2.1 matches ListAction::PutFolder(k2, v2) ==> k1@ != k2@),
{
}

/// Asking for one ordering, then another, then the first again: the folder
/// cache holds one ordering per key, so the third request finds the second
/// ordering stored, does not serve it, and sorts afresh; what it stores is
/// in the requested ordering and holds the same items as the stored value.
pub proof fn law_alternating_orders(
    req: ListRequest,
    stored: CacheVal,
    annotated: Vec<Item>,
    first: (ListState, ListAction),
    second: (ListState, ListAction),
)
    requires
        cached(req),
        stored.ordering@ != req.ordering@,
        stored.items@ == sorted_spec(annotated@, stored.ordering@),
        step_ok(req, ListState::AwaitFolder, ListEvent::FolderFound(Some(stored)), first),
        step_ok(req, ListState::AwaitAnnotation, ListEvent::Annotated(annotated), second),
    ensures
        first.1 is GetPaths,
        second.1 matches ListAction::PutFolder(k, v) && {
            &&& v.ordering@ == req.ordering@
            &&& v.items@ == sorted_spec(annotated@, req.ordering@)
            &&& v.items@.to_multiset() == stored.items@.to_multiset()
            &&& v.items@.to_multiset() == annotated@.to_multiset()
        },
{
    lemma_sorted_multiset(annotated@, req.ordering@);
    lemma_sorted_multiset(annotated@, stored.ordering@);
}

/// Repeating a request against an unchanged directory gives the same view:
/// the second request finds in the folder cache the value the first one
/// stored, and serves it as the first one did.
pub proof fn law_repeat_is_identical(
    req: ListRequest,
    annotated: Vec<Item>,
    put: (ListState, ListAction),
    first: (ListState, ListAction),
    stored: CacheVal,
    again: (ListState, ListAction),
)
    requires
        cached(req),
        req.exists,
        splits(req.dir),
        step_ok(req, ListState::AwaitAnnotation, ListEvent::Annotated(annotated), put),
        put.1 matches ListAction::PutFolder(k, v) && v == stored,
        step_ok(req, put.0, ListEvent::Stored, first),
        step_ok(req, ListState::AwaitFolder, ListEvent::FolderFound(Some(stored)), again),
    ensures
        first.1 matches ListAction::Done(f1) && again.1 matches ListAction::Done(f2) && same_view(f1, f2),
{
}

/// Without a cache, two runs over the same annotated entries give the same view.
pub proof fn law_fresh_runs_agree(
    req: ListRequest,
    x: Vec<Item>,
    y: Vec<Item>,
    a: (ListState, ListAction),
    b: (ListState, ListAction),
)
    requires
        !cached(req),
        splits(req.dir),
        x@ == y@,
        step_ok(req, ListState::AwaitAnnotation, ListEvent::Annotated(x), a),
        step_ok(req, ListState::AwaitAnnotation, ListEvent::Annotated(y), b),
    ensures
        a.1 matches ListAction::Done(f1) && b.1 matches ListAction::Done(f2) && same_view(f1, f2),
{
}

} // verus!
