use napi_folder::listing::{
    build_folder, keep_readable, next_step, page_window, ListAction, ListEvent, ListRequest, ListState,
};
use napi_folder::models::{ApiError, CacheVal, Folder, Item, MetaType, OrdItem, OrderAsc, OrderBy};
use napi_folder::resolve::{split_path, ResolvedPath};

fn item(nm: &str, dir: bool, sz: Option<u64>) -> Item {
    Item { nm: nm.to_string(), dir, ext: None, mt: None, sz, cnt: None, has: None, tm: None }
}

fn path(full: &str, prefix: Option<&str>, parent: Option<&str>, name: Option<&str>, is_root: bool, parent_is_root: bool) -> ResolvedPath {
    ResolvedPath {
        full: full.to_string(),
        prefix: prefix.map(|s| s.to_string()),
        parent: parent.map(|s| s.to_string()),
        name: name.map(|s| s.to_string()),
        is_root,
        parent_is_root,
    }
}

fn docs() -> ResolvedPath {
    path("/data/docs", None, Some("/data"), Some("docs"), false, false)
}

fn request(dir: ResolvedPath, ns: Option<&str>, kinds: Vec<MetaType>, ordering: Vec<OrdItem>) -> ListRequest {
    ListRequest {
        root: item("docs", true, None),
        dir,
        exists: true,
        tm_ns: Some(1_700_000_000_000_000_000),
        meta_types: kinds,
        ordering,
        skip_n: None,
        take_n: None,
        cache_nm: ns.map(|s| s.to_string()),
    }
}

fn by_name() -> Vec<OrdItem> {
    vec![OrdItem { nm: OrderBy::Nm, asc: OrderAsc::Asc }]
}

fn by_name_desc() -> Vec<OrdItem> {
    vec![OrdItem { nm: OrderBy::Nm, asc: OrderAsc::Desc }]
}

fn entries() -> Vec<Item> {
    vec![item("b", false, Some(2)), item("c", true, None), item("a", false, Some(1))]
}

fn names(v: &[Item]) -> Vec<String> {
    v.iter().map(|i| i.nm.clone()).collect()
}

fn done(a: ListAction) -> Folder {
    match a {
        ListAction::Done(f) => f,
        other => panic!("expected a view, got {:?}", other),
    }
}

#[test]
fn split_of_drive_root() {
    let (base, name) = split_path(&path("C:\\", Some("C:"), None, None, true, true)).unwrap();
    assert_eq!((base.as_str(), name.as_str()), ("C:", ""));
}

#[test]
fn split_of_root_child() {
    let (base, name) = split_path(&path("C:\\docs", Some("C:"), Some("C:\\"), Some("docs"), false, true)).unwrap();
    assert_eq!((base.as_str(), name.as_str()), ("C:", "docs"));
}

#[test]
fn split_of_deeper_path() {
    let p = path("C:\\docs\\sub", Some("C:"), Some("C:\\docs"), Some("sub"), false, false);
    let (base, name) = split_path(&p).unwrap();
    assert_eq!((base.as_str(), name.as_str()), ("C:\\docs", "sub"));
}

#[test]
fn split_without_prefix() {
    let (base, name) = split_path(&path("/", None, None, None, true, true)).unwrap();
    assert_eq!((base.as_str(), name.as_str()), ("", ""));
    let (base, name) = split_path(&path("/home", None, Some("/"), Some("home"), false, true)).unwrap();
    assert_eq!((base.as_str(), name.as_str()), ("", "home"));
}

#[test]
fn split_fails_without_parent() {
    let r = split_path(&path("x", None, None, Some("x"), false, false));
    assert!(matches!(r, Err(ApiError::Folder(_))));
}

#[test]
fn window_clamps() {
    assert_eq!(page_window(3, Some(5), None), (3, 0));
    assert_eq!(page_window(3, Some(3), Some(2)), (3, 0));
    assert_eq!(page_window(10, Some(3), None), (3, 7));
    assert_eq!(page_window(10, None, Some(4)), (0, 4));
    assert_eq!(page_window(10, Some(8), Some(4)), (8, 2));
    assert_eq!(page_window(0, None, None), (0, 0));
}

#[test]
fn folder_page_and_totals() {
    let mut req = request(docs(), None, vec![MetaType::Has], by_name());
    req.skip_n = Some(1);
    req.take_n = Some(1);
    let f = build_folder(&req, vec![item("a", false, None), item("b", false, None), item("c", false, None)]).unwrap();
    assert_eq!(names(&f.items), vec!["b"]);
    assert_eq!((f.tot, f.skip_n, f.take_n), (Some(3), Some(1), Some(1)));
    assert_eq!(f.item.cnt, Some(1));
    assert_eq!(f.item.has, Some(true));
    assert_eq!(f.item.nm, "docs");
    assert_eq!(f.base_nm, "/data");
    assert_eq!(f.path_param, "/data/docs");
    assert_eq!(f.ordering, Some(by_name()));
}

#[test]
fn skip_past_end_is_empty() {
    let mut req = request(docs(), None, vec![], by_name());
    req.skip_n = Some(9);
    let f = build_folder(&req, entries()).unwrap();
    assert!(f.items.is_empty());
    assert_eq!((f.tot, f.skip_n, f.take_n), (Some(3), Some(3), Some(0)));
    assert_eq!(f.item.has, None);
}

#[test]
fn file_root_keeps_its_name() {
    let mut req = request(docs(), None, vec![MetaType::Has], by_name());
    req.root = item("notes.txt", false, Some(12));
    let f = build_folder(&req, vec![]).unwrap();
    assert_eq!(f.item.nm, "notes.txt");
    assert!(!f.item.dir);
    assert_eq!(f.item.sz, Some(12));
    assert_eq!(f.item.has, Some(false));
}

#[test]
fn unreadable_entries_are_skipped() {
    let v = keep_readable(vec![Some("a".to_string()), None, Some("c".to_string())]);
    assert_eq!(v, vec!["a".to_string(), "c".to_string()]);
}

#[test]
fn missing_path_is_not_found() {
    let mut req = request(docs(), None, vec![], by_name());
    req.exists = false;
    let (s, a) = next_step(&req, ListState::Begin, ListEvent::Start);
    assert!(matches!(s, ListState::Over));
    assert!(matches!(a, ListAction::Fail(ApiError::NotFound(_))));
}

#[test]
fn namespace_without_time_fails() {
    let mut req = request(docs(), Some("tab"), vec![], by_name());
    req.tm_ns = None;
    let (_, a) = next_step(&req, ListState::Begin, ListEvent::Start);
    assert!(matches!(a, ListAction::Fail(ApiError::Folder(_))));
}

#[test]
fn unsplittable_path_fails() {
    let req = request(path("x", None, None, Some("x"), false, false), None, vec![], by_name());
    let (_, a) = next_step(&req, ListState::Begin, ListEvent::Start);
    assert!(matches!(a, ListAction::Fail(ApiError::Folder(_))));
}

#[test]
fn event_out_of_order_fails() {
    let req = request(docs(), None, vec![], by_name());
    let (s, a) = next_step(&req, ListState::Begin, ListEvent::Stored);
    assert!(matches!(s, ListState::Over));
    assert!(matches!(a, ListAction::Fail(_)));
}

#[test]
fn uncached_listing_scans_and_sorts() {
    let req = request(docs(), None, vec![], by_name_desc());
    let (s, a) = next_step(&req, ListState::Begin, ListEvent::Start);
    assert!(matches!(&a, ListAction::Scan(p) if p == "/data/docs"));
    let (s, a) = next_step(&req, s, ListEvent::Scanned(vec!["/data/docs/a".to_string()]));
    assert!(matches!(&a, ListAction::Annotate(p) if p.len() == 1));
    let (s, a) = next_step(&req, s, ListEvent::Annotated(entries()));
    assert!(matches!(s, ListState::Over));
    assert_eq!(names(&done(a).items), vec!["c", "b", "a"]);
}

/// Runs a cached listing whose folder-cache lookup gives `found`, with a
/// miss in the entry cache; returns every action and the final view.
fn run_cached(req: &ListRequest, found: Option<CacheVal>) -> (Vec<String>, Option<CacheVal>, Folder) {
    let mut log = vec![];
    let mut stored = None;
    let (mut s, mut a) = next_step(req, ListState::Begin, ListEvent::Start);
    let mut found = Some(found);
    loop {
        let ev = match a {
            ListAction::GetFolder(_) => {
                log.push("get_folder".to_string());
                ListEvent::FolderFound(found.take().unwrap())
            }
            ListAction::GetPaths(_) => {
                log.push("get_paths".to_string());
                ListEvent::PathsFound(None)
            }
            ListAction::Scan(_) => {
                log.push("scan".to_string());
                ListEvent::Scanned(vec!["a".to_string(), "b".to_string(), "c".to_string()])
            }
            ListAction::PutPaths(_, _) => {
                log.push("put_paths".to_string());
                ListEvent::Stored
            }
            ListAction::Annotate(_) => {
                log.push("annotate".to_string());
                ListEvent::Annotated(entries())
            }
            ListAction::PutFolder(_, v) => {
                log.push("put_folder".to_string());
                stored = Some(v);
                ListEvent::Stored
            }
            ListAction::Done(f) => return (log, stored, f),
            ListAction::Fail(e) => panic!("failed: {:?}", e),
        };
        let next = next_step(req, s, ev);
        s = next.0;
        a = next.1;
    }
}

#[test]
fn cache_hit_with_same_ordering_is_served() {
    let req = request(docs(), Some("tab"), vec![MetaType::Sz], by_name());
    let (log1, stored, f1) = run_cached(&req, None);
    assert_eq!(log1, vec!["get_folder", "get_paths", "scan", "put_paths", "annotate", "put_folder"]);
    let stored = stored.unwrap();
    assert_eq!(names(&stored.items), vec!["a", "b", "c"]);
    let (log2, again, f2) = run_cached(&req, Some(stored));
    assert_eq!(log2, vec!["get_folder"]);
    assert!(again.is_none());
    assert_eq!(names(&f1.items), names(&f2.items));
    assert_eq!((f1.tot, f1.skip_n, f1.take_n), (f2.tot, f2.skip_n, f2.take_n));
    assert_eq!(f1.base_nm, f2.base_nm);
    assert_eq!(f1.item.nm, f2.item.nm);
}

#[test]
fn other_ordering_is_resorted() {
    let asc = request(docs(), Some("tab"), vec![MetaType::Sz], by_name());
    let desc = request(docs(), Some("tab"), vec![MetaType::Sz], by_name_desc());
    let (_, s1, f1) = run_cached(&asc, None);
    let (log2, s2, f2) = run_cached(&desc, s1);
    assert_eq!(log2, vec!["get_folder", "get_paths", "scan", "put_paths", "annotate", "put_folder"]);
    let s2 = s2.unwrap();
    assert_eq!(s2.ordering, by_name_desc());
    let (log3, s3, f3) = run_cached(&asc, Some(s2));
    assert!(log3.contains(&"annotate".to_string()));
    assert_eq!(s3.unwrap().ordering, by_name());
    assert_eq!(names(&f1.items), vec!["a", "b", "c"]);
    assert_eq!(names(&f2.items), vec!["c", "b", "a"]);
    assert_eq!(names(&f3.items), names(&f1.items));
}

#[test]
fn kinds_share_the_entry_key() {
    let r1 = request(docs(), Some("tab"), vec![MetaType::Sz], by_name());
    let r2 = request(docs(), Some("tab"), vec![MetaType::Tm, MetaType::Has], by_name());
    let k1 = match next_step(&r1, ListState::Begin, ListEvent::Start).1 {
        ListAction::GetFolder(k) => k,
        _ => panic!(),
    };
    let k2 = match next_step(&r2, ListState::Begin, ListEvent::Start).1 {
        ListAction::GetFolder(k) => k,
        _ => panic!(),
    };
    assert_ne!(k1, k2);
    let pk1 = match next_step(&r1, ListState::AwaitFolder, ListEvent::FolderFound(None)).1 {
        ListAction::GetPaths(k) => k,
        _ => panic!(),
    };
    let pk2 = match next_step(&r2, ListState::AwaitFolder, ListEvent::FolderFound(None)).1 {
        ListAction::GetPaths(k) => k,
        _ => panic!(),
    };
    assert_eq!(pk1, pk2);
    assert_eq!(pk1.path, "/data/docs");
    assert_eq!(pk1.nm, "tab");
}

#[test]
fn unopenable_directory_fails() {
    let req = request(docs(), Some("tab"), vec![], by_name());
    let (s, a) = next_step(&req, ListState::AwaitScan, ListEvent::ScanFailed("denied".to_string()));
    assert!(matches!(s, ListState::Over));
    assert!(matches!(a, ListAction::Fail(ApiError::Io(m)) if m == "denied"));
}

#[test]
fn entry_cache_hit_skips_scan() {
    let req = request(docs(), Some("tab"), vec![], by_name());
    let (s, a) = next_step(&req, ListState::AwaitPaths, ListEvent::PathsFound(Some(vec!["x".to_string()])));
    assert!(matches!(s, ListState::AwaitAnnotation));
    assert!(matches!(&a, ListAction::Annotate(p) if p == &vec!["x".to_string()]));
}
