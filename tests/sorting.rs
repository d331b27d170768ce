use std::cmp::Ordering;
use napi_folder::models::{Item, OrdItem, OrderAsc, OrderBy};
use napi_folder::sort::{compare_items, sort_items};

fn file(nm: &str, sz: Option<u64>) -> Item {
    Item { nm: nm.to_string(), dir: false, ext: None, mt: None, sz, cnt: None, has: None, tm: None }
}

fn dir(nm: &str) -> Item {
    Item { nm: nm.to_string(), dir: true, ext: None, mt: None, sz: None, cnt: None, has: None, tm: None }
}

fn ord(nm: OrderBy, asc: OrderAsc) -> OrdItem {
    OrdItem { nm, asc }
}

fn names(v: &[Item]) -> Vec<String> {
    v.iter().map(|i| i.nm.clone()).collect()
}

#[test]
fn dir_first_then_size_descending() {
    let mut items = vec![file("b.txt", Some(5)), dir("B"), file("a.txt", Some(10))];
    let ordering = vec![ord(OrderBy::Dir, OrderAsc::Asc), ord(OrderBy::Sz, OrderAsc::Desc)];
    sort_items(&mut items, &ordering);
    assert_eq!(names(&items), vec!["B", "a.txt", "b.txt"]);
}

#[test]
fn dir_descending_puts_files_first() {
    let mut items = vec![dir("x"), file("y", None)];
    sort_items(&mut items, &vec![ord(OrderBy::Dir, OrderAsc::Desc)]);
    assert_eq!(names(&items), vec!["y", "x"]);
}

#[test]
fn name_is_case_insensitive_and_stable() {
    let mut items = vec![file("b", None), file("A", None), file("a", None), file("C", None)];
    sort_items(&mut items, &vec![ord(OrderBy::Nm, OrderAsc::Asc)]);
    assert_eq!(names(&items), vec!["A", "a", "b", "C"]);
}

#[test]
fn name_descending() {
    let mut items = vec![file("b", None), file("A", None), file("c", None)];
    sort_items(&mut items, &vec![ord(OrderBy::Nm, OrderAsc::Desc)]);
    assert_eq!(names(&items), vec!["c", "b", "A"]);
}

#[test]
fn implicit_case_sensitive_name_tiebreak() {
    let mut items = vec![file("b", Some(1)), file("a", Some(1)), file("B", Some(1))];
    sort_items(&mut items, &vec![ord(OrderBy::Sz, OrderAsc::Asc)]);
    assert_eq!(names(&items), vec!["B", "a", "b"]);
}

#[test]
fn empty_specifier_sorts_by_name() {
    let mut items = vec![file("z", None), dir("m"), file("a", None)];
    sort_items(&mut items, &vec![]);
    assert_eq!(names(&items), vec!["a", "m", "z"]);
}

#[test]
fn missing_size_falls_through_to_name() {
    let a = file("a", None);
    let b = file("b", Some(3));
    let o = vec![ord(OrderBy::Sz, OrderAsc::Asc), ord(OrderBy::Nm, OrderAsc::Desc)];
    assert_eq!(compare_items(&a, &b, &o), Ordering::Greater);
}

#[test]
fn extension_skipped_for_directories() {
    let mut d = dir("zz");
    d.ext = Some("a".to_string());
    let mut f = file("aa", None);
    f.ext = Some("b".to_string());
    let o = vec![ord(OrderBy::Ext, OrderAsc::Asc)];
    // the extension criterion does not apply, so the names decide
    assert_eq!(compare_items(&d, &f, &o), Ordering::Greater);
    assert_eq!(compare_items(&f, &d, &o), Ordering::Less);
}

#[test]
fn extension_and_mime_case_insensitive() {
    let mut a = file("one", None);
    a.ext = Some("TXT".to_string());
    a.mt = Some("text/plain".to_string());
    let mut b = file("two", None);
    b.ext = Some("md".to_string());
    b.mt = Some("Text/Markdown".to_string());
    assert_eq!(compare_items(&a, &b, &vec![ord(OrderBy::Ext, OrderAsc::Asc)]), Ordering::Greater);
    assert_eq!(compare_items(&a, &b, &vec![ord(OrderBy::Mt, OrderAsc::Asc)]), Ordering::Greater);
    assert_eq!(compare_items(&a, &b, &vec![ord(OrderBy::Mt, OrderAsc::Desc)]), Ordering::Less);
}

#[test]
fn time_orders_items() {
    let mut a = file("a", None);
    a.tm = Some(200);
    let mut b = file("b", None);
    b.tm = Some(100);
    let mut items = vec![a, b];
    sort_items(&mut items, &vec![ord(OrderBy::Tm, OrderAsc::Asc)]);
    assert_eq!(names(&items), vec!["b", "a"]);
}

#[test]
fn sort_keeps_every_item() {
    let mut items = vec![];
    for i in 0..50u64 {
        items.push(file(&format!("f{}", (i * 37) % 50), Some(i % 7)));
    }
    items.push(dir("d1"));
    items.push(dir("D0"));
    let ordering = vec![ord(OrderBy::Dir, OrderAsc::Asc), ord(OrderBy::Sz, OrderAsc::Desc), ord(OrderBy::Nm, OrderAsc::Asc)];
    let mut before = names(&items);
    sort_items(&mut items, &ordering);
    let mut after = names(&items);
    assert_eq!(&after[..2], &["D0".to_string(), "d1".to_string()]);
    for w in items.windows(2) {
        assert_ne!(compare_items(&w[1], &w[0], &ordering), Ordering::Less);
    }
    before.sort();
    after.sort();
    assert_eq!(before, after);
}
