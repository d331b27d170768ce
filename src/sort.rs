use vstd::prelude::*;
use std::cmp::Ordering;
use std::collections::VecDeque;
use vstd::multiset::Multiset;
use crate::models::{Item, OrdItem, OrderAsc, OrderBy};
use crate::text::{lower_of, lex_cmp, to_lower, cmp_text};

verus! {

/// The reverse of an ordering.
pub open spec fn flip(o: Ordering) -> Ordering {
    match o {
        Ordering::Less => Ordering::Greater,
        Ordering::Greater => Ordering::Less,
        Ordering::Equal => Ordering::Equal,
    }
}

/// A criterion's verdict in direction `asc`: `None` when the pair is equal
/// under the criterion, so that the next one decides.
pub open spec fn directed(o: Ordering, asc: OrderAsc) -> Option<Ordering> {
    if o == Ordering::Equal {
        None
    } else if asc == OrderAsc::Asc {
        Some(o)
    } else {
        Some(flip(o))
    }
}

/// `false` before `true`.
pub open spec fn flag_cmp(x: bool, y: bool) -> Ordering {
    if x == y {
        Ordering::Equal
    } else if !x {
        Ordering::Less
    } else {
        Ordering::Greater
    }
}

pub open spec fn num_cmp(x: u64, y: u64) -> Ordering {
    if x < y {
        Ordering::Less
    } else if x > y {
        Ordering::Greater
    } else {
        Ordering::Equal
    }
}

/// Case-insensitive order: the order of the lower-case forms.
pub open spec fn folded_cmp(a: Seq<char>, b: Seq<char>) -> Ordering {
    lex_cmp(lower_of(a), lower_of(b))
}

/// How one criterion orders `a` against `b`, or `None` when it leaves them
/// equal. Directories come first in ascending direction. Extension and mime
/// type apply only when neither item is a directory and both have the field;
/// size and time apply only when both have the field.
pub open spec fn criterion_cmp(a: Item, b: Item, c: OrdItem) -> Option<Ordering> {
    match c.nm {
        OrderBy::Dir => directed(flag_cmp(b.dir, a.dir), c.asc),
        OrderBy::Nm => directed(folded_cmp(a.nm@, b.nm@), c.asc),
        OrderBy::Ext => if !a.dir && !b.dir && a.ext is Some && b.ext is Some {
            directed(folded_cmp(a.ext->0@, b.ext->0@), c.asc)
        } else {
            None
        },
        OrderBy::Mt => if !a.dir && !b.dir && a.mt is Some && b.mt is Some {
            directed(folded_cmp(a.mt->0@, b.mt->0@), c.asc)
        } else {
            None
        },
        OrderBy::Sz => if a.sz is Some && b.sz is Some {
            directed(num_cmp(a.sz->0, b.sz->0), c.asc)
        } else {
            None
        },
        OrderBy::Tm => if a.tm is Some && b.tm is Some {
            directed(num_cmp(a.tm->0, b.tm->0), c.asc)
        } else {
            None
        },
    }
}

/// The verdict of the first criterion from position `i` on that tells the
/// pair apart.
pub open spec fn decision_from(a: Item, b: Item, ords: Seq<OrdItem>, i: int) -> Option<Ordering>
    decreases ords.len() - i,
{
    if 0 <= i < ords.len() {
        match criterion_cmp(a, b, ords[i]) {
            Some(o) => Some(o),
            None => decision_from(a, b, ords, i + 1),
        }
    } else {
        None
    }
}

/// Whether the specifier names the name criterion.
pub open spec fn names_name(ords: Seq<OrdItem>) -> bool {
    exists|i: int| 0 <= i < ords.len() && ords[i].nm == OrderBy::Nm
}

/// The order of two items under a specifier. When no criterion tells them
/// apart and none is the name, the names decide, case-sensitively and
/// ascending.
pub open spec fn item_cmp(a: Item, b: Item, ords: Seq<OrdItem>) -> Ordering {
    match decision_from(a, b, ords, 0) {
        Some(o) => o,
        None => if names_name(ords) {
            Ordering::Equal
        } else {
            lex_cmp(a.nm@, b.nm@)
        },
    }
}

/// `a` goes strictly before `b`.
pub open spec fn item_before(a: Item, b: Item, ords: Seq<OrdItem>) -> bool {
    item_cmp(a, b, ords) == Ordering::Less
}

/// Stable merge: the head of `r` goes first only when strictly before the
/// head of `l`.
pub open spec fn merge_spec(l: Seq<Item>, r: Seq<Item>, ords: Seq<OrdItem>) -> Seq<Item>
    decreases l.len() + r.len(),
{
    if l.len() == 0 {
        r
    } else if r.len() == 0 {
        l
    } else if item_before(r[0], l[0], ords) {
        seq![r[0]] + merge_spec(l, r.drop_first(), ords)
    } else {
        seq![l[0]] + merge_spec(l.drop_first(), r, ords)
    }
}

/// The stable sort of `s` under the specifier: halves sorted, then merged.
pub open spec fn sorted_spec(s: Seq<Item>, ords: Seq<OrdItem>) -> Seq<Item>
    decreases s.len(),
{
    if s.len() <= 1 {
        s
    } else {
        let m = s.len() / 2;
        merge_spec(
            sorted_spec(s.subrange(0, m as int), ords),
            sorted_spec(s.subrange(m as int, s.len() as int), ords),
            ords,
        )
    }
}

/// No item of `s` goes strictly before the one preceding it.
pub open spec fn in_order(s: Seq<Item>, ords: Seq<OrdItem>) -> bool {
    forall|i: int| 0 < i < s.len() ==> !#[trigger] item_before(s[i], s[i - 1], ords)
}

proof fn lemma_lex_flip(a: Seq<char>, b: Seq<char>)
    ensures
        lex_cmp(a, b) == flip(lex_cmp(b, a)),
    decreases a.len(),
{
    if a.len() > 0 && b.len() > 0 {
        lemma_lex_flip(a.drop_first(), b.drop_first());
    }
}

proof fn lemma_criterion_flip(a: Item, b: Item, c: OrdItem)
    ensures
        criterion_cmp(a, b, c) == match criterion_cmp(b, a, c) {
            Some(o) => Some(flip(o)),
            None => None::<Ordering>,
        },
{
    match c.nm {
        OrderBy::Nm => lemma_lex_flip(lower_of(a.nm@), lower_of(b.nm@)),
        OrderBy::Ext => if a.ext is Some && b.ext is Some {
            lemma_lex_flip(lower_of(a.ext->0@), lower_of(b.ext->0@));
        },
        OrderBy::Mt => if a.mt is Some && b.mt is Some {
            lemma_lex_flip(lower_of(a.mt->0@), lower_of(b.mt->0@));
        },
        _ => {},
    }
}

proof fn lemma_decision_flip(a: Item, b: Item, ords: Seq<OrdItem>, i: int)
    ensures
        decision_from(a, b, ords, i) == match decision_from(b, a, ords, i) {
            Some(o) => Some(flip(o)),
            None => None::<Ordering>,
        },
    decreases ords.len() - i,
{
    if 0 <= i < ords.len() {
        lemma_criterion_flip(a, b, ords[i]);
        lemma_decision_flip(a, b, ords, i + 1);
    }
}

/// The item order is antisymmetric: swapping the pair reverses it.
pub proof fn lemma_item_cmp_flip(a: Item, b: Item, ords: Seq<OrdItem>)
    ensures
        item_cmp(a, b, ords) == flip(item_cmp(b, a, ords)),
{
    lemma_decision_flip(a, b, ords, 0);
    lemma_lex_flip(a.nm@, b.nm@);
}

proof fn lemma_merge_multiset(l: Seq<Item>, r: Seq<Item>, ords: Seq<OrdItem>)
    ensures
        merge_spec(l, r, ords).to_multiset() == l.to_multiset().add(r.to_multiset()),
    decreases l.len() + r.len(),
{
    broadcast use vstd::seq_lib::lemma_multiset_commutative;
    broadcast use vstd::multiset::group_multiset_axioms;

    if l.len() == 0 {
        assert(l.to_multiset() =~= Multiset::empty()) by {
            broadcast use vstd::seq_lib::group_to_multiset_ensures;
        }
        assert(l.to_multiset().add(r.to_multiset()) =~= r.to_multiset());
    } else if r.len() == 0 {
        assert(r.to_multiset() =~= Multiset::empty()) by {
            broadcast use vstd::seq_lib::group_to_multiset_ensures;
        }
        assert(l.to_multiset().add(r.to_multiset()) =~= l.to_multiset());
    } else if item_before(r[0], l[0], ords) {
        lemma_merge_multiset(l, r.drop_first(), ords);
        assert(r =~= seq![r[0]] + r.drop_first());
        assert(seq![r[0]].to_multiset().add(l.to_multiset().add(r.drop_first().to_multiset()))
            =~= l.to_multiset().add(seq![r[0]].to_multiset().add(r.drop_first().to_multiset())));
    } else {
        lemma_merge_multiset(l.drop_first(), r, ords);
        assert(l =~= seq![l[0]] + l.drop_first());
        assert(seq![l[0]].to_multiset().add(l.drop_first().to_multiset().add(r.to_multiset()))
            =~= seq![l[0]].to_multiset().add(l.drop_first().to_multiset()).add(r.to_multiset()));
    }
}

/// Sorting keeps every item, each as often as it was there.
pub proof fn lemma_sorted_multiset(s: Seq<Item>, ords: Seq<OrdItem>)
    ensures
        sorted_spec(s, ords).to_multiset() == s.to_multiset(),
    decreases s.len(),
{
    broadcast use vstd::seq_lib::lemma_multiset_commutative;

    if s.len() > 1 {
        let m = s.len() / 2;
        let a = s.subrange(0, m as int);
        let b = s.subrange(m as int, s.len() as int);
        lemma_sorted_multiset(a, ords);
        lemma_sorted_multiset(b, ords);
        lemma_merge_multiset(sorted_spec(a, ords), sorted_spec(b, ords), ords);
        assert(s =~= a + b);
    }
}

proof fn lemma_merge_in_order(l: Seq<Item>, r: Seq<Item>, ords: Seq<OrdItem>)
    requires
        in_order(l, ords),
        in_order(r, ords),
    ensures
        in_order(merge_spec(l, r, ords), ords),
        merge_spec(l, r, ords).len() == l.len() + r.len(),
        merge_spec(l, r, ords).len() > 0 ==> (
            (l.len() > 0 && merge_spec(l, r, ords)[0] == l[0])
            || (r.len() > 0 && merge_spec(l, r, ords)[0] == r[0])),
    decreases l.len() + r.len(),
{
    if l.len() == 0 || r.len() == 0 {
    } else if item_before(r[0], l[0], ords) {
        let r1 = r.drop_first();
        assert(in_order(r1, ords)) by {
            assert forall|i: int| 0 < i < r1.len() implies !#[trigger] item_before(r1[i], r1[i - 1], ords) by {
                let j = i + 1;
                assert(!item_before(r[j], r[j - 1], ords));
                assert(r1[i] == r[j] && r1[i - 1] == r[j - 1]);
            }
        }
        lemma_merge_in_order(l, r1, ords);
        let rest = merge_spec(l, r1, ords);
        let whole = seq![r[0]] + rest;
        lemma_item_cmp_flip(l[0], r[0], ords);
        if r1.len() > 0 {
            assert(r1[0] == r[1]);
            assert(!item_before(r[1], r[1 - 1], ords));
        }
        assert forall|i: int| 0 < i < whole.len() implies !#[trigger] item_before(whole[i], whole[i - 1], ords) by {
            if i > 1 {
                assert(whole[i] == rest[i - 1] && whole[i - 1] == rest[i - 2]);
            } else {
                assert(whole[1] == rest[0]);
            }
        }
    } else {
        let l1 = l.drop_first();
        assert(in_order(l1, ords)) by {
            assert forall|i: int| 0 < i < l1.len() implies !#[trigger] item_before(l1[i], l1[i - 1], ords) by {
                let j = i + 1;
                assert(!item_before(l[j], l[j - 1], ords));
                assert(l1[i] == l[j] && l1[i - 1] == l[j - 1]);
            }
        }
        lemma_merge_in_order(l1, r, ords);
        let rest = merge_spec(l1, r, ords);
        let whole = seq![l[0]] + rest;
        if l1.len() > 0 {
            assert(l1[0] == l[1]);
            assert(!item_before(l[1], l[1 - 1], ords));
        }
        assert forall|i: int| 0 < i < whole.len() implies !#[trigger] item_before(whole[i], whole[i - 1], ords) by {
            if i > 1 {
                assert(whole[i] == rest[i - 1] && whole[i - 1] == rest[i - 2]);
            } else {
                assert(whole[1] == rest[0]);
            }
        }
    }
}

/// A sorted sequence has no item strictly before its predecessor.
pub proof fn lemma_sorted_in_order(s: Seq<Item>, ords: Seq<OrdItem>)
    ensures
        in_order(sorted_spec(s, ords), ords),
        sorted_spec(s, ords).len() == s.len(),
    decreases s.len(),
{
    if s.len() > 1 {
        let m = s.len() / 2;
        let a = s.subrange(0, m as int);
        let b = s.subrange(m as int, s.len() as int);
        lemma_sorted_in_order(a, ords);
        lemma_sorted_in_order(b, ords);
        lemma_merge_in_order(sorted_spec(a, ords), sorted_spec(b, ords), ords);
    }
}

fn directed_exec(o: Ordering, asc: OrderAsc) -> (r: Option<Ordering>)
    ensures
        r == directed(o, asc),
{
    match o {
        Ordering::Equal => None,
        _ => match asc {
            OrderAsc::Asc => Some(o),
            OrderAsc::Desc => Some(
                match o {
                    Ordering::Less => Ordering::Greater,
                    Ordering::Greater => Ordering::Less,
                    Ordering::Equal => Ordering::Equal,
                },
            ),
        },
    }
}

/// Orders two flags, `false` first.
fn cmp_flag(a: bool, b: bool, asc: OrderAsc) -> (r: Option<Ordering>)
    ensures
        r == directed(flag_cmp(a, b), asc),
{
    let o = if a == b {
        Ordering::Equal
    } else if !a {
        Ordering::Less
    } else {
        Ordering::Greater
    };
    directed_exec(o, asc)
}

/// Orders two numbers.
fn cmp_item(a: u64, b: u64, asc: OrderAsc) -> (r: Option<Ordering>)
    ensures
        r == directed(num_cmp(a, b), asc),
{
    let o = if a < b {
        Ordering::Less
    } else if a > b {
        Ordering::Greater
    } else {
        Ordering::Equal
    };
    directed_exec(o, asc)
}

/// Orders two strings case-insensitively.
fn cmp_str_item(a: &String, b: &String, asc: OrderAsc) -> (r: Option<Ordering>)
    ensures
        r == directed(folded_cmp(a@, b@), asc),
{
    let la = to_lower(a.as_str());
    let lb = to_lower(b.as_str());
    directed_exec(cmp_text(la.as_str(), lb.as_str()), asc)
}

/// Orders two optional strings case-insensitively; `None` unless both exist.
fn cmp_opt_str_item(a: &Option<String>, b: &Option<String>, asc: OrderAsc) -> (r: Option<Ordering>)
    ensures
        r == (if a is Some && b is Some {
            directed(folded_cmp(a->0@, b->0@), asc)
        } else {
            None
        }),
{
    match (a, b) {
        (Some(x), Some(y)) => cmp_str_item(x, y, asc),
        _ => None,
    }
}

/// Orders two optional numbers; `None` unless both exist.
fn cmp_opt_item(a: Option<u64>, b: Option<u64>, asc: OrderAsc) -> (r: Option<Ordering>)
    ensures
        r == (if a is Some && b is Some {
            directed(num_cmp(a->0, b->0), asc)
        } else {
            None
        }),
{
    match (a, b) {
        (Some(x), Some(y)) => cmp_item(x, y, asc),
        _ => None,
    }
}

/// How one criterion orders two items.
fn criterion_order(a: &Item, b: &Item, c: OrdItem) -> (r: Option<Ordering>)
    ensures
        r == criterion_cmp(*a, *b, c),
{
    match c.nm {
        OrderBy::Dir => cmp_flag(b.dir, a.dir, c.asc),
        OrderBy::Nm => cmp_str_item(&a.nm, &b.nm, c.asc),
        OrderBy::Ext => if !a.dir && !b.dir {
            cmp_opt_str_item(&a.ext, &b.ext, c.asc)
        } else {
            None
        },
        OrderBy::Mt => if !a.dir && !b.dir {
            cmp_opt_str_item(&a.mt, &b.mt, c.asc)
        } else {
            None
        },
        OrderBy::Sz => cmp_opt_item(a.sz, b.sz, c.asc),
        OrderBy::Tm => cmp_opt_item(a.tm, b.tm, c.asc),
    }
}

/// Orders two items under the specifier `ordering`.
pub fn compare_items(a: &Item, b: &Item, ordering: &Vec<OrdItem>) -> (r: Ordering)
    ensures
        r == item_cmp(*a, *b, ordering@),
{
    let mut i: usize = 0;
    let mut has_name = false;
    while i < ordering.len()
        invariant
            i <= ordering@.len(),
            decision_from(*a, *b, ordering@, 0) == decision_from(*a, *b, ordering@, i as int),
            has_name == (exists|j: int| 0 <= j < i && ordering@[j].nm == OrderBy::Nm),
        decreases ordering@.len() - i,
    {
        let c = ordering[i];
        match criterion_order(a, b, c) {
            Some(o) => {
                return o;
            },
            None => {},
        }
        if c.nm == OrderBy::Nm {
            has_name = true;
        }
        proof {
            if has_name {
                if c.nm == OrderBy::Nm {
                    assert(ordering@[i as int].nm == OrderBy::Nm);
                }
            }
        }
        i = i + 1;
    }
    if has_name {
        Ordering::Equal
    } else {
        cmp_text(a.nm.as_str(), b.nm.as_str())
    }
}

fn before_exec(a: &Item, b: &Item, ordering: &Vec<OrdItem>) -> (r: bool)
    ensures
        r == item_before(*a, *b, ordering@),
{
    match compare_items(a, b, ordering) {
        Ordering::Less => true,
        _ => false,
    }
}

/// Merges two runs as `merge_spec` does.
fn merge_runs(l: VecDeque<Item>, r: VecDeque<Item>, ordering: &Vec<OrdItem>) -> (out: VecDeque<Item>)
    ensures
        out@ == merge_spec(l@, r@, ordering@),
{
    let ghost l0 = l@;
    let ghost r0 = r@;
    let mut l = l;
    let mut r = r;
    let mut out: VecDeque<Item> = VecDeque::new();
    while l.len() > 0 && r.len() > 0
        invariant
            out@ + merge_spec(l@, r@, ordering@) == merge_spec(l0, r0, ordering@),
        decreases l@.len() + r@.len(),
    {
        let ghost m = merge_spec(l@, r@, ordering@);
        if before_exec(&r[0], &l[0], ordering) {
            let ghost rest = merge_spec(l@, r@.drop_first(), ordering@);
            match r.pop_front() {
                Some(x) => {
                    assert(m == seq![x] + rest);
                    let ghost out0 = out@;
                    out.push_back(x);
                    assert(out@ + rest =~= out0 + m);
                },
                None => {},
            }
        } else {
            let ghost rest = merge_spec(l@.drop_first(), r@, ordering@);
            match l.pop_front() {
                Some(x) => {
                    assert(m == seq![x] + rest);
                    let ghost out0 = out@;
                    out.push_back(x);
                    assert(out@ + rest =~= out0 + m);
                },
                None => {},
            }
        }
    }
    if l.len() == 0 {
        assert(merge_spec(l@, r@, ordering@) == r@);
        out.append(&mut r);
    } else {
        assert(merge_spec(l@, r@, ordering@) == l@);
        out.append(&mut l);
    }
    out
}

/// Sorts a run as `sorted_spec` does.
fn sort_run(v: VecDeque<Item>, ordering: &Vec<OrdItem>) -> (out: VecDeque<Item>)
    ensures
        out@ == sorted_spec(v@, ordering@),
    decreases v@.len(),
{
    let n = v.len();
    if n <= 1 {
        return v;
    }
    let m = n / 2;
    let ghost v0 = v@;
    let mut right = v;
    let mut left: VecDeque<Item> = VecDeque::new();
    let mut i: usize = 0;
    while i < m
        invariant
            i <= m,
            m < n,
            n == v0.len(),
            left@ == v0.subrange(0, i as int),
            right@ == v0.subrange(i as int, n as int),
        decreases m - i,
    {
        match right.pop_front() {
            Some(x) => {
                left.push_back(x);
                assert(left@ == v0.subrange(0, i + 1));
                assert(right@ =~= v0.subrange(i + 1, n as int));
            },
            None => {},
        }
        i = i + 1;
    }
    let ls = sort_run(left, ordering);
    let rs = sort_run(right, ordering);
    merge_runs(ls, rs, ordering)
}

/// Sorts `items` stably under the specifier `ordering`.
pub fn sort_items(items: &mut Vec<Item>, ordering: &Vec<OrdItem>)
    ensures
        final(items)@ == sorted_spec(old(items)@, ordering@),
        final(items)@.to_multiset() == old(items)@.to_multiset(),
        in_order(final(items)@, ordering@),
{
    proof {
        lemma_sorted_multiset(items@, ordering@);
        lemma_sorted_in_order(items@, ordering@);
    }
    let ghost s0 = items@;
    let mut run: VecDeque<Item> = VecDeque::new();
    while items.len() > 0
        invariant
            items@ + run@ == s0,
        decreases items@.len(),
    {
        match items.pop() {
            Some(x) => {
                run.push_front(x);
                assert(items@ + run@ =~= s0);
            },
            None => {},
        }
    }
    assert(run@ =~= s0);
    let mut sorted = sort_run(run, ordering);
    let ghost t = sorted@;
    while sorted.len() > 0
        invariant
            items@ + sorted@ == t,
        decreases sorted@.len(),
    {
        match sorted.pop_front() {
            Some(x) => {
                items.push(x);
                assert(items@ + sorted@ =~= t);
            },
            None => {},
        }
    }
    assert(items@ =~= t);
}

} // verus!
