use vstd::prelude::*;
use crate::items::{catalog, catalog_seq, is_event, is_event_item, is_progression,
    is_progression_base, is_super, is_super_item, Item};
use crate::outside::{shuffle_items, shuffle_of};
use crate::settings::{Logic, Settings};

verus! {

/// Whether an item belongs in the progression pool under the given ruleset:
/// a pure function of the item identity and the settings flags.
pub open spec fn in_progression_pool(i: Item, l: Logic) -> bool {
    is_progression_base(i) || (is_super_item(i) && l.super_items)
}

/// Whether an item belongs in the trash pool: every non-event item that is
/// not progression-capable under the ruleset.
pub open spec fn in_trash_pool(i: Item, l: Logic) -> bool {
    !is_event_item(i) && !in_progression_pool(i, l)
}

/// The progression pool membership test, as a function value.
pub open spec fn prog_pred(l: Logic) -> spec_fn(Item) -> bool {
    |i: Item| in_progression_pool(i, l)
}

/// The trash pool membership test, as a function value.
pub open spec fn trash_pred(l: Logic) -> spec_fn(Item) -> bool {
    |i: Item| in_trash_pool(i, l)
}

/// The non-event membership test, as a function value.
pub open spec fn nonevent_pred() -> spec_fn(Item) -> bool {
    |i: Item| !is_event_item(i)
}

/// The progression pool, in catalog order.
pub open spec fn progression_pool_seq(l: Logic) -> Seq<Item> {
    catalog_seq().filter(prog_pred(l))
}

/// The trash pool before shuffling, in catalog order.
pub open spec fn trash_base_seq(l: Logic) -> Seq<Item> {
    catalog_seq().filter(trash_pred(l))
}

/// The non-event catalog: every item the two pools must cover between them.
pub open spec fn nonevent_seq() -> Seq<Item> {
    catalog_seq().filter(nonevent_pred())
}

/// Tests progression pool membership under the given ruleset.
pub fn in_progression_pool_exec(i: Item, l: &Logic) -> (b: bool)
    ensures
        b == in_progression_pool(i, *l),
{
    is_progression(i) || (is_super(i) && l.super_items)
}

/// Partitions the item catalog into the progression pool and the trash
/// pool. The split is a pure function of the settings flags; the trash
/// pool's order is the seeded shuffle of its catalog order, so one seed
/// always reproduces one order.
#[verifier::loop_isolation(false)]
pub fn build_pools(settings: &Settings, seed: u32) -> (pools: (Vec<Item>, Vec<Item>))
    ensures
        pools.0@ == progression_pool_seq(settings.logic),
        pools.1@ == shuffle_of(seed as u64, trash_base_seq(settings.logic)),
        pools.1@.to_multiset() == trash_base_seq(settings.logic).to_multiset(),
{
    broadcast use vstd::seq_lib::group_filter_ensures;

    let items = catalog();
    let ghost l = settings.logic;
    let mut prog: Vec<Item> = Vec::new();
    let mut trash: Vec<Item> = Vec::new();
    let mut k: usize = 0;
    while k < items.len()
        invariant
            k <= items@.len(),
            prog@ == items@.take(k as int).filter(prog_pred(l)),
            trash@ == items@.take(k as int).filter(trash_pred(l)),
        decreases items@.len() - k,
    {
        let it = items[k];
        if !is_event(it) {
            if in_progression_pool_exec(it, &settings.logic) {
                prog.push(it);
            } else {
                trash.push(it);
            }
        }
        proof {
            let t = items@.take(k as int);
            let e = items@[k as int];
            assert(items@.take(k as int + 1) =~= t.push(e));
            t.lemma_filter_push(e, prog_pred(l));
            t.lemma_filter_push(e, trash_pred(l));
            lemma_pools_disjoint(l);
        }
        k += 1;
    }
    proof {
        assert(items@.take(items@.len() as int) =~= items@);
    }
    let trash = shuffle_items(seed as u64, trash);
    (prog, trash)
}

/// No item is both an event pseudo-item and pool material.
pub proof fn lemma_pools_disjoint(l: Logic)
    ensures
        forall|i: Item| in_progression_pool(i, l) ==> !is_event_item(i),
        forall|i: Item| !(in_progression_pool(i, l) && in_trash_pool(i, l)),
{
}

proof fn lemma_filter_partition<A>(
    s: Seq<A>,
    p: spec_fn(A) -> bool,
    q: spec_fn(A) -> bool,
    r: spec_fn(A) -> bool,
)
    requires
        forall|x: A| #[trigger] r(x) <==> (p(x) || q(x)),
        forall|x: A| !(#[trigger] p(x) && q(x)),
    ensures
        s.filter(p).len() + s.filter(q).len() == s.filter(r).len(),
    decreases s.len(),
{
    reveal(Seq::filter);
    if s.len() > 0 {
        lemma_filter_partition(s.drop_last(), p, q, r);
    }
}

/// Pool conservation: every non-event item lands in exactly one pool, so
/// the two pool sizes always sum to the size of the non-event catalog —
/// the number of checks a fully fillable world offers, net of its event
/// checks.
pub proof fn lemma_pool_conservation(l: Logic)
    ensures
        progression_pool_seq(l).len() + trash_base_seq(l).len() == nonevent_seq().len(),
{
    lemma_filter_partition(catalog_seq(), prog_pred(l), trash_pred(l), nonevent_pred());
}

/// Partition membership is a pure function of the settings flags: a catalog
/// item sits in a pool exactly when its membership test says so.
pub proof fn lemma_pool_membership(l: Logic)
    ensures
        forall|i: Item|
            #[trigger] progression_pool_seq(l).contains(i) <==> (catalog_seq().contains(i)
                && in_progression_pool(i, l)),
        forall|i: Item|
            #[trigger] trash_base_seq(l).contains(i) <==> (catalog_seq().contains(i)
                && in_trash_pool(i, l)),
{
    lemma_filter_membership(catalog_seq(), prog_pred(l));
    lemma_filter_membership(catalog_seq(), trash_pred(l));
}

proof fn lemma_filter_membership<A>(s: Seq<A>, p: spec_fn(A) -> bool)
    ensures
        forall|x: A| #[trigger] s.filter(p).contains(x) <==> (s.contains(x) && p(x)),
    decreases s.len(),
{
    reveal(Seq::filter);
    if s.len() > 0 {
        lemma_filter_membership(s.drop_last(), p);
        assert forall|x: A| #[trigger] s.filter(p).contains(x) implies s.contains(x) && p(
            x,
        ) by {
            if s.drop_last().filter(p).contains(x) {
                let k = choose|k: int|
                    0 <= k < s.drop_last().len() && #[trigger] s.drop_last()[k] == x;
                assert(s[k] == x);
            } else {
                vstd::seq_lib::lemma_seq_contains_after_push(s.drop_last().filter(p), s.last(), x);
                assert(s[s.len() - 1] == x);
            }
        }
        assert forall|x: A| s.contains(x) && p(x) implies #[trigger] s.filter(p).contains(x) by {
            let k = choose|k: int| 0 <= k < s.len() && #[trigger] s[k] == x;
            if k < s.len() - 1 {
                assert(s.drop_last()[k] == x);
                assert(s.drop_last().contains(x));
            }
            if p(s.last()) {
                vstd::seq_lib::lemma_seq_contains_after_push(s.drop_last().filter(p), s.last(), x);
            }
        }
    }
}

/// Re-running the pool builder with identical settings and seed reproduces
/// identical pools, the trash ordering included.
pub proof fn lemma_pool_reproducible(
    l: Logic,
    seed: u32,
    p1: Seq<Item>,
    t1: Seq<Item>,
    p2: Seq<Item>,
    t2: Seq<Item>,
)
    requires
        p1 == progression_pool_seq(l),
        t1 == shuffle_of(seed as u64, trash_base_seq(l)),
        p2 == progression_pool_seq(l),
        t2 == shuffle_of(seed as u64, trash_base_seq(l)),
    ensures
        p1 == p2,
        t1 == t2,
{
}

/// The progression pool carries every catalog item its membership test
/// admits, at least once.
pub proof fn lemma_pool_count(i: Item, l: Logic)
    requires
        catalog_seq().contains(i),
        in_progression_pool(i, l),
    ensures
        progression_pool_seq(l).to_multiset().count(i) >= 1,
{
    broadcast use vstd::seq_lib::group_to_multiset_ensures;

    lemma_pool_membership(l);
    assert(progression_pool_seq(l).contains(i));
}

proof fn lemma_filter_all<A>(s: Seq<A>, p: spec_fn(A) -> bool)
    requires
        forall|k: int| 0 <= k < s.len() ==> p(#[trigger] s[k]),
    ensures
        s.filter(p) == s,
    decreases s.len(),
{
    reveal(Seq::filter);
    if s.len() > 0 {
        lemma_filter_all(s.drop_last(), p);
    }
    assert(s.filter(p) =~= s);
}

/// The non-event catalog holds 233 items: every chunk but the event
/// pseudo-items passes whole.
pub proof fn lemma_nonevent_count()
    ensures
        nonevent_seq().len() == 233,
{
    broadcast use vstd::seq_lib::group_seq_lib_default;

    let p = nonevent_pred();
    lemma_filter_all(crate::items::gear_seq(), p);
    lemma_filter_all(crate::items::rupee_seq(), p);
    lemma_filter_all(crate::items::monster_seq(), p);
    lemma_filter_all(crate::items::heart_seq(), p);
    lemma_filter_all(crate::items::bottle_seq(), p);
    lemma_filter_all(crate::items::equipment_seq(), p);
    lemma_filter_all(crate::items::key_seq(), p);
    lemma_filter_all(crate::items::quest_seq(), p);
    lemma_filter_all(crate::items::misc_seq(), p);
    crate::items::event_seq().lemma_all_neg_filter_empty(p);
}

} // verus!
