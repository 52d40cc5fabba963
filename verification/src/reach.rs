use vstd::prelude::*;
use vstd::multiset::Multiset;
use vstd::set_lib::{lemma_int_range, lemma_len_subset, set_int_range};
use crate::graph::{clone_check, edge_allows, edge_passes, lemma_edge_monotone, Check, Edge,
    WorldGraph};
use crate::items::Item;
use crate::req::Req;
use crate::settings::{is_excluded, spec_excluded, Logic, LogicMode, Settings};

verus! {

broadcast use {
    vstd::multiset::group_multiset_axioms,
    vstd::set::group_set_axioms,
    vstd::set_lib::group_set_lib_default,
};

/// Well-formed traversal data: a start region exists and every edge leads to
/// a region.
pub open spec fn wf_edges(edges: Seq<Seq<Edge>>) -> bool {
    &&& edges.len() >= 1
    &&& forall|r: int, j: int|
        0 <= r < edges.len() && 0 <= j < edges[r].len() ==> (#[trigger] edges[r][j]).dst
            < edges.len()
}

/// The pseudo-items granted by the first `n` checks whose owning region lies
/// in `rset`, as the check map records them.
pub open spec fn granted_upto(
    creg: Seq<int>,
    cm: Seq<Option<Item>>,
    rset: Set<int>,
    n: int,
) -> Multiset<Item>
    decreases n,
{
    if n <= 0 {
        Multiset::empty()
    } else {
        let rest = granted_upto(creg, cm, rset, n - 1);
        if rset.contains(creg[n - 1]) && cm[n - 1] is Some {
            rest.insert(cm[n - 1]->Some_0)
        } else {
            rest
        }
    }
}

/// The pseudo-items granted by the first `n` checks owned by region `d`.
pub open spec fn region_granted_upto(
    creg: Seq<int>,
    cm: Seq<Option<Item>>,
    d: int,
    n: int,
) -> Multiset<Item>
    decreases n,
{
    if n <= 0 {
        Multiset::empty()
    } else {
        let rest = region_granted_upto(creg, cm, d, n - 1);
        if creg[n - 1] == d && cm[n - 1] is Some {
            rest.insert(cm[n - 1]->Some_0)
        } else {
            rest
        }
    }
}

/// The working inventory a search observes once the regions of `rset` are
/// reached: the caller's inventory plus every granted pseudo-item.
pub open spec fn collected_inv(
    creg: Seq<int>,
    cm: Seq<Option<Item>>,
    rset: Set<int>,
    base: Multiset<Item>,
) -> Multiset<Item> {
    base.add(granted_upto(creg, cm, rset, cm.len() as int))
}

/// No check grants anything while no region is reached.
pub proof fn lemma_granted_empty(creg: Seq<int>, cm: Seq<Option<Item>>, n: int)
    ensures
        granted_upto(creg, cm, Set::empty(), n) == Multiset::<Item>::empty(),
    decreases n,
{
    if n > 0 {
        lemma_granted_empty(creg, cm, n - 1);
    }
}

/// Reaching more regions only grows what the checks grant.
pub proof fn lemma_granted_monotone(
    creg: Seq<int>,
    cm: Seq<Option<Item>>,
    r1: Set<int>,
    r2: Set<int>,
    n: int,
)
    requires
        r1.subset_of(r2),
    ensures
        granted_upto(creg, cm, r1, n).subset_of(granted_upto(creg, cm, r2, n)),
    decreases n,
{
    if n > 0 {
        lemma_granted_monotone(creg, cm, r1, r2, n - 1);
    }
}

/// Reaching one more region grants exactly that region's pseudo-items on top
/// of what was granted before.
pub proof fn lemma_granted_insert(
    creg: Seq<int>,
    cm: Seq<Option<Item>>,
    rset: Set<int>,
    d: int,
    n: int,
)
    requires
        !rset.contains(d),
    ensures
        granted_upto(creg, cm, rset.insert(d), n) == granted_upto(creg, cm, rset, n).add(
            region_granted_upto(creg, cm, d, n),
        ),
    decreases n,
{
    if n <= 0 {
        assert(granted_upto(creg, cm, rset.insert(d), n) =~= granted_upto(creg, cm, rset, n).add(
            region_granted_upto(creg, cm, d, n),
        ));
    } else {
        lemma_granted_insert(creg, cm, rset, d, n - 1);
        let a = granted_upto(creg, cm, rset, n - 1);
        let b = region_granted_upto(creg, cm, d, n - 1);
        if cm[n - 1] is Some {
            let x = cm[n - 1]->Some_0;
            if creg[n - 1] == d {
                assert(a.add(b).insert(x) =~= a.add(b.insert(x)));
            } else if rset.contains(creg[n - 1]) {
                assert(a.add(b).insert(x) =~= a.insert(x).add(b));
            }
        }
        assert(granted_upto(creg, cm, rset.insert(d), n) =~= granted_upto(creg, cm, rset, n).add(
            region_granted_upto(creg, cm, d, n),
        ));
    }
}

/// The working inventory grows with the reached set.
pub proof fn lemma_collected_monotone(
    creg: Seq<int>,
    cm: Seq<Option<Item>>,
    r1: Set<int>,
    r2: Set<int>,
    base: Multiset<Item>,
)
    requires
        r1.subset_of(r2),
    ensures
        collected_inv(creg, cm, r1, base).subset_of(collected_inv(creg, cm, r2, base)),
{
    lemma_granted_monotone(creg, cm, r1, r2, cm.len() as int);
}

/// The working inventory grows with the caller's inventory.
pub proof fn lemma_collected_base_monotone(
    creg: Seq<int>,
    cm: Seq<Option<Item>>,
    rset: Set<int>,
    b1: Multiset<Item>,
    b2: Multiset<Item>,
)
    requires
        b1.subset_of(b2),
    ensures
        collected_inv(creg, cm, rset, b1).subset_of(collected_inv(creg, cm, rset, b2)),
{
}

/// A region set closed under traversal: it holds the start region, and
/// whenever the working inventory it induces satisfies an edge out of it,
/// it also holds that edge's destination.
pub open spec fn region_closed(
    edges: Seq<Seq<Edge>>,
    creg: Seq<int>,
    cm: Seq<Option<Item>>,
    l: Logic,
    base: Multiset<Item>,
    cset: Set<int>,
) -> bool {
    &&& cset.contains(0)
    &&& forall|r: int, j: int|
        #![trigger edges[r][j]]
        cset.contains(r) && 0 <= r < edges.len() && 0 <= j < edges[r].len() && edge_allows(
            edges[r][j],
            collected_inv(creg, cm, cset, base),
            l,
        ) ==> cset.contains(edges[r][j].dst as int)
}

/// The regions a search starting from the given inventory reaches: the
/// intersection of every closed region set — by construction independent of
/// any visitation order.
pub open spec fn reachable_regions(
    edges: Seq<Seq<Edge>>,
    creg: Seq<int>,
    cm: Seq<Option<Item>>,
    l: Logic,
    base: Multiset<Item>,
) -> Set<int> {
    Set::new(
        |i: int|
            forall|cset: Set<int>|
                #[trigger] region_closed(edges, creg, cm, l, base, cset) ==> cset.contains(i),
    )
}

/// The checks a search owes: those whose owning region is reachable and
/// which the settings do not exclude.
pub open spec fn reachable_check_indices(
    g: WorldGraph,
    cm: Seq<Option<Item>>,
    s: Settings,
    base: Multiset<Item>,
) -> Set<int> {
    Set::new(
        |c: int|
            {
                &&& 0 <= c < g.checks@.len()
                &&& reachable_regions(g.edge_seqs(), g.check_regions(), cm, s.logic, base).contains(
                    g.check_regions()[c],
                )
                &&& !spec_excluded(s, g.checks@[c].name@)
            },
    )
}

/// The first `n` owed checks, in the graph's check order.
pub open spec fn reachable_checks_upto(
    g: WorldGraph,
    cm: Seq<Option<Item>>,
    s: Settings,
    base: Multiset<Item>,
    n: int,
) -> Seq<Check>
    decreases n,
{
    if n <= 0 {
        Seq::empty()
    } else {
        let rest = reachable_checks_upto(g, cm, s, base, n - 1);
        if reachable_check_indices(g, cm, s, base).contains(n - 1) {
            rest.push(g.checks@[n - 1])
        } else {
            rest
        }
    }
}

/// What an assumed-fill search returns: the checks of reachable regions that
/// the settings do not exclude, in the graph's check order.
pub open spec fn reachable_checks(
    g: WorldGraph,
    cm: Seq<Option<Item>>,
    s: Settings,
    base: Multiset<Item>,
) -> Seq<Check> {
    reachable_checks_upto(g, cm, s, base, g.checks@.len() as int)
}

/// The reached set as a region bitmap describes it.
pub open spec fn reached_set(v: Seq<bool>) -> Set<int> {
    Set::new(|i: int| 0 <= i < v.len() && v[i])
}

/// A check whose region is reached and which the check map fills
/// contributes its item to what the search collects.
pub proof fn lemma_granted_has(
    creg: Seq<int>,
    cm: Seq<Option<Item>>,
    rset: Set<int>,
    c: int,
    n: int,
)
    requires
        0 <= c < n,
        rset.contains(creg[c]),
        cm[c] is Some,
    ensures
        granted_upto(creg, cm, rset, n).count(cm[c]->Some_0) >= 1,
    decreases n,
{
    if c < n - 1 {
        lemma_granted_has(creg, cm, rset, c, n - 1);
    }
}

/// Monotonicity: for inventories one of which contains the other, the
/// smaller one's reachable regions are among the larger one's.
pub proof fn lemma_reachable_monotone(
    edges: Seq<Seq<Edge>>,
    creg: Seq<int>,
    cm: Seq<Option<Item>>,
    l: Logic,
    b1: Multiset<Item>,
    b2: Multiset<Item>,
)
    requires
        b1.subset_of(b2),
    ensures
        reachable_regions(edges, creg, cm, l, b1).subset_of(
            reachable_regions(edges, creg, cm, l, b2),
        ),
{
    let r1 = reachable_regions(edges, creg, cm, l, b1);
    assert forall|i: int| r1.contains(i) implies reachable_regions(
        edges,
        creg,
        cm,
        l,
        b2,
    ).contains(i) by {
        assert forall|cset: Set<int>|
            #[trigger] region_closed(edges, creg, cm, l, b2, cset) implies cset.contains(i) by {
            assert(region_closed(edges, creg, cm, l, b1, cset)) by {
                assert forall|r: int, j: int|
                    #![trigger edges[r][j]]
                    cset.contains(r) && 0 <= r < edges.len() && 0 <= j < edges[r].len()
                        && edge_allows(
                        edges[r][j],
                        collected_inv(creg, cm, cset, b1),
                        l,
                    ) implies cset.contains(edges[r][j].dst as int) by {
                    lemma_collected_base_monotone(creg, cm, cset, b1, b2);
                    lemma_edge_monotone(
                        edges[r][j],
                        collected_inv(creg, cm, cset, b1),
                        collected_inv(creg, cm, cset, b2),
                        l,
                    );
                }
            }
        }
    }
}

/// Raising the logic mode tier, with the switches unchanged, only grows the
/// reachable regions: each tier reaches everything the tiers below it reach.
pub proof fn lemma_reachable_mode_monotone(
    edges: Seq<Seq<Edge>>,
    creg: Seq<int>,
    cm: Seq<Option<Item>>,
    l1: Logic,
    l2: Logic,
    base: Multiset<Item>,
)
    requires
        l1.super_items == l2.super_items,
        l1.skip_trials == l2.skip_trials,
        l1.lampless == l2.lampless,
        l1.swordless_mode == l2.swordless_mode,
        l1.mode.rank() <= l2.mode.rank(),
    ensures
        reachable_regions(edges, creg, cm, l1, base).subset_of(
            reachable_regions(edges, creg, cm, l2, base),
        ),
{
    let r1 = reachable_regions(edges, creg, cm, l1, base);
    assert forall|i: int| r1.contains(i) implies reachable_regions(
        edges,
        creg,
        cm,
        l2,
        base,
    ).contains(i) by {
        assert forall|cset: Set<int>|
            #[trigger] region_closed(edges, creg, cm, l2, base, cset) implies cset.contains(i) by {
            assert(region_closed(edges, creg, cm, l1, base, cset)) by {
                assert forall|r: int, j: int|
                    #![trigger edges[r][j]]
                    cset.contains(r) && 0 <= r < edges.len() && 0 <= j < edges[r].len()
                        && edge_allows(
                        edges[r][j],
                        collected_inv(creg, cm, cset, base),
                        l1,
                    ) implies cset.contains(edges[r][j].dst as int) by {
                    crate::graph::lemma_edge_mode_monotone(
                        edges[r][j],
                        collected_inv(creg, cm, cset, base),
                        l1,
                        l2,
                    );
                }
            }
        }
    }
}

/// Monotonicity at check level: for inventories one of which contains the
/// other, every check the smaller one reaches is reached by the larger one.
pub proof fn lemma_reachable_checks_monotone(
    g: WorldGraph,
    cm: Seq<Option<Item>>,
    s: Settings,
    b1: Multiset<Item>,
    b2: Multiset<Item>,
)
    requires
        b1.subset_of(b2),
    ensures
        reachable_check_indices(g, cm, s, b1).subset_of(reachable_check_indices(g, cm, s, b2)),
{
    lemma_reachable_monotone(g.edge_seqs(), g.check_regions(), cm, s.logic, b1, b2);
}

/// Idempotence: two searches over the same graph, check map, settings and
/// inventory owe the same checks. The owed sequence is a function of those
/// inputs alone, so any two runs agree.
pub proof fn lemma_search_idempotent(
    g: WorldGraph,
    cm: Seq<Option<Item>>,
    s: Settings,
    base: Multiset<Item>,
    r1: Seq<Check>,
    r2: Seq<Check>,
)
    requires
        r1 == reachable_checks(g, cm, s, base),
        r2 == reachable_checks(g, cm, s, base),
    ensures
        r1 == r2,
{
}

/// A region set closed under the bare edges, with every gate ignored.
pub open spec fn graph_closed(edges: Seq<Seq<Edge>>, cset: Set<int>) -> bool {
    &&& cset.contains(0)
    &&& forall|r: int, j: int|
        #![trigger edges[r][j]]
        cset.contains(r) && 0 <= r < edges.len() && 0 <= j < edges[r].len() ==> cset.contains(
            edges[r][j].dst as int,
        )
}

/// A world whose every region can be walked to from the start when every
/// gate is ignored.
pub open spec fn nolog_connected(edges: Seq<Seq<Edge>>) -> bool {
    forall|cset: Set<int>|
        #[trigger] graph_closed(edges, cset) ==> forall|i: int|
            0 <= i < edges.len() ==> cset.contains(i)
}

/// Under no-logic mode a region set is closed exactly when it is closed
/// under the bare edges: every gate stands open.
pub proof fn lemma_nologic_closed_iff(
    edges: Seq<Seq<Edge>>,
    creg: Seq<int>,
    cm: Seq<Option<Item>>,
    l: Logic,
    base: Multiset<Item>,
    cset: Set<int>,
)
    requires
        l.mode == LogicMode::NoLogic,
    ensures
        region_closed(edges, creg, cm, l, base, cset) <==> graph_closed(edges, cset),
{
    if region_closed(edges, creg, cm, l, base, cset) {
        assert forall|r: int, j: int|
            #![trigger edges[r][j]]
            cset.contains(r) && 0 <= r < edges.len() && 0 <= j
                < edges[r].len() implies cset.contains(edges[r][j].dst as int) by {
            assert(edge_allows(edges[r][j], collected_inv(creg, cm, cset, base), l));
        }
    }
}

/// Under no-logic mode every edge is open, so the reachable regions do not
/// depend on the inventory at all.
pub proof fn lemma_nologic_inventory_free(
    edges: Seq<Seq<Edge>>,
    creg: Seq<int>,
    cm: Seq<Option<Item>>,
    l: Logic,
    b1: Multiset<Item>,
    b2: Multiset<Item>,
)
    requires
        l.mode == LogicMode::NoLogic,
    ensures
        reachable_regions(edges, creg, cm, l, b1) == reachable_regions(edges, creg, cm, l, b2),
{
    assert forall|i: int|
        reachable_regions(edges, creg, cm, l, b1).contains(i) == reachable_regions(
            edges,
            creg,
            cm,
            l,
            b2,
        ).contains(i) by {
        if reachable_regions(edges, creg, cm, l, b1).contains(i) {
            assert forall|cset: Set<int>|
                #[trigger] region_closed(edges, creg, cm, l, b2, cset) implies cset.contains(
                i,
            ) by {
                lemma_nologic_closed_iff(edges, creg, cm, l, b1, cset);
                lemma_nologic_closed_iff(edges, creg, cm, l, b2, cset);
            }
        }
        if reachable_regions(edges, creg, cm, l, b2).contains(i) {
            assert forall|cset: Set<int>|
                #[trigger] region_closed(edges, creg, cm, l, b1, cset) implies cset.contains(
                i,
            ) by {
                lemma_nologic_closed_iff(edges, creg, cm, l, b1, cset);
                lemma_nologic_closed_iff(edges, creg, cm, l, b2, cset);
            }
        }
    }
    assert(reachable_regions(edges, creg, cm, l, b1) =~= reachable_regions(
        edges,
        creg,
        cm,
        l,
        b2,
    ));
}

/// No-logic completeness: in a connected world under no-logic mode, whatever
/// the inventory, the owed checks are exactly the non-excluded ones.
pub proof fn lemma_nologic_complete(
    g: WorldGraph,
    cm: Seq<Option<Item>>,
    s: Settings,
    base: Multiset<Item>,
)
    requires
        g.wf(),
        s.logic.mode == LogicMode::NoLogic,
        nolog_connected(g.edge_seqs()),
    ensures
        forall|c: int|
            0 <= c < g.checks@.len() ==> (#[trigger] reachable_check_indices(
                g,
                cm,
                s,
                base,
            ).contains(c) <==> !spec_excluded(s, g.checks@[c].name@)),
{
    let edges = g.edge_seqs();
    let creg = g.check_regions();
    let rr = reachable_regions(edges, creg, cm, s.logic, base);
    assert forall|i: int| 0 <= i < edges.len() implies rr.contains(i) by {
        assert forall|cset: Set<int>|
            #[trigger] region_closed(edges, creg, cm, s.logic, base, cset) implies cset.contains(
            i,
        ) by {
            lemma_nologic_closed_iff(edges, creg, cm, s.logic, base, cset);
        }
    }
}

/// The completeness hypothesis of a fill validation: with the given
/// inventory, the search reaches every region of the world.
pub open spec fn search_complete(
    edges: Seq<Seq<Edge>>,
    creg: Seq<int>,
    cm: Seq<Option<Item>>,
    l: Logic,
    base: Multiset<Item>,
) -> bool {
    forall|i: int|
        0 <= i < edges.len() ==> reachable_regions(edges, creg, cm, l, base).contains(i)
}

/// Fill completeness: an inventory that reaches every region — as the full
/// progression pool must, for a placement to be valid — owes every
/// non-excluded check.
pub proof fn lemma_fill_complete(
    g: WorldGraph,
    cm: Seq<Option<Item>>,
    s: Settings,
    base: Multiset<Item>,
)
    requires
        g.wf(),
        search_complete(g.edge_seqs(), g.check_regions(), cm, s.logic, base),
    ensures
        forall|c: int|
            0 <= c < g.checks@.len() && !spec_excluded(s, (#[trigger] g.checks@[c]).name@)
                ==> reachable_check_indices(g, cm, s, base).contains(c),
{
}

/// Exclusion enforcement: a check the settings exclude is never owed, even
/// when its region is reachable.
pub proof fn lemma_exclusion(g: WorldGraph, cm: Seq<Option<Item>>, s: Settings, base: Multiset<Item>)
    ensures
        forall|c: int|
            spec_excluded(s, (#[trigger] g.checks@[c]).name@) ==> !reachable_check_indices(
                g,
                cm,
                s,
                base,
            ).contains(c),
        forall|x: Check|
            reachable_checks(g, cm, s, base).contains(x) ==> !spec_excluded(s, x.name@),
{
    lemma_checks_upto_not_excluded(g, cm, s, base, g.checks@.len() as int);
}

proof fn lemma_checks_upto_not_excluded(
    g: WorldGraph,
    cm: Seq<Option<Item>>,
    s: Settings,
    base: Multiset<Item>,
    n: int,
)
    ensures
        forall|x: Check|
            reachable_checks_upto(g, cm, s, base, n).contains(x) ==> !spec_excluded(s, x.name@),
    decreases n,
{
    if n > 0 {
        lemma_checks_upto_not_excluded(g, cm, s, base, n - 1);
        let rest = reachable_checks_upto(g, cm, s, base, n - 1);
        if reachable_check_indices(g, cm, s, base).contains(n - 1) {
            assert forall|x: Check|
                rest.push(g.checks@[n - 1]).contains(x) implies !spec_excluded(s, x.name@) by {
                vstd::seq_lib::lemma_seq_contains_after_push(rest, g.checks@[n - 1], x);
            }
        }
    }
}

/// Marks region `d` reached and collects the pseudo-items already placed on
/// its checks into the working inventory.
#[verifier::loop_isolation(false)]
fn mark_region(
    g: &WorldGraph,
    cm: &Vec<Option<Item>>,
    reached: &mut Vec<bool>,
    winv: &mut Vec<Item>,
    d: usize,
    Ghost(base): Ghost<Multiset<Item>>,
)
    requires
        g.wf(),
        cm@.len() == g.checks@.len(),
        old(reached)@.len() == g.regions@.len(),
        d < g.regions@.len(),
        !old(reached)@[d as int],
        old(winv)@.to_multiset() == collected_inv(
            g.check_regions(),
            cm@,
            reached_set(old(reached)@),
            base,
        ),
    ensures
        final(reached)@.len() == old(reached)@.len(),
        reached_set(final(reached)@) == reached_set(old(reached)@).insert(d as int),
        final(winv)@.to_multiset() == collected_inv(
            g.check_regions(),
            cm@,
            reached_set(final(reached)@),
            base,
        ),
{
    broadcast use vstd::seq_lib::group_to_multiset_ensures;

    let ghost r0 = reached_set(old(reached)@);
    let ghost creg = g.check_regions();
    reached[d] = true;
    proof {
        assert(reached_set(reached@) =~= r0.insert(d as int));
    }
    let mut k: usize = 0;
    while k < cm.len()
        invariant
            k <= cm@.len(),
            winv@.to_multiset() == collected_inv(creg, cm@, r0, base).add(
                region_granted_upto(creg, cm@, d as int, k as int),
            ),
        decreases cm@.len() - k,
    {
        let ghost pre = winv@;
        if g.checks[k].region == d {
            if let Some(it) = cm[k] {
                winv.push(it);
                proof {
                    vstd::seq_lib::to_multiset_build(pre, it);
                    assert(collected_inv(creg, cm@, r0, base).add(
                        region_granted_upto(creg, cm@, d as int, k as int),
                    ).insert(it) =~= collected_inv(creg, cm@, r0, base).add(
                        region_granted_upto(creg, cm@, d as int, k as int).insert(it),
                    ));
                }
            }
        }
        proof {
            assert(creg[k as int] == g.checks@[k as int].region as int);
        }
        k += 1;
    }
    proof {
        lemma_granted_insert(creg, cm@, r0, d as int, cm@.len() as int);
        assert(winv@.to_multiset() =~= collected_inv(
            creg,
            cm@,
            reached_set(reached@),
            base,
        ));
    }
}

/// The assumed-fill reachability search. The supplied inventory is taken as
/// ground truth; full passes over the reached regions' edges repeat until a
/// pass adds nothing, and a newly reached region's event pseudo-items join
/// the working inventory at once, so later predicate evaluations in the same
/// call observe them. The result is exactly `reachable_checks`: the checks
/// of the least closed region set, minus exclusions — independent of the
/// order regions and edges are visited in.
#[verifier::loop_isolation(false)]
#[verifier::rlimit(100)]
pub fn assumed_search(
    g: &WorldGraph,
    inventory: &Vec<Item>,
    check_map: &Vec<Option<Item>>,
    settings: &Settings,
) -> (res: Vec<Check>)
    requires
        g.wf(),
        check_map@.len() == g.checks@.len(),
    ensures
        res@ == reachable_checks(*g, check_map@, *settings, inventory@.to_multiset()),
{
    broadcast use vstd::seq_lib::group_to_multiset_ensures;

    let ghost base = inventory@.to_multiset();
    let ghost edges = g.edge_seqs();
    let ghost creg = g.check_regions();
    let ghost cmv = check_map@;
    let ghost l = settings.logic;
    let n = g.regions.len();

    let mut reached: Vec<bool> = Vec::new();
    let mut i: usize = 0;
    while i < n
        invariant
            i <= n,
            reached@.len() == i,
            forall|q: int| 0 <= q < i ==> !reached@[q],
        decreases n - i,
    {
        reached.push(false);
        i += 1;
    }

    let mut winv: Vec<Item> = Vec::new();
    let mut j: usize = 0;
    while j < inventory.len()
        invariant
            j <= inventory@.len(),
            winv@ == inventory@.subrange(0, j as int),
        decreases inventory@.len() - j,
    {
        winv.push(inventory[j]);
        proof {
            assert(winv@ =~= inventory@.subrange(0, j as int + 1));
        }
        j += 1;
    }
    proof {
        assert(winv@ =~= inventory@);
        assert(reached_set(reached@) =~= Set::<int>::empty());
        lemma_granted_empty(creg, cmv, cmv.len() as int);
        assert(collected_inv(creg, cmv, Set::empty(), base) =~= base);
    }

    let mut num: usize = 1;
    mark_region(g, check_map, &mut reached, &mut winv, 0, Ghost(base));
    proof {
        assert(reached_set(reached@).len() == 1) by {
            assert(Set::<int>::empty().insert(0).len() == 1);
        }
        lemma_int_range(0, n as int);
        assert(reached_set(reached@).subset_of(set_int_range(0, n as int)));
        lemma_len_subset(reached_set(reached@), set_int_range(0, n as int));
    }

    loop
        invariant
            reached@.len() == n,
            reached_set(reached@).contains(0),
            num as nat == reached_set(reached@).len(),
            num <= n,
            winv@.to_multiset() == collected_inv(creg, cmv, reached_set(reached@), base),
            forall|cset: Set<int>|
                #[trigger] region_closed(edges, creg, cmv, l, base, cset) ==> reached_set(
                    reached@,
                ).subset_of(cset),
        decreases n - num,
    {
        let ghost r_start = reached_set(reached@);
        let ghost num_start = num;
        let mut changed = false;
        let mut r: usize = 0;
        while r < n
            invariant
                r <= n,
                reached@.len() == n,
                reached_set(reached@).contains(0),
                num as nat == reached_set(reached@).len(),
                num <= n,
                winv@.to_multiset() == collected_inv(creg, cmv, reached_set(reached@), base),
                forall|cset: Set<int>|
                    #[trigger] region_closed(edges, creg, cmv, l, base, cset) ==> reached_set(
                        reached@,
                    ).subset_of(cset),
                changed ==> num > num_start,
                !changed ==> num == num_start && reached_set(reached@) == r_start,
                !changed ==> forall|r2: int, j2: int|
                    #![trigger edges[r2][j2]]
                    0 <= r2 < r && r_start.contains(r2) && 0 <= j2 < edges[r2].len()
                        && edge_allows(
                        edges[r2][j2],
                        collected_inv(creg, cmv, r_start, base),
                        l,
                    ) ==> r_start.contains(edges[r2][j2].dst as int),
            decreases n - r,
        {
            if reached[r] {
                let m = g.regions[r].edges.len();
                let mut jj: usize = 0;
                while jj < m
                    invariant
                        jj <= m,
                        m == edges[r as int].len(),
                        r < n,
                        reached@.len() == n,
                        reached_set(reached@).contains(0),
                        num as nat == reached_set(reached@).len(),
                        num <= n,
                        winv@.to_multiset() == collected_inv(
                            creg,
                            cmv,
                            reached_set(reached@),
                            base,
                        ),
                        forall|cset: Set<int>|
                            #[trigger] region_closed(edges, creg, cmv, l, base, cset)
                                ==> reached_set(reached@).subset_of(cset),
                        changed ==> num > num_start,
                        !changed ==> num == num_start && reached_set(reached@) == r_start,
                        !changed ==> forall|r2: int, j2: int|
                            #![trigger edges[r2][j2]]
                            0 <= r2 < r && r_start.contains(r2) && 0 <= j2 < edges[r2].len()
                                && edge_allows(
                                edges[r2][j2],
                                collected_inv(creg, cmv, r_start, base),
                                l,
                            ) ==> r_start.contains(edges[r2][j2].dst as int),
                        !changed ==> forall|j2: int|
                            0 <= j2 < jj && edge_allows(
                                #[trigger] edges[r as int][j2],
                                collected_inv(creg, cmv, r_start, base),
                                l,
                            ) ==> r_start.contains(edges[r as int][j2].dst as int),
                    decreases m - jj,
                {
                    let e = &g.regions[r].edges[jj];
                    proof {
                        assert(edges[r as int] == g.regions@[r as int].edges@);
                        assert(edges[r as int][jj as int] == *e);
                        assert(e.dst < n);
                    }
                    if !reached[e.dst] {
                        if edge_passes(e, &winv, &settings.logic) {
                            let ghost r_cur = reached_set(reached@);
                            proof {
                                assert forall|cset: Set<int>|
                                    #[trigger] region_closed(edges, creg, cmv, l, base, cset)
                                        implies r_cur.insert(e.dst as int).subset_of(cset) by {
                                    assert(r_cur.subset_of(cset));
                                    lemma_collected_monotone(creg, cmv, r_cur, cset, base);
                                    lemma_edge_monotone(
                                        edges[r as int][jj as int],
                                        collected_inv(creg, cmv, r_cur, base),
                                        collected_inv(creg, cmv, cset, base),
                                        l,
                                    );
                                    assert(cset.contains(r as int));
                                    assert(cset.contains(edges[r as int][jj as int].dst as int));
                                }
                                lemma_int_range(0, n as int);
                                assert(r_cur.insert(e.dst as int).subset_of(
                                    set_int_range(0, n as int),
                                ));
                                lemma_len_subset(
                                    r_cur.insert(e.dst as int),
                                    set_int_range(0, n as int),
                                );
                                lemma_len_subset(r_cur, set_int_range(0, n as int));
                                assert(!r_cur.contains(e.dst as int));
                                assert(r_cur.insert(e.dst as int).len() == r_cur.len() + 1);
                            }
                            mark_region(g, check_map, &mut reached, &mut winv, e.dst, Ghost(base));
                            num = num + 1;
                            changed = true;
                        }
                    }
                    jj += 1;
                }
            }
            r += 1;
        }
        if !changed {
            proof {
                assert(region_closed(edges, creg, cmv, l, base, reached_set(reached@)));
            }
            break;
        }
    }

    let ghost rr = reachable_regions(edges, creg, cmv, l, base);
    proof {
        let rs = reached_set(reached@);
        assert forall|i2: int| rr.contains(i2) implies rs.contains(i2) by {
            assert(region_closed(edges, creg, cmv, l, base, rs));
        }
        assert forall|i2: int| rs.contains(i2) implies rr.contains(i2) by {
            assert forall|cset: Set<int>|
                #[trigger] region_closed(edges, creg, cmv, l, base, cset) implies cset.contains(
                i2,
            ) by {
                assert(rs.subset_of(cset));
            }
        }
        assert(rr =~= rs);
    }

    let mut res: Vec<Check> = Vec::new();
    let mut c: usize = 0;
    while c < g.checks.len()
        invariant
            c <= g.checks@.len(),
            reached@.len() == n,
            reached_set(reached@) == rr,
            res@ == reachable_checks_upto(*g, cmv, *settings, base, c as int),
        decreases g.checks@.len() - c,
    {
        let ck = &g.checks[c];
        proof {
            assert(creg[c as int] == g.checks@[c as int].region as int);
            assert(ck.region < n);
        }
        let reg_ok = reached[ck.region];
        let excl = is_excluded(settings, &ck.name);
        if reg_ok && !excl {
            res.push(clone_check(ck));
            proof {
                assert(reachable_check_indices(*g, cmv, *settings, base).contains(c as int));
            }
        } else {
            proof {
                assert(!reachable_check_indices(*g, cmv, *settings, base).contains(c as int));
            }
        }
        c += 1;
    }
    res
}

/// A minimal two-region world: one gated edge out of the start region and
/// no event checks anywhere. The far region is reached exactly when the
/// edge's requirement holds of the caller's inventory alone; the start
/// region is always reached.
pub proof fn lemma_single_gate_world(
    e: Edge,
    edges: Seq<Seq<Edge>>,
    creg: Seq<int>,
    cm: Seq<Option<Item>>,
    l: Logic,
    base: Multiset<Item>,
)
    requires
        e.dst == 1,
        edges == seq![seq![e], Seq::<Edge>::empty()],
        creg == seq![1int],
        cm == seq![Option::<Item>::None],
    ensures
        reachable_regions(edges, creg, cm, l, base).contains(1) <==> edge_allows(e, base, l),
        reachable_regions(edges, creg, cm, l, base).contains(0),
{
    assert forall|cset: Set<int>| #[trigger] collected_inv(creg, cm, cset, base) == base by {
        reveal_with_fuel(granted_upto, 3);
        assert(granted_upto(creg, cm, cset, 1) =~= Multiset::<Item>::empty());
        assert(base.add(Multiset::<Item>::empty()) =~= base);
    }
    if edge_allows(e, base, l) {
        assert forall|cset: Set<int>|
            #[trigger] region_closed(edges, creg, cm, l, base, cset) implies cset.contains(1) by {
            assert(cset.contains(0));
            assert(edges[0][0] == e);
            assert(cset.contains(edges[0][0].dst as int));
        }
    } else {
        let closed0 = set![0int];
        assert(region_closed(edges, creg, cm, l, base, closed0)) by {
            assert forall|r: int, j: int|
                #![trigger edges[r][j]]
                closed0.contains(r) && 0 <= r < edges.len() && 0 <= j < edges[r].len()
                    && edge_allows(
                    edges[r][j],
                    collected_inv(creg, cm, closed0, base),
                    l,
                ) implies closed0.contains(edges[r][j].dst as int) by {
                assert(edges[r][j] == e);
                assert(collected_inv(creg, cm, closed0, base) == base);
            }
        }
        assert(!closed0.contains(1));
        assert(!reachable_regions(edges, creg, cm, l, base).contains(1));
    }
}

/// A minimal event world: the start region's event check grants a
/// pseudo-item, and the one edge out demands exactly that pseudo-item. The
/// far region is reached in the same search call whatever the caller
/// supplied: prefill placed the pseudo-item and the search collects it on
/// the way through.
pub proof fn lemma_event_unlock_world(
    y: Item,
    e: Edge,
    edges: Seq<Seq<Edge>>,
    creg: Seq<int>,
    cm: Seq<Option<Item>>,
    l: Logic,
    base: Multiset<Item>,
)
    requires
        e == (Edge {
            dst: 1,
            normal: Req::Has(y),
            hard: None,
            glitch_basic: None,
            glitch_advanced: None,
            glitch_hell: None,
        }),
        edges == seq![seq![e], Seq::<Edge>::empty()],
        creg == seq![0int, 1int],
        cm == seq![Some(y), Option::<Item>::None],
    ensures
        reachable_regions(edges, creg, cm, l, base).contains(1),
{
    assert forall|cset: Set<int>|
        #[trigger] region_closed(edges, creg, cm, l, base, cset) implies cset.contains(1) by {
        assert(cset.contains(0));
        assert(creg[0] == 0);
        lemma_granted_has(creg, cm, cset, 0, 2);
        let inv = collected_inv(creg, cm, cset, base);
        assert(inv.count(y) >= 1);
        assert(crate::req::eval(Req::Has(y), inv, l));
        assert(edge_allows(e, inv, l));
        assert(edges[0][0] == e);
        assert(cset.contains(edges[0][0].dst as int));
    }
}

} // verus!
