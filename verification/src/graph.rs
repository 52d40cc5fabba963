use vstd::prelude::*;
use vstd::multiset::Multiset;
use crate::items::Item;
use crate::req::{eval, eval_req, lemma_eval_monotone, ItemFamily, Req, Toggle};
use crate::settings::{Logic, LogicMode};

verus! {

/// A directed connection from one region to another, gated by requirement
/// predicates. `normal` is the author-intended requirement; the optional
/// tier fields are extra ways through that open up at the matching logic
/// mode, and every tier keeps the ways of the tiers below it.
pub struct Edge {
    /// Index of the destination region.
    pub dst: usize,
    pub normal: Req,
    pub hard: Option<Req>,
    pub glitch_basic: Option<Req>,
    pub glitch_advanced: Option<Req>,
    pub glitch_hell: Option<Req>,
}

/// A named node of the world, owning its outgoing edges.
pub struct Region {
    pub name: String,
    pub edges: Vec<Edge>,
}

/// A location yielding exactly one item, owned by exactly one region. An
/// event check names the pseudo-item that collecting it grants.
pub struct Check {
    pub name: String,
    /// Index of the owning region.
    pub region: usize,
    /// The pseudo-item this event check grants, if it is one.
    pub quest: Option<Item>,
}

/// The world: an arena of regions and checks addressed by index, structurally
/// immutable during a search. Region 0 is the start and is always reachable.
pub struct WorldGraph {
    pub regions: Vec<Region>,
    pub checks: Vec<Check>,
}

impl WorldGraph {
    /// Structural well-formedness: the start region exists, every edge leads
    /// to a region, and every check belongs to a region.
    pub open spec fn wf(self) -> bool {
        &&& self.regions@.len() >= 1
        &&& forall|r: int, j: int|
            0 <= r < self.regions@.len() && 0 <= j < self.regions@[r].edges@.len() ==> (
            #[trigger] self.regions@[r].edges@[j]).dst < self.regions@.len()
        &&& forall|c: int|
            0 <= c < self.checks@.len() ==> (#[trigger] self.checks@[c]).region
                < self.regions@.len()
    }

    /// The outgoing edges of every region: everything that traversal depends
    /// on, with the names stripped away.
    pub open spec fn edge_seqs(self) -> Seq<Seq<Edge>> {
        self.regions@.map_values(|r: Region| r.edges@)
    }

    /// The owning region of every check.
    pub open spec fn check_regions(self) -> Seq<int> {
        self.checks@.map_values(|c: Check| c.region as int)
    }

    /// The event pseudo-item of every check.
    pub open spec fn check_quests(self) -> Seq<Option<Item>> {
        self.checks@.map_values(|c: Check| c.quest)
    }
}

/// Whether a tier's optional extra requirement applies.
pub open spec fn opt_allows(o: Option<Req>, inv: Multiset<Item>, l: Logic) -> bool {
    match o {
        Some(r) => eval(r, inv, l),
        None => false,
    }
}

/// Whether an edge can be crossed with the given inventory under the given
/// ruleset: the normal requirement, or any tier extra at or below the mode's
/// rank. NoLogic admits every edge outright.
pub open spec fn edge_allows(e: Edge, inv: Multiset<Item>, l: Logic) -> bool {
    ||| l.mode == LogicMode::NoLogic
    ||| eval(e.normal, inv, l)
    ||| (l.mode.rank() >= LogicMode::Hard.rank() && opt_allows(e.hard, inv, l))
    ||| (l.mode.rank() >= LogicMode::GlitchBasic.rank() && opt_allows(e.glitch_basic, inv, l))
    ||| (l.mode.rank() >= LogicMode::GlitchAdvanced.rank() && opt_allows(
        e.glitch_advanced,
        inv,
        l,
    ))
    ||| (l.mode.rank() >= LogicMode::GlitchHell.rank() && opt_allows(e.glitch_hell, inv, l))
}

fn opt_passes(o: &Option<Req>, inv: &Vec<Item>, l: &Logic) -> (b: bool)
    ensures
        b == opt_allows(*o, inv@.to_multiset(), *l),
{
    match o {
        Some(r) => eval_req(r, inv, l),
        None => false,
    }
}

/// Evaluates an edge's gate against a concrete inventory.
pub fn edge_passes(e: &Edge, inv: &Vec<Item>, l: &Logic) -> (b: bool)
    ensures
        b == edge_allows(*e, inv@.to_multiset(), *l),
{
    if l.mode == LogicMode::NoLogic {
        return true;
    }
    if eval_req(&e.normal, inv, l) {
        return true;
    }
    let rank = l.mode.rank_exec();
    (rank >= 1 && opt_passes(&e.hard, inv, l)) || (rank >= 2 && opt_passes(&e.glitch_basic, inv, l))
        || (rank >= 3 && opt_passes(&e.glitch_advanced, inv, l)) || (rank >= 4 && opt_passes(
        &e.glitch_hell,
        inv,
        l,
    ))
}

/// An edge that a larger inventory cannot close: monotonicity lifted from
/// requirement trees to edge gates.
pub proof fn lemma_edge_monotone(e: Edge, inv1: Multiset<Item>, inv2: Multiset<Item>, l: Logic)
    requires
        inv1.subset_of(inv2),
    ensures
        edge_allows(e, inv1, l) ==> edge_allows(e, inv2, l),
{
    lemma_eval_monotone(e.normal, inv1, inv2, l);
    if let Some(r) = e.hard {
        lemma_eval_monotone(r, inv1, inv2, l);
    }
    if let Some(r) = e.glitch_basic {
        lemma_eval_monotone(r, inv1, inv2, l);
    }
    if let Some(r) = e.glitch_advanced {
        lemma_eval_monotone(r, inv1, inv2, l);
    }
    if let Some(r) = e.glitch_hell {
        lemma_eval_monotone(r, inv1, inv2, l);
    }
}

/// Raising the logic mode tier never closes an edge: each tier admits every
/// way through that the tiers below it admit, and no-logic admits them all.
pub proof fn lemma_edge_mode_monotone(e: Edge, inv: Multiset<Item>, l1: Logic, l2: Logic)
    requires
        l1.super_items == l2.super_items,
        l1.skip_trials == l2.skip_trials,
        l1.lampless == l2.lampless,
        l1.swordless_mode == l2.swordless_mode,
        l1.mode.rank() <= l2.mode.rank(),
    ensures
        edge_allows(e, inv, l1) ==> edge_allows(e, inv, l2),
{
    crate::req::lemma_eval_mode_free(e.normal, inv, l1, l2);
    if let Some(r) = e.hard {
        crate::req::lemma_eval_mode_free(r, inv, l1, l2);
    }
    if let Some(r) = e.glitch_basic {
        crate::req::lemma_eval_mode_free(r, inv, l1, l2);
    }
    if let Some(r) = e.glitch_advanced {
        crate::req::lemma_eval_mode_free(r, inv, l1, l2);
    }
    if let Some(r) = e.glitch_hell {
        crate::req::lemma_eval_mode_free(r, inv, l1, l2);
    }
}

/// Copies a check; the copy equals the original.
pub fn clone_check(c: &Check) -> (r: Check)
    ensures
        r == *c,
{
    Check { name: c.name.clone(), region: c.region, quest: c.quest }
}

/// Assigns every event check its pseudo-item, before any search runs: the
/// check map records, per check index, the item already sitting on it.
pub fn prefill_check_map(g: &WorldGraph) -> (cm: Vec<Option<Item>>)
    ensures
        cm@ == g.check_quests(),
{
    let mut cm: Vec<Option<Item>> = Vec::new();
    let mut k: usize = 0;
    while k < g.checks.len()
        invariant
            k <= g.checks@.len(),
            cm@ == g.check_quests().subrange(0, k as int),
        decreases g.checks@.len() - k,
    {
        cm.push(g.checks[k].quest);
        proof {
            assert(cm@ =~= g.check_quests().subrange(0, k as int + 1));
        }
        k += 1;
    }
    proof {
        assert(cm@ =~= g.check_quests());
    }
    cm
}

} // verus!
