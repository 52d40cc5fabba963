use vstd::prelude::*;
use vstd::multiset::Multiset;
use crate::graph::{prefill_check_map, Check, WorldGraph};
use crate::items::{filler_item_to_string, item_token, spec_token_to_item, string_to_filler_item,
    Item};
use crate::names::{sort_names, sorted_ci, views};
use crate::pool::{build_pools, progression_pool_seq, trash_base_seq};
use crate::reach::{reachable_checks_upto, reachable_check_indices, reachable_regions};
use crate::settings::{spec_excluded, Logic, LogicMode, Settings};
use crate::world::{build_world_graph, default_check_names, default_check_quests,
    default_check_regions, default_edges, is_default_world};

verus! {

/// The wire tokens of a pool, in pool order.
pub open spec fn token_views(items: Seq<Item>) -> Seq<Seq<char>> {
    items.map_values(|i: Item| item_token(i))
}

/// The items a token list resolves to through the registry.
pub open spec fn resolved_items(tokens: Seq<Seq<char>>) -> Seq<Item> {
    tokens.map_values(|t: Seq<char>| spec_token_to_item(t)->Some_0)
}

/// The regions the built-in world search reaches from an inventory.
pub open spec fn default_rset(l: Logic, base: Multiset<Item>) -> Set<int> {
    reachable_regions(default_edges(), default_check_regions(), default_check_quests(), l, base)
}

/// The first `n` check names the built-in world owes for an inventory.
pub open spec fn default_names_upto(s: Settings, base: Multiset<Item>, n: int) -> Seq<Seq<char>>
    decreases n,
{
    if n <= 0 {
        Seq::empty()
    } else {
        let rest = default_names_upto(s, base, n - 1);
        if default_rset(s.logic, base).contains(default_check_regions()[n - 1]) && !spec_excluded(
            s,
            default_check_names()[n - 1],
        ) {
            rest.push(default_check_names()[n - 1])
        } else {
            rest
        }
    }
}

/// The check names the built-in world owes for an inventory: those of
/// reachable regions, minus exclusions, in check order.
pub open spec fn default_reachable_names(s: Settings, base: Multiset<Item>) -> Seq<Seq<char>> {
    default_names_upto(s, base, default_check_names().len() as int)
}

proof fn lemma_default_names_upto(
    g: WorldGraph,
    cm: Seq<Option<Item>>,
    s: Settings,
    base: Multiset<Item>,
    n: int,
)
    requires
        is_default_world(g),
        cm == default_check_quests(),
        0 <= n <= 236,
    ensures
        reachable_checks_upto(g, cm, s, base, n).map_values(|c: Check| c.name@)
            == default_names_upto(s, base, n),
    decreases n,
{
    broadcast use vstd::seq_lib::group_seq_properties;

    if n > 0 {
        lemma_default_names_upto(g, cm, s, base, n - 1);
        let rest = reachable_checks_upto(g, cm, s, base, n - 1);
        assert(g.check_regions()[n - 1] == default_check_regions()[n - 1]);
        assert(g.checks@[n - 1].name@ == default_check_names()[n - 1]);
        if reachable_check_indices(g, cm, s, base).contains(n - 1) {
            assert(rest.push(g.checks@[n - 1]).map_values(|c: Check| c.name@) =~= rest.map_values(
                |c: Check| c.name@,
            ).push(g.checks@[n - 1].name@));
        }
    }
}

proof fn lemma_map_multiset<A, B>(s1: Seq<A>, s2: Seq<A>, f: spec_fn(A) -> B)
    requires
        s1.to_multiset() == s2.to_multiset(),
    ensures
        s1.map_values(f).to_multiset() == s2.map_values(f).to_multiset(),
    decreases s1.len(),
{
    broadcast use vstd::seq_lib::group_to_multiset_ensures;
    broadcast use vstd::multiset::group_multiset_axioms;

    if s1.len() == 0 {
        assert(s1.to_multiset().len() == s1.len());
        assert(s2.to_multiset().len() == s2.len());
        assert(s2.len() == 0);
        assert(s1.map_values(f).to_multiset() =~= s2.map_values(f).to_multiset());
    } else {
        let x = s1.last();
        let s1r = s1.drop_last();
        assert(s1 =~= s1r.push(x));
        assert(s1.to_multiset().count(x) > 0);
        assert(s2.to_multiset().count(x) > 0);
        assert(s2.contains(x));
        let k = choose|k: int| 0 <= k < s2.len() && s2[k] == x;
        let s2r = s2.remove(k);
        vstd::seq_lib::to_multiset_remove(s2, k);
        assert(s1r.to_multiset() =~= s2r.to_multiset()) by {
            assert(s1.to_multiset() == s1r.to_multiset().insert(x));
            assert(s2r.to_multiset() == s2.to_multiset().remove(x));
            assert forall|v: A| s1r.to_multiset().count(v) == s2r.to_multiset().count(v) by {
                if v == x {
                    assert(s1.to_multiset().count(x) == s1r.to_multiset().count(x) + 1);
                }
            }
        }
        lemma_map_multiset(s1r, s2r, f);
        assert(s1.map_values(f) =~= s1r.map_values(f).push(f(x)));
        assert(s2.map_values(f).remove(k) =~= s2r.map_values(f));
        vstd::seq_lib::to_multiset_remove(s2.map_values(f), k);
        assert(s2.map_values(f)[k] == f(x));
        assert(s1.map_values(f).to_multiset() =~= s2.map_values(f).to_multiset()) by {
            let m1 = s1.map_values(f).to_multiset();
            let m2 = s2.map_values(f).to_multiset();
            assert(m1 == s1r.map_values(f).to_multiset().insert(f(x)));
            assert(m2.remove(f(x)) == s2r.map_values(f).to_multiset());
            assert(m2.count(f(x)) > 0) by {
                assert(s2.map_values(f).contains(f(x)));
            }
            assert forall|v: B| m1.count(v) == m2.count(v) by {
                if v == f(x) {
                    assert(m1.count(v) == s1r.map_values(f).to_multiset().count(v) + 1);
                    assert(m2.remove(f(x)).count(v) == m2.count(v) - 1);
                } else {
                    assert(m2.remove(f(x)).count(v) == m2.count(v));
                }
            }
        }
    }
}

#[verifier::loop_isolation(false)]
fn items_to_names(items: &Vec<Item>) -> (r: Vec<String>)
    ensures
        views(r@) == token_views(items@),
{
    let mut r: Vec<String> = Vec::new();
    let mut k: usize = 0;
    while k < items.len()
        invariant
            k <= items@.len(),
            views(r@) == token_views(items@.subrange(0, k as int)),
        decreases items@.len() - k,
    {
        let x = filler_item_to_string(items[k]);
        let ghost prev = r@;
        r.push(x);
        proof {
            assert(items@.subrange(0, k as int + 1) =~= items@.subrange(0, k as int).push(
                items@[k as int],
            ));
            assert forall|q: int| 0 <= q < k + 1 implies views(r@)[q] == token_views(
                items@.subrange(0, k as int + 1),
            )[q] by {
                if q < k {
                    assert(views(prev)[q] == token_views(items@.subrange(0, k as int))[q]);
                    assert(r@[q] == prev[q]);
                } else {
                    assert(r@[q] == x);
                }
            }
            assert(views(r@) =~~= token_views(items@.subrange(0, k as int + 1)));
        }
        k += 1;
    }
    proof {
        assert(items@.subrange(0, items@.len() as int) =~= items@);
    }
    r
}

#[verifier::loop_isolation(false)]
fn checks_to_names(checks: &Vec<Check>) -> (r: Vec<String>)
    ensures
        views(r@) == checks@.map_values(|c: Check| c.name@),
{
    let mut r: Vec<String> = Vec::new();
    let mut k: usize = 0;
    while k < checks.len()
        invariant
            k <= checks@.len(),
            views(r@) == checks@.subrange(0, k as int).map_values(|c: Check| c.name@),
        decreases checks@.len() - k,
    {
        let x = checks[k].name.clone();
        let ghost prev = r@;
        r.push(x);
        proof {
            assert(checks@.subrange(0, k as int + 1) =~= checks@.subrange(0, k as int).push(
                checks@[k as int],
            ));
            assert forall|q: int| 0 <= q < k + 1 implies views(r@)[q] == checks@.subrange(
                0,
                k as int + 1,
            ).map_values(|c: Check| c.name@)[q] by {
                if q < k {
                    assert(views(prev)[q] == checks@.subrange(0, k as int).map_values(
                        |c: Check| c.name@,
                    )[q]);
                    assert(r@[q] == prev[q]);
                } else {
                    assert(r@[q] == x);
                }
            }
            assert(views(r@) =~~= checks@.subrange(0, k as int + 1).map_values(
                |c: Check| c.name@,
            ));
        }
        k += 1;
    }
    proof {
        assert(checks@.subrange(0, checks@.len() as int) =~= checks@);
    }
    r
}

#[verifier::loop_isolation(false)]
fn resolve_items(tokens: &Vec<String>) -> (r: Vec<Item>)
    requires
        forall|k: int|
            0 <= k < tokens@.len() ==> spec_token_to_item((#[trigger] tokens@[k])@) is Some,
    ensures
        r@ == resolved_items(views(tokens@)),
{
    let mut r: Vec<Item> = Vec::new();
    let mut k: usize = 0;
    while k < tokens.len()
        invariant
            k <= tokens@.len(),
            r@ == resolved_items(views(tokens@.subrange(0, k as int))),
        decreases tokens@.len() - k,
    {
        r.push(string_to_filler_item(&tokens[k]));
        proof {
            assert(tokens@.subrange(0, k as int + 1) =~= tokens@.subrange(0, k as int).push(
                tokens@[k as int],
            ));
            assert(r@ =~~= resolved_items(views(tokens@.subrange(0, k as int + 1))));
        }
        k += 1;
    }
    proof {
        assert(tokens@.subrange(0, tokens@.len() as int) =~= tokens@);
    }
    r
}

/// One logic session: immutable settings and the seed that fixes the trash
/// pool's order.
pub struct Cartridge {
    pub settings: Settings,
    pub seed: u32,
}

impl Cartridge {
    /// Starts a session from a validated settings value and a seed.
    pub fn new(settings: Settings, seed: u32) -> (c: Cartridge)
        ensures
            c.settings == settings,
            c.seed == seed,
    {
        Cartridge { settings, seed }
    }

    /// The names of the trash pool, sorted case-insensitively for display:
    /// exactly the tokens of the trash pool the settings and seed produce.
    /// The list is a function of the settings and seed alone, so equal
    /// sessions display equal lists.
    pub fn get_trash_item_names(&self) -> (r: Vec<String>)
        ensures
            sorted_ci(views(r@)),
            views(r@).to_multiset() == token_views(trash_base_seq(self.settings.logic)).to_multiset(),
            views(r@) == crate::names::sort_spec(
                token_views(
                    crate::outside::shuffle_of(
                        self.seed as u64,
                        trash_base_seq(self.settings.logic),
                    ),
                ),
            ),
    {
        let pools = build_pools(&self.settings, self.seed);
        let names = items_to_names(&pools.1);
        proof {
            lemma_map_multiset(
                pools.1@,
                trash_base_seq(self.settings.logic),
                |i: Item| item_token(i),
            );
        }
        sort_names(&names)
    }

    /// The names of the progression pool, sorted case-insensitively for
    /// display: a function of the settings alone.
    pub fn get_progression_item_names(&self) -> (r: Vec<String>)
        ensures
            sorted_ci(views(r@)),
            views(r@).to_multiset() == token_views(
                progression_pool_seq(self.settings.logic),
            ).to_multiset(),
            views(r@) == crate::names::sort_spec(
                token_views(progression_pool_seq(self.settings.logic)),
            ),
    {
        let pools = build_pools(&self.settings, self.seed);
        let names = items_to_names(&pools.0);
        sort_names(&names)
    }

    /// The names of the checks reachable in the built-in world from the
    /// obtained items: the graph is built, event checks are prefilled, and
    /// the assumed-fill search runs against the resolved inventory. Every
    /// token must be known to the registry; an unknown token is a fatal
    /// host/engine mismatch that the caller rules out first.
    pub fn get_available_checks(&self, obtained_items: &Vec<String>) -> (r: Vec<String>)
        requires
            forall|k: int|
                0 <= k < obtained_items@.len() ==> spec_token_to_item(
                    (#[trigger] obtained_items@[k])@,
                ) is Some,
        ensures
            views(r@) == default_reachable_names(
                self.settings,
                resolved_items(views(obtained_items@)).to_multiset(),
            ),
    {
        let obtained = resolve_items(obtained_items);
        let world_graph = build_world_graph();
        let check_map = prefill_check_map(&world_graph);
        let reachable = crate::reach::assumed_search(
            &world_graph,
            &obtained,
            &check_map,
            &self.settings,
        );
        proof {
            lemma_default_names_upto(
                world_graph,
                check_map@,
                self.settings,
                obtained@.to_multiset(),
                236,
            );
        }
        checks_to_names(&reachable)
    }
}

/// The names the settings do not exclude, as a function value.
pub open spec fn not_excluded_pred(s: Settings) -> spec_fn(Seq<char>) -> bool {
    |n: Seq<char>| !spec_excluded(s, n)
}

proof fn lemma_names_upto_filter(s: Settings, base: Multiset<Item>, n: int)
    requires
        0 <= n <= 236,
        forall|i: int| 0 <= i < 10 ==> default_rset(s.logic, base).contains(i),
    ensures
        default_names_upto(s, base, n) == default_check_names().take(n).filter(
            not_excluded_pred(s),
        ),
    decreases n,
{
    broadcast use vstd::seq_lib::group_filter_ensures;

    if n <= 0 {
        let empty = Seq::<Seq<char>>::empty();
        assert(default_check_names().take(0) =~= empty);
        empty.lemma_filter_len(not_excluded_pred(s));
        assert(default_check_names().take(0).filter(not_excluded_pred(s)) =~= empty);
    } else {
        lemma_names_upto_filter(s, base, n - 1);
        let t = default_check_names().take(n - 1);
        let e = default_check_names()[n - 1];
        assert(default_check_names().take(n) =~= t.push(e));
        t.lemma_filter_push(e, not_excluded_pred(s));
        assert(0 <= default_check_regions()[n - 1] < 10);
        assert(default_rset(s.logic, base).contains(default_check_regions()[n - 1]));
    }
}

/// No-logic completeness at the interface: under no-logic mode the built-in
/// world owes exactly its non-excluded check names, whatever the inventory.
pub proof fn lemma_default_nologic_names(s: Settings, base: Multiset<Item>)
    requires
        s.logic.mode == LogicMode::NoLogic,
    ensures
        default_reachable_names(s, base) == default_check_names().filter(not_excluded_pred(s)),
        default_reachable_names(s, base) == default_reachable_names(s, Multiset::empty()),
{
    lemma_default_all_reachable_nologic(s, base);
    lemma_default_all_reachable_nologic(s, Multiset::empty());
    lemma_names_upto_filter(s, base, 236);
    lemma_names_upto_filter(s, Multiset::empty(), 236);
    assert(default_check_names().take(236) =~= default_check_names());
}

proof fn lemma_default_all_reachable_nologic(s: Settings, base: Multiset<Item>)
    requires
        s.logic.mode == LogicMode::NoLogic,
    ensures
        forall|i: int| 0 <= i < 10 ==> default_rset(s.logic, base).contains(i),
{
    crate::world::lemma_default_world_connected();
    assert forall|i: int| 0 <= i < 10 implies default_rset(s.logic, base).contains(i) by {
        assert forall|cset: Set<int>|
            #[trigger] crate::reach::region_closed(
                default_edges(),
                default_check_regions(),
                default_check_quests(),
                s.logic,
                base,
                cset,
            ) implies cset.contains(i) by {
            crate::reach::lemma_nologic_closed_iff(
                default_edges(),
                default_check_regions(),
                default_check_quests(),
                s.logic,
                base,
                cset,
            );
            assert(crate::reach::graph_closed(default_edges(), cset));
        }
    }
}

/// Fill completeness at the interface: an inventory holding the whole
/// progression pool is owed every non-excluded check name of the built-in
/// world — the placement-validity proof the fill algorithm relies on.
pub proof fn lemma_default_fill_names(s: Settings, base: Multiset<Item>)
    requires
        crate::pool::progression_pool_seq(s.logic).to_multiset().subset_of(base),
    ensures
        default_reachable_names(s, base) == default_check_names().filter(not_excluded_pred(s)),
{
    crate::world::lemma_default_world_pool_complete(s.logic, base);
    lemma_names_upto_filter(s, base, 236);
    assert(default_check_names().take(236) =~= default_check_names());
}

/// The two pools together exactly fill the built-in world: as many names
/// come back from the two pool getters as the world has non-event checks.
pub proof fn lemma_pools_fill_default_world(
    l: Logic,
    prog_names: Seq<Seq<char>>,
    trash_names: Seq<Seq<char>>,
)
    requires
        prog_names.to_multiset() == token_views(crate::pool::progression_pool_seq(l)).to_multiset(),
        trash_names.to_multiset() == token_views(crate::pool::trash_base_seq(l)).to_multiset(),
    ensures
        prog_names.len() + trash_names.len() == crate::world::default_nonevent_check_count(),
{
    broadcast use vstd::seq_lib::group_to_multiset_ensures;

    crate::world::lemma_default_world_fills(l);
    assert(prog_names.len() == prog_names.to_multiset().len());
    assert(token_views(crate::pool::progression_pool_seq(l)).len() == crate::pool::progression_pool_seq(l).len());
    assert(trash_names.len() == trash_names.to_multiset().len());
    assert(token_views(crate::pool::trash_base_seq(l)).len() == crate::pool::trash_base_seq(l).len());
}

/// Tokens taken from the forward table resolve back to the items they came
/// from: the registry round trip, lifted to whole pools.
pub proof fn lemma_resolve_token_views(items: Seq<Item>)
    ensures
        resolved_items(token_views(items)) == items,
{
    crate::items::lemma_token_round_trip();
    assert(resolved_items(token_views(items)) =~= items);
}

/// Fill completeness at the token level: handing the progression pool's own
/// names back — in any order — satisfies the lookup precondition and is owed
/// every non-excluded check name. This is the placement-validity proof as the
/// fill algorithm runs it, from `get_progression_item_names` straight into
/// `get_available_checks`.
pub proof fn lemma_default_fill_names_tokens(s: Settings, tokens: Seq<Seq<char>>)
    requires
        tokens.to_multiset() == token_views(progression_pool_seq(s.logic)).to_multiset(),
    ensures
        forall|k: int| 0 <= k < tokens.len() ==> spec_token_to_item(#[trigger] tokens[k]) is Some,
        default_reachable_names(s, resolved_items(tokens).to_multiset()) == default_check_names().filter(
            not_excluded_pred(s),
        ),
{
    broadcast use vstd::seq_lib::group_to_multiset_ensures;

    crate::items::lemma_token_round_trip();
    let pool = progression_pool_seq(s.logic);
    assert forall|k: int| 0 <= k < tokens.len() implies spec_token_to_item(
        #[trigger] tokens[k],
    ) is Some by {
        assert(tokens.to_multiset().count(tokens[k]) > 0);
        assert(token_views(pool).contains(tokens[k]));
        let m = choose|m: int| 0 <= m < token_views(pool).len() && token_views(pool)[m] == tokens[k];
        assert(tokens[k] == crate::items::item_token(pool[m]));
    }
    lemma_map_multiset(
        tokens,
        token_views(pool),
        |t: Seq<char>| spec_token_to_item(t)->Some_0,
    );
    lemma_resolve_token_views(pool);
    assert(resolved_items(tokens).to_multiset() == pool.to_multiset());
    lemma_default_fill_names(s, resolved_items(tokens).to_multiset());
}

} // verus!
