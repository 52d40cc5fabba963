use vstd::prelude::*;
use vstd::multiset::Multiset;
use crate::items::Item;
use crate::settings::Logic;

verus! {

/// Progressive item families. A tier threshold such as "sword tier at least
/// two" counts every copy of the family the inventory holds, so a higher
/// tier implies every lower one.
#[derive(Clone, Copy, Debug, PartialEq, Eq, Structural)]
pub enum ItemFamily {
    Bow,
    Boomerang,
    Hookshot,
    Bombs,
    FireRod,
    IceRod,
    Hammer,
    SandRod,
    TornadoRod,
    Bracelet,
    Sword,
    Lamp,
    Net,
    Glove,
    Mail,
}

/// The settings switches a requirement leaf may consult.
#[derive(Clone, Copy, Debug, PartialEq, Eq, Structural)]
pub enum Toggle {
    SuperItems,
    SkipTrials,
    Lampless,
    Swordless,
}

/// Whether a settings switch is on.
pub open spec fn toggle_set(l: Logic, t: Toggle) -> bool {
    match t {
        Toggle::SuperItems => l.super_items,
        Toggle::SkipTrials => l.skip_trials,
        Toggle::Lampless => l.lampless,
        Toggle::Swordless => l.swordless_mode,
    }
}

/// Reads a settings switch.
pub fn toggle_is_set(l: &Logic, t: Toggle) -> (b: bool)
    ensures
        b == toggle_set(*l, t),
{
    match t {
        Toggle::SuperItems => l.super_items,
        Toggle::SkipTrials => l.skip_trials,
        Toggle::Lampless => l.lampless,
        Toggle::Swordless => l.swordless_mode,
    }
}

/// How many copies of a family an inventory holds.
pub open spec fn family_count(inv: Multiset<Item>, f: ItemFamily) -> nat {
    match f {
        ItemFamily::Bow => inv.count(Item::Bow01) + inv.count(Item::Bow02),
        ItemFamily::Boomerang => inv.count(Item::Boomerang01) + inv.count(Item::Boomerang02),
        ItemFamily::Hookshot => inv.count(Item::Hookshot01) + inv.count(Item::Hookshot02),
        ItemFamily::Bombs => inv.count(Item::Bombs01) + inv.count(Item::Bombs02),
        ItemFamily::FireRod => inv.count(Item::FireRod01) + inv.count(Item::FireRod02),
        ItemFamily::IceRod => inv.count(Item::IceRod01) + inv.count(Item::IceRod02),
        ItemFamily::Hammer => inv.count(Item::Hammer01) + inv.count(Item::Hammer02),
        ItemFamily::SandRod => inv.count(Item::SandRod01) + inv.count(Item::SandRod02),
        ItemFamily::TornadoRod => inv.count(Item::TornadoRod01) + inv.count(Item::TornadoRod02),
        ItemFamily::Bracelet => inv.count(Item::RaviosBracelet01) + inv.count(
            Item::RaviosBracelet02,
        ),
        ItemFamily::Sword => inv.count(Item::Sword01) + inv.count(Item::Sword02) + inv.count(
            Item::Sword03,
        ) + inv.count(Item::Sword04),
        ItemFamily::Lamp => inv.count(Item::Lamp01) + inv.count(Item::Lamp02),
        ItemFamily::Net => inv.count(Item::Net01) + inv.count(Item::Net02),
        ItemFamily::Glove => inv.count(Item::Glove01) + inv.count(Item::Glove02),
        ItemFamily::Mail => inv.count(Item::Mail01) + inv.count(Item::Mail02),
    }
}

/// A requirement predicate: a tagged expression tree over item thresholds
/// and settings switches, combined with and/or. Every connective is
/// monotone, so a predicate that holds for an inventory keeps holding as the
/// inventory grows.
pub enum Req {
    /// Always satisfied.
    Free,
    /// At least one copy of one specific item.
    Has(Item),
    /// At least the given number of copies of a family.
    AtLeast(ItemFamily, u8),
    /// The settings switch is on.
    Flag(Toggle),
    And(Box<Req>, Box<Req>),
    Or(Box<Req>, Box<Req>),
}

/// The meaning of a requirement against an inventory and a ruleset: the
/// single interpreter every edge predicate goes through.
pub open spec fn eval(r: Req, inv: Multiset<Item>, l: Logic) -> bool
    decreases r,
{
    match r {
        Req::Free => true,
        Req::Has(i) => inv.count(i) >= 1,
        Req::AtLeast(f, n) => family_count(inv, f) >= n as nat,
        Req::Flag(t) => toggle_set(l, t),
        Req::And(a, b) => eval(*a, inv, l) && eval(*b, inv, l),
        Req::Or(a, b) => eval(*a, inv, l) || eval(*b, inv, l),
    }
}

/// Counts the copies of one item in an inventory.
pub fn count_item(inv: &Vec<Item>, x: Item) -> (n: usize)
    ensures
        n as nat == inv@.to_multiset().count(x),
{
    broadcast use vstd::seq_lib::group_to_multiset_ensures;
    broadcast use vstd::multiset::group_multiset_axioms;

    let mut n: usize = 0;
    let mut j: usize = 0;
    while j < inv.len()
        invariant
            j <= inv@.len(),
            n <= j,
            n as nat == inv@.subrange(0, j as int).to_multiset().count(x),
        decreases inv@.len() - j,
    {
        proof {
            let pre = inv@.subrange(0, j as int);
            let e = inv@[j as int];
            assert(inv@.subrange(0, j as int + 1) =~= pre.push(e));
            vstd::seq_lib::to_multiset_build(pre, e);
            if e == x {
                vstd::multiset::lemma_insert_increases_count_by_1(pre.to_multiset(), x);
            } else {
                vstd::multiset::lemma_insert_other_elements_unchanged(pre.to_multiset(), e, x);
            }
        }
        if inv[j] == x {
            n += 1;
        }
        j += 1;
    }
    proof {
        assert(inv@.subrange(0, inv@.len() as int) =~= inv@);
    }
    n
}

/// Counts the copies of a family in an inventory.
pub fn count_family(inv: &Vec<Item>, f: ItemFamily) -> (n: u128)
    ensures
        n as nat == family_count(inv@.to_multiset(), f),
{
    match f {
        ItemFamily::Bow => count_item(inv, Item::Bow01) as u128 + count_item(
            inv,
            Item::Bow02,
        ) as u128,
        ItemFamily::Boomerang => count_item(inv, Item::Boomerang01) as u128 + count_item(
            inv,
            Item::Boomerang02,
        ) as u128,
        ItemFamily::Hookshot => count_item(inv, Item::Hookshot01) as u128 + count_item(
            inv,
            Item::Hookshot02,
        ) as u128,
        ItemFamily::Bombs => count_item(inv, Item::Bombs01) as u128 + count_item(
            inv,
            Item::Bombs02,
        ) as u128,
        ItemFamily::FireRod => count_item(inv, Item::FireRod01) as u128 + count_item(
            inv,
            Item::FireRod02,
        ) as u128,
        ItemFamily::IceRod => count_item(inv, Item::IceRod01) as u128 + count_item(
            inv,
            Item::IceRod02,
        ) as u128,
        ItemFamily::Hammer => count_item(inv, Item::Hammer01) as u128 + count_item(
            inv,
            Item::Hammer02,
        ) as u128,
        ItemFamily::SandRod => count_item(inv, Item::SandRod01) as u128 + count_item(
            inv,
            Item::SandRod02,
        ) as u128,
        ItemFamily::TornadoRod => count_item(inv, Item::TornadoRod01) as u128 + count_item(
            inv,
            Item::TornadoRod02,
        ) as u128,
        ItemFamily::Bracelet => count_item(inv, Item::RaviosBracelet01) as u128 + count_item(
            inv,
            Item::RaviosBracelet02,
        ) as u128,
        ItemFamily::Sword => count_item(inv, Item::Sword01) as u128 + count_item(
            inv,
            Item::Sword02,
        ) as u128 + count_item(inv, Item::Sword03) as u128 + count_item(
            inv,
            Item::Sword04,
        ) as u128,
        ItemFamily::Lamp => count_item(inv, Item::Lamp01) as u128 + count_item(
            inv,
            Item::Lamp02,
        ) as u128,
        ItemFamily::Net => count_item(inv, Item::Net01) as u128 + count_item(
            inv,
            Item::Net02,
        ) as u128,
        ItemFamily::Glove => count_item(inv, Item::Glove01) as u128 + count_item(
            inv,
            Item::Glove02,
        ) as u128,
        ItemFamily::Mail => count_item(inv, Item::Mail01) as u128 + count_item(
            inv,
            Item::Mail02,
        ) as u128,
    }
}

/// Evaluates a requirement against a concrete inventory: referentially
/// transparent and side-effect-free.
pub fn eval_req(r: &Req, inv: &Vec<Item>, l: &Logic) -> (b: bool)
    ensures
        b == eval(*r, inv@.to_multiset(), *l),
    decreases *r,
{
    match r {
        Req::Free => true,
        Req::Has(i) => count_item(inv, *i) >= 1,
        Req::AtLeast(f, n) => count_family(inv, *f) >= *n as u128,
        Req::Flag(t) => toggle_is_set(l, *t),
        Req::And(a, b) => eval_req(&**a, inv, l) && eval_req(&**b, inv, l),
        Req::Or(a, b) => eval_req(&**a, inv, l) || eval_req(&**b, inv, l),
    }
}

/// Requirement evaluation never reads the logic mode: two rulesets that
/// agree on the switches evaluate every requirement alike.
pub proof fn lemma_eval_mode_free(r: Req, inv: Multiset<Item>, l1: Logic, l2: Logic)
    requires
        l1.super_items == l2.super_items,
        l1.skip_trials == l2.skip_trials,
        l1.lampless == l2.lampless,
        l1.swordless_mode == l2.swordless_mode,
    ensures
        eval(r, inv, l1) == eval(r, inv, l2),
    decreases r,
{
    match r {
        Req::And(a, b) => {
            lemma_eval_mode_free(*a, inv, l1, l2);
            lemma_eval_mode_free(*b, inv, l1, l2);
        },
        Req::Or(a, b) => {
            lemma_eval_mode_free(*a, inv, l1, l2);
            lemma_eval_mode_free(*b, inv, l1, l2);
        },
        _ => {},
    }
}

/// A requirement that holds for an inventory keeps holding for any larger
/// inventory: the monotonicity every edge predicate inherits.
pub proof fn lemma_eval_monotone(r: Req, inv1: Multiset<Item>, inv2: Multiset<Item>, l: Logic)
    requires
        inv1.subset_of(inv2),
    ensures
        eval(r, inv1, l) ==> eval(r, inv2, l),
    decreases r,
{
    match r {
        Req::And(a, b) => {
            lemma_eval_monotone(*a, inv1, inv2, l);
            lemma_eval_monotone(*b, inv1, inv2, l);
        },
        Req::Or(a, b) => {
            lemma_eval_monotone(*a, inv1, inv2, l);
            lemma_eval_monotone(*b, inv1, inv2, l);
        },
        _ => {},
    }
}

} // verus!
