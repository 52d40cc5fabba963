use vstd::prelude::*;
use vstd::multiset::Multiset;
use crate::graph::{edge_allows, Check, Edge, Region, WorldGraph};
use crate::items::{lemma_catalog_contains_core_gear, Item};
use crate::pool::{lemma_pool_count, progression_pool_seq};
use crate::reach::{collected_inv, graph_closed, lemma_granted_has, nolog_connected,
    reachable_regions, region_closed, search_complete};
use crate::req::{eval, family_count, ItemFamily, Req, Toggle};
use crate::settings::Logic;

verus! {

/// An edge with no requirement at any tier.
pub open spec fn free_edge(dst: usize) -> Edge {
    Edge { dst, normal: Req::Free, hard: None, glitch_basic: None, glitch_advanced: None, glitch_hell: None }
}

fn free_edge_exec(dst: usize) -> (e: Edge)
    ensures
        e == free_edge(dst),
{
    Edge { dst, normal: Req::Free, hard: None, glitch_basic: None, glitch_advanced: None, glitch_hell: None }
}

/// Into the eastern ruins: a sword unless the seed is swordless; a net will
/// do on the hard tier.
pub open spec fn eastern_gate() -> Edge {
    Edge {
        dst: 3,
        normal: Req::Or(
            Box::new(Req::Flag(Toggle::Swordless)),
            Box::new(Req::AtLeast(ItemFamily::Sword, 1)),
        ),
        hard: Some(Req::AtLeast(ItemFamily::Net, 1)),
        glitch_basic: None,
        glitch_advanced: None,
        glitch_hell: None,
    }
}

fn eastern_gate_exec() -> (e: Edge)
    ensures
        e == eastern_gate(),
{
    Edge {
        dst: 3,
        normal: Req::Or(
            Box::new(Req::Flag(Toggle::Swordless)),
            Box::new(Req::AtLeast(ItemFamily::Sword, 1)),
        ),
        hard: Some(Req::AtLeast(ItemFamily::Net, 1)),
        glitch_basic: None,
        glitch_advanced: None,
        glitch_hell: None,
    }
}

/// Up the mountain: a glove to lift the boulders; a bomb jump bypasses them
/// on the advanced glitch tier.
pub open spec fn mountain_gate() -> Edge {
    Edge {
        dst: 5,
        normal: Req::AtLeast(ItemFamily::Glove, 1),
        hard: None,
        glitch_basic: None,
        glitch_advanced: Some(Req::AtLeast(ItemFamily::Bombs, 1)),
        glitch_hell: None,
    }
}

fn mountain_gate_exec() -> (e: Edge)
    ensures
        e == mountain_gate(),
{
    Edge {
        dst: 5,
        normal: Req::AtLeast(ItemFamily::Glove, 1),
        hard: None,
        glitch_basic: None,
        glitch_advanced: Some(Req::AtLeast(ItemFamily::Bombs, 1)),
        glitch_hell: None,
    }
}

/// Out onto the lake: flippers to swim; a boots dash crosses on the hell
/// tier.
pub open spec fn lake_gate() -> Edge {
    Edge {
        dst: 6,
        normal: Req::Has(Item::Flippers),
        hard: None,
        glitch_basic: None,
        glitch_advanced: None,
        glitch_hell: Some(Req::Has(Item::PegasusBoots)),
    }
}

fn lake_gate_exec() -> (e: Edge)
    ensures
        e == lake_gate(),
{
    Edge {
        dst: 6,
        normal: Req::Has(Item::Flippers),
        hard: None,
        glitch_basic: None,
        glitch_advanced: None,
        glitch_hell: Some(Req::Has(Item::PegasusBoots)),
    }
}

/// Into the castle: the field must have been opened, and the trials demand a
/// second sword tier unless they are skipped.
pub open spec fn castle_gate() -> Edge {
    Edge {
        dst: 9,
        normal: Req::And(
            Box::new(Req::Has(Item::AccessLoruleCastleField)),
            Box::new(
                Req::Or(
                    Box::new(Req::Flag(Toggle::SkipTrials)),
                    Box::new(Req::AtLeast(ItemFamily::Sword, 2)),
                ),
            ),
        ),
        hard: None,
        glitch_basic: None,
        glitch_advanced: None,
        glitch_hell: None,
    }
}

fn castle_gate_exec() -> (e: Edge)
    ensures
        e == castle_gate(),
{
    Edge {
        dst: 9,
        normal: Req::And(
            Box::new(Req::Has(Item::AccessLoruleCastleField)),
            Box::new(
                Req::Or(
                    Box::new(Req::Flag(Toggle::SkipTrials)),
                    Box::new(Req::AtLeast(ItemFamily::Sword, 2)),
                ),
            ),
        ),
        hard: None,
        glitch_basic: None,
        glitch_advanced: None,
        glitch_hell: None,
    }
}

/// Down into the sanctuary: the doors must have been opened, and the dark
/// room wants a lamp unless the ruleset waives it.
pub open spec fn sanctuary_gate() -> Edge {
    Edge {
        dst: 8,
        normal: Req::And(
            Box::new(Req::Has(Item::OpenSanctuaryDoors)),
            Box::new(
                Req::Or(
                    Box::new(Req::Flag(Toggle::Lampless)),
                    Box::new(Req::AtLeast(ItemFamily::Lamp, 1)),
                ),
            ),
        ),
        hard: None,
        glitch_basic: None,
        glitch_advanced: None,
        glitch_hell: None,
    }
}

fn sanctuary_gate_exec() -> (e: Edge)
    ensures
        e == sanctuary_gate(),
{
    Edge {
        dst: 8,
        normal: Req::And(
            Box::new(Req::Has(Item::OpenSanctuaryDoors)),
            Box::new(
                Req::Or(
                    Box::new(Req::Flag(Toggle::Lampless)),
                    Box::new(Req::AtLeast(ItemFamily::Lamp, 1)),
                ),
            ),
        ),
        hard: None,
        glitch_basic: None,
        glitch_advanced: None,
        glitch_hell: None,
    }
}

/// Into the palace proper: a bow; a boomerang stands in on the basic glitch
/// tier.
pub open spec fn palace_gate() -> Edge {
    Edge {
        dst: 4,
        normal: Req::AtLeast(ItemFamily::Bow, 1),
        hard: None,
        glitch_basic: Some(Req::AtLeast(ItemFamily::Boomerang, 1)),
        glitch_advanced: None,
        glitch_hell: None,
    }
}

fn palace_gate_exec() -> (e: Edge)
    ensures
        e == palace_gate(),
{
    Edge {
        dst: 4,
        normal: Req::AtLeast(ItemFamily::Bow, 1),
        hard: None,
        glitch_basic: Some(Req::AtLeast(ItemFamily::Boomerang, 1)),
        glitch_advanced: None,
        glitch_hell: None,
    }
}

/// The outgoing edges of every region of the built-in world.
pub open spec fn default_edges() -> Seq<Seq<Edge>> {
    seq![
        seq![free_edge(1)],
        seq![
            free_edge(2),
            eastern_gate(),
            mountain_gate(),
            lake_gate(),
            free_edge(7),
            castle_gate(),
        ],
        seq![sanctuary_gate()],
        seq![palace_gate()],
        seq![],
        seq![],
        seq![],
        seq![],
        seq![],
        seq![],
    ]
}

/// The region names of the built-in world.
pub open spec fn default_region_names() -> Seq<Seq<char>> {
    seq![
        "Ravio's Shop"@,
        "Hyrule Field"@,
        "Sanctuary Church"@,
        "Eastern Ruins"@,
        "Eastern Palace"@,
        "Death Mountain"@,
        "Lake Hylia"@,
        "Kakariko Village"@,
        "Sanctuary"@,
        "Lorule Castle"@,
    ]
}

/// The names of the hand-placed checks of the built-in world.
pub open spec fn base_check_names() -> Seq<Seq<char>> {
    seq![
        "Ravio's Gift"@,
        "Street Merchant (Left)"@,
        "Street Merchant (Right)"@,
        "Open Sanctuary Doors"@,
        "Eastern Ruins Pillar"@,
        "Eastern Palace Prize"@,
        "Eastern Palace Portal"@,
        "Death Mountain Treasure"@,
        "Lake Hylia Ledge"@,
        "Kakariko Jail"@,
        "Stylish Woman"@,
        "Sanctuary Chest"@,
        "Lorule Castle Chest"@,
    ]
}

/// The owning region of every hand-placed check.
pub open spec fn base_check_regions() -> Seq<int> {
    seq![0, 1, 1, 2, 3, 4, 4, 5, 6, 7, 7, 8, 9]
}

/// The event pseudo-item of every hand-placed check.
pub open spec fn base_check_quests() -> Seq<Option<Item>> {
    seq![
        None,
        None,
        None,
        Some(Item::OpenSanctuaryDoors),
        None,
        None,
        Some(Item::AccessLoruleCastleField),
        None,
        None,
        None,
        Some(Item::StylishWomansHouseOpen),
        None,
        None,
    ]
}

/// The chest bank of region 0: one generic chest per poolable item
/// allotted to it, so the two pools exactly fill the world.
pub open spec fn shop_chest_names() -> Seq<Seq<char>> {
    seq![
        "Ravio's Shop Chest 01"@,
        "Ravio's Shop Chest 02"@,
        "Ravio's Shop Chest 03"@,
        "Ravio's Shop Chest 04"@,
        "Ravio's Shop Chest 05"@,
        "Ravio's Shop Chest 06"@,
        "Ravio's Shop Chest 07"@,
        "Ravio's Shop Chest 08"@,
        "Ravio's Shop Chest 09"@,
        "Ravio's Shop Chest 10"@,
        "Ravio's Shop Chest 11"@,
        "Ravio's Shop Chest 12"@,
        "Ravio's Shop Chest 13"@,
        "Ravio's Shop Chest 14"@,
        "Ravio's Shop Chest 15"@,
        "Ravio's Shop Chest 16"@,
        "Ravio's Shop Chest 17"@,
        "Ravio's Shop Chest 18"@,
        "Ravio's Shop Chest 19"@,
        "Ravio's Shop Chest 20"@,
        "Ravio's Shop Chest 21"@,
        "Ravio's Shop Chest 22"@,
    ]
}

fn push_shop_chests(checks: &mut Vec<Check>)
    ensures
        final(checks)@.len() == old(checks)@.len() + 22,
        forall|c: int|
            0 <= c < old(checks)@.len() ==> #[trigger] final(checks)@[c] == old(checks)@[c],
        forall|c: int|
            old(checks)@.len() <= c < old(checks)@.len() + 22 ==> {
                &&& (#[trigger] final(checks)@[c]).name@ == shop_chest_names()[
                    c - old(checks)@.len()
                ]
                &&& final(checks)@[c].region == 0
                &&& final(checks)@[c].quest is None
            },
{
    checks.push(Check { name: "Ravio's Shop Chest 01".to_owned(), region: 0, quest: None });
    checks.push(Check { name: "Ravio's Shop Chest 02".to_owned(), region: 0, quest: None });
    checks.push(Check { name: "Ravio's Shop Chest 03".to_owned(), region: 0, quest: None });
    checks.push(Check { name: "Ravio's Shop Chest 04".to_owned(), region: 0, quest: None });
    checks.push(Check { name: "Ravio's Shop Chest 05".to_owned(), region: 0, quest: None });
    checks.push(Check { name: "Ravio's Shop Chest 06".to_owned(), region: 0, quest: None });
    checks.push(Check { name: "Ravio's Shop Chest 07".to_owned(), region: 0, quest: None });
    checks.push(Check { name: "Ravio's Shop Chest 08".to_owned(), region: 0, quest: None });
    checks.push(Check { name: "Ravio's Shop Chest 09".to_owned(), region: 0, quest: None });
    checks.push(Check { name: "Ravio's Shop Chest 10".to_owned(), region: 0, quest: None });
    checks.push(Check { name: "Ravio's Shop Chest 11".to_owned(), region: 0, quest: None });
    checks.push(Check { name: "Ravio's Shop Chest 12".to_owned(), region: 0, quest: None });
    checks.push(Check { name: "Ravio's Shop Chest 13".to_owned(), region: 0, quest: None });
    checks.push(Check { name: "Ravio's Shop Chest 14".to_owned(), region: 0, quest: None });
    checks.push(Check { name: "Ravio's Shop Chest 15".to_owned(), region: 0, quest: None });
    checks.push(Check { name: "Ravio's Shop Chest 16".to_owned(), region: 0, quest: None });
    checks.push(Check { name: "Ravio's Shop Chest 17".to_owned(), region: 0, quest: None });
    checks.push(Check { name: "Ravio's Shop Chest 18".to_owned(), region: 0, quest: None });
    checks.push(Check { name: "Ravio's Shop Chest 19".to_owned(), region: 0, quest: None });
    checks.push(Check { name: "Ravio's Shop Chest 20".to_owned(), region: 0, quest: None });
    checks.push(Check { name: "Ravio's Shop Chest 21".to_owned(), region: 0, quest: None });
    checks.push(Check { name: "Ravio's Shop Chest 22".to_owned(), region: 0, quest: None });
}


/// The chest bank of region 1: one generic chest per poolable item
/// allotted to it, so the two pools exactly fill the world.
pub open spec fn field_chest_names() -> Seq<Seq<char>> {
    seq![
        "Hyrule Field Chest 01"@,
        "Hyrule Field Chest 02"@,
        "Hyrule Field Chest 03"@,
        "Hyrule Field Chest 04"@,
        "Hyrule Field Chest 05"@,
        "Hyrule Field Chest 06"@,
        "Hyrule Field Chest 07"@,
        "Hyrule Field Chest 08"@,
        "Hyrule Field Chest 09"@,
        "Hyrule Field Chest 10"@,
        "Hyrule Field Chest 11"@,
        "Hyrule Field Chest 12"@,
        "Hyrule Field Chest 13"@,
        "Hyrule Field Chest 14"@,
        "Hyrule Field Chest 15"@,
        "Hyrule Field Chest 16"@,
        "Hyrule Field Chest 17"@,
        "Hyrule Field Chest 18"@,
        "Hyrule Field Chest 19"@,
        "Hyrule Field Chest 20"@,
        "Hyrule Field Chest 21"@,
        "Hyrule Field Chest 22"@,
        "Hyrule Field Chest 23"@,
    ]
}

fn push_field_chests(checks: &mut Vec<Check>)
    ensures
        final(checks)@.len() == old(checks)@.len() + 23,
        forall|c: int|
            0 <= c < old(checks)@.len() ==> #[trigger] final(checks)@[c] == old(checks)@[c],
        forall|c: int|
            old(checks)@.len() <= c < old(checks)@.len() + 23 ==> {
                &&& (#[trigger] final(checks)@[c]).name@ == field_chest_names()[
                    c - old(checks)@.len()
                ]
                &&& final(checks)@[c].region == 1
                &&& final(checks)@[c].quest is None
            },
{
    checks.push(Check { name: "Hyrule Field Chest 01".to_owned(), region: 1, quest: None });
    checks.push(Check { name: "Hyrule Field Chest 02".to_owned(), region: 1, quest: None });
    checks.push(Check { name: "Hyrule Field Chest 03".to_owned(), region: 1, quest: None });
    checks.push(Check { name: "Hyrule Field Chest 04".to_owned(), region: 1, quest: None });
    checks.push(Check { name: "Hyrule Field Chest 05".to_owned(), region: 1, quest: None });
    checks.push(Check { name: "Hyrule Field Chest 06".to_owned(), region: 1, quest: None });
    checks.push(Check { name: "Hyrule Field Chest 07".to_owned(), region: 1, quest: None });
    checks.push(Check { name: "Hyrule Field Chest 08".to_owned(), region: 1, quest: None });
    checks.push(Check { name: "Hyrule Field Chest 09".to_owned(), region: 1, quest: None });
    checks.push(Check { name: "Hyrule Field Chest 10".to_owned(), region: 1, quest: None });
    checks.push(Check { name: "Hyrule Field Chest 11".to_owned(), region: 1, quest: None });
    checks.push(Check { name: "Hyrule Field Chest 12".to_owned(), region: 1, quest: None });
    checks.push(Check { name: "Hyrule Field Chest 13".to_owned(), region: 1, quest: None });
    checks.push(Check { name: "Hyrule Field Chest 14".to_owned(), region: 1, quest: None });
    checks.push(Check { name: "Hyrule Field Chest 15".to_owned(), region: 1, quest: None });
    checks.push(Check { name: "Hyrule Field Chest 16".to_owned(), region: 1, quest: None });
    checks.push(Check { name: "Hyrule Field Chest 17".to_owned(), region: 1, quest: None });
    checks.push(Check { name: "Hyrule Field Chest 18".to_owned(), region: 1, quest: None });
    checks.push(Check { name: "Hyrule Field Chest 19".to_owned(), region: 1, quest: None });
    checks.push(Check { name: "Hyrule Field Chest 20".to_owned(), region: 1, quest: None });
    checks.push(Check { name: "Hyrule Field Chest 21".to_owned(), region: 1, quest: None });
    checks.push(Check { name: "Hyrule Field Chest 22".to_owned(), region: 1, quest: None });
    checks.push(Check { name: "Hyrule Field Chest 23".to_owned(), region: 1, quest: None });
}


/// The chest bank of region 2: one generic chest per poolable item
/// allotted to it, so the two pools exactly fill the world.
pub open spec fn church_chest_names() -> Seq<Seq<char>> {
    seq![
        "Sanctuary Church Chest 01"@,
        "Sanctuary Church Chest 02"@,
        "Sanctuary Church Chest 03"@,
        "Sanctuary Church Chest 04"@,
        "Sanctuary Church Chest 05"@,
        "Sanctuary Church Chest 06"@,
        "Sanctuary Church Chest 07"@,
        "Sanctuary Church Chest 08"@,
        "Sanctuary Church Chest 09"@,
        "Sanctuary Church Chest 10"@,
        "Sanctuary Church Chest 11"@,
        "Sanctuary Church Chest 12"@,
        "Sanctuary Church Chest 13"@,
        "Sanctuary Church Chest 14"@,
        "Sanctuary Church Chest 15"@,
        "Sanctuary Church Chest 16"@,
        "Sanctuary Church Chest 17"@,
        "Sanctuary Church Chest 18"@,
        "Sanctuary Church Chest 19"@,
        "Sanctuary Church Chest 20"@,
        "Sanctuary Church Chest 21"@,
        "Sanctuary Church Chest 22"@,
    ]
}

fn push_church_chests(checks: &mut Vec<Check>)
    ensures
        final(checks)@.len() == old(checks)@.len() + 22,
        forall|c: int|
            0 <= c < old(checks)@.len() ==> #[trigger] final(checks)@[c] == old(checks)@[c],
        forall|c: int|
            old(checks)@.len() <= c < old(checks)@.len() + 22 ==> {
                &&& (#[trigger] final(checks)@[c]).name@ == church_chest_names()[
                    c - old(checks)@.len()
                ]
                &&& final(checks)@[c].region == 2
                &&& final(checks)@[c].quest is None
            },
{
    checks.push(Check { name: "Sanctuary Church Chest 01".to_owned(), region: 2, quest: None });
    checks.push(Check { name: "Sanctuary Church Chest 02".to_owned(), region: 2, quest: None });
    checks.push(Check { name: "Sanctuary Church Chest 03".to_owned(), region: 2, quest: None });
    checks.push(Check { name: "Sanctuary Church Chest 04".to_owned(), region: 2, quest: None });
    checks.push(Check { name: "Sanctuary Church Chest 05".to_owned(), region: 2, quest: None });
    checks.push(Check { name: "Sanctuary Church Chest 06".to_owned(), region: 2, quest: None });
    checks.push(Check { name: "Sanctuary Church Chest 07".to_owned(), region: 2, quest: None });
    checks.push(Check { name: "Sanctuary Church Chest 08".to_owned(), region: 2, quest: None });
    checks.push(Check { name: "Sanctuary Church Chest 09".to_owned(), region: 2, quest: None });
    checks.push(Check { name: "Sanctuary Church Chest 10".to_owned(), region: 2, quest: None });
    checks.push(Check { name: "Sanctuary Church Chest 11".to_owned(), region: 2, quest: None });
    checks.push(Check { name: "Sanctuary Church Chest 12".to_owned(), region: 2, quest: None });
    checks.push(Check { name: "Sanctuary Church Chest 13".to_owned(), region: 2, quest: None });
    checks.push(Check { name: "Sanctuary Church Chest 14".to_owned(), region: 2, quest: None });
    checks.push(Check { name: "Sanctuary Church Chest 15".to_owned(), region: 2, quest: None });
    checks.push(Check { name: "Sanctuary Church Chest 16".to_owned(), region: 2, quest: None });
    checks.push(Check { name: "Sanctuary Church Chest 17".to_owned(), region: 2, quest: None });
    checks.push(Check { name: "Sanctuary Church Chest 18".to_owned(), region: 2, quest: None });
    checks.push(Check { name: "Sanctuary Church Chest 19".to_owned(), region: 2, quest: None });
    checks.push(Check { name: "Sanctuary Church Chest 20".to_owned(), region: 2, quest: None });
    checks.push(Check { name: "Sanctuary Church Chest 21".to_owned(), region: 2, quest: None });
    checks.push(Check { name: "Sanctuary Church Chest 22".to_owned(), region: 2, quest: None });
}


/// The chest bank of region 3: one generic chest per poolable item
/// allotted to it, so the two pools exactly fill the world.
pub open spec fn ruins_chest_names() -> Seq<Seq<char>> {
    seq![
        "Eastern Ruins Chest 01"@,
        "Eastern Ruins Chest 02"@,
        "Eastern Ruins Chest 03"@,
        "Eastern Ruins Chest 04"@,
        "Eastern Ruins Chest 05"@,
        "Eastern Ruins Chest 06"@,
        "Eastern Ruins Chest 07"@,
        "Eastern Ruins Chest 08"@,
        "Eastern Ruins Chest 09"@,
        "Eastern Ruins Chest 10"@,
        "Eastern Ruins Chest 11"@,
        "Eastern Ruins Chest 12"@,
        "Eastern Ruins Chest 13"@,
        "Eastern Ruins Chest 14"@,
        "Eastern Ruins Chest 15"@,
        "Eastern Ruins Chest 16"@,
        "Eastern Ruins Chest 17"@,
        "Eastern Ruins Chest 18"@,
        "Eastern Ruins Chest 19"@,
        "Eastern Ruins Chest 20"@,
        "Eastern Ruins Chest 21"@,
        "Eastern Ruins Chest 22"@,
    ]
}

fn push_ruins_chests(checks: &mut Vec<Check>)
    ensures
        final(checks)@.len() == old(checks)@.len() + 22,
        forall|c: int|
            0 <= c < old(checks)@.len() ==> #[trigger] final(checks)@[c] == old(checks)@[c],
        forall|c: int|
            old(checks)@.len() <= c < old(checks)@.len() + 22 ==> {
                &&& (#[trigger] final(checks)@[c]).name@ == ruins_chest_names()[
                    c - old(checks)@.len()
                ]
                &&& final(checks)@[c].region == 3
                &&& final(checks)@[c].quest is None
            },
{
    checks.push(Check { name: "Eastern Ruins Chest 01".to_owned(), region: 3, quest: None });
    checks.push(Check { name: "Eastern Ruins Chest 02".to_owned(), region: 3, quest: None });
    checks.push(Check { name: "Eastern Ruins Chest 03".to_owned(), region: 3, quest: None });
    checks.push(Check { name: "Eastern Ruins Chest 04".to_owned(), region: 3, quest: None });
    checks.push(Check { name: "Eastern Ruins Chest 05".to_owned(), region: 3, quest: None });
    checks.push(Check { name: "Eastern Ruins Chest 06".to_owned(), region: 3, quest: None });
    checks.push(Check { name: "Eastern Ruins Chest 07".to_owned(), region: 3, quest: None });
    checks.push(Check { name: "Eastern Ruins Chest 08".to_owned(), region: 3, quest: None });
    checks.push(Check { name: "Eastern Ruins Chest 09".to_owned(), region: 3, quest: None });
    checks.push(Check { name: "Eastern Ruins Chest 10".to_owned(), region: 3, quest: None });
    checks.push(Check { name: "Eastern Ruins Chest 11".to_owned(), region: 3, quest: None });
    checks.push(Check { name: "Eastern Ruins Chest 12".to_owned(), region: 3, quest: None });
    checks.push(Check { name: "Eastern Ruins Chest 13".to_owned(), region: 3, quest: None });
    checks.push(Check { name: "Eastern Ruins Chest 14".to_owned(), region: 3, quest: None });
    checks.push(Check { name: "Eastern Ruins Chest 15".to_owned(), region: 3, quest: None });
    checks.push(Check { name: "Eastern Ruins Chest 16".to_owned(), region: 3, quest: None });
    checks.push(Check { name: "Eastern Ruins Chest 17".to_owned(), region: 3, quest: None });
    checks.push(Check { name: "Eastern Ruins Chest 18".to_owned(), region: 3, quest: None });
    checks.push(Check { name: "Eastern Ruins Chest 19".to_owned(), region: 3, quest: None });
    checks.push(Check { name: "Eastern Ruins Chest 20".to_owned(), region: 3, quest: None });
    checks.push(Check { name: "Eastern Ruins Chest 21".to_owned(), region: 3, quest: None });
    checks.push(Check { name: "Eastern Ruins Chest 22".to_owned(), region: 3, quest: None });
}


/// The chest bank of region 4: one generic chest per poolable item
/// allotted to it, so the two pools exactly fill the world.
pub open spec fn palace_chest_names() -> Seq<Seq<char>> {
    seq![
        "Eastern Palace Chest 01"@,
        "Eastern Palace Chest 02"@,
        "Eastern Palace Chest 03"@,
        "Eastern Palace Chest 04"@,
        "Eastern Palace Chest 05"@,
        "Eastern Palace Chest 06"@,
        "Eastern Palace Chest 07"@,
        "Eastern Palace Chest 08"@,
        "Eastern Palace Chest 09"@,
        "Eastern Palace Chest 10"@,
        "Eastern Palace Chest 11"@,
        "Eastern Palace Chest 12"@,
        "Eastern Palace Chest 13"@,
        "Eastern Palace Chest 14"@,
        "Eastern Palace Chest 15"@,
        "Eastern Palace Chest 16"@,
        "Eastern Palace Chest 17"@,
        "Eastern Palace Chest 18"@,
        "Eastern Palace Chest 19"@,
        "Eastern Palace Chest 20"@,
        "Eastern Palace Chest 21"@,
        "Eastern Palace Chest 22"@,
    ]
}

fn push_palace_chests(checks: &mut Vec<Check>)
    ensures
        final(checks)@.len() == old(checks)@.len() + 22,
        forall|c: int|
            0 <= c < old(checks)@.len() ==> #[trigger] final(checks)@[c] == old(checks)@[c],
        forall|c: int|
            old(checks)@.len() <= c < old(checks)@.len() + 22 ==> {
                &&& (#[trigger] final(checks)@[c]).name@ == palace_chest_names()[
                    c - old(checks)@.len()
                ]
                &&& final(checks)@[c].region == 4
                &&& final(checks)@[c].quest is None
            },
{
    checks.push(Check { name: "Eastern Palace Chest 01".to_owned(), region: 4, quest: None });
    checks.push(Check { name: "Eastern Palace Chest 02".to_owned(), region: 4, quest: None });
    checks.push(Check { name: "Eastern Palace Chest 03".to_owned(), region: 4, quest: None });
    checks.push(Check { name: "Eastern Palace Chest 04".to_owned(), region: 4, quest: None });
    checks.push(Check { name: "Eastern Palace Chest 05".to_owned(), region: 4, quest: None });
    checks.push(Check { name: "Eastern Palace Chest 06".to_owned(), region: 4, quest: None });
    checks.push(Check { name: "Eastern Palace Chest 07".to_owned(), region: 4, quest: None });
    checks.push(Check { name: "Eastern Palace Chest 08".to_owned(), region: 4, quest: None });
    checks.push(Check { name: "Eastern Palace Chest 09".to_owned(), region: 4, quest: None });
    checks.push(Check { name: "Eastern Palace Chest 10".to_owned(), region: 4, quest: None });
    checks.push(Check { name: "Eastern Palace Chest 11".to_owned(), region: 4, quest: None });
    checks.push(Check { name: "Eastern Palace Chest 12".to_owned(), region: 4, quest: None });
    checks.push(Check { name: "Eastern Palace Chest 13".to_owned(), region: 4, quest: None });
    checks.push(Check { name: "Eastern Palace Chest 14".to_owned(), region: 4, quest: None });
    checks.push(Check { name: "Eastern Palace Chest 15".to_owned(), region: 4, quest: None });
    checks.push(Check { name: "Eastern Palace Chest 16".to_owned(), region: 4, quest: None });
    checks.push(Check { name: "Eastern Palace Chest 17".to_owned(), region: 4, quest: None });
    checks.push(Check { name: "Eastern Palace Chest 18".to_owned(), region: 4, quest: None });
    checks.push(Check { name: "Eastern Palace Chest 19".to_owned(), region: 4, quest: None });
    checks.push(Check { name: "Eastern Palace Chest 20".to_owned(), region: 4, quest: None });
    checks.push(Check { name: "Eastern Palace Chest 21".to_owned(), region: 4, quest: None });
    checks.push(Check { name: "Eastern Palace Chest 22".to_owned(), region: 4, quest: None });
}


/// The chest bank of region 5: one generic chest per poolable item
/// allotted to it, so the two pools exactly fill the world.
pub open spec fn mountain_chest_names() -> Seq<Seq<char>> {
    seq![
        "Death Mountain Chest 01"@,
        "Death Mountain Chest 02"@,
        "Death Mountain Chest 03"@,
        "Death Mountain Chest 04"@,
        "Death Mountain Chest 05"@,
        "Death Mountain Chest 06"@,
        "Death Mountain Chest 07"@,
        "Death Mountain Chest 08"@,
        "Death Mountain Chest 09"@,
        "Death Mountain Chest 10"@,
        "Death Mountain Chest 11"@,
        "Death Mountain Chest 12"@,
        "Death Mountain Chest 13"@,
        "Death Mountain Chest 14"@,
        "Death Mountain Chest 15"@,
        "Death Mountain Chest 16"@,
        "Death Mountain Chest 17"@,
        "Death Mountain Chest 18"@,
        "Death Mountain Chest 19"@,
        "Death Mountain Chest 20"@,
        "Death Mountain Chest 21"@,
        "Death Mountain Chest 22"@,
    ]
}

fn push_mountain_chests(checks: &mut Vec<Check>)
    ensures
        final(checks)@.len() == old(checks)@.len() + 22,
        forall|c: int|
            0 <= c < old(checks)@.len() ==> #[trigger] final(checks)@[c] == old(checks)@[c],
        forall|c: int|
            old(checks)@.len() <= c < old(checks)@.len() + 22 ==> {
                &&& (#[trigger] final(checks)@[c]).name@ == mountain_chest_names()[
                    c - old(checks)@.len()
                ]
                &&& final(checks)@[c].region == 5
                &&& final(checks)@[c].quest is None
            },
{
    checks.push(Check { name: "Death Mountain Chest 01".to_owned(), region: 5, quest: None });
    checks.push(Check { name: "Death Mountain Chest 02".to_owned(), region: 5, quest: None });
    checks.push(Check { name: "Death Mountain Chest 03".to_owned(), region: 5, quest: None });
    checks.push(Check { name: "Death Mountain Chest 04".to_owned(), region: 5, quest: None });
    checks.push(Check { name: "Death Mountain Chest 05".to_owned(), region: 5, quest: None });
    checks.push(Check { name: "Death Mountain Chest 06".to_owned(), region: 5, quest: None });
    checks.push(Check { name: "Death Mountain Chest 07".to_owned(), region: 5, quest: None });
    checks.push(Check { name: "Death Mountain Chest 08".to_owned(), region: 5, quest: None });
    checks.push(Check { name: "Death Mountain Chest 09".to_owned(), region: 5, quest: None });
    checks.push(Check { name: "Death Mountain Chest 10".to_owned(), region: 5, quest: None });
    checks.push(Check { name: "Death Mountain Chest 11".to_owned(), region: 5, quest: None });
    checks.push(Check { name: "Death Mountain Chest 12".to_owned(), region: 5, quest: None });
    checks.push(Check { name: "Death Mountain Chest 13".to_owned(), region: 5, quest: None });
    checks.push(Check { name: "Death Mountain Chest 14".to_owned(), region: 5, quest: None });
    checks.push(Check { name: "Death Mountain Chest 15".to_owned(), region: 5, quest: None });
    checks.push(Check { name: "Death Mountain Chest 16".to_owned(), region: 5, quest: None });
    checks.push(Check { name: "Death Mountain Chest 17".to_owned(), region: 5, quest: None });
    checks.push(Check { name: "Death Mountain Chest 18".to_owned(), region: 5, quest: None });
    checks.push(Check { name: "Death Mountain Chest 19".to_owned(), region: 5, quest: None });
    checks.push(Check { name: "Death Mountain Chest 20".to_owned(), region: 5, quest: None });
    checks.push(Check { name: "Death Mountain Chest 21".to_owned(), region: 5, quest: None });
    checks.push(Check { name: "Death Mountain Chest 22".to_owned(), region: 5, quest: None });
}


/// The chest bank of region 6: one generic chest per poolable item
/// allotted to it, so the two pools exactly fill the world.
pub open spec fn lake_chest_names() -> Seq<Seq<char>> {
    seq![
        "Lake Hylia Chest 01"@,
        "Lake Hylia Chest 02"@,
        "Lake Hylia Chest 03"@,
        "Lake Hylia Chest 04"@,
        "Lake Hylia Chest 05"@,
        "Lake Hylia Chest 06"@,
        "Lake Hylia Chest 07"@,
        "Lake Hylia Chest 08"@,
        "Lake Hylia Chest 09"@,
        "Lake Hylia Chest 10"@,
        "Lake Hylia Chest 11"@,
        "Lake Hylia Chest 12"@,
        "Lake Hylia Chest 13"@,
        "Lake Hylia Chest 14"@,
        "Lake Hylia Chest 15"@,
        "Lake Hylia Chest 16"@,
        "Lake Hylia Chest 17"@,
        "Lake Hylia Chest 18"@,
        "Lake Hylia Chest 19"@,
        "Lake Hylia Chest 20"@,
        "Lake Hylia Chest 21"@,
        "Lake Hylia Chest 22"@,
    ]
}

fn push_lake_chests(checks: &mut Vec<Check>)
    ensures
        final(checks)@.len() == old(checks)@.len() + 22,
        forall|c: int|
            0 <= c < old(checks)@.len() ==> #[trigger] final(checks)@[c] == old(checks)@[c],
        forall|c: int|
            old(checks)@.len() <= c < old(checks)@.len() + 22 ==> {
                &&& (#[trigger] final(checks)@[c]).name@ == lake_chest_names()[
                    c - old(checks)@.len()
                ]
                &&& final(checks)@[c].region == 6
                &&& final(checks)@[c].quest is None
            },
{
    checks.push(Check { name: "Lake Hylia Chest 01".to_owned(), region: 6, quest: None });
    checks.push(Check { name: "Lake Hylia Chest 02".to_owned(), region: 6, quest: None });
    checks.push(Check { name: "Lake Hylia Chest 03".to_owned(), region: 6, quest: None });
    checks.push(Check { name: "Lake Hylia Chest 04".to_owned(), region: 6, quest: None });
    checks.push(Check { name: "Lake Hylia Chest 05".to_owned(), region: 6, quest: None });
    checks.push(Check { name: "Lake Hylia Chest 06".to_owned(), region: 6, quest: None });
    checks.push(Check { name: "Lake Hylia Chest 07".to_owned(), region: 6, quest: None });
    checks.push(Check { name: "Lake Hylia Chest 08".to_owned(), region: 6, quest: None });
    checks.push(Check { name: "Lake Hylia Chest 09".to_owned(), region: 6, quest: None });
    checks.push(Check { name: "Lake Hylia Chest 10".to_owned(), region: 6, quest: None });
    checks.push(Check { name: "Lake Hylia Chest 11".to_owned(), region: 6, quest: None });
    checks.push(Check { name: "Lake Hylia Chest 12".to_owned(), region: 6, quest: None });
    checks.push(Check { name: "Lake Hylia Chest 13".to_owned(), region: 6, quest: None });
    checks.push(Check { name: "Lake Hylia Chest 14".to_owned(), region: 6, quest: None });
    checks.push(Check { name: "Lake Hylia Chest 15".to_owned(), region: 6, quest: None });
    checks.push(Check { name: "Lake Hylia Chest 16".to_owned(), region: 6, quest: None });
    checks.push(Check { name: "Lake Hylia Chest 17".to_owned(), region: 6, quest: None });
    checks.push(Check { name: "Lake Hylia Chest 18".to_owned(), region: 6, quest: None });
    checks.push(Check { name: "Lake Hylia Chest 19".to_owned(), region: 6, quest: None });
    checks.push(Check { name: "Lake Hylia Chest 20".to_owned(), region: 6, quest: None });
    checks.push(Check { name: "Lake Hylia Chest 21".to_owned(), region: 6, quest: None });
    checks.push(Check { name: "Lake Hylia Chest 22".to_owned(), region: 6, quest: None });
}


/// The chest bank of region 7: one generic chest per poolable item
/// allotted to it, so the two pools exactly fill the world.
pub open spec fn village_chest_names() -> Seq<Seq<char>> {
    seq![
        "Kakariko Village Chest 01"@,
        "Kakariko Village Chest 02"@,
        "Kakariko Village Chest 03"@,
        "Kakariko Village Chest 04"@,
        "Kakariko Village Chest 05"@,
        "Kakariko Village Chest 06"@,
        "Kakariko Village Chest 07"@,
        "Kakariko Village Chest 08"@,
        "Kakariko Village Chest 09"@,
        "Kakariko Village Chest 10"@,
        "Kakariko Village Chest 11"@,
        "Kakariko Village Chest 12"@,
        "Kakariko Village Chest 13"@,
        "Kakariko Village Chest 14"@,
        "Kakariko Village Chest 15"@,
        "Kakariko Village Chest 16"@,
        "Kakariko Village Chest 17"@,
        "Kakariko Village Chest 18"@,
        "Kakariko Village Chest 19"@,
        "Kakariko Village Chest 20"@,
        "Kakariko Village Chest 21"@,
        "Kakariko Village Chest 22"@,
        "Kakariko Village Chest 23"@,
    ]
}

fn push_village_chests(checks: &mut Vec<Check>)
    ensures
        final(checks)@.len() == old(checks)@.len() + 23,
        forall|c: int|
            0 <= c < old(checks)@.len() ==> #[trigger] final(checks)@[c] == old(checks)@[c],
        forall|c: int|
            old(checks)@.len() <= c < old(checks)@.len() + 23 ==> {
                &&& (#[trigger] final(checks)@[c]).name@ == village_chest_names()[
                    c - old(checks)@.len()
                ]
                &&& final(checks)@[c].region == 7
                &&& final(checks)@[c].quest is None
            },
{
    checks.push(Check { name: "Kakariko Village Chest 01".to_owned(), region: 7, quest: None });
    checks.push(Check { name: "Kakariko Village Chest 02".to_owned(), region: 7, quest: None });
    checks.push(Check { name: "Kakariko Village Chest 03".to_owned(), region: 7, quest: None });
    checks.push(Check { name: "Kakariko Village Chest 04".to_owned(), region: 7, quest: None });
    checks.push(Check { name: "Kakariko Village Chest 05".to_owned(), region: 7, quest: None });
    checks.push(Check { name: "Kakariko Village Chest 06".to_owned(), region: 7, quest: None });
    checks.push(Check { name: "Kakariko Village Chest 07".to_owned(), region: 7, quest: None });
    checks.push(Check { name: "Kakariko Village Chest 08".to_owned(), region: 7, quest: None });
    checks.push(Check { name: "Kakariko Village Chest 09".to_owned(), region: 7, quest: None });
    checks.push(Check { name: "Kakariko Village Chest 10".to_owned(), region: 7, quest: None });
    checks.push(Check { name: "Kakariko Village Chest 11".to_owned(), region: 7, quest: None });
    checks.push(Check { name: "Kakariko Village Chest 12".to_owned(), region: 7, quest: None });
    checks.push(Check { name: "Kakariko Village Chest 13".to_owned(), region: 7, quest: None });
    checks.push(Check { name: "Kakariko Village Chest 14".to_owned(), region: 7, quest: None });
    checks.push(Check { name: "Kakariko Village Chest 15".to_owned(), region: 7, quest: None });
    checks.push(Check { name: "Kakariko Village Chest 16".to_owned(), region: 7, quest: None });
    checks.push(Check { name: "Kakariko Village Chest 17".to_owned(), region: 7, quest: None });
    checks.push(Check { name: "Kakariko Village Chest 18".to_owned(), region: 7, quest: None });
    checks.push(Check { name: "Kakariko Village Chest 19".to_owned(), region: 7, quest: None });
    checks.push(Check { name: "Kakariko Village Chest 20".to_owned(), region: 7, quest: None });
    checks.push(Check { name: "Kakariko Village Chest 21".to_owned(), region: 7, quest: None });
    checks.push(Check { name: "Kakariko Village Chest 22".to_owned(), region: 7, quest: None });
    checks.push(Check { name: "Kakariko Village Chest 23".to_owned(), region: 7, quest: None });
}


/// The chest bank of region 8: one generic chest per poolable item
/// allotted to it, so the two pools exactly fill the world.
pub open spec fn sanctuary_chest_names() -> Seq<Seq<char>> {
    seq![
        "Sanctuary Chest 01"@,
        "Sanctuary Chest 02"@,
        "Sanctuary Chest 03"@,
        "Sanctuary Chest 04"@,
        "Sanctuary Chest 05"@,
        "Sanctuary Chest 06"@,
        "Sanctuary Chest 07"@,
        "Sanctuary Chest 08"@,
        "Sanctuary Chest 09"@,
        "Sanctuary Chest 10"@,
        "Sanctuary Chest 11"@,
        "Sanctuary Chest 12"@,
        "Sanctuary Chest 13"@,
        "Sanctuary Chest 14"@,
        "Sanctuary Chest 15"@,
        "Sanctuary Chest 16"@,
        "Sanctuary Chest 17"@,
        "Sanctuary Chest 18"@,
        "Sanctuary Chest 19"@,
        "Sanctuary Chest 20"@,
        "Sanctuary Chest 21"@,
        "Sanctuary Chest 22"@,
    ]
}

fn push_sanctuary_chests(checks: &mut Vec<Check>)
    ensures
        final(checks)@.len() == old(checks)@.len() + 22,
        forall|c: int|
            0 <= c < old(checks)@.len() ==> #[trigger] final(checks)@[c] == old(checks)@[c],
        forall|c: int|
            old(checks)@.len() <= c < old(checks)@.len() + 22 ==> {
                &&& (#[trigger] final(checks)@[c]).name@ == sanctuary_chest_names()[
                    c - old(checks)@.len()
                ]
                &&& final(checks)@[c].region == 8
                &&& final(checks)@[c].quest is None
            },
{
    checks.push(Check { name: "Sanctuary Chest 01".to_owned(), region: 8, quest: None });
    checks.push(Check { name: "Sanctuary Chest 02".to_owned(), region: 8, quest: None });
    checks.push(Check { name: "Sanctuary Chest 03".to_owned(), region: 8, quest: None });
    checks.push(Check { name: "Sanctuary Chest 04".to_owned(), region: 8, quest: None });
    checks.push(Check { name: "Sanctuary Chest 05".to_owned(), region: 8, quest: None });
    checks.push(Check { name: "Sanctuary Chest 06".to_owned(), region: 8, quest: None });
    checks.push(Check { name: "Sanctuary Chest 07".to_owned(), region: 8, quest: None });
    checks.push(Check { name: "Sanctuary Chest 08".to_owned(), region: 8, quest: None });
    checks.push(Check { name: "Sanctuary Chest 09".to_owned(), region: 8, quest: None });
    checks.push(Check { name: "Sanctuary Chest 10".to_owned(), region: 8, quest: None });
    checks.push(Check { name: "Sanctuary Chest 11".to_owned(), region: 8, quest: None });
    checks.push(Check { name: "Sanctuary Chest 12".to_owned(), region: 8, quest: None });
    checks.push(Check { name: "Sanctuary Chest 13".to_owned(), region: 8, quest: None });
    checks.push(Check { name: "Sanctuary Chest 14".to_owned(), region: 8, quest: None });
    checks.push(Check { name: "Sanctuary Chest 15".to_owned(), region: 8, quest: None });
    checks.push(Check { name: "Sanctuary Chest 16".to_owned(), region: 8, quest: None });
    checks.push(Check { name: "Sanctuary Chest 17".to_owned(), region: 8, quest: None });
    checks.push(Check { name: "Sanctuary Chest 18".to_owned(), region: 8, quest: None });
    checks.push(Check { name: "Sanctuary Chest 19".to_owned(), region: 8, quest: None });
    checks.push(Check { name: "Sanctuary Chest 20".to_owned(), region: 8, quest: None });
    checks.push(Check { name: "Sanctuary Chest 21".to_owned(), region: 8, quest: None });
    checks.push(Check { name: "Sanctuary Chest 22".to_owned(), region: 8, quest: None });
}


/// The chest bank of region 9: one generic chest per poolable item
/// allotted to it, so the two pools exactly fill the world.
pub open spec fn castle_chest_names() -> Seq<Seq<char>> {
    seq![
        "Lorule Castle Chest 01"@,
        "Lorule Castle Chest 02"@,
        "Lorule Castle Chest 03"@,
        "Lorule Castle Chest 04"@,
        "Lorule Castle Chest 05"@,
        "Lorule Castle Chest 06"@,
        "Lorule Castle Chest 07"@,
        "Lorule Castle Chest 08"@,
        "Lorule Castle Chest 09"@,
        "Lorule Castle Chest 10"@,
        "Lorule Castle Chest 11"@,
        "Lorule Castle Chest 12"@,
        "Lorule Castle Chest 13"@,
        "Lorule Castle Chest 14"@,
        "Lorule Castle Chest 15"@,
        "Lorule Castle Chest 16"@,
        "Lorule Castle Chest 17"@,
        "Lorule Castle Chest 18"@,
        "Lorule Castle Chest 19"@,
        "Lorule Castle Chest 20"@,
        "Lorule Castle Chest 21"@,
        "Lorule Castle Chest 22"@,
        "Lorule Castle Chest 23"@,
    ]
}

fn push_castle_chests(checks: &mut Vec<Check>)
    ensures
        final(checks)@.len() == old(checks)@.len() + 23,
        forall|c: int|
            0 <= c < old(checks)@.len() ==> #[trigger] final(checks)@[c] == old(checks)@[c],
        forall|c: int|
            old(checks)@.len() <= c < old(checks)@.len() + 23 ==> {
                &&& (#[trigger] final(checks)@[c]).name@ == castle_chest_names()[
                    c - old(checks)@.len()
                ]
                &&& final(checks)@[c].region == 9
                &&& final(checks)@[c].quest is None
            },
{
    checks.push(Check { name: "Lorule Castle Chest 01".to_owned(), region: 9, quest: None });
    checks.push(Check { name: "Lorule Castle Chest 02".to_owned(), region: 9, quest: None });
    checks.push(Check { name: "Lorule Castle Chest 03".to_owned(), region: 9, quest: None });
    checks.push(Check { name: "Lorule Castle Chest 04".to_owned(), region: 9, quest: None });
    checks.push(Check { name: "Lorule Castle Chest 05".to_owned(), region: 9, quest: None });
    checks.push(Check { name: "Lorule Castle Chest 06".to_owned(), region: 9, quest: None });
    checks.push(Check { name: "Lorule Castle Chest 07".to_owned(), region: 9, quest: None });
    checks.push(Check { name: "Lorule Castle Chest 08".to_owned(), region: 9, quest: None });
    checks.push(Check { name: "Lorule Castle Chest 09".to_owned(), region: 9, quest: None });
    checks.push(Check { name: "Lorule Castle Chest 10".to_owned(), region: 9, quest: None });
    checks.push(Check { name: "Lorule Castle Chest 11".to_owned(), region: 9, quest: None });
    checks.push(Check { name: "Lorule Castle Chest 12".to_owned(), region: 9, quest: None });
    checks.push(Check { name: "Lorule Castle Chest 13".to_owned(), region: 9, quest: None });
    checks.push(Check { name: "Lorule Castle Chest 14".to_owned(), region: 9, quest: None });
    checks.push(Check { name: "Lorule Castle Chest 15".to_owned(), region: 9, quest: None });
    checks.push(Check { name: "Lorule Castle Chest 16".to_owned(), region: 9, quest: None });
    checks.push(Check { name: "Lorule Castle Chest 17".to_owned(), region: 9, quest: None });
    checks.push(Check { name: "Lorule Castle Chest 18".to_owned(), region: 9, quest: None });
    checks.push(Check { name: "Lorule Castle Chest 19".to_owned(), region: 9, quest: None });
    checks.push(Check { name: "Lorule Castle Chest 20".to_owned(), region: 9, quest: None });
    checks.push(Check { name: "Lorule Castle Chest 21".to_owned(), region: 9, quest: None });
    checks.push(Check { name: "Lorule Castle Chest 22".to_owned(), region: 9, quest: None });
    checks.push(Check { name: "Lorule Castle Chest 23".to_owned(), region: 9, quest: None });
}


/// The check names of the built-in world: the hand-placed checks, then each
/// region's chest bank.
pub open spec fn default_check_names() -> Seq<Seq<char>> {
    base_check_names() + shop_chest_names() + field_chest_names() + church_chest_names() + ruins_chest_names() + palace_chest_names() + mountain_chest_names() + lake_chest_names() + village_chest_names() + sanctuary_chest_names() + castle_chest_names()
}

/// The owning region of every check of the built-in world.
pub open spec fn default_check_regions() -> Seq<int> {
    base_check_regions() + Seq::new(22, |k: int| 0) + Seq::new(23, |k: int| 1) + Seq::new(22, |k: int| 2) + Seq::new(22, |k: int| 3) + Seq::new(22, |k: int| 4) + Seq::new(22, |k: int| 5) + Seq::new(22, |k: int| 6) + Seq::new(23, |k: int| 7) + Seq::new(22, |k: int| 8) + Seq::new(23, |k: int| 9)
}

/// The event pseudo-item of every check of the built-in world: only the
/// hand-placed event checks carry one.
pub open spec fn default_check_quests() -> Seq<Option<Item>> {
    base_check_quests() + Seq::new(223, |k: int| None)
}

/// Whether a graph is the built-in world: ten regions, 236 checks, and
/// exactly the edges, owners, quests and names above.
pub open spec fn is_default_world(g: WorldGraph) -> bool {
    &&& g.regions@.len() == 10
    &&& g.checks@.len() == 236
    &&& g.edge_seqs() == default_edges()
    &&& g.check_regions() == default_check_regions()
    &&& g.check_quests() == default_check_quests()
    &&& forall|c: int| 0 <= c < 236 ==> (#[trigger] g.checks@[c]).name@ == default_check_names()[c]
    &&& forall|r: int|
        0 <= r < 10 ==> (#[trigger] g.regions@[r]).name@ == default_region_names()[r]
}

/// Builds the full world graph from the built-in static world description.
#[verifier::rlimit(100)]
pub fn build_world_graph() -> (g: WorldGraph)
    ensures
        g.wf(),
        is_default_world(g),
{
    let mut regions: Vec<Region> = Vec::new();

    let mut e0: Vec<Edge> = Vec::new();
    e0.push(free_edge_exec(1));
    regions.push(Region { name: "Ravio's Shop".to_owned(), edges: e0 });

    let mut e1: Vec<Edge> = Vec::new();
    e1.push(free_edge_exec(2));
    e1.push(eastern_gate_exec());
    e1.push(mountain_gate_exec());
    e1.push(lake_gate_exec());
    e1.push(free_edge_exec(7));
    e1.push(castle_gate_exec());
    regions.push(Region { name: "Hyrule Field".to_owned(), edges: e1 });

    let mut e2: Vec<Edge> = Vec::new();
    e2.push(sanctuary_gate_exec());
    regions.push(Region { name: "Sanctuary Church".to_owned(), edges: e2 });

    let mut e3: Vec<Edge> = Vec::new();
    e3.push(palace_gate_exec());
    regions.push(Region { name: "Eastern Ruins".to_owned(), edges: e3 });

    regions.push(Region { name: "Eastern Palace".to_owned(), edges: Vec::new() });
    regions.push(Region { name: "Death Mountain".to_owned(), edges: Vec::new() });
    regions.push(Region { name: "Lake Hylia".to_owned(), edges: Vec::new() });
    regions.push(Region { name: "Kakariko Village".to_owned(), edges: Vec::new() });
    regions.push(Region { name: "Sanctuary".to_owned(), edges: Vec::new() });
    regions.push(Region { name: "Lorule Castle".to_owned(), edges: Vec::new() });

    let mut checks: Vec<Check> = Vec::new();
    checks.push(Check { name: "Ravio's Gift".to_owned(), region: 0, quest: None });
    checks.push(Check { name: "Street Merchant (Left)".to_owned(), region: 1, quest: None });
    checks.push(Check { name: "Street Merchant (Right)".to_owned(), region: 1, quest: None });
    checks.push(Check { name: "Open Sanctuary Doors".to_owned(), region: 2, quest: Some(Item::OpenSanctuaryDoors) });
    checks.push(Check { name: "Eastern Ruins Pillar".to_owned(), region: 3, quest: None });
    checks.push(Check { name: "Eastern Palace Prize".to_owned(), region: 4, quest: None });
    checks.push(Check { name: "Eastern Palace Portal".to_owned(), region: 4, quest: Some(Item::AccessLoruleCastleField) });
    checks.push(Check { name: "Death Mountain Treasure".to_owned(), region: 5, quest: None });
    checks.push(Check { name: "Lake Hylia Ledge".to_owned(), region: 6, quest: None });
    checks.push(Check { name: "Kakariko Jail".to_owned(), region: 7, quest: None });
    checks.push(Check { name: "Stylish Woman".to_owned(), region: 7, quest: Some(Item::StylishWomansHouseOpen) });
    checks.push(Check { name: "Sanctuary Chest".to_owned(), region: 8, quest: None });
    checks.push(Check { name: "Lorule Castle Chest".to_owned(), region: 9, quest: None });
    push_shop_chests(&mut checks);
    push_field_chests(&mut checks);
    push_church_chests(&mut checks);
    push_ruins_chests(&mut checks);
    push_palace_chests(&mut checks);
    push_mountain_chests(&mut checks);
    push_lake_chests(&mut checks);
    push_village_chests(&mut checks);
    push_sanctuary_chests(&mut checks);
    push_castle_chests(&mut checks);

    let g = WorldGraph { regions, checks };
    proof {
        assert(g.edge_seqs() =~~= default_edges());
        assert(g.checks@.len() == 236);
        assert forall|c: int| 0 <= c < 236 implies {
            &&& (#[trigger] g.checks@[c]).name@ == default_check_names()[c]
            &&& g.checks@[c].region as int == default_check_regions()[c]
            &&& g.checks@[c].quest == default_check_quests()[c]
        } by {}
        assert(g.check_regions() =~= default_check_regions());
        assert(g.check_quests() =~= default_check_quests());
        assert(g.wf());
    }
    g
}

/// Every region of the built-in world can be walked to from the start when
/// every gate is ignored: the completeness hypothesis of the no-logic mode
/// holds of this world outright.
pub proof fn lemma_default_world_connected()
    ensures
        nolog_connected(default_edges()),
{
    let e = default_edges();
    assert forall|cset: Set<int>| #[trigger] graph_closed(e, cset) implies (forall|i: int|
        0 <= i < e.len() ==> cset.contains(i)) by {
        assert(cset.contains(0));
        assert(cset.contains(e[0][0].dst as int));
        assert(cset.contains(1));
        assert(cset.contains(e[1][0].dst as int));
        assert(cset.contains(2));
        assert(cset.contains(e[1][1].dst as int));
        assert(cset.contains(3));
        assert(cset.contains(e[1][2].dst as int));
        assert(cset.contains(5));
        assert(cset.contains(e[1][3].dst as int));
        assert(cset.contains(6));
        assert(cset.contains(e[1][4].dst as int));
        assert(cset.contains(7));
        assert(cset.contains(e[1][5].dst as int));
        assert(cset.contains(9));
        assert(cset.contains(e[2][0].dst as int));
        assert(cset.contains(8));
        assert(cset.contains(e[3][0].dst as int));
        assert(cset.contains(4));
    }
}

/// Fill completeness of the built-in world: an inventory that holds the
/// whole progression pool reaches every region, under any ruleset — the
/// placement-validity fact the fill algorithm leans on.
#[verifier::rlimit(100)]
pub proof fn lemma_default_world_pool_complete(l: Logic, base: Multiset<Item>)
    requires
        progression_pool_seq(l).to_multiset().subset_of(base),
    ensures
        search_complete(
            default_edges(),
            default_check_regions(),
            default_check_quests(),
            l,
            base,
        ),
{
    let e = default_edges();
    let creg = default_check_regions();
    let cm = default_check_quests();
    lemma_catalog_contains_core_gear();
    lemma_pool_count(Item::Bow01, l);
    lemma_pool_count(Item::Flippers, l);
    lemma_pool_count(Item::Lamp01, l);
    lemma_pool_count(Item::Sword01, l);
    lemma_pool_count(Item::Sword02, l);
    lemma_pool_count(Item::Glove01, l);
    let pool = progression_pool_seq(l).to_multiset();
    assert forall|i: int| 0 <= i < e.len() implies reachable_regions(
        e,
        creg,
        cm,
        l,
        base,
    ).contains(i) by {
        assert forall|cset: Set<int>|
            #[trigger] region_closed(e, creg, cm, l, base, cset) implies cset.contains(i) by {
            let inv = collected_inv(creg, cm, cset, base);
            assert(inv.count(Item::Bow01) >= base.count(Item::Bow01) >= pool.count(Item::Bow01));
            assert(inv.count(Item::Flippers) >= base.count(Item::Flippers) >= pool.count(
                Item::Flippers,
            ));
            assert(inv.count(Item::Lamp01) >= base.count(Item::Lamp01) >= pool.count(
                Item::Lamp01,
            ));
            assert(inv.count(Item::Sword01) >= base.count(Item::Sword01) >= pool.count(
                Item::Sword01,
            ));
            assert(inv.count(Item::Sword02) >= base.count(Item::Sword02) >= pool.count(
                Item::Sword02,
            ));
            assert(inv.count(Item::Glove01) >= base.count(Item::Glove01) >= pool.count(
                Item::Glove01,
            ));
            assert(cset.contains(0));
            assert(edge_allows(e[0][0], inv, l));
            assert(cset.contains(1));
            assert(edge_allows(e[1][0], inv, l));
            assert(cset.contains(2));
            assert(edge_allows(e[1][1], inv, l)) by {
                assert(family_count(inv, ItemFamily::Sword) >= 1);
                assert(eval(Req::AtLeast(ItemFamily::Sword, 1), inv, l));
            }
            assert(cset.contains(3));
            assert(edge_allows(e[1][2], inv, l)) by {
                assert(family_count(inv, ItemFamily::Glove) >= 1);
            }
            assert(cset.contains(5));
            assert(edge_allows(e[1][3], inv, l));
            assert(cset.contains(6));
            assert(edge_allows(e[1][4], inv, l));
            assert(cset.contains(7));
            assert(edge_allows(e[3][0], inv, l)) by {
                assert(family_count(inv, ItemFamily::Bow) >= 1);
            }
            assert(cset.contains(4));
            lemma_granted_has(creg, cm, cset, 3, 236);
            assert(inv.count(Item::OpenSanctuaryDoors) >= 1);
            assert(edge_allows(e[2][0], inv, l)) by {
                assert(family_count(inv, ItemFamily::Lamp) >= 1);
                assert(eval(Req::AtLeast(ItemFamily::Lamp, 1), inv, l));
                assert(eval(
                    Req::Or(
                        Box::new(Req::Flag(Toggle::Lampless)),
                        Box::new(Req::AtLeast(ItemFamily::Lamp, 1)),
                    ),
                    inv,
                    l,
                ));
                assert(eval(Req::Has(Item::OpenSanctuaryDoors), inv, l));
            }
            assert(cset.contains(8));
            lemma_granted_has(creg, cm, cset, 6, 236);
            assert(inv.count(Item::AccessLoruleCastleField) >= 1);
            assert(edge_allows(e[1][5], inv, l)) by {
                assert(family_count(inv, ItemFamily::Sword) >= 2);
                assert(eval(Req::AtLeast(ItemFamily::Sword, 2), inv, l));
                assert(eval(
                    Req::Or(
                        Box::new(Req::Flag(Toggle::SkipTrials)),
                        Box::new(Req::AtLeast(ItemFamily::Sword, 2)),
                    ),
                    inv,
                    l,
                ));
                assert(eval(Req::Has(Item::AccessLoruleCastleField), inv, l));
            }
            assert(cset.contains(9));
        }
    }
}

/// The checks of the built-in world that expect a pool item: those without
/// an event pseudo-item.
pub open spec fn no_quest_pred() -> spec_fn(Option<Item>) -> bool {
    |q: Option<Item>| q is None
}

/// How many checks of the built-in world the pools must fill.
pub open spec fn default_nonevent_check_count() -> int {
    default_check_quests().filter(no_quest_pred()).len() as int
}

proof fn lemma_filter_all_none(s: Seq<Option<Item>>)
    requires
        forall|k: int| 0 <= k < s.len() ==> (#[trigger] s[k]) is None,
    ensures
        s.filter(no_quest_pred()) == s,
    decreases s.len(),
{
    reveal(Seq::filter);
    if s.len() > 0 {
        lemma_filter_all_none(s.drop_last());
    }
    assert(s.filter(no_quest_pred()) =~= s);
}

/// The built-in world offers 233 non-event checks: exactly as many as the
/// non-event catalog holds, so the two pools together fill it.
pub proof fn lemma_default_world_fills(l: Logic)
    ensures
        default_nonevent_check_count() == 233,
        crate::pool::progression_pool_seq(l).len() + crate::pool::trash_base_seq(l).len()
            == default_nonevent_check_count(),
{
    broadcast use vstd::seq_lib::group_seq_lib_default;

    assert(base_check_quests().filter(no_quest_pred()).len() == 10) by {
        reveal_with_fuel(Seq::filter, 15);
    }
    let tail = Seq::new(223, |k: int| None::<Item>);
    lemma_filter_all_none(tail);
    assert(default_check_quests().filter(no_quest_pred()).len() == 233);
    crate::pool::lemma_pool_conservation(l);
    crate::pool::lemma_nonevent_count();
}

} // verus!
