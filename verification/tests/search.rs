use albw_logic::cartridge::Cartridge;
use albw_logic::graph::{prefill_check_map, Check, Edge, Region, WorldGraph};
use albw_logic::items::Item;
use albw_logic::reach::assumed_search;
use albw_logic::req::Req;
use albw_logic::settings::{Logic, LogicMode, Settings};
use albw_logic::world::build_world_graph;

fn plain_logic(mode: LogicMode) -> Logic {
    Logic {
        mode,
        super_items: false,
        skip_trials: false,
        lampless: false,
        swordless_mode: false,
    }
}

fn plain_settings(mode: LogicMode) -> Settings {
    Settings { logic: plain_logic(mode), exclusions: vec![] }
}

fn gated_edge(dst: usize, normal: Req) -> Edge {
    Edge { dst, normal, hard: None, glitch_basic: None, glitch_advanced: None, glitch_hell: None }
}

/// A two-region fixture: Region A (start) leads to Region B over an edge
/// requiring one item; check C1 sits in Region B.
fn two_region_world(req: Req) -> WorldGraph {
    WorldGraph {
        regions: vec![
            Region { name: "Region A".to_string(), edges: vec![gated_edge(1, req)] },
            Region { name: "Region B".to_string(), edges: vec![] },
        ],
        checks: vec![Check { name: "C1".to_string(), region: 1, quest: None }],
    }
}

fn names_of(checks: &[Check]) -> Vec<String> {
    checks.iter().map(|c| c.name.clone()).collect()
}

#[test]
fn gated_check_needs_the_item() {
    let g = two_region_world(Req::Has(Item::Flippers));
    let cm = prefill_check_map(&g);
    let s = plain_settings(LogicMode::Normal);

    let empty = assumed_search(&g, &vec![], &cm, &s);
    assert!(!names_of(&empty).contains(&"C1".to_string()));

    let with_item = assumed_search(&g, &vec![Item::Flippers], &cm, &s);
    assert!(names_of(&with_item).contains(&"C1".to_string()));
}

#[test]
fn event_pseudo_item_unlocks_in_one_search() {
    // An event check in Region A grants a pseudo-item; the edge A -> B
    // requires it. The search must still reach B with an empty inventory,
    // because prefill placed the pseudo-item before the search ran.
    let g = WorldGraph {
        regions: vec![
            Region {
                name: "Region A".to_string(),
                edges: vec![gated_edge(1, Req::Has(Item::OpenSanctuaryDoors))],
            },
            Region { name: "Region B".to_string(), edges: vec![] },
        ],
        checks: vec![
            Check {
                name: "Door Event".to_string(),
                region: 0,
                quest: Some(Item::OpenSanctuaryDoors),
            },
            Check { name: "Target".to_string(), region: 1, quest: None },
        ],
    };
    let cm = prefill_check_map(&g);
    let s = plain_settings(LogicMode::Normal);
    let res = assumed_search(&g, &vec![], &cm, &s);
    assert!(names_of(&res).contains(&"Target".to_string()));
}

#[test]
fn excluded_check_never_appears() {
    let g = two_region_world(Req::Free);
    let cm = prefill_check_map(&g);
    let mut s = plain_settings(LogicMode::Normal);
    s.exclusions = vec!["C1".to_string()];
    let res = assumed_search(&g, &vec![], &cm, &s);
    assert!(res.is_empty());

    let open = assumed_search(&g, &vec![], &cm, &plain_settings(LogicMode::Normal));
    assert_eq!(names_of(&open), vec!["C1".to_string()]);
}

#[test]
fn chained_event_regions_resolve_in_one_call() {
    // A three-stage chain: the start's event opens stage two, whose event
    // opens stage three; one call must cross both waves.
    let g = WorldGraph {
        regions: vec![
            Region {
                name: "Stage One".to_string(),
                edges: vec![gated_edge(1, Req::Has(Item::SkullEyeRight))],
            },
            Region {
                name: "Stage Two".to_string(),
                edges: vec![gated_edge(2, Req::Has(Item::SkullEyeLeft))],
            },
            Region { name: "Stage Three".to_string(), edges: vec![] },
        ],
        checks: vec![
            Check { name: "Eye One".to_string(), region: 0, quest: Some(Item::SkullEyeRight) },
            Check { name: "Eye Two".to_string(), region: 1, quest: Some(Item::SkullEyeLeft) },
            Check { name: "Prize".to_string(), region: 2, quest: None },
        ],
    };
    let cm = prefill_check_map(&g);
    let res = assumed_search(&g, &vec![], &cm, &plain_settings(LogicMode::Normal));
    assert_eq!(names_of(&res), vec!["Eye One", "Eye Two", "Prize"]);
}

#[test]
fn default_world_with_nothing() {
    let cart = Cartridge::new(plain_settings(LogicMode::Normal), 0);
    let res = cart.get_available_checks(&vec![]);
    // Reachable bare-handed: the start, Hyrule Field, the church and
    // Kakariko, with their hand-placed checks and chest banks.
    for name in [
        "Ravio's Gift",
        "Street Merchant (Left)",
        "Street Merchant (Right)",
        "Open Sanctuary Doors",
        "Kakariko Jail",
        "Stylish Woman",
        "Ravio's Shop Chest 01",
        "Hyrule Field Chest 23",
        "Sanctuary Church Chest 22",
        "Kakariko Village Chest 11",
    ] {
        assert!(res.contains(&name.to_string()));
    }
    for name in ["Eastern Ruins Pillar", "Sanctuary Chest", "Eastern Ruins Chest 01"] {
        assert!(!res.contains(&name.to_string()));
    }
    // 6 hand-placed checks plus the four regions' chest banks (22+23+22+23).
    assert_eq!(res.len(), 96);
}

#[test]
fn default_world_sword_then_bow() {
    let cart = Cartridge::new(plain_settings(LogicMode::Normal), 0);
    let with_sword = cart.get_available_checks(&vec!["Sword01".to_string()]);
    assert!(with_sword.contains(&"Eastern Ruins Pillar".to_string()));
    assert!(!with_sword.contains(&"Eastern Palace Prize".to_string()));

    let with_bow = cart.get_available_checks(&vec!["Sword01".to_string(), "Bow01".to_string()]);
    assert!(with_bow.contains(&"Eastern Palace Prize".to_string()));
    assert!(with_bow.contains(&"Eastern Palace Portal".to_string()));
    // The portal event grants castle field access, but the trials still
    // demand a second sword tier.
    assert!(!with_bow.contains(&"Lorule Castle Chest".to_string()));

    let mut skip = plain_settings(LogicMode::Normal);
    skip.logic.skip_trials = true;
    let cart_skip = Cartridge::new(skip, 0);
    let res = cart_skip.get_available_checks(&vec!["Sword01".to_string(), "Bow01".to_string()]);
    assert!(res.contains(&"Lorule Castle Chest".to_string()));
}

#[test]
fn default_world_toggles() {
    // Swordless mode lifts the sword gate outright.
    let mut swordless = plain_settings(LogicMode::Normal);
    swordless.logic.swordless_mode = true;
    let res = Cartridge::new(swordless, 0).get_available_checks(&vec![]);
    assert!(res.contains(&"Eastern Ruins Pillar".to_string()));

    // Lamp-not-required puts the sanctuary dark room in logic bare-handed.
    let mut lampless = plain_settings(LogicMode::Normal);
    lampless.logic.lampless = true;
    let res = Cartridge::new(lampless, 0).get_available_checks(&vec![]);
    assert!(res.contains(&"Sanctuary Chest".to_string()));

    // With a lamp the doors open even when the lamp is demanded.
    let res = Cartridge::new(plain_settings(LogicMode::Normal), 0)
        .get_available_checks(&vec!["Lamp01".to_string()]);
    assert!(res.contains(&"Sanctuary Chest".to_string()));
}

#[test]
fn glitch_tiers_add_ways_through() {
    let net = vec!["Net01".to_string()];
    let normal = Cartridge::new(plain_settings(LogicMode::Normal), 0).get_available_checks(&net);
    assert!(!normal.contains(&"Eastern Ruins Pillar".to_string()));
    let hard = Cartridge::new(plain_settings(LogicMode::Hard), 0).get_available_checks(&net);
    assert!(hard.contains(&"Eastern Ruins Pillar".to_string()));

    let kit = vec!["Sword01".to_string(), "Boomerang01".to_string()];
    let normal = Cartridge::new(plain_settings(LogicMode::Normal), 0).get_available_checks(&kit);
    assert!(!normal.contains(&"Eastern Palace Prize".to_string()));
    let basic =
        Cartridge::new(plain_settings(LogicMode::GlitchBasic), 0).get_available_checks(&kit);
    assert!(basic.contains(&"Eastern Palace Prize".to_string()));

    let bombs = vec!["Bombs01".to_string()];
    let adv =
        Cartridge::new(plain_settings(LogicMode::GlitchAdvanced), 0).get_available_checks(&bombs);
    assert!(adv.contains(&"Death Mountain Treasure".to_string()));
    let basic =
        Cartridge::new(plain_settings(LogicMode::GlitchBasic), 0).get_available_checks(&bombs);
    assert!(!basic.contains(&"Death Mountain Treasure".to_string()));

    let boots = vec!["PegasusBoots".to_string()];
    let hell =
        Cartridge::new(plain_settings(LogicMode::GlitchHell), 0).get_available_checks(&boots);
    assert!(hell.contains(&"Lake Hylia Ledge".to_string()));
    let adv =
        Cartridge::new(plain_settings(LogicMode::GlitchAdvanced), 0).get_available_checks(&boots);
    assert!(!adv.contains(&"Lake Hylia Ledge".to_string()));
}

#[test]
fn nologic_reaches_everything_regardless_of_inventory() {
    let cart = Cartridge::new(plain_settings(LogicMode::NoLogic), 0);
    let empty_inv = cart.get_available_checks(&vec![]);
    assert_eq!(empty_inv.len(), 236);
    for name in ["Lorule Castle Chest", "Lake Hylia Ledge", "Death Mountain Chest 22"] {
        assert!(empty_inv.contains(&name.to_string()));
    }

    let some_inv = cart.get_available_checks(&vec!["Sword01".to_string()]);
    assert_eq!(some_inv, empty_inv);

    // Exclusions still bite under no-logic.
    let mut s = plain_settings(LogicMode::NoLogic);
    s.exclusions = vec!["Kakariko Jail".to_string()];
    let res = Cartridge::new(s, 0).get_available_checks(&vec![]);
    assert_eq!(res.len(), 235);
    assert!(!res.contains(&"Kakariko Jail".to_string()));
}

#[test]
fn full_progression_pool_reaches_every_check() {
    let cart = Cartridge::new(plain_settings(LogicMode::Normal), 0);
    let pools = albw_logic::pool::build_pools(&plain_settings(LogicMode::Normal), 0);
    let tokens: Vec<String> =
        pools.0.iter().map(|i| albw_logic::items::filler_item_to_string(*i)).collect();
    let res = cart.get_available_checks(&tokens);
    assert_eq!(res.len(), 236);
}

#[test]
fn search_is_idempotent() {
    let cart = Cartridge::new(plain_settings(LogicMode::Normal), 7);
    let inv = vec!["Sword01".to_string(), "Flippers".to_string()];
    let a = cart.get_available_checks(&inv);
    let b = cart.get_available_checks(&inv);
    assert_eq!(a, b);
}

#[test]
fn larger_inventory_reaches_no_fewer_checks() {
    let cart = Cartridge::new(plain_settings(LogicMode::Normal), 0);
    let small = cart.get_available_checks(&vec![]);
    let large = cart.get_available_checks(&vec![
        "Sword01".to_string(),
        "Glove01".to_string(),
        "Flippers".to_string(),
    ]);
    for name in &small {
        assert!(large.contains(name));
    }
    assert!(large.len() > small.len());
}

#[test]
fn build_world_graph_shape() {
    let g = build_world_graph();
    assert_eq!(g.regions.len(), 10);
    assert_eq!(g.checks.len(), 236);
    assert_eq!(g.regions[0].name, "Ravio's Shop");
    assert_eq!(g.checks[0].name, "Ravio's Gift");
    assert_eq!(g.checks[13].name, "Ravio's Shop Chest 01");
    assert_eq!(g.checks[235].name, "Lorule Castle Chest 23");
    let cm = prefill_check_map(&g);
    assert_eq!(cm.len(), 236);
    assert_eq!(cm[3], Some(Item::OpenSanctuaryDoors));
    assert_eq!(cm[0], None);
    // One non-event check per poolable item: the pools fill the world.
    let nonevent = g.checks.iter().filter(|c| c.quest.is_none()).count();
    assert_eq!(nonevent, 233);
}

#[test]
fn start_region_always_reachable() {
    let g = two_region_world(Req::Has(Item::Flippers));
    let cm = prefill_check_map(&g);
    let mut g2 = g;
    g2.checks.push(Check { name: "Home".to_string(), region: 0, quest: None });
    let cm2 = prefill_check_map(&g2);
    let res = assumed_search(&g2, &vec![], &cm2, &plain_settings(LogicMode::Normal));
    assert_eq!(names_of(&res), vec!["Home"]);
    assert_eq!(cm.len(), 1);
}

#[test]
fn duplicate_items_raise_the_tier() {
    // Two sword copies make sword tier two: the castle trials open without
    // the skip, once the portal event has granted field access.
    let cart = Cartridge::new(plain_settings(LogicMode::Normal), 0);
    let one = cart.get_available_checks(&vec![
        "Sword01".to_string(),
        "Bow01".to_string(),
    ]);
    assert!(!one.contains(&"Lorule Castle Chest".to_string()));
    let two = cart.get_available_checks(&vec![
        "Sword01".to_string(),
        "Sword01".to_string(),
        "Bow01".to_string(),
    ]);
    assert!(two.contains(&"Lorule Castle Chest".to_string()));
}
