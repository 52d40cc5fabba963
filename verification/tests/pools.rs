use albw_logic::cartridge::Cartridge;
use albw_logic::items::{catalog, filler_item_to_string, is_event, is_progression, is_super, Item};
use albw_logic::pool::{build_pools, in_progression_pool_exec};
use albw_logic::settings::{Logic, LogicMode, Settings};

fn settings_with(super_items: bool) -> Settings {
    Settings {
        logic: Logic {
            mode: LogicMode::Normal,
            super_items,
            skip_trials: false,
            lampless: false,
            swordless_mode: false,
        },
        exclusions: vec![],
    }
}

#[test]
fn catalog_counts() {
    let items = catalog();
    assert_eq!(items.len(), 243);
    let events = items.iter().filter(|i| is_event(**i)).count();
    assert_eq!(events, 10);
    let supers = items.iter().filter(|i| is_super(**i)).count();
    assert_eq!(supers, 2);
}

#[test]
fn pool_sizes_sum_to_nonevent_count() {
    let world = albw_logic::world::build_world_graph();
    let nonevent = world.checks.iter().filter(|c| c.quest.is_none()).count();
    for flag in [false, true] {
        let s = settings_with(flag);
        let (prog, trash) = build_pools(&s, 5);
        assert_eq!(prog.len() + trash.len(), 233);
        // The two pools together exactly fill the world's non-event checks.
        assert_eq!(prog.len() + trash.len(), nonevent);
    }
}

#[test]
fn no_event_item_in_either_pool() {
    let (prog, trash) = build_pools(&settings_with(true), 11);
    assert!(prog.iter().all(|i| !is_event(*i)));
    assert!(trash.iter().all(|i| !is_event(*i)));
}

#[test]
fn super_items_flag_moves_super_variants() {
    let (prog_off, trash_off) = build_pools(&settings_with(false), 3);
    assert!(!prog_off.contains(&Item::Lamp02));
    assert!(!prog_off.contains(&Item::Net02));
    assert!(trash_off.contains(&Item::Lamp02));
    assert!(trash_off.contains(&Item::Net02));

    let (prog_on, trash_on) = build_pools(&settings_with(true), 3);
    assert!(prog_on.contains(&Item::Lamp02));
    assert!(prog_on.contains(&Item::Net02));
    assert!(!trash_on.contains(&Item::Lamp02));
    assert!(!trash_on.contains(&Item::Net02));
}

#[test]
fn partition_follows_membership_test() {
    let s = settings_with(false);
    let (prog, trash) = build_pools(&s, 9);
    for i in &prog {
        assert!(in_progression_pool_exec(*i, &s.logic));
    }
    for i in &trash {
        assert!(!in_progression_pool_exec(*i, &s.logic));
        assert!(!is_event(*i));
    }
    // The membership test matches the base classification when supers stay
    // out.
    for i in &prog {
        assert!(is_progression(*i));
    }
}

#[test]
fn same_seed_reproduces_same_trash_order() {
    let s = settings_with(false);
    let (p1, t1) = build_pools(&s, 42);
    let (p2, t2) = build_pools(&s, 42);
    assert_eq!(p1, p2);
    assert_eq!(t1, t2);
}

#[test]
fn shuffle_permutes_but_keeps_the_items() {
    let s = settings_with(false);
    let (_, trash) = build_pools(&s, 1);
    let base: Vec<Item> = catalog()
        .into_iter()
        .filter(|i| !is_event(*i) && !in_progression_pool_exec(*i, &s.logic))
        .collect();
    assert_eq!(trash.len(), base.len());
    // Same multiset of items.
    let mut a: Vec<String> = trash.iter().map(|i| filler_item_to_string(*i)).collect();
    let mut b: Vec<String> = base.iter().map(|i| filler_item_to_string(*i)).collect();
    a.sort();
    b.sort();
    assert_eq!(a, b);
    // And the seeded shuffle actually moved something.
    assert_ne!(trash, base);
}

#[test]
fn pool_names_are_sorted_case_insensitively() {
    let cart = Cartridge::new(settings_with(false), 77);
    for names in [cart.get_progression_item_names(), cart.get_trash_item_names()] {
        for w in names.windows(2) {
            assert!(w[0].to_lowercase() <= w[1].to_lowercase());
        }
    }
}

#[test]
fn progression_names_include_the_gear() {
    let cart = Cartridge::new(settings_with(false), 0);
    let names = cart.get_progression_item_names();
    assert_eq!(names.len(), 107);
    assert!(names.contains(&"Sword01".to_string()));
    assert!(names.contains(&"Flippers".to_string()));
    assert!(!names.contains(&"RupeeGreen".to_string()));

    let trash = cart.get_trash_item_names();
    assert_eq!(trash.len(), 126);
    assert!(trash.contains(&"RupeeGreen".to_string()));
    assert!(trash.contains(&"HintGlasses".to_string()));
}

#[test]
fn equal_sessions_display_equal_lists() {
    let c1 = Cartridge::new(settings_with(false), 42);
    let c2 = Cartridge::new(settings_with(false), 42);
    assert_eq!(c1.get_trash_item_names(), c2.get_trash_item_names());
    assert_eq!(c1.get_progression_item_names(), c2.get_progression_item_names());
}
