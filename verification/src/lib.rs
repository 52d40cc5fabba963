//! Logic accessibility engine for a randomized-placement puzzle game.
//!
//! Given a catalog of items, a ruleset, and a directed world graph whose
//! edges are gated by requirement predicates, the engine partitions the items
//! into progression and trash pools and computes, by an assumed-fill fixpoint
//! search, the set of checks obtainable from a given inventory.

pub mod cartridge;
pub mod graph;
pub mod items;
pub mod names;
pub mod outside;
pub mod pool;
pub mod reach;
pub mod req;
pub mod settings;
pub mod world;
