use vstd::prelude::*;

verus! {

/// Logic mode tiers, ordered from the author-intended ruleset up to no logic
/// at all. Every connection a lower tier permits is also permitted by each
/// higher tier.
#[derive(Clone, Copy, Debug, PartialEq, Eq, Structural)]
pub enum LogicMode {
    Normal,
    Hard,
    GlitchBasic,
    GlitchAdvanced,
    GlitchHell,
    NoLogic,
}

impl LogicMode {
    /// Numeric rank of a mode; a higher rank admits every connection a lower
    /// rank admits.
    pub open spec fn rank(self) -> int {
        match self {
            LogicMode::Normal => 0,
            LogicMode::Hard => 1,
            LogicMode::GlitchBasic => 2,
            LogicMode::GlitchAdvanced => 3,
            LogicMode::GlitchHell => 4,
            LogicMode::NoLogic => 5,
        }
    }

    pub fn rank_exec(self) -> (r: u8)
        ensures
            r as int == self.rank(),
    {
        match self {
            LogicMode::Normal => 0,
            LogicMode::Hard => 1,
            LogicMode::GlitchBasic => 2,
            LogicMode::GlitchAdvanced => 3,
            LogicMode::GlitchHell => 4,
            LogicMode::NoLogic => 5,
        }
    }
}

/// The toggleable rules of a logic session. Each field is an independent
/// switch; none of them changes the shape of the world graph, only which
/// requirement predicates come out true.
#[derive(Clone, Copy, Debug, PartialEq, Eq, Structural)]
pub struct Logic {
    pub mode: LogicMode,
    /// Include the optional super variants in the progression pool.
    pub super_items: bool,
    /// Skip the final trials, lowering the demands of the last approach.
    pub skip_trials: bool,
    /// Dark rooms are in logic without a lamp.
    pub lampless: bool,
    /// The seed expects no sword; sword gates are lifted.
    pub swordless_mode: bool,
}

/// Immutable configuration for one logic session: the ruleset plus the names
/// of checks to treat as unreachable regardless of graph connectivity.
#[derive(Clone, Debug)]
pub struct Settings {
    pub logic: Logic,
    pub exclusions: Vec<String>,
}

/// Whether a check name is excluded by the settings.
pub open spec fn spec_excluded(s: Settings, name: Seq<char>) -> bool {
    exists|k: int| 0 <= k < s.exclusions@.len() && (#[trigger] s.exclusions@[k])@ == name
}

/// Looks a check name up in the exclusion list.
pub fn is_excluded(s: &Settings, name: &String) -> (r: bool)
    ensures
        r == spec_excluded(*s, name@),
{
    let mut k: usize = 0;
    while k < s.exclusions.len()
        invariant
            k <= s.exclusions@.len(),
            forall|q: int| 0 <= q < k ==> (#[trigger] s.exclusions@[q])@ != name@,
        decreases s.exclusions@.len() - k,
    {
        if s.exclusions[k].eq(name) {
            return true;
        }
        k += 1;
    }
    false
}

} // verus!
