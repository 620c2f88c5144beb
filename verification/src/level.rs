//! World metadata records.

use std::collections::HashMap;
use vstd::prelude::*;

verus! {

/// Boss bars defined by commands; none are recorded yet.
pub struct CustomBossEvents {}

/// Data packs of a world, by state.
pub struct DataPacks {
    pub disabled: Vec<String>,
    pub enabled: Vec<String>,
}

/// State of the fight against the dragon.
pub struct DragonFight {
    pub gateways: Vec<i32>,
    pub dragon_killed: bool,
    pub needs_state_scanning: bool,
    pub previously_killed: bool,
}

/// Game rules, each a name with its value as text.
pub type GameRules = HashMap<String, String>;

/// The game version that last saved a world.
pub struct VersionInfo {
    pub id: i32,
    pub name: String,
    pub series: String,
    pub snapshot: i8,
}

/// The dimensions of a world.
#[derive(Clone, Copy, Debug, PartialEq, Eq, Structural)]
pub enum Dimension {
    Overworld,
    End,
    Nether,
}

/// Settings of the world generator.
pub struct WorldGenSettings {
    pub dimensions: HashMap<String, Dimension>,
    pub bonus_chest: bool,
    pub generate_features: bool,
    pub seed: i64,
}

/// Events scheduled for later ticks; none are recorded yet.
pub struct ScheduledEvents {}

/// Brands of the servers that have run a world.
pub type ServerBrands = Vec<String>;

/// The name under which a dimension is stored.
pub open spec fn dimension_name(d: Dimension) -> Seq<char> {
    match d {
        Dimension::Overworld => "overworld"@,
        Dimension::End => "the_end"@,
        Dimension::Nether => "the_nether"@,
    }
}

/// Returns the name under which dimension `d` is stored.
pub fn dim_to_str(d: &Dimension) -> (name: &'static str)
    ensures
        name@ == dimension_name(*d),
{
    match d {
        Dimension::Overworld => "overworld",
        Dimension::End => "the_end",
        Dimension::Nether => "the_nether",
    }
}

/// A stored name identifies its dimension: no two dimensions share one.
pub proof fn lemma_dimension_names_differ(a: Dimension, b: Dimension)
    requires
        a != b,
    ensures
        dimension_name(a) != dimension_name(b),
{
    reveal_strlit("overworld");
    reveal_strlit("the_end");
    reveal_strlit("the_nether");
    assert(dimension_name(Dimension::Overworld).len() == 9);
    assert(dimension_name(Dimension::End).len() == 7);
    assert(dimension_name(Dimension::Nether).len() == 10);
}

} // verus!
