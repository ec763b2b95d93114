//! The six stats: HP, Attack, Defense, Special Attack, Special Defense and Speed.
use vstd::prelude::*;

verus! {

/// One of the six stats, under short names; `name` gives the long ones.
#[derive(Copy, Clone, Debug, PartialEq, Eq, Structural, Hash)]
pub enum Stat {
    HP,
    Atk,
    Def,
    SpA,
    SpD,
    Spe,
}

/// The long name of a stat.
pub open spec fn stat_name(s: Stat) -> Seq<char> {
    match s {
        Stat::HP => "HP"@,
        Stat::Atk => "Attack"@,
        Stat::Def => "Defense"@,
        Stat::SpA => "Special Attack"@,
        Stat::SpD => "Special Defense"@,
        Stat::Spe => "Speed"@,
    }
}

impl Stat {
    /// The long name of this stat, such as "Special Attack".
    pub fn name(self) -> (r: &'static str)
        ensures
            r@ == stat_name(self),
    {
        match self {
            Stat::HP => "HP",
            Stat::Atk => "Attack",
            Stat::Def => "Defense",
            Stat::SpA => "Special Attack",
            Stat::SpD => "Special Defense",
            Stat::Spe => "Speed",
        }
    }
}

} // verus!
