//! The 25 natures. Each raises one of the five stats other than HP by a tenth and lowers one;
//! the five natures that raise and lower the same stat have no effect.
use vstd::prelude::*;

use crate::stat::Stat;

verus! {

/// One of the 25 natures, in the order of the 5 by 5 table whose rows give the stat raised and
/// whose columns give the stat lowered, both in the order Attack, Defense, Special Attack,
/// Special Defense, Speed. Hardy raises and lowers Attack, Lonely raises Attack and lowers
/// Defense, and so on.
#[derive(Copy, Clone, Debug, PartialEq, Eq, Structural, Hash)]
pub enum Nature {
    Hardy,
    Lonely,
    Adamant,
    Naughty,
    Brave,
    Bold,
    Docile,
    Impish,
    Lax,
    Relaxed,
    Modest,
    Mild,
    Bashful,
    Rash,
    Quiet,
    Calm,
    Gentle,
    Careful,
    Quirky,
    Sassy,
    Timid,
    Hasty,
    Jolly,
    Naive,
    Serious,
}

/// The position of a nature in the table, row by row.
pub open spec fn nature_index(n: Nature) -> int {
    match n {
        Nature::Hardy => 0,
        Nature::Lonely => 1,
        Nature::Adamant => 2,
        Nature::Naughty => 3,
        Nature::Brave => 4,
        Nature::Bold => 5,
        Nature::Docile => 6,
        Nature::Impish => 7,
        Nature::Lax => 8,
        Nature::Relaxed => 9,
        Nature::Modest => 10,
        Nature::Mild => 11,
        Nature::Bashful => 12,
        Nature::Rash => 13,
        Nature::Quiet => 14,
        Nature::Calm => 15,
        Nature::Gentle => 16,
        Nature::Careful => 17,
        Nature::Quirky => 18,
        Nature::Sassy => 19,
        Nature::Timid => 20,
        Nature::Hasty => 21,
        Nature::Jolly => 22,
        Nature::Naive => 23,
        Nature::Serious => 24,
    }
}

/// The stat at position `i` of the order Attack, Defense, Special Attack, Special Defense,
/// Speed.
pub open spec fn table_stat(i: int) -> Stat {
    if i == 0 {
        Stat::Atk
    } else if i == 1 {
        Stat::Def
    } else if i == 2 {
        Stat::SpA
    } else if i == 3 {
        Stat::SpD
    } else {
        Stat::Spe
    }
}

/// The stat that a nature raises: the one of its row.
pub open spec fn raised_stat(n: Nature) -> Stat {
    table_stat(nature_index(n) / 5)
}

/// The stat that a nature lowers: the one of its column.
pub open spec fn lowered_stat(n: Nature) -> Stat {
    table_stat(nature_index(n) % 5)
}

/// Every nature, in table order.
pub open spec fn all_natures_seq() -> Seq<Nature> {
    seq![
        Nature::Hardy,
        Nature::Lonely,
        Nature::Adamant,
        Nature::Naughty,
        Nature::Brave,
        Nature::Bold,
        Nature::Docile,
        Nature::Impish,
        Nature::Lax,
        Nature::Relaxed,
        Nature::Modest,
        Nature::Mild,
        Nature::Bashful,
        Nature::Rash,
        Nature::Quiet,
        Nature::Calm,
        Nature::Gentle,
        Nature::Careful,
        Nature::Quirky,
        Nature::Sassy,
        Nature::Timid,
        Nature::Hasty,
        Nature::Jolly,
        Nature::Naive,
        Nature::Serious,
    ]
}

impl Nature {
    /// Every nature, in table order.
    pub fn all_natures() -> (r: Vec<Nature>)
        ensures
            r@ == all_natures_seq(),
    {
        let mut r: Vec<Nature> = Vec::new();
        r.push(Nature::Hardy);
        r.push(Nature::Lonely);
        r.push(Nature::Adamant);
        r.push(Nature::Naughty);
        r.push(Nature::Brave);
        r.push(Nature::Bold);
        r.push(Nature::Docile);
        r.push(Nature::Impish);
        r.push(Nature::Lax);
        r.push(Nature::Relaxed);
        r.push(Nature::Modest);
        r.push(Nature::Mild);
        r.push(Nature::Bashful);
        r.push(Nature::Rash);
        r.push(Nature::Quiet);
        r.push(Nature::Calm);
        r.push(Nature::Gentle);
        r.push(Nature::Careful);
        r.push(Nature::Quirky);
        r.push(Nature::Sassy);
        r.push(Nature::Timid);
        r.push(Nature::Hasty);
        r.push(Nature::Jolly);
        r.push(Nature::Naive);
        r.push(Nature::Serious);
        assert(r@ =~= all_natures_seq());
        r
    }

    /// Whether this nature has any effect: whether the stat it raises differs from the one it
    /// lowers.
    pub fn has_stat_effect(self) -> (r: bool)
        ensures
            r == (raised_stat(self) != lowered_stat(self)),
    {
        match self {
            Nature::Hardy | Nature::Docile | Nature::Bashful | Nature::Quirky | Nature::Serious => false,
            _ => true,
        }
    }

    /// The stat this nature raises. A nature without effect raises and lowers the same stat.
    pub fn increased_stat(self) -> (r: Stat)
        ensures
            r == raised_stat(self),
    {
        match self {
            Nature::Hardy | Nature::Lonely | Nature::Adamant | Nature::Naughty | Nature::Brave => Stat::Atk,
            Nature::Bold | Nature::Docile | Nature::Impish | Nature::Lax | Nature::Relaxed => Stat::Def,
            Nature::Modest | Nature::Mild | Nature::Bashful | Nature::Rash | Nature::Quiet => Stat::SpA,
            Nature::Calm | Nature::Gentle | Nature::Careful | Nature::Quirky | Nature::Sassy => Stat::SpD,
            Nature::Timid | Nature::Hasty | Nature::Jolly | Nature::Naive | Nature::Serious => Stat::Spe,
        }
    }

    /// The stat this nature lowers. A nature without effect raises and lowers the same stat.
    pub fn decreased_stat(self) -> (r: Stat)
        ensures
            r == lowered_stat(self),
    {
        match self {
            Nature::Hardy | Nature::Bold | Nature::Modest | Nature::Calm | Nature::Timid => Stat::Atk,
            Nature::Lonely | Nature::Docile | Nature::Mild | Nature::Gentle | Nature::Hasty => Stat::Def,
            Nature::Adamant | Nature::Impish | Nature::Bashful | Nature::Careful | Nature::Jolly => Stat::SpA,
            Nature::Naughty | Nature::Lax | Nature::Rash | Nature::Quirky | Nature::Naive => Stat::SpD,
            Nature::Brave | Nature::Relaxed | Nature::Quiet | Nature::Sassy | Nature::Serious => Stat::Spe,
        }
    }
}

} // verus!
