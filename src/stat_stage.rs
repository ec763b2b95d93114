//! Stat stages: the thirteen levels, from -6 to +6, by which a stat is scaled during a battle.
//!
//! For a normal stat, stage 0 is 2/2 of the stat; each stage down adds one to the denominator
//! and each stage up adds one to the numerator, so stage -1 is 2/3 and stage +1 is 3/2. For
//! accuracy and evasion the same rule starts from 3/3, so stage -3 is still only a halving.
use vstd::prelude::*;

verus! {

/// A stat stage, from -6 to +6. `N` stands for a minus sign, `P` for a plus sign, and `Z0` is
/// zero.
#[derive(Copy, Clone, Debug, PartialEq, Eq, Structural, PartialOrd, Ord, Hash)]
pub enum StatStage {
    N6,
    N5,
    N4,
    N3,
    N2,
    N1,
    Z0,
    P1,
    P2,
    P3,
    P4,
    P5,
    P6,
}

/// The signed level of a stage.
pub open spec fn stage_value(s: StatStage) -> int {
    match s {
        StatStage::N6 => -6,
        StatStage::N5 => -5,
        StatStage::N4 => -4,
        StatStage::N3 => -3,
        StatStage::N2 => -2,
        StatStage::N1 => -1,
        StatStage::Z0 => 0,
        StatStage::P1 => 1,
        StatStage::P2 => 2,
        StatStage::P3 => 3,
        StatStage::P4 => 4,
        StatStage::P5 => 5,
        StatStage::P6 => 6,
    }
}

/// The stage at level `v`, for `v` from -6 to 6.
pub open spec fn stage_at(v: int) -> StatStage {
    if v == -6 {
        StatStage::N6
    } else if v == -5 {
        StatStage::N5
    } else if v == -4 {
        StatStage::N4
    } else if v == -3 {
        StatStage::N3
    } else if v == -2 {
        StatStage::N2
    } else if v == -1 {
        StatStage::N1
    } else if v == 0 {
        StatStage::Z0
    } else if v == 1 {
        StatStage::P1
    } else if v == 2 {
        StatStage::P2
    } else if v == 3 {
        StatStage::P3
    } else if v == 4 {
        StatStage::P4
    } else if v == 5 {
        StatStage::P5
    } else {
        StatStage::P6
    }
}

/// `v` brought into the range of the stages, from -6 to 6.
pub open spec fn clamp_stage(v: int) -> int {
    if v < -6 {
        -6
    } else if v > 6 {
        6
    } else {
        v
    }
}

/// The stage whose level is the sum of the levels of `a` and `b`, held between -6 and 6.
pub open spec fn stage_sum(a: StatStage, b: StatStage) -> StatStage {
    stage_at(clamp_stage(stage_value(a) + stage_value(b)))
}

/// The multiplier of a stage lowered `-s` levels from the neutral `base / base`:
/// `base / (base - s)`, as a numerator and a denominator.
pub open spec fn lowered_fraction(base: int, s: int) -> (int, int) {
    (base, base - s)
}

/// The multiplier of a stage raised `s` levels from the neutral `base / base`:
/// `(base + s) / base`, as a numerator and a denominator.
pub open spec fn raised_fraction(base: int, s: int) -> (int, int) {
    (base + s, base)
}

/// The multiplier of stage level `s` on a scale whose neutral stage is `base / base`.
pub open spec fn stage_fraction(base: int, s: int) -> (int, int) {
    if s < 0 {
        lowered_fraction(base, s)
    } else {
        raised_fraction(base, s)
    }
}

impl StatStage {
    /// The signed level of this stage, from -6 to 6.
    pub fn value(self) -> (r: i8)
        ensures
            r == stage_value(self),
    {
        match self {
            StatStage::N6 => -6,
            StatStage::N5 => -5,
            StatStage::N4 => -4,
            StatStage::N3 => -3,
            StatStage::N2 => -2,
            StatStage::N1 => -1,
            StatStage::Z0 => 0,
            StatStage::P1 => 1,
            StatStage::P2 => 2,
            StatStage::P3 => 3,
            StatStage::P4 => 4,
            StatStage::P5 => 5,
            StatStage::P6 => 6,
        }
    }

    /// The stage at level `v`.
    fn from_value(v: i8) -> (r: StatStage)
        requires
            -6 <= v <= 6,
        ensures
            r == stage_at(v as int),
    {
        if v == -6 {
            StatStage::N6
        } else if v == -5 {
            StatStage::N5
        } else if v == -4 {
            StatStage::N4
        } else if v == -3 {
            StatStage::N3
        } else if v == -2 {
            StatStage::N2
        } else if v == -1 {
            StatStage::N1
        } else if v == 0 {
            StatStage::Z0
        } else if v == 1 {
            StatStage::P1
        } else if v == 2 {
            StatStage::P2
        } else if v == 3 {
            StatStage::P3
        } else if v == 4 {
            StatStage::P4
        } else if v == 5 {
            StatStage::P5
        } else {
            StatStage::P6
        }
    }

    /// The multiplier of this stage on a normal stat (HP, Attack, Defense, Special Attack,
    /// Special Defense or Speed), as a numerator and a denominator: stage -5 is 2/7, stage +2
    /// is 4/2.
    pub fn normal_ratio(self) -> (r: (u8, u8))
        ensures
            (r.0 as int, r.1 as int) == stage_fraction(2, stage_value(self)),
    {
        self.ratio_from(2)
    }

    /// The multiplier of this stage on accuracy or evasion, as a numerator and a denominator:
    /// stage -4 is 3/7, stage +3 is 6/3.
    pub fn accuracy_ratio(self) -> (r: (u8, u8))
        ensures
            (r.0 as int, r.1 as int) == stage_fraction(3, stage_value(self)),
    {
        self.ratio_from(3)
    }

    /// The multiplier of this stage on a scale whose neutral stage is `base / base`.
    fn ratio_from(self, base: u8) -> (r: (u8, u8))
        requires
            2 <= base <= 3,
        ensures
            (r.0 as int, r.1 as int) == stage_fraction(base as int, stage_value(self)),
    {
        let v = self.value();
        if v < 0 {
            (base, (base as i8 - v) as u8)
        } else {
            ((base as i8 + v) as u8, base)
        }
    }
}

impl core::ops::Add for StatStage {
    type Output = StatStage;

    /// The sum of two stages, held between -6 and +6.
    fn add(self, other: StatStage) -> (r: StatStage) {
        let sum: i8 = self.value() + other.value();
        if sum <= -6 {
            StatStage::N6
        } else if sum >= 6 {
            StatStage::P6
        } else {
            StatStage::from_value(sum)
        }
    }
}

impl vstd::std_specs::ops::AddSpecImpl for StatStage {
    open spec fn obeys_add_spec() -> bool {
        true
    }

    open spec fn add_req(self, other: StatStage) -> bool {
        true
    }

    open spec fn add_spec(self, other: StatStage) -> StatStage {
        stage_sum(self, other)
    }
}

/// The sum of two stages has the level of the sum of their levels, held between -6 and 6.
pub proof fn lemma_add_saturates(a: StatStage, b: StatStage)
    ensures
        stage_value(stage_sum(a, b)) == clamp_stage(stage_value(a) + stage_value(b)),
        -6 <= stage_value(stage_sum(a, b)) <= 6,
{
}

/// At stage 0 the lowered and the raised formulas agree, on both scales, and give a
/// multiplier of one.
pub proof fn lemma_stage_zero_is_neutral()
    ensures
        lowered_fraction(2, 0) == raised_fraction(2, 0),
        lowered_fraction(3, 0) == raised_fraction(3, 0),
        stage_fraction(2, stage_value(StatStage::Z0)) == (2int, 2int),
        stage_fraction(3, stage_value(StatStage::Z0)) == (3int, 3int),
{
}

/// Stages and levels from -6 to 6 correspond one to one.
pub proof fn lemma_stage_value_round_trip(s: StatStage)
    ensures
        -6 <= stage_value(s) <= 6,
        stage_at(stage_value(s)) == s,
{
}

} // verus!
