//! Elemental typings and the effectiveness chart between them.
//!
//! Every effectiveness level is a power of two between a quarter and four, or zero. This module
//! measures those levels exactly, in quarters: `Immunity` is 0, `DoubleResistance` is 1,
//! `Resistance` is 2, `Regular` is 4, `Weakness` is 8 and `DoubleWeakness` is 16. The product of
//! two levels is then measured in sixteenths.
use vstd::prelude::*;

verus! {

/// How strongly a move of one typing affects a target of another. Variants are ordered as their
/// numeric factors are: none, a quarter, a half, one, two and four.
#[derive(Copy, Clone, Debug, PartialEq, Eq, Structural, Hash, PartialOrd, Ord)]
pub enum Multiplier {
    Immunity,
    DoubleResistance,
    Resistance,
    Regular,
    Weakness,
    DoubleWeakness,
}

/// A numeric multiplier that is none of the six effectiveness levels.
#[derive(Copy, Clone, Debug, PartialEq, Eq, Structural, Hash)]
pub struct InvalidNumericMultiplierError {}

/// The numeric factor of each level, in quarters.
pub open spec fn quarters_of(m: Multiplier) -> int {
    match m {
        Multiplier::Immunity => 0,
        Multiplier::DoubleResistance => 1,
        Multiplier::Resistance => 2,
        Multiplier::Regular => 4,
        Multiplier::Weakness => 8,
        Multiplier::DoubleWeakness => 16,
    }
}

/// Whether `q` quarters is the factor of one of the six levels.
pub open spec fn is_level_quarters(q: int) -> bool {
    q == 0 || q == 1 || q == 2 || q == 4 || q == 8 || q == 16
}

/// The level whose factor is `q` quarters, where `q` is one of the six factors.
pub open spec fn level_of(q: int) -> Multiplier
    recommends
        is_level_quarters(q),
{
    if q == 0 {
        Multiplier::Immunity
    } else if q == 1 {
        Multiplier::DoubleResistance
    } else if q == 2 {
        Multiplier::Resistance
    } else if q == 4 {
        Multiplier::Regular
    } else if q == 8 {
        Multiplier::Weakness
    } else {
        Multiplier::DoubleWeakness
    }
}

/// The decoding of a factor of `q` quarters.
pub open spec fn decoded(q: int) -> Result<Multiplier, InvalidNumericMultiplierError> {
    if is_level_quarters(q) {
        Ok(level_of(q))
    } else {
        Err(InvalidNumericMultiplierError {})
    }
}

/// A product of two factors, in sixteenths, brought into the range of the levels: a nonzero
/// product under a quarter counts as a quarter, one over four counts as four.
pub open spec fn clamped_product(p: int) -> int {
    if p == 0 {
        0
    } else if p < 4 {
        4
    } else if p > 64 {
        64
    } else {
        p
    }
}

/// The level of a target hit through two levels at once: the product of their factors,
/// clamped to the range of the levels.
pub open spec fn combined(a: Multiplier, b: Multiplier) -> Multiplier {
    level_of(clamped_product(quarters_of(a) * quarters_of(b)) / 4)
}

impl Multiplier {
    /// The numeric factor of this level, in quarters.
    pub fn to_quarters(self) -> (r: u32)
        ensures
            r == quarters_of(self),
    {
        match self {
            Multiplier::Immunity => 0,
            Multiplier::DoubleResistance => 1,
            Multiplier::Resistance => 2,
            Multiplier::Regular => 4,
            Multiplier::Weakness => 8,
            Multiplier::DoubleWeakness => 16,
        }
    }

    /// The level whose factor is `q` quarters.
    pub fn from_quarters(q: u32) -> (r: Result<Multiplier, InvalidNumericMultiplierError>)
        ensures
            r == decoded(q as int),
    {
        if q == 0 {
            Ok(Multiplier::Immunity)
        } else if q == 1 {
            Ok(Multiplier::DoubleResistance)
        } else if q == 2 {
            Ok(Multiplier::Resistance)
        } else if q == 4 {
            Ok(Multiplier::Regular)
        } else if q == 8 {
            Ok(Multiplier::Weakness)
        } else if q == 16 {
            Ok(Multiplier::DoubleWeakness)
        } else {
            Err(InvalidNumericMultiplierError {})
        }
    }

    /// The level of a target hit through this level and `other` at once. The factors multiply;
    /// a product under a quarter (but not zero) gives `DoubleResistance`, one over four gives
    /// `DoubleWeakness`.
    pub fn combine(self, other: Multiplier) -> (r: Multiplier)
        ensures
            r == combined(self, other),
    {
        let product = self.to_quarters() * other.to_quarters();
        if 0 < product && product <= 2 {
            Multiplier::DoubleResistance
        } else if product >= 128 {
            Multiplier::DoubleWeakness
        } else {
            match Multiplier::from_quarters(product / 4) {
                Ok(m) => m,
                Err(_) => {
                    proof {
                        lemma_products_of_levels(self, other);
                    }
                    Multiplier::Regular
                },
            }
        }
    }
}

impl core::ops::Mul for Multiplier {
    type Output = Multiplier;

    fn mul(self, other: Multiplier) -> (r: Multiplier) {
        self.combine(other)
    }
}

impl vstd::std_specs::ops::MulSpecImpl for Multiplier {
    open spec fn obeys_mul_spec() -> bool {
        true
    }

    open spec fn mul_req(self, other: Multiplier) -> bool {
        true
    }

    open spec fn mul_spec(self, other: Multiplier) -> Multiplier {
        combined(self, other)
    }
}

/// The product of two factors, in sixteenths, is zero or a power of two from a sixteenth to
/// sixteen; between an eighth and eight it is four times the factor of a level.
proof fn lemma_products_of_levels(a: Multiplier, b: Multiplier)
    ensures
        ({
            let p = quarters_of(a) * quarters_of(b);
            &&& p == 0 || p == 1 || p == 2 || p == 4 || p == 8 || p == 16 || p == 32 || p == 64
                || p == 128 || p == 256
            &&& 2 < p < 128 ==> p % 4 == 0 && is_level_quarters(p / 4)
        }),
{
}

/// An elemental typing, in the order the games number them.
#[derive(Copy, Clone, Debug, PartialEq, Eq, Structural, Hash)]
pub enum Typing {
    Normal,
    Fighting,
    Flying,
    Poison,
    Ground,
    Rock,
    Bug,
    GhostType,
    Steel,
    Fire,
    Water,
    Grass,
    Electric,
    Psychic,
    Ice,
    Dragon,
    Dark,
    Fairy,
}

/// The effectiveness of a move of each typing against a target of each single typing, in
/// quarters. Rows are attackers, columns defenders, both in numeric order: the cell of
/// attacker `a` and defender `d` is at `a * 18 + d`.
pub const TYPE_CHART: [u8; 324] = [
    4, 4, 4, 4, 4, 2, 4, 0, 2, 4, 4, 4, 4, 4, 4, 4, 4, 4,  // Normal
    8, 4, 2, 2, 4, 8, 2, 0, 8, 4, 4, 4, 4, 2, 8, 4, 8, 2,  // Fighting
    4, 8, 4, 4, 4, 2, 8, 4, 2, 4, 4, 8, 2, 4, 4, 4, 4, 4,  // Flying
    4, 4, 4, 2, 2, 2, 4, 2, 0, 4, 4, 8, 4, 4, 4, 4, 4, 8,  // Poison
    4, 4, 0, 8, 4, 8, 2, 4, 8, 8, 4, 2, 8, 4, 4, 4, 4, 4,  // Ground
    4, 2, 8, 4, 2, 4, 8, 4, 2, 8, 4, 4, 4, 4, 8, 4, 4, 4,  // Rock
    4, 2, 2, 2, 4, 4, 4, 2, 2, 2, 4, 8, 4, 8, 4, 4, 8, 2,  // Bug
    0, 4, 4, 4, 4, 4, 4, 8, 4, 4, 4, 4, 4, 8, 4, 4, 2, 4,  // GhostType
    4, 4, 4, 4, 4, 8, 4, 4, 2, 2, 2, 4, 2, 4, 8, 4, 4, 8,  // Steel
    4, 4, 4, 4, 4, 2, 8, 4, 8, 2, 2, 8, 4, 4, 8, 2, 4, 4,  // Fire
    4, 4, 4, 4, 8, 8, 4, 4, 4, 8, 2, 2, 4, 4, 4, 2, 4, 4,  // Water
    4, 4, 2, 2, 8, 8, 2, 4, 2, 2, 8, 2, 4, 4, 4, 2, 4, 4,  // Grass
    4, 4, 8, 4, 0, 4, 4, 4, 4, 4, 8, 2, 2, 4, 4, 2, 4, 4,  // Electric
    4, 8, 4, 8, 4, 4, 4, 4, 2, 4, 4, 4, 4, 2, 4, 4, 0, 4,  // Psychic
    4, 4, 8, 4, 8, 4, 4, 4, 2, 2, 2, 8, 4, 4, 2, 8, 4, 4,  // Ice
    4, 4, 4, 4, 4, 4, 4, 4, 2, 4, 4, 4, 4, 4, 4, 8, 4, 0,  // Dragon
    4, 2, 4, 4, 4, 4, 4, 8, 4, 4, 4, 4, 4, 8, 4, 4, 2, 2,  // Dark
    4, 8, 4, 2, 4, 4, 4, 4, 2, 2, 4, 4, 4, 4, 4, 8, 8, 4,  // Fairy
];

/// The position of a typing in numeric order.
pub open spec fn code_of(t: Typing) -> int {
    match t {
        Typing::Normal => 0,
        Typing::Fighting => 1,
        Typing::Flying => 2,
        Typing::Poison => 3,
        Typing::Ground => 4,
        Typing::Rock => 5,
        Typing::Bug => 6,
        Typing::GhostType => 7,
        Typing::Steel => 8,
        Typing::Fire => 9,
        Typing::Water => 10,
        Typing::Grass => 11,
        Typing::Electric => 12,
        Typing::Psychic => 13,
        Typing::Ice => 14,
        Typing::Dragon => 15,
        Typing::Dark => 16,
        Typing::Fairy => 17,
    }
}

/// The chart cell for a move of typing `a` against a target of typing `d`, in quarters.
pub open spec fn chart_quarters(a: Typing, d: Typing) -> int {
    TYPE_CHART@[code_of(a) * 18 + code_of(d)] as int
}

/// The typing at position `c` of the numeric order, for `c` below 18.
pub open spec fn typing_at(c: int) -> Typing {
    if c == 0 {
        Typing::Normal
    } else if c == 1 {
        Typing::Fighting
    } else if c == 2 {
        Typing::Flying
    } else if c == 3 {
        Typing::Poison
    } else if c == 4 {
        Typing::Ground
    } else if c == 5 {
        Typing::Rock
    } else if c == 6 {
        Typing::Bug
    } else if c == 7 {
        Typing::GhostType
    } else if c == 8 {
        Typing::Steel
    } else if c == 9 {
        Typing::Fire
    } else if c == 10 {
        Typing::Water
    } else if c == 11 {
        Typing::Grass
    } else if c == 12 {
        Typing::Electric
    } else if c == 13 {
        Typing::Psychic
    } else if c == 14 {
        Typing::Ice
    } else if c == 15 {
        Typing::Dragon
    } else if c == 16 {
        Typing::Dark
    } else {
        Typing::Fairy
    }
}

/// Every typing, in numeric order.
pub open spec fn all_typings_seq() -> Seq<Typing> {
    Seq::new(18, |c: int| typing_at(c))
}

/// The effectiveness of a move of typing `a` against a target of the single typing `d`: the
/// level whose factor is their chart cell.
pub open spec fn offense(a: Typing, d: Typing) -> Multiplier {
    level_of(chart_quarters(a, d))
}

/// The effectiveness that a target of typing `d` suffers from a move of typing `a`.
pub open spec fn defense(d: Typing, a: Typing) -> Multiplier {
    offense(a, d)
}

/// Holds of an attacking typing whose moves hit a target of typing `d` with effectiveness
/// `level`.
pub open spec fn hits_with(d: Typing, level: Multiplier) -> spec_fn(Typing) -> bool {
    |a: Typing| offense(a, d) == level
}

/// Holds of a defending typing that moves of typing `a` hit with effectiveness `level`.
pub open spec fn is_hit_with(a: Typing, level: Multiplier) -> spec_fn(Typing) -> bool {
    |d: Typing| offense(a, d) == level
}

/// A typing code that is not between 0 and 17.
#[derive(Copy, Clone, Debug, PartialEq, Eq, Structural, Hash)]
pub struct InvalidTypingCodeError {}

impl core::convert::TryFrom<u8> for Typing {
    type Error = InvalidTypingCodeError;

    fn try_from(code: u8) -> (r: Result<Typing, InvalidTypingCodeError>) {
        if code < 18 {
            Ok(Typing::from_code(code))
        } else {
            Err(InvalidTypingCodeError {})
        }
    }
}

impl vstd::std_specs::convert::TryFromSpecImpl<u8> for Typing {
    open spec fn obeys_try_from_spec() -> bool {
        true
    }

    open spec fn try_from_spec(code: u8) -> Result<Typing, InvalidTypingCodeError> {
        if code < 18 {
            Ok(typing_at(code as int))
        } else {
            Err(InvalidTypingCodeError {})
        }
    }
}

impl Typing {
    /// The typing at position `code` of the numeric order.
    fn from_code(code: u8) -> (r: Typing)
        requires
            code < 18,
        ensures
            r == typing_at(code as int),
    {
        match code {
            0 => Typing::Normal,
            1 => Typing::Fighting,
            2 => Typing::Flying,
            3 => Typing::Poison,
            4 => Typing::Ground,
            5 => Typing::Rock,
            6 => Typing::Bug,
            7 => Typing::GhostType,
            8 => Typing::Steel,
            9 => Typing::Fire,
            10 => Typing::Water,
            11 => Typing::Grass,
            12 => Typing::Electric,
            13 => Typing::Psychic,
            14 => Typing::Ice,
            15 => Typing::Dragon,
            16 => Typing::Dark,
            _ => Typing::Fairy,
        }
    }

    /// Every typing, in numeric order.
    pub fn all_typings() -> (r: Vec<Typing>)
        ensures
            r@ == all_typings_seq(),
    {
        let mut r: Vec<Typing> = Vec::new();
        let mut c: u8 = 0;
        while c < 18
            invariant
                c <= 18,
                r@ == all_typings_seq().take(c as int),
            decreases 18 - c,
        {
            r.push(Typing::from_code(c));
            assert(all_typings_seq().take(c + 1) =~= all_typings_seq().take(c as int).push(
                typing_at(c as int),
            ));
            c = c + 1;
        }
        assert(all_typings_seq().take(18) =~= all_typings_seq());
        r
    }

    /// The position of this typing in the numeric order the games use, from 0 to 17.
    pub fn num_code(self) -> (r: u8)
        ensures
            r == code_of(self),
    {
        match self {
            Typing::Normal => 0,
            Typing::Fighting => 1,
            Typing::Flying => 2,
            Typing::Poison => 3,
            Typing::Ground => 4,
            Typing::Rock => 5,
            Typing::Bug => 6,
            Typing::GhostType => 7,
            Typing::Steel => 8,
            Typing::Fire => 9,
            Typing::Water => 10,
            Typing::Grass => 11,
            Typing::Electric => 12,
            Typing::Psychic => 13,
            Typing::Ice => 14,
            Typing::Dragon => 15,
            Typing::Dark => 16,
            Typing::Fairy => 17,
        }
    }

    /// The effectiveness of a move of this typing against a target of typing `other`.
    pub fn offense_multiplier(self, other: Typing) -> (r: Multiplier)
        ensures
            r == offense(self, other),
    {
        let index: usize = self.num_code() as usize * 18 + other.num_code() as usize;
        proof {
            lemma_chart_cells(self, other);
        }
        match Multiplier::from_quarters(TYPE_CHART[index] as u32) {
            Ok(m) => m,
            Err(_) => Multiplier::Regular,
        }
    }

    /// The effectiveness of a move of this typing against each typing, in numeric order.
    pub fn offense_multipliers(self) -> (r: Vec<Multiplier>)
        ensures
            r@ == all_typings_seq().map_values(|d: Typing| offense(self, d)),
    {
        let mut r: Vec<Multiplier> = Vec::new();
        let mut c: u8 = 0;
        while c < 18
            invariant
                c <= 18,
                r@ == all_typings_seq().take(c as int).map_values(|d: Typing| offense(self, d)),
            decreases 18 - c,
        {
            r.push(self.offense_multiplier(Typing::from_code(c)));
            assert(all_typings_seq().take(c + 1).map_values(|d: Typing| offense(self, d))
                =~= all_typings_seq().take(c as int).map_values(|d: Typing| offense(self, d)).push(
                offense(self, typing_at(c as int)),
            ));
            c = c + 1;
        }
        assert(all_typings_seq().take(18) =~= all_typings_seq());
        r
    }

    /// The effectiveness of a move of typing `other` against a target of this typing.
    pub fn defense_multiplier(self, other: Typing) -> (r: Multiplier)
        ensures
            r == defense(self, other),
    {
        other.offense_multiplier(self)
    }

    /// The effectiveness of a move of each typing, in numeric order, against a target of this
    /// typing.
    pub fn defense_multipliers(self) -> (r: Vec<Multiplier>)
        ensures
            r@ == all_typings_seq().map_values(|a: Typing| offense(a, self)),
    {
        let mut r: Vec<Multiplier> = Vec::new();
        let mut c: u8 = 0;
        while c < 18
            invariant
                c <= 18,
                r@ == all_typings_seq().take(c as int).map_values(|a: Typing| offense(a, self)),
            decreases 18 - c,
        {
            r.push(self.defense_multiplier(Typing::from_code(c)));
            assert(all_typings_seq().take(c + 1).map_values(|a: Typing| offense(a, self))
                =~= all_typings_seq().take(c as int).map_values(|a: Typing| offense(a, self)).push(
                offense(typing_at(c as int), self),
            ));
            c = c + 1;
        }
        assert(all_typings_seq().take(18) =~= all_typings_seq());
        r
    }

    /// The effectiveness of a move of this typing against a target that has both typings of
    /// `other`.
    pub fn combined_effectiveness(self, other: (Typing, Typing)) -> (r: Multiplier)
        ensures
            r == combined(offense(self, other.0), offense(self, other.1)),
    {
        let (first, second) = other;
        self.offense_multiplier(first) * self.offense_multiplier(second)
    }

    /// The typings, in numeric order, whose moves hit this typing with effectiveness `level`.
    fn attackers_with(self, level: Multiplier) -> (r: Vec<Typing>)
        ensures
            r@ == all_typings_seq().filter(hits_with(self, level)),
    {
        let mut r: Vec<Typing> = Vec::new();
        let mut c: u8 = 0;
        while c < 18
            invariant
                c <= 18,
                r@ == all_typings_seq().take(c as int).filter(hits_with(self, level)),
            decreases 18 - c,
        {
            let t = Typing::from_code(c);
            if t.offense_multiplier(self) == level {
                r.push(t);
            }
            proof {
                let before = all_typings_seq().take(c as int);
                let after = all_typings_seq().take(c + 1);
                assert(after.drop_last() =~= before);
                assert(after.last() == t);
                reveal(Seq::filter);
            }
            c = c + 1;
        }
        assert(all_typings_seq().take(18) =~= all_typings_seq());
        r
    }

    /// The typings, in numeric order, that moves of this typing hit with effectiveness `level`.
    fn defenders_with(self, level: Multiplier) -> (r: Vec<Typing>)
        ensures
            r@ == all_typings_seq().filter(is_hit_with(self, level)),
    {
        let mut r: Vec<Typing> = Vec::new();
        let mut c: u8 = 0;
        while c < 18
            invariant
                c <= 18,
                r@ == all_typings_seq().take(c as int).filter(is_hit_with(self, level)),
            decreases 18 - c,
        {
            let t = Typing::from_code(c);
            if self.offense_multiplier(t) == level {
                r.push(t);
            }
            proof {
                let before = all_typings_seq().take(c as int);
                let after = all_typings_seq().take(c + 1);
                assert(after.drop_last() =~= before);
                assert(after.last() == t);
                reveal(Seq::filter);
            }
            c = c + 1;
        }
        assert(all_typings_seq().take(18) =~= all_typings_seq());
        r
    }

    /// The typings, in numeric order, whose moves hit this typing super effectively.
    pub fn weak_to(self) -> (r: Vec<Typing>)
        ensures
            r@ == all_typings_seq().filter(hits_with(self, Multiplier::Weakness)),
    {
        self.attackers_with(Multiplier::Weakness)
    }

    /// The typings, in numeric order, whose moves hit this typing not very effectively.
    pub fn resistant_to(self) -> (r: Vec<Typing>)
        ensures
            r@ == all_typings_seq().filter(hits_with(self, Multiplier::Resistance)),
    {
        self.attackers_with(Multiplier::Resistance)
    }

    /// The typings, in numeric order, whose moves hit this typing with regular effectiveness.
    pub fn neutral_to(self) -> (r: Vec<Typing>)
        ensures
            r@ == all_typings_seq().filter(hits_with(self, Multiplier::Regular)),
    {
        self.attackers_with(Multiplier::Regular)
    }

    /// The typings, in numeric order, whose moves this typing is immune to.
    pub fn immune_to(self) -> (r: Vec<Typing>)
        ensures
            r@ == all_typings_seq().filter(hits_with(self, Multiplier::Immunity)),
    {
        self.attackers_with(Multiplier::Immunity)
    }

    /// The typings, in numeric order, that moves of this typing hit super effectively.
    pub fn weak_against(self) -> (r: Vec<Typing>)
        ensures
            r@ == all_typings_seq().filter(is_hit_with(self, Multiplier::Weakness)),
    {
        self.defenders_with(Multiplier::Weakness)
    }

    /// The typings, in numeric order, that moves of this typing hit not very effectively.
    pub fn resistant_against(self) -> (r: Vec<Typing>)
        ensures
            r@ == all_typings_seq().filter(is_hit_with(self, Multiplier::Resistance)),
    {
        self.defenders_with(Multiplier::Resistance)
    }

    /// The typings, in numeric order, that moves of this typing hit with regular effectiveness.
    pub fn neutral_against(self) -> (r: Vec<Typing>)
        ensures
            r@ == all_typings_seq().filter(is_hit_with(self, Multiplier::Regular)),
    {
        self.defenders_with(Multiplier::Regular)
    }

    /// The typings, in numeric order, that are immune to moves of this typing.
    pub fn immune_against(self) -> (r: Vec<Typing>)
        ensures
            r@ == all_typings_seq().filter(is_hit_with(self, Multiplier::Immunity)),
    {
        self.defenders_with(Multiplier::Immunity)
    }
}

/// Decoding the factor of a level gives that level back.
pub proof fn lemma_quarters_round_trip(m: Multiplier)
    ensures
        decoded(quarters_of(m)) == Ok::<Multiplier, InvalidNumericMultiplierError>(m),
{
}

/// Combining two levels gives the level whose factor is the product of theirs, clamped to
/// the range from a quarter to four unless it is zero.
pub proof fn lemma_combined_is_clamped_product(a: Multiplier, b: Multiplier)
    ensures
        4 * quarters_of(combined(a, b)) == clamped_product(quarters_of(a) * quarters_of(b)),
{
}

/// Typing codes and typings correspond one to one: the code of a typing is below 18 and the
/// typing at that code is the typing itself.
pub proof fn lemma_typing_code_round_trip(t: Typing)
    ensures
        0 <= code_of(t) < 18,
        typing_at(code_of(t)) == t,
        all_typings_seq()[code_of(t)] == t,
{
}

/// The defensive effectiveness of `b` against `a` is the offensive effectiveness of `a`
/// against `b`.
pub proof fn lemma_defense_mirrors_offense(a: Typing, b: Typing)
    ensures
        defense(b, a) == offense(a, b),
{
}

/// A single typing never doubles a resistance or a weakness.
pub proof fn lemma_single_matchup_levels(a: Typing, d: Typing)
    ensures
        offense(a, d) == Multiplier::Immunity || offense(a, d) == Multiplier::Resistance
            || offense(a, d) == Multiplier::Regular || offense(a, d) == Multiplier::Weakness,
{
    lemma_chart_cells(a, d);
}

/// The effectiveness of each typing against itself.
pub proof fn lemma_self_matchups(t: Typing)
    ensures
        offense(t, t) == match t {
            Typing::Normal => Multiplier::Regular,
            Typing::Fighting => Multiplier::Regular,
            Typing::Flying => Multiplier::Regular,
            Typing::Poison => Multiplier::Resistance,
            Typing::Ground => Multiplier::Regular,
            Typing::Rock => Multiplier::Regular,
            Typing::Bug => Multiplier::Regular,
            Typing::GhostType => Multiplier::Weakness,
            Typing::Steel => Multiplier::Resistance,
            Typing::Fire => Multiplier::Resistance,
            Typing::Water => Multiplier::Resistance,
            Typing::Grass => Multiplier::Resistance,
            Typing::Electric => Multiplier::Resistance,
            Typing::Psychic => Multiplier::Resistance,
            Typing::Ice => Multiplier::Resistance,
            Typing::Dragon => Multiplier::Weakness,
            Typing::Dark => Multiplier::Resistance,
            Typing::Fairy => Multiplier::Regular,
        },
{
}

/// Against a fixed defending typing, every attacking typing falls in exactly one of the four
/// lists of `weak_to`, `resistant_to`, `neutral_to` and `immune_to`.
pub proof fn lemma_attackers_partition(d: Typing, a: Typing)
    ensures
        ({
            let all = all_typings_seq();
            let weak = all.filter(hits_with(d, Multiplier::Weakness)).contains(a);
            let resistant = all.filter(hits_with(d, Multiplier::Resistance)).contains(a);
            let neutral = all.filter(hits_with(d, Multiplier::Regular)).contains(a);
            let immune = all.filter(hits_with(d, Multiplier::Immunity)).contains(a);
            (weak as int) + (resistant as int) + (neutral as int) + (immune as int) == 1
        }),
{
    let all = all_typings_seq();
    lemma_typing_code_round_trip(a);
    lemma_single_matchup_levels(a, d);
    assert forall|level: Multiplier|
        all.filter(hits_with(d, level)).contains(a) <==> offense(a, d) == level by {
        let f = all.filter(hits_with(d, level));
        if offense(a, d) == level {
            all.lemma_filter_contains(hits_with(d, level), code_of(a));
        }
        if f.contains(a) {
            let j = choose|j: int| 0 <= j < f.len() && f[j] == a;
            all.lemma_filter_pred(hits_with(d, level), j);
        }
    }
}

/// Every chart cell is none, a half, one or two.
proof fn lemma_chart_cells(a: Typing, d: Typing)
    ensures
        chart_quarters(a, d) == 0 || chart_quarters(a, d) == 2 || chart_quarters(a, d) == 4
            || chart_quarters(a, d) == 8,
{
}

} // verus!
