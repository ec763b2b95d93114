use salazzle::typing::{InvalidNumericMultiplierError, InvalidTypingCodeError, Multiplier, Typing};
use std::convert::TryFrom;

#[test]
fn test_offense_multipliers() {
    assert_eq!(Typing::Ground.offense_multiplier(Typing::Flying), Multiplier::Immunity);
    assert_eq!(Typing::Water.offense_multiplier(Typing::Fire), Multiplier::Weakness);
    assert_eq!(Typing::Normal.offense_multiplier(Typing::Grass), Multiplier::Regular);
    assert_eq!(Typing::Fighting.offense_multiplier(Typing::Psychic), Multiplier::Resistance);
}

#[test]
fn test_defense_multipliers() {
    assert_eq!(Typing::GhostType.defense_multiplier(Typing::Normal), Multiplier::Immunity);
    assert_eq!(Typing::Flying.defense_multiplier(Typing::Electric), Multiplier::Weakness);
    assert_eq!(Typing::Steel.defense_multiplier(Typing::Dark), Multiplier::Regular);
    assert_eq!(Typing::Fairy.defense_multiplier(Typing::Bug), Multiplier::Resistance);
}

#[test]
fn test_weak_against() {
    assert_eq!(Typing::Ice.weak_against(),
               vec![Typing::Flying, Typing::Ground, Typing::Grass, Typing::Dragon]);
    assert_eq!(Typing::Dragon.weak_against(), vec![Typing::Dragon]);
}

#[test]
fn test_neutral_against() {
    assert_eq!(Typing::Bug.neutral_against(),
               vec![Typing::Normal, Typing::Ground, Typing::Rock, Typing::Bug, Typing::Water,
                    Typing::Electric, Typing::Ice, Typing::Dragon]);
    assert_eq!(Typing::Poison.neutral_against(),
               vec![Typing::Normal, Typing::Fighting, Typing::Flying, Typing::Bug, Typing::Fire,
                    Typing::Water, Typing::Electric, Typing::Psychic, Typing::Ice, Typing::Dragon,
                    Typing::Dark]);
}

#[test]
fn test_resistant_against() {
    assert_eq!(Typing::Fighting.resistant_against(),
               vec![Typing::Flying, Typing::Poison, Typing::Bug, Typing::Psychic, Typing::Fairy]);
    assert_eq!(Typing::Grass.resistant_against(),
               vec![Typing::Flying, Typing::Poison, Typing::Bug, Typing::Steel, Typing::Fire,
                    Typing::Grass, Typing::Dragon]);
}

#[test]
fn defense_mirrors_offense_for_every_pair() {
    for a in Typing::all_typings() {
        for b in Typing::all_typings() {
            assert_eq!(b.defense_multiplier(a), a.offense_multiplier(b));
        }
    }
}

#[test]
fn self_matchups() {
    let expected = [
        (Typing::Normal, Multiplier::Regular),
        (Typing::Fighting, Multiplier::Regular),
        (Typing::Flying, Multiplier::Regular),
        (Typing::Poison, Multiplier::Resistance),
        (Typing::Ground, Multiplier::Regular),
        (Typing::Rock, Multiplier::Regular),
        (Typing::Bug, Multiplier::Regular),
        (Typing::GhostType, Multiplier::Weakness),
        (Typing::Steel, Multiplier::Resistance),
        (Typing::Fire, Multiplier::Resistance),
        (Typing::Water, Multiplier::Resistance),
        (Typing::Grass, Multiplier::Resistance),
        (Typing::Electric, Multiplier::Resistance),
        (Typing::Psychic, Multiplier::Resistance),
        (Typing::Ice, Multiplier::Resistance),
        (Typing::Dragon, Multiplier::Weakness),
        (Typing::Dark, Multiplier::Resistance),
        (Typing::Fairy, Multiplier::Regular),
    ];
    for (t, m) in expected.iter() {
        assert_eq!(t.offense_multiplier(*t), *m);
    }
}

#[test]
fn quarters_round_trip_for_every_level() {
    let levels = [
        Multiplier::Immunity,
        Multiplier::DoubleResistance,
        Multiplier::Resistance,
        Multiplier::Regular,
        Multiplier::Weakness,
        Multiplier::DoubleWeakness,
    ];
    for m in levels.iter() {
        assert_eq!(Multiplier::from_quarters(m.to_quarters()).unwrap(), *m);
    }
    assert_eq!(Multiplier::DoubleResistance.to_quarters(), 1);
    assert_eq!(Multiplier::DoubleWeakness.to_quarters(), 16);
}

#[test]
fn invalid_quarters_are_rejected() {
    assert_eq!(Multiplier::from_quarters(3), Err(InvalidNumericMultiplierError {}));
    assert_eq!(Multiplier::from_quarters(32), Err(InvalidNumericMultiplierError {}));
    assert_eq!(Multiplier::from_quarters(8), Ok(Multiplier::Weakness));
}

#[test]
fn combination_clamps() {
    assert_eq!(Multiplier::Weakness.combine(Multiplier::Weakness), Multiplier::DoubleWeakness);
    assert_eq!(Multiplier::Resistance.combine(Multiplier::Resistance), Multiplier::DoubleResistance);
    assert_eq!(Multiplier::Immunity.combine(Multiplier::Weakness), Multiplier::Immunity);
    assert_eq!(Multiplier::Weakness * Multiplier::Weakness, Multiplier::DoubleWeakness);
    assert_eq!(Multiplier::DoubleWeakness * Multiplier::Weakness, Multiplier::DoubleWeakness);
    assert_eq!(Multiplier::DoubleWeakness * Multiplier::DoubleWeakness, Multiplier::DoubleWeakness);
    assert_eq!(Multiplier::DoubleResistance * Multiplier::DoubleResistance,
               Multiplier::DoubleResistance);
    assert_eq!(Multiplier::Weakness * Multiplier::Resistance, Multiplier::Regular);
    assert_eq!(Multiplier::DoubleWeakness * Multiplier::Resistance, Multiplier::Weakness);
    assert_eq!(Multiplier::Regular * Multiplier::Immunity, Multiplier::Immunity);
}

#[test]
fn concrete_matchups() {
    assert_eq!(Typing::Water.offense_multiplier(Typing::Fire), Multiplier::Weakness);
    assert_eq!(Typing::Ground.offense_multiplier(Typing::Flying), Multiplier::Immunity);
    assert_eq!(Typing::Ice.weak_against(),
               vec![Typing::Flying, Typing::Ground, Typing::Grass, Typing::Dragon]);
}

#[test]
fn dual_typing_effectiveness() {
    assert_eq!(Typing::Ice.combined_effectiveness((Typing::Flying, Typing::Ground)),
               Multiplier::DoubleWeakness);
    assert_eq!(Typing::Electric.combined_effectiveness((Typing::Water, Typing::Ground)),
               Multiplier::Immunity);
    assert_eq!(Typing::Fire.combined_effectiveness((Typing::Water, Typing::Rock)),
               Multiplier::DoubleResistance);
    assert_eq!(Typing::Fire.combined_effectiveness((Typing::Grass, Typing::Water)),
               Multiplier::Regular);
}

#[test]
fn attackers_fall_in_exactly_one_list() {
    for d in Typing::all_typings() {
        let lists = [d.weak_to(), d.resistant_to(), d.neutral_to(), d.immune_to()];
        for a in Typing::all_typings() {
            let n = lists.iter().filter(|l| l.contains(&a)).count();
            assert_eq!(n, 1);
        }
    }
}

#[test]
fn incoming_lists() {
    assert_eq!(Typing::Flying.weak_to(), vec![Typing::Rock, Typing::Electric, Typing::Ice]);
    assert_eq!(Typing::Flying.immune_to(), vec![Typing::Ground]);
    assert_eq!(Typing::Normal.immune_to(), vec![Typing::GhostType]);
    assert_eq!(Typing::Fire.resistant_to(),
               vec![Typing::Bug, Typing::Steel, Typing::Fire, Typing::Grass, Typing::Ice,
                    Typing::Fairy]);
    assert_eq!(Typing::Dragon.neutral_to().len(), 11);
}

#[test]
fn outgoing_immunities() {
    assert_eq!(Typing::Normal.immune_against(), vec![Typing::GhostType]);
    assert_eq!(Typing::Dragon.immune_against(), vec![Typing::Fairy]);
    assert_eq!(Typing::Fire.immune_against(), vec![]);
}

#[test]
fn multiplier_rows_and_columns() {
    let row = Typing::Electric.offense_multipliers();
    assert_eq!(row.len(), 18);
    assert_eq!(row[4], Multiplier::Immunity);
    assert_eq!(row[2], Multiplier::Weakness);
    let column = Typing::Fire.defense_multipliers();
    assert_eq!(column.len(), 18);
    assert_eq!(column[10], Multiplier::Weakness);
    assert_eq!(column[9], Multiplier::Resistance);
}

#[test]
fn typing_codes() {
    let all = Typing::all_typings();
    assert_eq!(all.len(), 18);
    for (i, t) in all.iter().enumerate() {
        assert_eq!(t.num_code() as usize, i);
        assert_eq!(Typing::try_from(i as u8), Ok(*t));
    }
    assert_eq!(Typing::Fairy.num_code(), 17);
    assert_eq!(Typing::try_from(18u8), Err(InvalidTypingCodeError {}));
    assert_eq!(Typing::try_from(255u8), Err(InvalidTypingCodeError {}));
}
