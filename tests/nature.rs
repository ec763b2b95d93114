use salazzle::nature::Nature;
use salazzle::stat::Stat;

#[test]
fn test_neutral_stats() {
    for nat in Nature::all_natures() {
        if !nat.has_stat_effect() {
            assert_eq!(nat.increased_stat(), nat.decreased_stat());
        }
    }
}

#[test]
fn nature_table() {
    let all = Nature::all_natures();
    assert_eq!(all.len(), 25);
    assert_eq!(all[0], Nature::Hardy);
    assert_eq!(all[24], Nature::Serious);
    assert_eq!(all.iter().filter(|n| !n.has_stat_effect()).count(), 5);
    assert_eq!(Nature::Adamant.increased_stat(), Stat::Atk);
    assert_eq!(Nature::Adamant.decreased_stat(), Stat::SpA);
    assert_eq!(Nature::Timid.increased_stat(), Stat::Spe);
    assert_eq!(Nature::Timid.decreased_stat(), Stat::Atk);
    assert_eq!(Nature::Sassy.increased_stat(), Stat::SpD);
    assert_eq!(Nature::Sassy.decreased_stat(), Stat::Spe);
    assert!(Nature::Modest.has_stat_effect());
    assert!(!Nature::Bashful.has_stat_effect());
}
