use salazzle::stat::Stat;
use salazzle::weather::Weather;

#[test]
fn it_works() {
    assert_eq!(2 + 2, 4);
}

#[test]
fn special_weather() {
    assert!(Weather::HeavyRain.is_special());
    assert!(Weather::HarshSun.is_special());
    assert!(Weather::StrongWinds.is_special());
    assert!(!Weather::Rain.is_special());
    assert!(!Weather::Sun.is_special());
    assert!(!Weather::Normal.is_special());
    assert!(!Weather::Sand.is_special());
    assert!(!Weather::Hail.is_special());
}

#[test]
fn stat_names() {
    assert_eq!(Stat::HP.name(), "HP");
    assert_eq!(Stat::SpA.name(), "Special Attack");
    assert_eq!(Stat::Spe.name(), "Speed");
}
