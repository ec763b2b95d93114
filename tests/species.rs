use salazzle::species::{
    DeoxysForme, MegaEvolution, ParseSpeciesError, Species, SpeciesDiscriminant,
};

#[test]
fn test_ids() {
    // each is 1 less than the National Pokedex number, because this starts at 0
    assert_eq!(SpeciesDiscriminant::Poipole as u32, 802);
    assert_eq!(SpeciesDiscriminant::Zeraora as u32, 806);
    assert_eq!(SpeciesDiscriminant::Castform as u32, 350);
}

#[test]
fn test_from_names() {
    assert_eq!(SpeciesDiscriminant::from_str("Bulbasaur").unwrap(), SpeciesDiscriminant::Bulbasaur);

    assert_eq!(SpeciesDiscriminant::from_str("Ho-Oh").unwrap(), SpeciesDiscriminant::HoOh);
    assert_eq!(SpeciesDiscriminant::from_str("HoOh").unwrap(), SpeciesDiscriminant::HoOh);

    assert_eq!(SpeciesDiscriminant::from_str("Farfetch'd").unwrap(), SpeciesDiscriminant::Farfetchd);
    assert_eq!(SpeciesDiscriminant::from_str("Farfetchd").unwrap(), SpeciesDiscriminant::Farfetchd);

    assert_eq!(SpeciesDiscriminant::from_str("Porygon-Z").unwrap(), SpeciesDiscriminant::PorygonZ);
    assert_eq!(SpeciesDiscriminant::from_str("PorygonZ").unwrap(), SpeciesDiscriminant::PorygonZ);

    assert_eq!(SpeciesDiscriminant::from_str("Nidoran♀").unwrap(), SpeciesDiscriminant::NidoranF);
    assert_eq!(SpeciesDiscriminant::from_str("NidoranF").unwrap(), SpeciesDiscriminant::NidoranF);

    assert_eq!(SpeciesDiscriminant::from_str("Nidoran♂").unwrap(), SpeciesDiscriminant::NidoranM);
    assert_eq!(SpeciesDiscriminant::from_str("NidoranM").unwrap(), SpeciesDiscriminant::NidoranM);

    assert_eq!(SpeciesDiscriminant::from_str("Jangmo-O").unwrap(), SpeciesDiscriminant::JangmoO);
    assert_eq!(SpeciesDiscriminant::from_str("JangmoO").unwrap(), SpeciesDiscriminant::JangmoO);

    assert_eq!(SpeciesDiscriminant::from_str("Hakamo-O").unwrap(), SpeciesDiscriminant::HakamoO);
    assert_eq!(SpeciesDiscriminant::from_str("HakamoO").unwrap(), SpeciesDiscriminant::HakamoO);

    assert_eq!(SpeciesDiscriminant::from_str("Kommo-O").unwrap(), SpeciesDiscriminant::KommoO);
    assert_eq!(SpeciesDiscriminant::from_str("KommoO").unwrap(), SpeciesDiscriminant::KommoO);

    assert_eq!(SpeciesDiscriminant::from_str("Tapu Koko").unwrap(), SpeciesDiscriminant::TapuKoko);
    assert_eq!(SpeciesDiscriminant::from_str("TapuKoko").unwrap(), SpeciesDiscriminant::TapuKoko);

    assert_eq!(SpeciesDiscriminant::from_str("Tapu Bulu").unwrap(), SpeciesDiscriminant::TapuBulu);
    assert_eq!(SpeciesDiscriminant::from_str("TapuBulu").unwrap(), SpeciesDiscriminant::TapuBulu);

    assert_eq!(SpeciesDiscriminant::from_str("Tapu Lele").unwrap(), SpeciesDiscriminant::TapuLele);
    assert_eq!(SpeciesDiscriminant::from_str("TapuLele").unwrap(), SpeciesDiscriminant::TapuLele);

    assert_eq!(SpeciesDiscriminant::from_str("Tapu Fini").unwrap(), SpeciesDiscriminant::TapuFini);
    assert_eq!(SpeciesDiscriminant::from_str("TapuFini").unwrap(), SpeciesDiscriminant::TapuFini);
}

#[test]
fn test_to_names_and_enumiter() {
    for species in SpeciesDiscriminant::iter() {
        assert_eq!(SpeciesDiscriminant::from_str(species.name()).unwrap(), species);
    }

    assert_eq!(SpeciesDiscriminant::HoOh.name(), "Ho-Oh");
    assert_eq!(SpeciesDiscriminant::Farfetchd.name(), "Farfetch'd");
    assert_eq!(SpeciesDiscriminant::PorygonZ.name(), "Porygon-Z");
    assert_eq!(SpeciesDiscriminant::NidoranF.name(), "Nidoran♀");
    assert_eq!(SpeciesDiscriminant::NidoranM.name(), "Nidoran♂");
    assert_eq!(SpeciesDiscriminant::JangmoO.name(), "Jangmo-O");
    assert_eq!(SpeciesDiscriminant::HakamoO.name(), "Hakamo-O");
    assert_eq!(SpeciesDiscriminant::KommoO.name(), "Kommo-O");
    assert_eq!(SpeciesDiscriminant::TapuKoko.name(), "Tapu Koko");
    assert_eq!(SpeciesDiscriminant::TapuBulu.name(), "Tapu Bulu");
    assert_eq!(SpeciesDiscriminant::TapuLele.name(), "Tapu Lele");
    assert_eq!(SpeciesDiscriminant::TapuFini.name(), "Tapu Fini");
    assert_eq!(SpeciesDiscriminant::TypeNull.name(), "Type: Null");
}

#[test]
fn species_list_in_dex_order() {
    let all = SpeciesDiscriminant::iter();
    assert_eq!(all.len(), 807);
    for (i, k) in all.iter().enumerate() {
        assert_eq!(*k as usize, i);
    }
    assert_eq!(all[0], SpeciesDiscriminant::Bulbasaur);
    assert_eq!(all[385], SpeciesDiscriminant::Deoxys);
    assert_eq!(all[386], SpeciesDiscriminant::Turtwig);
}

#[test]
fn unknown_names_are_rejected() {
    assert_eq!(SpeciesDiscriminant::from_str("Agumon"), Err(ParseSpeciesError {}));
    assert_eq!(SpeciesDiscriminant::from_str(""), Err(ParseSpeciesError {}));
    assert_eq!(SpeciesDiscriminant::from_str("bulbasaur"), Err(ParseSpeciesError {}));
    assert_eq!(SpeciesDiscriminant::from_str("Mr. Mime").unwrap(), SpeciesDiscriminant::MrMime);
    assert_eq!(SpeciesDiscriminant::from_str("Mime Jr.").unwrap(), SpeciesDiscriminant::MimeJr);
}

#[test]
fn formes() {
    assert!(Species::Deoxys(DeoxysForme::Speed).has_forme());
    assert!(Species::Venusaur(MegaEvolution::Mega).has_forme());
    assert!(!Species::Bulbasaur.has_forme());
    assert!(!Species::Zeraora.has_forme());
    assert_eq!(SpeciesDiscriminant::from(Species::Venusaur(MegaEvolution::Normal)),
               SpeciesDiscriminant::Venusaur);
    assert_eq!(SpeciesDiscriminant::from(Species::Zeraora), SpeciesDiscriminant::Zeraora);
    assert!(SpeciesDiscriminant::Necrozma.has_formes());
    assert!(!SpeciesDiscriminant::Pikachu.has_formes());
}
