//! Species, by National Dex number, up to Zeraora.
//!
//! Where several creatures of different stats, typing, ability or moves share a species and a
//! dex number, the species carries its form, so that a value of `Species` fixes everything that
//! matters in battle. Forms that change nothing in battle (cosmetic variants, Unown letters,
//! the Genesect drives and the like) are left out.
//!
//! `SpeciesDiscriminant` is the species alone, without its form. It is numbered from 0 in dex
//! order, has the in-game name of each species, and parses both the in-game name and the name of
//! its variant ("Tapu Koko" and "TapuKoko").
use vstd::prelude::*;

verus! {

/// The forms of Castform. They share stats and take the typing of the weather: Normal, Fire, Water
/// or Ice.
#[derive(Copy, Clone, Debug, PartialEq, Eq, Structural, Hash)]
pub enum CastformForme {
    Normal,
    Sunny,
    Rainy,
    Snowy,
}

/// The forms of Deoxys, which differ in stats and in the moves they can learn.
#[derive(Copy, Clone, Debug, PartialEq, Eq, Structural, Hash)]
pub enum DeoxysForme {
    Normal,
    Attack,
    Defense,
    Speed,
}

/// The cloaks of Wormadam, which differ in typing and in the moves they can learn.
#[derive(Copy, Clone, Debug, PartialEq, Eq, Structural, Hash)]
pub enum WormadamForme {
    Plant,
    Sandy,
    Trash,
}

/// The forms of Rotom: its own, and one for each appliance it can possess. The appliances share
/// stats but differ in typing and moves. `GhostType` is Rotom's own Electric/Ghost form.
#[derive(Copy, Clone, Debug, PartialEq, Eq, Structural, Hash)]
pub enum RotomForme {
    GhostType,
    Heat,
    Wash,
    Frost,
    Fan,
    Mow,
}

/// The forms of Giratina. The Origin form swaps the attacking and defending stats of the Altered
/// form and has another ability.
#[derive(Copy, Clone, Debug, PartialEq, Eq, Structural, Hash)]
pub enum GiratinaForme {
    Altered,
    Origin,
}

/// The forms of Arceus, one per typing, chosen by its held plate. Each sets the typing of Arceus
/// and of Judgment. `GhostType` is the Ghost form.
#[derive(Copy, Clone, Debug, PartialEq, Eq, Structural, Hash)]
pub enum ArceusForme {
    Normal,
    Fire,
    Water,
    Electric,
    Grass,
    Ice,
    Fighting,
    Poison,
    Ground,
    Flying,
    Psychic,
    Bug,
    Rock,
    GhostType,
    Dragon,
    Dark,
    Steel,
    Fairy,
}

/// The forms of Darmanitan. It enters Zen Mode when its HP falls below half at the end of a turn,
/// which changes typing and stats.
#[derive(Copy, Clone, Debug, PartialEq, Eq, Structural, Hash)]
pub enum DarmanitanForme {
    Standard,
    ZenMode,
}

/// The forms of Kyurem, which differ in stats and in some moves.
#[derive(Copy, Clone, Debug, PartialEq, Eq, Structural, Hash)]
pub enum KyuremForme {
    Normal,
    Black,
    White,
}

/// The forms of Meloetta. It starts each battle as Aria and switches by using Relic Song; the two
/// differ in typing and stats.
#[derive(Copy, Clone, Debug, PartialEq, Eq, Structural, Hash)]
pub enum MeloettaForme {
    Aria,
    Pirouette,
}

/// The forms of Greninja: `Normal` has Torrent or Protean, `BattleBond` has Battle Bond and has not
/// yet changed, and `Ash` is the form it takes after a knockout with Battle Bond.
#[derive(Copy, Clone, Debug, PartialEq, Eq, Structural, Hash)]
pub enum GreninjaForme {
    Normal,
    BattleBond,
    Ash,
}

/// The sizes of Gourgeist and Pumpkaboo, which differ in base stats.
#[derive(Copy, Clone, Debug, PartialEq, Eq, Structural, Hash)]
pub enum GourgeistForme {
    Small,
    Average,
    Large,
    Super,
}

/// The forms of Zygarde: 10%, 50%, and the Complete form that Power Construct brings at low HP.
/// They differ in base stats.
#[derive(Copy, Clone, Debug, PartialEq, Eq, Structural, Hash)]
pub enum ZygardeForme {
    TenPercent,
    FiftyPercent,
    Complete,
}

/// The forms of Hoopa, which differ in stats, moves, typing and appearance.
#[derive(Copy, Clone, Debug, PartialEq, Eq, Structural, Hash)]
pub enum HoopaForme {
    Confined,
    Unbound,
}

/// The styles of Oricorio, which set its typing and so the typing of Revelation Dance. `PomPom` is
/// Pom-Pom and `Pau` is Pa'u.
#[derive(Copy, Clone, Debug, PartialEq, Eq, Structural, Hash)]
pub enum OricorioForme {
    Baile,
    PomPom,
    Pau,
    Sensu,
}

/// The forms of Lycanroc, which differ in moves, ability and base stats.
#[derive(Copy, Clone, Debug, PartialEq, Eq, Structural, Hash)]
pub enum LycanrocForme {
    Midday,
    Midnight,
    Dusk,
}

/// The forms of Wishiwashi. It starts schooled and turns solo when its HP reaches a quarter at the
/// end of a turn; only base stats differ.
#[derive(Copy, Clone, Debug, PartialEq, Eq, Structural, Hash)]
pub enum WishiwashiForme {
    School,
    Solo,
}

/// The forms of Shaymin, which differ in typing, stats, moves and ability.
#[derive(Copy, Clone, Debug, PartialEq, Eq, Structural, Hash)]
pub enum ShayminForme {
    Land,
    Sky,
}

/// The forms of Silvally and Type: Null, one per typing, chosen by the held memory, which set the
/// typing of Multi-Attack. `GhostType` is the Ghost form.
#[derive(Copy, Clone, Debug, PartialEq, Eq, Structural, Hash)]
pub enum SilvallyForme {
    Normal,
    Fire,
    Water,
    Electric,
    Grass,
    Ice,
    Fighting,
    Poison,
    Ground,
    Flying,
    Psychic,
    Bug,
    Rock,
    GhostType,
    Dragon,
    Dark,
    Steel,
    Fairy,
}

/// The forms of Minior. Its Meteor form shields it from status and breaks into its Core form below
/// half HP.
#[derive(Copy, Clone, Debug, PartialEq, Eq, Structural, Hash)]
pub enum MiniorForme {
    Meteor,
    Core,
}

/// The forms of Mimikyu: with its disguise, and after a hit has broken it.
#[derive(Copy, Clone, Debug, PartialEq, Eq, Structural, Hash)]
pub enum MimikyuForme {
    Disguised,
    Busted,
}

/// The forms of Necrozma: its own, fused with Solgaleo (`DuskMane`), fused with Lunala
/// (`DuskWings`, the Dawn Wings form), and Ultra Necrozma.
#[derive(Copy, Clone, Debug, PartialEq, Eq, Structural, Hash)]
pub enum NecrozmaForme {
    Normal,
    DuskMane,
    DuskWings,
    Ultra,
}

/// The regional forms of Alola, which differ in typing, ability, stats and moves.
#[derive(Copy, Clone, Debug, PartialEq, Eq, Structural, Hash)]
pub enum AlolaForme {
    Normal,
    Alola,
}

/// Mega Evolution, for a species with one Mega form. It keeps HP, adds 100 to the other base stats,
/// and may change typing and ability.
#[derive(Copy, Clone, Debug, PartialEq, Eq, Structural, Hash)]
pub enum MegaEvolution {
    Normal,
    Mega,
}

/// Mega Evolution for the two species with both an X and a Y Mega form: Charizard and Mewtwo.
#[derive(Copy, Clone, Debug, PartialEq, Eq, Structural, Hash)]
pub enum XYMegaEvolution {
    Normal,
    MegaX,
    MegaY,
}

/// Primal Reversion of Kyogre and Groudon, set off by a held orb on entry; it changes ability,
/// typing and stats.
#[derive(Copy, Clone, Debug, PartialEq, Eq, Structural, Hash)]
pub enum PrimalReversion {
    Normal,
    Primal,
}

/// The forms of Tornadus, Thundurus and Landorus, which differ in typing, ability, stats and moves.
#[derive(Copy, Clone, Debug, PartialEq, Eq, Structural, Hash)]
pub enum GenieForme {
    Incarnate,
    Therian,
}

/// The stances of Aegislash: `Sword` (its Blade Forme) to attack and `Shield` to defend. It
/// switches between them as it uses moves.
#[derive(Copy, Clone, Debug, PartialEq, Eq, Structural, Hash)]
pub enum AegislashForme {
    Sword,
    Shield,
}

/// A species together with its form, where it has forms. Variant names drop punctuation and
/// spaces from the in-game names (`Farfetchd`, `TapuKoko`) and write the symbols of the two
/// Nidoran as `F` and `M`.
#[derive(Copy, Clone, Debug, PartialEq, Eq, Structural, Hash)]
pub enum Species {
    Bulbasaur,
    Ivysaur,
    Venusaur(MegaEvolution),
    Charmander,
    Charmeleon,
    Charizard(XYMegaEvolution),
    Squirtle,
    Wartortle,
    Blastoise(MegaEvolution),
    Caterpie,
    Metapod,
    Butterfree,
    Weedle,
    Kakuna,
    Beedrill(MegaEvolution),
    Pidgey,
    Pidgeotto,
    Pidgeot(MegaEvolution),
    Rattata(AlolaForme),
    Raticate(AlolaForme),
    Spearow,
    Fearow,
    Ekans,
    Arbok,
    Pikachu,
    Raichu(AlolaForme),
    Sandshrew(AlolaForme),
    Sandslash(AlolaForme),
    NidoranF,
    Nidorina,
    Nidoqueen,
    NidoranM,
    Nidorino,
    Nidoking,
    Clefairy,
    Clefable,
    Vulpix(AlolaForme),
    Ninetales(AlolaForme),
    Jigglypuff,
    Wigglytuff,
    Zubat,
    Golbat,
    Oddish,
    Gloom,
    Vileplume,
    Paras,
    Parasect,
    Venonat,
    Venomoth,
    Diglett(AlolaForme),
    Dugtrio(AlolaForme),
    Meowth,
    Persian(AlolaForme),
    Psyduck,
    Golduck,
    Mankey,
    Primeape,
    Growlithe,
    Arcanine,
    Poliwag,
    Poliwhirl,
    Poliwrath,
    Abra,
    Kadabra,
    Alakazam(MegaEvolution),
    Machop,
    Machoke,
    Machamp,
    Bellsprout,
    Weepinbell,
    Victreebel,
    Tentacool,
    Tentacruel,
    Geodude(AlolaForme),
    Graveler(AlolaForme),
    Golem(AlolaForme),
    Ponyta,
    Rapidash,
    Slowpoke,
    Slowbro,
    Magnemite,
    Magneton,
    Farfetchd,
    Doduo,
    Dodrio,
    Seel,
    Dewgong,
    Grimer(AlolaForme),
    Muk(AlolaForme),
    Shellder,
    Cloyster,
    Gastly,
    Haunter,
    Gengar(MegaEvolution),
    Onix,
    Drowzee,
    Hypno,
    Krabby,
    Kingler,
    Voltorb,
    Electrode,
    Exeggcute,
    Exeggutor(AlolaForme),
    Cubone,
    Marowak(AlolaForme),
    Hitmonlee,
    Hitmonchan,
    Lickitung,
    Koffing,
    Weezing,
    Rhyhorn,
    Rhydon,
    Chansey,
    Tangela,
    Kangaskhan(MegaEvolution),
    Horsea,
    Seadra,
    Goldeen,
    Seaking,
    Staryu,
    Starmie,
    MrMime,
    Scyther,
    Jynx,
    Electabuzz,
    Magmar,
    Pinsir(MegaEvolution),
    Tauros,
    Magikarp,
    Gyarados(MegaEvolution),
    Lapras,
    Ditto,
    Eevee,
    Vaporeon,
    Jolteon,
    Flareon,
    Porygon,
    Omanyte,
    Omastar,
    Kabuto,
    Kabutops,
    Aerodactyl(MegaEvolution),
    Snorlax,
    Articuno,
    Zapdos,
    Moltres,
    Dratini,
    Dragonair,
    Dragonite,
    Mewtwo(XYMegaEvolution),
    Mew,
    Chikorita,
    Bayleef,
    Meganium,
    Cyndaquil,
    Quilava,
    Typhlosion,
    Totodile,
    Croconaw,
    Feraligatr,
    Sentret,
    Furret,
    Hoothoot,
    Noctowl,
    Ledyba,
    Ledian,
    Spinarak,
    Ariados,
    Crobat,
    Chinchou,
    Lanturn,
    Pichu,
    Cleffa,
    Igglybuff,
    Togepi,
    Togetic,
    Natu,
    Xatu,
    Mareep,
    Flaaffy,
    Ampharos,
    Bellossom,
    Marill,
    Azumarill,
    Sudowoodo,
    Politoed,
    Hoppip,
    Skiploom,
    Jumpluff,
    Aipom,
    Sunkern,
    Sunflora,
    Yanma,
    Wooper,
    Quagsire,
    Espeon,
    Umbreon,
    Murkrow,
    Slowking,
    Misdreavus,
    Unown,
    Wobbuffet,
    Girafarig,
    Pineco,
    Forretress,
    Dunsparce,
    Gligar,
    Steelix(MegaEvolution),
    Snubbull,
    Granbull,
    Qwilfish,
    Scizor(MegaEvolution),
    Shuckle,
    Heracross(MegaEvolution),
    Sneasel,
    Teddiursa,
    Ursaring,
    Slugma,
    Magcargo,
    Swinub,
    Piloswine,
    Corsola,
    Remoraid,
    Octillery,
    Delibird,
    Mantine,
    Skarmory,
    Houndour,
    Houndoom(MegaEvolution),
    Kingdra,
    Phanpy,
    Donphan,
    Porygon2,
    Stantler,
    Smeargle,
    Tyrogue,
    Hitmontop,
    Smoochum,
    Elekid,
    Magby,
    Miltank,
    Blissey,
    Raikou,
    Entei,
    Suicune,
    Larvitar,
    Pupitar,
    Tyranitar(MegaEvolution),
    Lugia,
    HoOh,
    Celebi,
    Treecko,
    Grovyle,
    Sceptile(MegaEvolution),
    Torchic,
    Combusken,
    Blaziken(MegaEvolution),
    Mudkip,
    Marshtomp,
    Swampert(MegaEvolution),
    Poochyena,
    Mightyena,
    Zigzagoon,
    Linoone,
    Wurmple,
    Silcoon,
    Beautifly,
    Cascoon,
    Dustox,
    Lotad,
    Lombre,
    Ludicolo,
    Seedot,
    Nuzleaf,
    Shiftry,
    Taillow,
    Swellow,
    Wingull,
    Pelipper,
    Ralts,
    Kirlia,
    Gardevoir(MegaEvolution),
    Surskit,
    Masquerain,
    Shroomish,
    Breloom,
    Slakoth,
    Vigoroth,
    Slaking,
    Nincada,
    Ninjask,
    Shedinja,
    Whismur,
    Loudred,
    Exploud,
    Makuhita,
    Hariyama,
    Azurill,
    Nosepass,
    Skitty,
    Delcatty,
    Sableye(MegaEvolution),
    Mawile(MegaEvolution),
    Aron,
    Lairon,
    Aggron(MegaEvolution),
    Meditite,
    Medicham(MegaEvolution),
    Electrike,
    Manectric(MegaEvolution),
    Plusle,
    Minun,
    Volbeat,
    Illumise,
    Roselia,
    Gulpin,
    Swalot,
    Carvanha,
    Sharpedo(MegaEvolution),
    Wailmer,
    Wailord,
    Numel,
    Camerupt(MegaEvolution),
    Torkoal,
    Spoink,
    Grumpig,
    Spinda,
    Trapinch,
    Vibrava,
    Flygon,
    Cacnea,
    Cacturne,
    Swablu,
    Altaria(MegaEvolution),
    Zangoose,
    Seviper,
    Lunatone,
    Solrock,
    Barboach,
    Whiscash,
    Corphish,
    Crawdaunt,
    Baltoy,
    Claydol,
    Lileep,
    Cradily,
    Anorith,
    Armaldo,
    Feebas,
    Milotic,
    Castform(CastformForme),
    Kecleon,
    Shuppet,
    Banette,
    Duskull,
    Dusclops,
    Tropius,
    Chimecho,
    Absol,
    Wynaut,
    Snorunt,
    Glalie,
    Spheal,
    Sealeo,
    Walrein,
    Clamperl,
    Huntail,
    Gorebyss,
    Relicanth,
    Luvdisc,
    Bagon,
    Shelgon,
    Salamence(MegaEvolution),
    Beldum,
    Metang,
    Metagross(MegaEvolution),
    Regirock,
    Regice,
    Registeel,
    Latias,
    Latios,
    Kyogre(PrimalReversion),
    Groudon(PrimalReversion),
    Rayquaza(MegaEvolution),
    Jirachi,
    Deoxys(DeoxysForme),
    Turtwig,
    Grotle,
    Torterra,
    Chimchar,
    Monferno,
    Infernape,
    Piplup,
    Prinplup,
    Empoleon,
    Starly,
    Staravia,
    Staraptor,
    Bidoof,
    Bibarel,
    Kricketot,
    Kricketune,
    Shinx,
    Luxio,
    Luxray,
    Budew,
    Roserade,
    Cranidos,
    Rampardos,
    Shieldon,
    Bastiodon,
    Burmy,
    Wormadam(WormadamForme),
    Mothim,
    Combee,
    Vespiquen,
    Pachirisu,
    Buizel,
    Floatzel,
    Cherubi,
    Cherrim,
    Shellos,
    Gastrodon,
    Ambipom,
    Drifloon,
    Drifblim,
    Buneary,
    Lopunny(MegaEvolution),
    Mismagius,
    Honchkrow,
    Glameow,
    Purugly,
    Chingling,
    Stunky,
    Skuntank,
    Bronzor,
    Bronzong,
    Bonsly,
    MimeJr,
    Happiny,
    Chatot,
    Spiritomb,
    Gible,
    Gabite,
    Garchomp(MegaEvolution),
    Munchlax,
    Riolu,
    Lucario(MegaEvolution),
    Hippopotas,
    Hippowdon,
    Skorupi,
    Drapion,
    Croagunk,
    Toxicroak,
    Carnivine,
    Finneon,
    Lumineon,
    Mantyke,
    Snover,
    Abomasnow(MegaEvolution),
    Weavile,
    Magnezone,
    Lickilicky,
    Rhyperior,
    Tangrowth,
    Electivire,
    Magmortar,
    Togekiss,
    Yanmega,
    Leafeon,
    Glaceon,
    Gliscor,
    Mamoswine,
    PorygonZ,
    Gallade(MegaEvolution),
    Probopass,
    Dusknoir,
    Froslass,
    Rotom(RotomForme),
    Uxie,
    Mesprit,
    Azelf,
    Dialga,
    Palkia,
    Heatran,
    Regigigas,
    Giratina(GiratinaForme),
    Cresselia,
    Phione,
    Manaphy,
    Darkrai,
    Shaymin(ShayminForme),
    Arceus(ArceusForme),
    Victini,
    Snivy,
    Servine,
    Serperior,
    Tepig,
    Pignite,
    Emboar,
    Oshawott,
    Dewott,
    Samurott,
    Patrat,
    Watchog,
    Lillipup,
    Herdier,
    Stoutland,
    Purrloin,
    Liepard,
    Pansage,
    Simisage,
    Pansear,
    Simisear,
    Panpour,
    Simipour,
    Munna,
    Musharna,
    Pidove,
    Tranquill,
    Unfezant,
    Blitzle,
    Zebstrika,
    Roggenrola,
    Boldore,
    Gigalith,
    Woobat,
    Swoobat,
    Drilbur,
    Excadrill,
    Audino,
    Timburr,
    Gurdurr,
    Conkeldurr,
    Tympole,
    Palpitoad,
    Seismitoad,
    Throh,
    Sawk,
    Sewaddle,
    Swadloon,
    Leavanny,
    Venipede,
    Whirlipede,
    Scolipede,
    Cottonee,
    Whimsicott,
    Petilil,
    Lilligant,
    Basculin,
    Sandile,
    Krokorok,
    Krookodile,
    Darumaka,
    Darmanitan(DarmanitanForme),
    Maractus,
    Dwebble,
    Crustle,
    Scraggy,
    Scrafty,
    Sigilyph,
    Yamask,
    Cofagrigus,
    Tirtouga,
    Carracosta,
    Archen,
    Archeops,
    Trubbish,
    Garbodor,
    Zorua,
    Zoroark,
    Minccino,
    Cinccino,
    Gothita,
    Gothorita,
    Gothitelle,
    Solosis,
    Duosion,
    Reuniclus,
    Ducklett,
    Swanna,
    Vanillite,
    Vanillish,
    Vanilluxe,
    Deerling,
    Sawsbuck,
    Emolga,
    Karrablast,
    Escavalier,
    Foongus,
    Amoonguss,
    Frillish,
    Jellicent,
    Alomomola,
    Joltik,
    Galvantula,
    Ferroseed,
    Ferrothorn,
    Klink,
    Klang,
    Klinklang,
    Tynamo,
    Eelektrik,
    Eelektross,
    Elgyem,
    Beheeyem,
    Litwick,
    Lampent,
    Chandelure,
    Axew,
    Fraxure,
    Haxorus,
    Cubchoo,
    Beartic,
    Cryogonal,
    Shelmet,
    Accelgor,
    Stunfisk,
    Mienfoo,
    Mienshao,
    Druddigon,
    Golett,
    Golurk,
    Pawniard,
    Bisharp,
    Bouffalant,
    Rufflet,
    Braviary,
    Vullaby,
    Mandibuzz,
    Heatmor,
    Durant,
    Deino,
    Zweilous,
    Hydreigon,
    Larvesta,
    Volcarona,
    Cobalion,
    Terrakion,
    Virizion,
    Tornadus(GenieForme),
    Thundurus(GenieForme),
    Reshiram,
    Zekrom,
    Landorus(GenieForme),
    Kyurem(KyuremForme),
    Keldeo,
    Meloetta(KyuremForme),
    Genesect,
    Chespin,
    Quilladin,
    Chesnaught,
    Fennekin,
    Braixen,
    Delphox,
    Froakie,
    Frogadier,
    Greninja(GreninjaForme),
    Bunnelby,
    Diggersby,
    Fletchling,
    Fletchinder,
    Talonflame,
    Scatterbug,
    Spewpa,
    Vivillon,
    Litleo,
    Pyroar,
    Flabebe,
    Floette,
    Florges,
    Skiddo,
    Gogoat,
    Pancham,
    Pangoro,
    Furfrou,
    Espurr,
    Meowstic,
    Honedge,
    Doublade,
    Aegislash(AegislashForme),
    Spritzee,
    Aromatisse,
    Swirlix,
    Slurpuff,
    Inkay,
    Malamar,
    Binacle,
    Barbaracle,
    Skrelp,
    Dragalge,
    Clauncher,
    Clawitzer,
    Helioptile,
    Heliolisk,
    Tyrunt,
    Tyrantrum,
    Amaura,
    Aurorus,
    Sylveon,
    Hawlucha,
    Dedenne,
    Carbink,
    Goomy,
    Sliggoo,
    Goodra,
    Klefki,
    Phantump,
    Trevenant,
    Pumpkaboo(GourgeistForme),
    Gourgeist(GourgeistForme),
    Bergmite,
    Avalugg,
    Noibat,
    Noivern,
    Xerneas,
    Yveltal,
    Zygarde(ZygardeForme),
    Diancie(MegaEvolution),
    Hoopa(HoopaForme),
    Volcanion,
    Rowlet,
    Dartrix,
    Decidueye,
    Litten,
    Torracat,
    Incineroar,
    Popplio,
    Brionne,
    Primarina,
    Pikipek,
    Trumbeak,
    Toucannon,
    Yungoos,
    Gumshoos,
    Grubbin,
    Charjabug,
    Vikavolt,
    Crabrawler,
    Crabominable,
    Oricorio(OricorioForme),
    Cutiefly,
    Ribombee,
    Rockruff,
    Lycanroc(LycanrocForme),
    Wishiwashi(WishiwashiForme),
    Mareanie,
    Toxapex,
    Mudbray,
    Mudsdale,
    Dewpider,
    Araquanid,
    Fomantis,
    Lurantis,
    Morelull,
    Shiinotic,
    Salandit,
    Salazzle,
    Stufful,
    Bewear,
    Bounsweet,
    Steenee,
    Tsareena,
    Comfey,
    Oranguru,
    Passimian,
    Wimpod,
    Golisopod,
    Sandygast,
    Palossand,
    Pyukumuku,
    TypeNull(SilvallyForme),
    Silvally(SilvallyForme),
    Minior(MiniorForme),
    Komala,
    Turtonator,
    Togedemaru,
    Mimikyu(MimikyuForme),
    Bruxish,
    Drampa,
    Dhelmise,
    JangmoO,
    HakamoO,
    KommoO,
    TapuKoko,
    TapuLele,
    TapuBulu,
    TapuFini,
    Cosmog,
    Cosmoem,
    Solgaleo,
    Lunala,
    Nihilego,
    Buzzwole,
    Pheromosa,
    Xurkitree,
    Celesteela,
    Kartana,
    Guzzlord,
    Necrozma(NecrozmaForme),
    Magearna,
    Marshadow,
    Poipole,
    Naganadel,
    Stakataka,
    Blacephalon,
    Zeraora,
}

/// A species without its form, numbered from 0 in National Dex order.
#[derive(Copy, Clone, Debug, PartialEq, Eq, Structural, Hash)]
pub enum SpeciesDiscriminant {
    Bulbasaur,
    Ivysaur,
    Venusaur,
    Charmander,
    Charmeleon,
    Charizard,
    Squirtle,
    Wartortle,
    Blastoise,
    Caterpie,
    Metapod,
    Butterfree,
    Weedle,
    Kakuna,
    Beedrill,
    Pidgey,
    Pidgeotto,
    Pidgeot,
    Rattata,
    Raticate,
    Spearow,
    Fearow,
    Ekans,
    Arbok,
    Pikachu,
    Raichu,
    Sandshrew,
    Sandslash,
    NidoranF,
    Nidorina,
    Nidoqueen,
    NidoranM,
    Nidorino,
    Nidoking,
    Clefairy,
    Clefable,
    Vulpix,
    Ninetales,
    Jigglypuff,
    Wigglytuff,
    Zubat,
    Golbat,
    Oddish,
    Gloom,
    Vileplume,
    Paras,
    Parasect,
    Venonat,
    Venomoth,
    Diglett,
    Dugtrio,
    Meowth,
    Persian,
    Psyduck,
    Golduck,
    Mankey,
    Primeape,
    Growlithe,
    Arcanine,
    Poliwag,
    Poliwhirl,
    Poliwrath,
    Abra,
    Kadabra,
    Alakazam,
    Machop,
    Machoke,
    Machamp,
    Bellsprout,
    Weepinbell,
    Victreebel,
    Tentacool,
    Tentacruel,
    Geodude,
    Graveler,
    Golem,
    Ponyta,
    Rapidash,
    Slowpoke,
    Slowbro,
    Magnemite,
    Magneton,
    Farfetchd,
    Doduo,
    Dodrio,
    Seel,
    Dewgong,
    Grimer,
    Muk,
    Shellder,
    Cloyster,
    Gastly,
    Haunter,
    Gengar,
    Onix,
    Drowzee,
    Hypno,
    Krabby,
    Kingler,
    Voltorb,
    Electrode,
    Exeggcute,
    Exeggutor,
    Cubone,
    Marowak,
    Hitmonlee,
    Hitmonchan,
    Lickitung,
    Koffing,
    Weezing,
    Rhyhorn,
    Rhydon,
    Chansey,
    Tangela,
    Kangaskhan,
    Horsea,
    Seadra,
    Goldeen,
    Seaking,
    Staryu,
    Starmie,
    MrMime,
    Scyther,
    Jynx,
    Electabuzz,
    Magmar,
    Pinsir,
    Tauros,
    Magikarp,
    Gyarados,
    Lapras,
    Ditto,
    Eevee,
    Vaporeon,
    Jolteon,
    Flareon,
    Porygon,
    Omanyte,
    Omastar,
    Kabuto,
    Kabutops,
    Aerodactyl,
    Snorlax,
    Articuno,
    Zapdos,
    Moltres,
    Dratini,
    Dragonair,
    Dragonite,
    Mewtwo,
    Mew,
    Chikorita,
    Bayleef,
    Meganium,
    Cyndaquil,
    Quilava,
    Typhlosion,
    Totodile,
    Croconaw,
    Feraligatr,
    Sentret,
    Furret,
    Hoothoot,
    Noctowl,
    Ledyba,
    Ledian,
    Spinarak,
    Ariados,
    Crobat,
    Chinchou,
    Lanturn,
    Pichu,
    Cleffa,
    Igglybuff,
    Togepi,
    Togetic,
    Natu,
    Xatu,
    Mareep,
    Flaaffy,
    Ampharos,
    Bellossom,
    Marill,
    Azumarill,
    Sudowoodo,
    Politoed,
    Hoppip,
    Skiploom,
    Jumpluff,
    Aipom,
    Sunkern,
    Sunflora,
    Yanma,
    Wooper,
    Quagsire,
    Espeon,
    Umbreon,
    Murkrow,
    Slowking,
    Misdreavus,
    Unown,
    Wobbuffet,
    Girafarig,
    Pineco,
    Forretress,
    Dunsparce,
    Gligar,
    Steelix,
    Snubbull,
    Granbull,
    Qwilfish,
    Scizor,
    Shuckle,
    Heracross,
    Sneasel,
    Teddiursa,
    Ursaring,
    Slugma,
    Magcargo,
    Swinub,
    Piloswine,
    Corsola,
    Remoraid,
    Octillery,
    Delibird,
    Mantine,
    Skarmory,
    Houndour,
    Houndoom,
    Kingdra,
    Phanpy,
    Donphan,
    Porygon2,
    Stantler,
    Smeargle,
    Tyrogue,
    Hitmontop,
    Smoochum,
    Elekid,
    Magby,
    Miltank,
    Blissey,
    Raikou,
    Entei,
    Suicune,
    Larvitar,
    Pupitar,
    Tyranitar,
    Lugia,
    HoOh,
    Celebi,
    Treecko,
    Grovyle,
    Sceptile,
    Torchic,
    Combusken,
    Blaziken,
    Mudkip,
    Marshtomp,
    Swampert,
    Poochyena,
    Mightyena,
    Zigzagoon,
    Linoone,
    Wurmple,
    Silcoon,
    Beautifly,
    Cascoon,
    Dustox,
    Lotad,
    Lombre,
    Ludicolo,
    Seedot,
    Nuzleaf,
    Shiftry,
    Taillow,
    Swellow,
    Wingull,
    Pelipper,
    Ralts,
    Kirlia,
    Gardevoir,
    Surskit,
    Masquerain,
    Shroomish,
    Breloom,
    Slakoth,
    Vigoroth,
    Slaking,
    Nincada,
    Ninjask,
    Shedinja,
    Whismur,
    Loudred,
    Exploud,
    Makuhita,
    Hariyama,
    Azurill,
    Nosepass,
    Skitty,
    Delcatty,
    Sableye,
    Mawile,
    Aron,
    Lairon,
    Aggron,
    Meditite,
    Medicham,
    Electrike,
    Manectric,
    Plusle,
    Minun,
    Volbeat,
    Illumise,
    Roselia,
    Gulpin,
    Swalot,
    Carvanha,
    Sharpedo,
    Wailmer,
    Wailord,
    Numel,
    Camerupt,
    Torkoal,
    Spoink,
    Grumpig,
    Spinda,
    Trapinch,
    Vibrava,
    Flygon,
    Cacnea,
    Cacturne,
    Swablu,
    Altaria,
    Zangoose,
    Seviper,
    Lunatone,
    Solrock,
    Barboach,
    Whiscash,
    Corphish,
    Crawdaunt,
    Baltoy,
    Claydol,
    Lileep,
    Cradily,
    Anorith,
    Armaldo,
    Feebas,
    Milotic,
    Castform,
    Kecleon,
    Shuppet,
    Banette,
    Duskull,
    Dusclops,
    Tropius,
    Chimecho,
    Absol,
    Wynaut,
    Snorunt,
    Glalie,
    Spheal,
    Sealeo,
    Walrein,
    Clamperl,
    Huntail,
    Gorebyss,
    Relicanth,
    Luvdisc,
    Bagon,
    Shelgon,
    Salamence,
    Beldum,
    Metang,
    Metagross,
    Regirock,
    Regice,
    Registeel,
    Latias,
    Latios,
    Kyogre,
    Groudon,
    Rayquaza,
    Jirachi,
    Deoxys,
    Turtwig,
    Grotle,
    Torterra,
    Chimchar,
    Monferno,
    Infernape,
    Piplup,
    Prinplup,
    Empoleon,
    Starly,
    Staravia,
    Staraptor,
    Bidoof,
    Bibarel,
    Kricketot,
    Kricketune,
    Shinx,
    Luxio,
    Luxray,
    Budew,
    Roserade,
    Cranidos,
    Rampardos,
    Shieldon,
    Bastiodon,
    Burmy,
    Wormadam,
    Mothim,
    Combee,
    Vespiquen,
    Pachirisu,
    Buizel,
    Floatzel,
    Cherubi,
    Cherrim,
    Shellos,
    Gastrodon,
    Ambipom,
    Drifloon,
    Drifblim,
    Buneary,
    Lopunny,
    Mismagius,
    Honchkrow,
    Glameow,
    Purugly,
    Chingling,
    Stunky,
    Skuntank,
    Bronzor,
    Bronzong,
    Bonsly,
    MimeJr,
    Happiny,
    Chatot,
    Spiritomb,
    Gible,
    Gabite,
    Garchomp,
    Munchlax,
    Riolu,
    Lucario,
    Hippopotas,
    Hippowdon,
    Skorupi,
    Drapion,
    Croagunk,
    Toxicroak,
    Carnivine,
    Finneon,
    Lumineon,
    Mantyke,
    Snover,
    Abomasnow,
    Weavile,
    Magnezone,
    Lickilicky,
    Rhyperior,
    Tangrowth,
    Electivire,
    Magmortar,
    Togekiss,
    Yanmega,
    Leafeon,
    Glaceon,
    Gliscor,
    Mamoswine,
    PorygonZ,
    Gallade,
    Probopass,
    Dusknoir,
    Froslass,
    Rotom,
    Uxie,
    Mesprit,
    Azelf,
    Dialga,
    Palkia,
    Heatran,
    Regigigas,
    Giratina,
    Cresselia,
    Phione,
    Manaphy,
    Darkrai,
    Shaymin,
    Arceus,
    Victini,
    Snivy,
    Servine,
    Serperior,
    Tepig,
    Pignite,
    Emboar,
    Oshawott,
    Dewott,
    Samurott,
    Patrat,
    Watchog,
    Lillipup,
    Herdier,
    Stoutland,
    Purrloin,
    Liepard,
    Pansage,
    Simisage,
    Pansear,
    Simisear,
    Panpour,
    Simipour,
    Munna,
    Musharna,
    Pidove,
    Tranquill,
    Unfezant,
    Blitzle,
    Zebstrika,
    Roggenrola,
    Boldore,
    Gigalith,
    Woobat,
    Swoobat,
    Drilbur,
    Excadrill,
    Audino,
    Timburr,
    Gurdurr,
    Conkeldurr,
    Tympole,
    Palpitoad,
    Seismitoad,
    Throh,
    Sawk,
    Sewaddle,
    Swadloon,
    Leavanny,
    Venipede,
    Whirlipede,
    Scolipede,
    Cottonee,
    Whimsicott,
    Petilil,
    Lilligant,
    Basculin,
    Sandile,
    Krokorok,
    Krookodile,
    Darumaka,
    Darmanitan,
    Maractus,
    Dwebble,
    Crustle,
    Scraggy,
    Scrafty,
    Sigilyph,
    Yamask,
    Cofagrigus,
    Tirtouga,
    Carracosta,
    Archen,
    Archeops,
    Trubbish,
    Garbodor,
    Zorua,
    Zoroark,
    Minccino,
    Cinccino,
    Gothita,
    Gothorita,
    Gothitelle,
    Solosis,
    Duosion,
    Reuniclus,
    Ducklett,
    Swanna,
    Vanillite,
    Vanillish,
    Vanilluxe,
    Deerling,
    Sawsbuck,
    Emolga,
    Karrablast,
    Escavalier,
    Foongus,
    Amoonguss,
    Frillish,
    Jellicent,
    Alomomola,
    Joltik,
    Galvantula,
    Ferroseed,
    Ferrothorn,
    Klink,
    Klang,
    Klinklang,
    Tynamo,
    Eelektrik,
    Eelektross,
    Elgyem,
    Beheeyem,
    Litwick,
    Lampent,
    Chandelure,
    Axew,
    Fraxure,
    Haxorus,
    Cubchoo,
    Beartic,
    Cryogonal,
    Shelmet,
    Accelgor,
    Stunfisk,
    Mienfoo,
    Mienshao,
    Druddigon,
    Golett,
    Golurk,
    Pawniard,
    Bisharp,
    Bouffalant,
    Rufflet,
    Braviary,
    Vullaby,
    Mandibuzz,
    Heatmor,
    Durant,
    Deino,
    Zweilous,
    Hydreigon,
    Larvesta,
    Volcarona,
    Cobalion,
    Terrakion,
    Virizion,
    Tornadus,
    Thundurus,
    Reshiram,
    Zekrom,
    Landorus,
    Kyurem,
    Keldeo,
    Meloetta,
    Genesect,
    Chespin,
    Quilladin,
    Chesnaught,
    Fennekin,
    Braixen,
    Delphox,
    Froakie,
    Frogadier,
    Greninja,
    Bunnelby,
    Diggersby,
    Fletchling,
    Fletchinder,
    Talonflame,
    Scatterbug,
    Spewpa,
    Vivillon,
    Litleo,
    Pyroar,
    Flabebe,
    Floette,
    Florges,
    Skiddo,
    Gogoat,
    Pancham,
    Pangoro,
    Furfrou,
    Espurr,
    Meowstic,
    Honedge,
    Doublade,
    Aegislash,
    Spritzee,
    Aromatisse,
    Swirlix,
    Slurpuff,
    Inkay,
    Malamar,
    Binacle,
    Barbaracle,
    Skrelp,
    Dragalge,
    Clauncher,
    Clawitzer,
    Helioptile,
    Heliolisk,
    Tyrunt,
    Tyrantrum,
    Amaura,
    Aurorus,
    Sylveon,
    Hawlucha,
    Dedenne,
    Carbink,
    Goomy,
    Sliggoo,
    Goodra,
    Klefki,
    Phantump,
    Trevenant,
    Pumpkaboo,
    Gourgeist,
    Bergmite,
    Avalugg,
    Noibat,
    Noivern,
    Xerneas,
    Yveltal,
    Zygarde,
    Diancie,
    Hoopa,
    Volcanion,
    Rowlet,
    Dartrix,
    Decidueye,
    Litten,
    Torracat,
    Incineroar,
    Popplio,
    Brionne,
    Primarina,
    Pikipek,
    Trumbeak,
    Toucannon,
    Yungoos,
    Gumshoos,
    Grubbin,
    Charjabug,
    Vikavolt,
    Crabrawler,
    Crabominable,
    Oricorio,
    Cutiefly,
    Ribombee,
    Rockruff,
    Lycanroc,
    Wishiwashi,
    Mareanie,
    Toxapex,
    Mudbray,
    Mudsdale,
    Dewpider,
    Araquanid,
    Fomantis,
    Lurantis,
    Morelull,
    Shiinotic,
    Salandit,
    Salazzle,
    Stufful,
    Bewear,
    Bounsweet,
    Steenee,
    Tsareena,
    Comfey,
    Oranguru,
    Passimian,
    Wimpod,
    Golisopod,
    Sandygast,
    Palossand,
    Pyukumuku,
    TypeNull,
    Silvally,
    Minior,
    Komala,
    Turtonator,
    Togedemaru,
    Mimikyu,
    Bruxish,
    Drampa,
    Dhelmise,
    JangmoO,
    HakamoO,
    KommoO,
    TapuKoko,
    TapuLele,
    TapuBulu,
    TapuFini,
    Cosmog,
    Cosmoem,
    Solgaleo,
    Lunala,
    Nihilego,
    Buzzwole,
    Pheromosa,
    Xurkitree,
    Celesteela,
    Kartana,
    Guzzlord,
    Necrozma,
    Magearna,
    Marshadow,
    Poipole,
    Naganadel,
    Stakataka,
    Blacephalon,
    Zeraora,
}

/// The number of species.
pub const SPECIES_COUNT: u16 = 807;

/// A name that is neither the in-game name of a species nor the name of its variant.
#[derive(Copy, Clone, Debug, PartialEq, Eq, Structural, Hash)]
pub struct ParseSpeciesError {}

/// The species of `s`, without its form.
pub open spec fn kind_of(s: Species) -> SpeciesDiscriminant {
    match s {
        Species::Bulbasaur
        | Species::Ivysaur
        | Species::Venusaur(_)
        | Species::Charmander
        | Species::Charmeleon
        | Species::Charizard(_)
        | Species::Squirtle
        | Species::Wartortle
        | Species::Blastoise(_)
        | Species::Caterpie
        | Species::Metapod
        | Species::Butterfree
        | Species::Weedle
        | Species::Kakuna
        | Species::Beedrill(_)
        | Species::Pidgey
        | Species::Pidgeotto
        | Species::Pidgeot(_)
        | Species::Rattata(_)
        | Species::Raticate(_)
        | Species::Spearow
        | Species::Fearow
        | Species::Ekans
        | Species::Arbok
        | Species::Pikachu
        | Species::Raichu(_)
        | Species::Sandshrew(_)
        | Species::Sandslash(_)
        | Species::NidoranF
        | Species::Nidorina
        | Species::Nidoqueen
        | Species::NidoranM
        | Species::Nidorino
        | Species::Nidoking
        | Species::Clefairy
        | Species::Clefable
        | Species::Vulpix(_)
        | Species::Ninetales(_)
        | Species::Jigglypuff
        | Species::Wigglytuff
        | Species::Zubat
        | Species::Golbat
        | Species::Oddish
        | Species::Gloom
        | Species::Vileplume
        | Species::Paras
        | Species::Parasect
        | Species::Venonat
        | Species::Venomoth
        | Species::Diglett(_)
        | Species::Dugtrio(_)
        | Species::Meowth
        | Species::Persian(_)
        | Species::Psyduck
        | Species::Golduck
        | Species::Mankey
        | Species::Primeape
        | Species::Growlithe
        | Species::Arcanine
        | Species::Poliwag
        | Species::Poliwhirl
        | Species::Poliwrath
        | Species::Abra
        | Species::Kadabra
        | Species::Alakazam(_)
        | Species::Machop
        | Species::Machoke
        | Species::Machamp
        | Species::Bellsprout
        | Species::Weepinbell
        | Species::Victreebel
        | Species::Tentacool
        | Species::Tentacruel
        | Species::Geodude(_)
        | Species::Graveler(_)
        | Species::Golem(_)
        | Species::Ponyta
        | Species::Rapidash
        | Species::Slowpoke
        | Species::Slowbro
        | Species::Magnemite
        | Species::Magneton
        | Species::Farfetchd
        | Species::Doduo
        | Species::Dodrio
        | Species::Seel
        | Species::Dewgong
        | Species::Grimer(_)
        | Species::Muk(_)
        | Species::Shellder
        | Species::Cloyster
        | Species::Gastly
        | Species::Haunter
        | Species::Gengar(_)
        | Species::Onix
        | Species::Drowzee
        | Species::Hypno
        | Species::Krabby
        | Species::Kingler
        | Species::Voltorb
        | Species::Electrode
        | Species::Exeggcute
        | Species::Exeggutor(_)
        | Species::Cubone
        | Species::Marowak(_)
        | Species::Hitmonlee
        | Species::Hitmonchan
        | Species::Lickitung
        | Species::Koffing
        | Species::Weezing
        | Species::Rhyhorn
        | Species::Rhydon
        | Species::Chansey
        | Species::Tangela
        | Species::Kangaskhan(_)
        | Species::Horsea
        | Species::Seadra
        | Species::Goldeen
        | Species::Seaking
        | Species::Staryu
        | Species::Starmie
        | Species::MrMime
        | Species::Scyther
        | Species::Jynx
        | Species::Electabuzz
        | Species::Magmar
        | Species::Pinsir(_)
        | Species::Tauros
        | Species::Magikarp
        | Species::Gyarados(_)
        | Species::Lapras
        | Species::Ditto
        | Species::Eevee
        | Species::Vaporeon
        | Species::Jolteon
        | Species::Flareon
        | Species::Porygon
        | Species::Omanyte
        | Species::Omastar
        | Species::Kabuto
        | Species::Kabutops
        | Species::Aerodactyl(_)
        | Species::Snorlax
        | Species::Articuno
        | Species::Zapdos
        | Species::Moltres
        | Species::Dratini
        | Species::Dragonair
        | Species::Dragonite
        | Species::Mewtwo(_)
        | Species::Mew
        | Species::Chikorita
        | Species::Bayleef
        | Species::Meganium
        | Species::Cyndaquil
        | Species::Quilava
        | Species::Typhlosion
        | Species::Totodile
        | Species::Croconaw
        | Species::Feraligatr
        | Species::Sentret
        | Species::Furret
        | Species::Hoothoot
        | Species::Noctowl
        | Species::Ledyba
        | Species::Ledian
        | Species::Spinarak
        | Species::Ariados
        | Species::Crobat
        | Species::Chinchou
        | Species::Lanturn
        | Species::Pichu
        | Species::Cleffa
        | Species::Igglybuff
        | Species::Togepi
        | Species::Togetic
        | Species::Natu
        | Species::Xatu
        | Species::Mareep
        | Species::Flaaffy
        | Species::Ampharos
        | Species::Bellossom
        | Species::Marill
        | Species::Azumarill
        | Species::Sudowoodo
        | Species::Politoed
        | Species::Hoppip
        | Species::Skiploom
        | Species::Jumpluff
        | Species::Aipom
        | Species::Sunkern
        | Species::Sunflora
        | Species::Yanma
        | Species::Wooper
        | Species::Quagsire
        | Species::Espeon
        | Species::Umbreon
        | Species::Murkrow
        | Species::Slowking
        | Species::Misdreavus
        | Species::Unown
        | Species::Wobbuffet
        | Species::Girafarig
        | Species::Pineco
        | Species::Forretress
        | Species::Dunsparce
        | Species::Gligar
        | Species::Steelix(_)
        | Species::Snubbull
        | Species::Granbull
        | Species::Qwilfish
        | Species::Scizor(_)
        | Species::Shuckle
        | Species::Heracross(_)
        | Species::Sneasel
        | Species::Teddiursa
        | Species::Ursaring
        | Species::Slugma
        | Species::Magcargo
        | Species::Swinub
        | Species::Piloswine
        | Species::Corsola
        | Species::Remoraid
        | Species::Octillery
        | Species::Delibird
        | Species::Mantine
        | Species::Skarmory
        | Species::Houndour
        | Species::Houndoom(_)
        | Species::Kingdra
        | Species::Phanpy
        | Species::Donphan
        | Species::Porygon2
        | Species::Stantler
        | Species::Smeargle
        | Species::Tyrogue
        | Species::Hitmontop
        | Species::Smoochum
        | Species::Elekid
        | Species::Magby
        | Species::Miltank
        | Species::Blissey
        | Species::Raikou
        | Species::Entei
        | Species::Suicune
        | Species::Larvitar
        | Species::Pupitar
        | Species::Tyranitar(_)
        | Species::Lugia
        | Species::HoOh
        | Species::Celebi
        | Species::Treecko
        | Species::Grovyle
        | Species::Sceptile(_)
        | Species::Torchic
        | Species::Combusken
        | Species::Blaziken(_)
        | Species::Mudkip
        | Species::Marshtomp
        | Species::Swampert(_)
        | Species::Poochyena
        | Species::Mightyena
        | Species::Zigzagoon
        | Species::Linoone
        | Species::Wurmple
        | Species::Silcoon
        | Species::Beautifly
        | Species::Cascoon
        | Species::Dustox
        | Species::Lotad
        | Species::Lombre
        | Species::Ludicolo
        | Species::Seedot
        | Species::Nuzleaf
        | Species::Shiftry
        | Species::Taillow
        | Species::Swellow
        | Species::Wingull
        | Species::Pelipper
        | Species::Ralts
        | Species::Kirlia
        | Species::Gardevoir(_)
        | Species::Surskit
        | Species::Masquerain
        | Species::Shroomish
        | Species::Breloom
        | Species::Slakoth
        | Species::Vigoroth
        | Species::Slaking
        | Species::Nincada
        | Species::Ninjask
        | Species::Shedinja
        | Species::Whismur
        | Species::Loudred
        | Species::Exploud
        | Species::Makuhita
        | Species::Hariyama
        | Species::Azurill
        | Species::Nosepass
        | Species::Skitty
        | Species::Delcatty
        | Species::Sableye(_)
        | Species::Mawile(_)
        | Species::Aron
        | Species::Lairon
        | Species::Aggron(_)
        | Species::Meditite
        | Species::Medicham(_)
        | Species::Electrike
        | Species::Manectric(_)
        | Species::Plusle
        | Species::Minun
        | Species::Volbeat
        | Species::Illumise
        | Species::Roselia
        | Species::Gulpin
        | Species::Swalot
        | Species::Carvanha
        | Species::Sharpedo(_)
        | Species::Wailmer
        | Species::Wailord
        | Species::Numel
        | Species::Camerupt(_)
        | Species::Torkoal
        | Species::Spoink
        | Species::Grumpig
        | Species::Spinda
        | Species::Trapinch
        | Species::Vibrava
        | Species::Flygon
        | Species::Cacnea
        | Species::Cacturne
        | Species::Swablu
        | Species::Altaria(_)
        | Species::Zangoose
        | Species::Seviper
        | Species::Lunatone
        | Species::Solrock
        | Species::Barboach
        | Species::Whiscash
        | Species::Corphish
        | Species::Crawdaunt
        | Species::Baltoy
        | Species::Claydol
        | Species::Lileep
        | Species::Cradily
        | Species::Anorith
        | Species::Armaldo
        | Species::Feebas
        | Species::Milotic
        | Species::Castform(_)
        | Species::Kecleon
        | Species::Shuppet
        | Species::Banette
        | Species::Duskull
        | Species::Dusclops
        | Species::Tropius
        | Species::Chimecho
        | Species::Absol
        | Species::Wynaut
        | Species::Snorunt
        | Species::Glalie
        | Species::Spheal
        | Species::Sealeo
        | Species::Walrein
        | Species::Clamperl
        | Species::Huntail
        | Species::Gorebyss
        | Species::Relicanth
        | Species::Luvdisc
        | Species::Bagon
        | Species::Shelgon
        | Species::Salamence(_)
        | Species::Beldum
        | Species::Metang
        | Species::Metagross(_)
        | Species::Regirock
        | Species::Regice
        | Species::Registeel
        | Species::Latias
        | Species::Latios
        | Species::Kyogre(_)
        | Species::Groudon(_)
        | Species::Rayquaza(_)
        | Species::Jirachi
        | Species::Deoxys(_)
        => kind_of_early(s),
        _ => kind_of_late(s),
    }
}

/// The species of `s`, without its form, for a species of the first three generations.
pub open spec fn kind_of_early(s: Species) -> SpeciesDiscriminant {
    match s {
        Species::Bulbasaur => SpeciesDiscriminant::Bulbasaur,
        Species::Ivysaur => SpeciesDiscriminant::Ivysaur,
        Species::Venusaur(_) => SpeciesDiscriminant::Venusaur,
        Species::Charmander => SpeciesDiscriminant::Charmander,
        Species::Charmeleon => SpeciesDiscriminant::Charmeleon,
        Species::Charizard(_) => SpeciesDiscriminant::Charizard,
        Species::Squirtle => SpeciesDiscriminant::Squirtle,
        Species::Wartortle => SpeciesDiscriminant::Wartortle,
        Species::Blastoise(_) => SpeciesDiscriminant::Blastoise,
        Species::Caterpie => SpeciesDiscriminant::Caterpie,
        Species::Metapod => SpeciesDiscriminant::Metapod,
        Species::Butterfree => SpeciesDiscriminant::Butterfree,
        Species::Weedle => SpeciesDiscriminant::Weedle,
        Species::Kakuna => SpeciesDiscriminant::Kakuna,
        Species::Beedrill(_) => SpeciesDiscriminant::Beedrill,
        Species::Pidgey => SpeciesDiscriminant::Pidgey,
        Species::Pidgeotto => SpeciesDiscriminant::Pidgeotto,
        Species::Pidgeot(_) => SpeciesDiscriminant::Pidgeot,
        Species::Rattata(_) => SpeciesDiscriminant::Rattata,
        Species::Raticate(_) => SpeciesDiscriminant::Raticate,
        Species::Spearow => SpeciesDiscriminant::Spearow,
        Species::Fearow => SpeciesDiscriminant::Fearow,
        Species::Ekans => SpeciesDiscriminant::Ekans,
        Species::Arbok => SpeciesDiscriminant::Arbok,
        Species::Pikachu => SpeciesDiscriminant::Pikachu,
        Species::Raichu(_) => SpeciesDiscriminant::Raichu,
        Species::Sandshrew(_) => SpeciesDiscriminant::Sandshrew,
        Species::Sandslash(_) => SpeciesDiscriminant::Sandslash,
        Species::NidoranF => SpeciesDiscriminant::NidoranF,
        Species::Nidorina => SpeciesDiscriminant::Nidorina,
        Species::Nidoqueen => SpeciesDiscriminant::Nidoqueen,
        Species::NidoranM => SpeciesDiscriminant::NidoranM,
        Species::Nidorino => SpeciesDiscriminant::Nidorino,
        Species::Nidoking => SpeciesDiscriminant::Nidoking,
        Species::Clefairy => SpeciesDiscriminant::Clefairy,
        Species::Clefable => SpeciesDiscriminant::Clefable,
        Species::Vulpix(_) => SpeciesDiscriminant::Vulpix,
        Species::Ninetales(_) => SpeciesDiscriminant::Ninetales,
        Species::Jigglypuff => SpeciesDiscriminant::Jigglypuff,
        Species::Wigglytuff => SpeciesDiscriminant::Wigglytuff,
        Species::Zubat => SpeciesDiscriminant::Zubat,
        Species::Golbat => SpeciesDiscriminant::Golbat,
        Species::Oddish => SpeciesDiscriminant::Oddish,
        Species::Gloom => SpeciesDiscriminant::Gloom,
        Species::Vileplume => SpeciesDiscriminant::Vileplume,
        Species::Paras => SpeciesDiscriminant::Paras,
        Species::Parasect => SpeciesDiscriminant::Parasect,
        Species::Venonat => SpeciesDiscriminant::Venonat,
        Species::Venomoth => SpeciesDiscriminant::Venomoth,
        Species::Diglett(_) => SpeciesDiscriminant::Diglett,
        Species::Dugtrio(_) => SpeciesDiscriminant::Dugtrio,
        Species::Meowth => SpeciesDiscriminant::Meowth,
        Species::Persian(_) => SpeciesDiscriminant::Persian,
        Species::Psyduck => SpeciesDiscriminant::Psyduck,
        Species::Golduck => SpeciesDiscriminant::Golduck,
        Species::Mankey => SpeciesDiscriminant::Mankey,
        Species::Primeape => SpeciesDiscriminant::Primeape,
        Species::Growlithe => SpeciesDiscriminant::Growlithe,
        Species::Arcanine => SpeciesDiscriminant::Arcanine,
        Species::Poliwag => SpeciesDiscriminant::Poliwag,
        Species::Poliwhirl => SpeciesDiscriminant::Poliwhirl,
        Species::Poliwrath => SpeciesDiscriminant::Poliwrath,
        Species::Abra => SpeciesDiscriminant::Abra,
        Species::Kadabra => SpeciesDiscriminant::Kadabra,
        Species::Alakazam(_) => SpeciesDiscriminant::Alakazam,
        Species::Machop => SpeciesDiscriminant::Machop,
        Species::Machoke => SpeciesDiscriminant::Machoke,
        Species::Machamp => SpeciesDiscriminant::Machamp,
        Species::Bellsprout => SpeciesDiscriminant::Bellsprout,
        Species::Weepinbell => SpeciesDiscriminant::Weepinbell,
        Species::Victreebel => SpeciesDiscriminant::Victreebel,
        Species::Tentacool => SpeciesDiscriminant::Tentacool,
        Species::Tentacruel => SpeciesDiscriminant::Tentacruel,
        Species::Geodude(_) => SpeciesDiscriminant::Geodude,
        Species::Graveler(_) => SpeciesDiscriminant::Graveler,
        Species::Golem(_) => SpeciesDiscriminant::Golem,
        Species::Ponyta => SpeciesDiscriminant::Ponyta,
        Species::Rapidash => SpeciesDiscriminant::Rapidash,
        Species::Slowpoke => SpeciesDiscriminant::Slowpoke,
        Species::Slowbro => SpeciesDiscriminant::Slowbro,
        Species::Magnemite => SpeciesDiscriminant::Magnemite,
        Species::Magneton => SpeciesDiscriminant::Magneton,
        Species::Farfetchd => SpeciesDiscriminant::Farfetchd,
        Species::Doduo => SpeciesDiscriminant::Doduo,
        Species::Dodrio => SpeciesDiscriminant::Dodrio,
        Species::Seel => SpeciesDiscriminant::Seel,
        Species::Dewgong => SpeciesDiscriminant::Dewgong,
        Species::Grimer(_) => SpeciesDiscriminant::Grimer,
        Species::Muk(_) => SpeciesDiscriminant::Muk,
        Species::Shellder => SpeciesDiscriminant::Shellder,
        Species::Cloyster => SpeciesDiscriminant::Cloyster,
        Species::Gastly => SpeciesDiscriminant::Gastly,
        Species::Haunter => SpeciesDiscriminant::Haunter,
        Species::Gengar(_) => SpeciesDiscriminant::Gengar,
        Species::Onix => SpeciesDiscriminant::Onix,
        Species::Drowzee => SpeciesDiscriminant::Drowzee,
        Species::Hypno => SpeciesDiscriminant::Hypno,
        Species::Krabby => SpeciesDiscriminant::Krabby,
        Species::Kingler => SpeciesDiscriminant::Kingler,
        Species::Voltorb => SpeciesDiscriminant::Voltorb,
        Species::Electrode => SpeciesDiscriminant::Electrode,
        Species::Exeggcute => SpeciesDiscriminant::Exeggcute,
        Species::Exeggutor(_) => SpeciesDiscriminant::Exeggutor,
        Species::Cubone => SpeciesDiscriminant::Cubone,
        Species::Marowak(_) => SpeciesDiscriminant::Marowak,
        Species::Hitmonlee => SpeciesDiscriminant::Hitmonlee,
        Species::Hitmonchan => SpeciesDiscriminant::Hitmonchan,
        Species::Lickitung => SpeciesDiscriminant::Lickitung,
        Species::Koffing => SpeciesDiscriminant::Koffing,
        Species::Weezing => SpeciesDiscriminant::Weezing,
        Species::Rhyhorn => SpeciesDiscriminant::Rhyhorn,
        Species::Rhydon => SpeciesDiscriminant::Rhydon,
        Species::Chansey => SpeciesDiscriminant::Chansey,
        Species::Tangela => SpeciesDiscriminant::Tangela,
        Species::Kangaskhan(_) => SpeciesDiscriminant::Kangaskhan,
        Species::Horsea => SpeciesDiscriminant::Horsea,
        Species::Seadra => SpeciesDiscriminant::Seadra,
        Species::Goldeen => SpeciesDiscriminant::Goldeen,
        Species::Seaking => SpeciesDiscriminant::Seaking,
        Species::Staryu => SpeciesDiscriminant::Staryu,
        Species::Starmie => SpeciesDiscriminant::Starmie,
        Species::MrMime => SpeciesDiscriminant::MrMime,
        Species::Scyther => SpeciesDiscriminant::Scyther,
        Species::Jynx => SpeciesDiscriminant::Jynx,
        Species::Electabuzz => SpeciesDiscriminant::Electabuzz,
        Species::Magmar => SpeciesDiscriminant::Magmar,
        Species::Pinsir(_) => SpeciesDiscriminant::Pinsir,
        Species::Tauros => SpeciesDiscriminant::Tauros,
        Species::Magikarp => SpeciesDiscriminant::Magikarp,
        Species::Gyarados(_) => SpeciesDiscriminant::Gyarados,
        Species::Lapras => SpeciesDiscriminant::Lapras,
        Species::Ditto => SpeciesDiscriminant::Ditto,
        Species::Eevee => SpeciesDiscriminant::Eevee,
        Species::Vaporeon => SpeciesDiscriminant::Vaporeon,
        Species::Jolteon => SpeciesDiscriminant::Jolteon,
        Species::Flareon => SpeciesDiscriminant::Flareon,
        Species::Porygon => SpeciesDiscriminant::Porygon,
        Species::Omanyte => SpeciesDiscriminant::Omanyte,
        Species::Omastar => SpeciesDiscriminant::Omastar,
        Species::Kabuto => SpeciesDiscriminant::Kabuto,
        Species::Kabutops => SpeciesDiscriminant::Kabutops,
        Species::Aerodactyl(_) => SpeciesDiscriminant::Aerodactyl,
        Species::Snorlax => SpeciesDiscriminant::Snorlax,
        Species::Articuno => SpeciesDiscriminant::Articuno,
        Species::Zapdos => SpeciesDiscriminant::Zapdos,
        Species::Moltres => SpeciesDiscriminant::Moltres,
        Species::Dratini => SpeciesDiscriminant::Dratini,
        Species::Dragonair => SpeciesDiscriminant::Dragonair,
        Species::Dragonite => SpeciesDiscriminant::Dragonite,
        Species::Mewtwo(_) => SpeciesDiscriminant::Mewtwo,
        Species::Mew => SpeciesDiscriminant::Mew,
        Species::Chikorita => SpeciesDiscriminant::Chikorita,
        Species::Bayleef => SpeciesDiscriminant::Bayleef,
        Species::Meganium => SpeciesDiscriminant::Meganium,
        Species::Cyndaquil => SpeciesDiscriminant::Cyndaquil,
        Species::Quilava => SpeciesDiscriminant::Quilava,
        Species::Typhlosion => SpeciesDiscriminant::Typhlosion,
        Species::Totodile => SpeciesDiscriminant::Totodile,
        Species::Croconaw => SpeciesDiscriminant::Croconaw,
        Species::Feraligatr => SpeciesDiscriminant::Feraligatr,
        Species::Sentret => SpeciesDiscriminant::Sentret,
        Species::Furret => SpeciesDiscriminant::Furret,
        Species::Hoothoot => SpeciesDiscriminant::Hoothoot,
        Species::Noctowl => SpeciesDiscriminant::Noctowl,
        Species::Ledyba => SpeciesDiscriminant::Ledyba,
        Species::Ledian => SpeciesDiscriminant::Ledian,
        Species::Spinarak => SpeciesDiscriminant::Spinarak,
        Species::Ariados => SpeciesDiscriminant::Ariados,
        Species::Crobat => SpeciesDiscriminant::Crobat,
        Species::Chinchou => SpeciesDiscriminant::Chinchou,
        Species::Lanturn => SpeciesDiscriminant::Lanturn,
        Species::Pichu => SpeciesDiscriminant::Pichu,
        Species::Cleffa => SpeciesDiscriminant::Cleffa,
        Species::Igglybuff => SpeciesDiscriminant::Igglybuff,
        Species::Togepi => SpeciesDiscriminant::Togepi,
        Species::Togetic => SpeciesDiscriminant::Togetic,
        Species::Natu => SpeciesDiscriminant::Natu,
        Species::Xatu => SpeciesDiscriminant::Xatu,
        Species::Mareep => SpeciesDiscriminant::Mareep,
        Species::Flaaffy => SpeciesDiscriminant::Flaaffy,
        Species::Ampharos => SpeciesDiscriminant::Ampharos,
        Species::Bellossom => SpeciesDiscriminant::Bellossom,
        Species::Marill => SpeciesDiscriminant::Marill,
        Species::Azumarill => SpeciesDiscriminant::Azumarill,
        Species::Sudowoodo => SpeciesDiscriminant::Sudowoodo,
        Species::Politoed => SpeciesDiscriminant::Politoed,
        Species::Hoppip => SpeciesDiscriminant::Hoppip,
        Species::Skiploom => SpeciesDiscriminant::Skiploom,
        Species::Jumpluff => SpeciesDiscriminant::Jumpluff,
        Species::Aipom => SpeciesDiscriminant::Aipom,
        Species::Sunkern => SpeciesDiscriminant::Sunkern,
        Species::Sunflora => SpeciesDiscriminant::Sunflora,
        Species::Yanma => SpeciesDiscriminant::Yanma,
        Species::Wooper => SpeciesDiscriminant::Wooper,
        Species::Quagsire => SpeciesDiscriminant::Quagsire,
        Species::Espeon => SpeciesDiscriminant::Espeon,
        Species::Umbreon => SpeciesDiscriminant::Umbreon,
        Species::Murkrow => SpeciesDiscriminant::Murkrow,
        Species::Slowking => SpeciesDiscriminant::Slowking,
        Species::Misdreavus => SpeciesDiscriminant::Misdreavus,
        Species::Unown => SpeciesDiscriminant::Unown,
        Species::Wobbuffet => SpeciesDiscriminant::Wobbuffet,
        Species::Girafarig => SpeciesDiscriminant::Girafarig,
        Species::Pineco => SpeciesDiscriminant::Pineco,
        Species::Forretress => SpeciesDiscriminant::Forretress,
        Species::Dunsparce => SpeciesDiscriminant::Dunsparce,
        Species::Gligar => SpeciesDiscriminant::Gligar,
        Species::Steelix(_) => SpeciesDiscriminant::Steelix,
        Species::Snubbull => SpeciesDiscriminant::Snubbull,
        Species::Granbull => SpeciesDiscriminant::Granbull,
        Species::Qwilfish => SpeciesDiscriminant::Qwilfish,
        Species::Scizor(_) => SpeciesDiscriminant::Scizor,
        Species::Shuckle => SpeciesDiscriminant::Shuckle,
        Species::Heracross(_) => SpeciesDiscriminant::Heracross,
        Species::Sneasel => SpeciesDiscriminant::Sneasel,
        Species::Teddiursa => SpeciesDiscriminant::Teddiursa,
        Species::Ursaring => SpeciesDiscriminant::Ursaring,
        Species::Slugma => SpeciesDiscriminant::Slugma,
        Species::Magcargo => SpeciesDiscriminant::Magcargo,
        Species::Swinub => SpeciesDiscriminant::Swinub,
        Species::Piloswine => SpeciesDiscriminant::Piloswine,
        Species::Corsola => SpeciesDiscriminant::Corsola,
        Species::Remoraid => SpeciesDiscriminant::Remoraid,
        Species::Octillery => SpeciesDiscriminant::Octillery,
        Species::Delibird => SpeciesDiscriminant::Delibird,
        Species::Mantine => SpeciesDiscriminant::Mantine,
        Species::Skarmory => SpeciesDiscriminant::Skarmory,
        Species::Houndour => SpeciesDiscriminant::Houndour,
        Species::Houndoom(_) => SpeciesDiscriminant::Houndoom,
        Species::Kingdra => SpeciesDiscriminant::Kingdra,
        Species::Phanpy => SpeciesDiscriminant::Phanpy,
        Species::Donphan => SpeciesDiscriminant::Donphan,
        Species::Porygon2 => SpeciesDiscriminant::Porygon2,
        Species::Stantler => SpeciesDiscriminant::Stantler,
        Species::Smeargle => SpeciesDiscriminant::Smeargle,
        Species::Tyrogue => SpeciesDiscriminant::Tyrogue,
        Species::Hitmontop => SpeciesDiscriminant::Hitmontop,
        Species::Smoochum => SpeciesDiscriminant::Smoochum,
        Species::Elekid => SpeciesDiscriminant::Elekid,
        Species::Magby => SpeciesDiscriminant::Magby,
        Species::Miltank => SpeciesDiscriminant::Miltank,
        Species::Blissey => SpeciesDiscriminant::Blissey,
        Species::Raikou => SpeciesDiscriminant::Raikou,
        Species::Entei => SpeciesDiscriminant::Entei,
        Species::Suicune => SpeciesDiscriminant::Suicune,
        Species::Larvitar => SpeciesDiscriminant::Larvitar,
        Species::Pupitar => SpeciesDiscriminant::Pupitar,
        Species::Tyranitar(_) => SpeciesDiscriminant::Tyranitar,
        Species::Lugia => SpeciesDiscriminant::Lugia,
        Species::HoOh => SpeciesDiscriminant::HoOh,
        Species::Celebi => SpeciesDiscriminant::Celebi,
        Species::Treecko => SpeciesDiscriminant::Treecko,
        Species::Grovyle => SpeciesDiscriminant::Grovyle,
        Species::Sceptile(_) => SpeciesDiscriminant::Sceptile,
        Species::Torchic => SpeciesDiscriminant::Torchic,
        Species::Combusken => SpeciesDiscriminant::Combusken,
        Species::Blaziken(_) => SpeciesDiscriminant::Blaziken,
        Species::Mudkip => SpeciesDiscriminant::Mudkip,
        Species::Marshtomp => SpeciesDiscriminant::Marshtomp,
        Species::Swampert(_) => SpeciesDiscriminant::Swampert,
        Species::Poochyena => SpeciesDiscriminant::Poochyena,
        Species::Mightyena => SpeciesDiscriminant::Mightyena,
        Species::Zigzagoon => SpeciesDiscriminant::Zigzagoon,
        Species::Linoone => SpeciesDiscriminant::Linoone,
        Species::Wurmple => SpeciesDiscriminant::Wurmple,
        Species::Silcoon => SpeciesDiscriminant::Silcoon,
        Species::Beautifly => SpeciesDiscriminant::Beautifly,
        Species::Cascoon => SpeciesDiscriminant::Cascoon,
        Species::Dustox => SpeciesDiscriminant::Dustox,
        Species::Lotad => SpeciesDiscriminant::Lotad,
        Species::Lombre => SpeciesDiscriminant::Lombre,
        Species::Ludicolo => SpeciesDiscriminant::Ludicolo,
        Species::Seedot => SpeciesDiscriminant::Seedot,
        Species::Nuzleaf => SpeciesDiscriminant::Nuzleaf,
        Species::Shiftry => SpeciesDiscriminant::Shiftry,
        Species::Taillow => SpeciesDiscriminant::Taillow,
        Species::Swellow => SpeciesDiscriminant::Swellow,
        Species::Wingull => SpeciesDiscriminant::Wingull,
        Species::Pelipper => SpeciesDiscriminant::Pelipper,
        Species::Ralts => SpeciesDiscriminant::Ralts,
        Species::Kirlia => SpeciesDiscriminant::Kirlia,
        Species::Gardevoir(_) => SpeciesDiscriminant::Gardevoir,
        Species::Surskit => SpeciesDiscriminant::Surskit,
        Species::Masquerain => SpeciesDiscriminant::Masquerain,
        Species::Shroomish => SpeciesDiscriminant::Shroomish,
        Species::Breloom => SpeciesDiscriminant::Breloom,
        Species::Slakoth => SpeciesDiscriminant::Slakoth,
        Species::Vigoroth => SpeciesDiscriminant::Vigoroth,
        Species::Slaking => SpeciesDiscriminant::Slaking,
        Species::Nincada => SpeciesDiscriminant::Nincada,
        Species::Ninjask => SpeciesDiscriminant::Ninjask,
        Species::Shedinja => SpeciesDiscriminant::Shedinja,
        Species::Whismur => SpeciesDiscriminant::Whismur,
        Species::Loudred => SpeciesDiscriminant::Loudred,
        Species::Exploud => SpeciesDiscriminant::Exploud,
        Species::Makuhita => SpeciesDiscriminant::Makuhita,
        Species::Hariyama => SpeciesDiscriminant::Hariyama,
        Species::Azurill => SpeciesDiscriminant::Azurill,
        Species::Nosepass => SpeciesDiscriminant::Nosepass,
        Species::Skitty => SpeciesDiscriminant::Skitty,
        Species::Delcatty => SpeciesDiscriminant::Delcatty,
        Species::Sableye(_) => SpeciesDiscriminant::Sableye,
        Species::Mawile(_) => SpeciesDiscriminant::Mawile,
        Species::Aron => SpeciesDiscriminant::Aron,
        Species::Lairon => SpeciesDiscriminant::Lairon,
        Species::Aggron(_) => SpeciesDiscriminant::Aggron,
        Species::Meditite => SpeciesDiscriminant::Meditite,
        Species::Medicham(_) => SpeciesDiscriminant::Medicham,
        Species::Electrike => SpeciesDiscriminant::Electrike,
        Species::Manectric(_) => SpeciesDiscriminant::Manectric,
        Species::Plusle => SpeciesDiscriminant::Plusle,
        Species::Minun => SpeciesDiscriminant::Minun,
        Species::Volbeat => SpeciesDiscriminant::Volbeat,
        Species::Illumise => SpeciesDiscriminant::Illumise,
        Species::Roselia => SpeciesDiscriminant::Roselia,
        Species::Gulpin => SpeciesDiscriminant::Gulpin,
        Species::Swalot => SpeciesDiscriminant::Swalot,
        Species::Carvanha => SpeciesDiscriminant::Carvanha,
        Species::Sharpedo(_) => SpeciesDiscriminant::Sharpedo,
        Species::Wailmer => SpeciesDiscriminant::Wailmer,
        Species::Wailord => SpeciesDiscriminant::Wailord,
        Species::Numel => SpeciesDiscriminant::Numel,
        Species::Camerupt(_) => SpeciesDiscriminant::Camerupt,
        Species::Torkoal => SpeciesDiscriminant::Torkoal,
        Species::Spoink => SpeciesDiscriminant::Spoink,
        Species::Grumpig => SpeciesDiscriminant::Grumpig,
        Species::Spinda => SpeciesDiscriminant::Spinda,
        Species::Trapinch => SpeciesDiscriminant::Trapinch,
        Species::Vibrava => SpeciesDiscriminant::Vibrava,
        Species::Flygon => SpeciesDiscriminant::Flygon,
        Species::Cacnea => SpeciesDiscriminant::Cacnea,
        Species::Cacturne => SpeciesDiscriminant::Cacturne,
        Species::Swablu => SpeciesDiscriminant::Swablu,
        Species::Altaria(_) => SpeciesDiscriminant::Altaria,
        Species::Zangoose => SpeciesDiscriminant::Zangoose,
        Species::Seviper => SpeciesDiscriminant::Seviper,
        Species::Lunatone => SpeciesDiscriminant::Lunatone,
        Species::Solrock => SpeciesDiscriminant::Solrock,
        Species::Barboach => SpeciesDiscriminant::Barboach,
        Species::Whiscash => SpeciesDiscriminant::Whiscash,
        Species::Corphish => SpeciesDiscriminant::Corphish,
        Species::Crawdaunt => SpeciesDiscriminant::Crawdaunt,
        Species::Baltoy => SpeciesDiscriminant::Baltoy,
        Species::Claydol => SpeciesDiscriminant::Claydol,
        Species::Lileep => SpeciesDiscriminant::Lileep,
        Species::Cradily => SpeciesDiscriminant::Cradily,
        Species::Anorith => SpeciesDiscriminant::Anorith,
        Species::Armaldo => SpeciesDiscriminant::Armaldo,
        Species::Feebas => SpeciesDiscriminant::Feebas,
        Species::Milotic => SpeciesDiscriminant::Milotic,
        Species::Castform(_) => SpeciesDiscriminant::Castform,
        Species::Kecleon => SpeciesDiscriminant::Kecleon,
        Species::Shuppet => SpeciesDiscriminant::Shuppet,
        Species::Banette => SpeciesDiscriminant::Banette,
        Species::Duskull => SpeciesDiscriminant::Duskull,
        Species::Dusclops => SpeciesDiscriminant::Dusclops,
        Species::Tropius => SpeciesDiscriminant::Tropius,
        Species::Chimecho => SpeciesDiscriminant::Chimecho,
        Species::Absol => SpeciesDiscriminant::Absol,
        Species::Wynaut => SpeciesDiscriminant::Wynaut,
        Species::Snorunt => SpeciesDiscriminant::Snorunt,
        Species::Glalie => SpeciesDiscriminant::Glalie,
        Species::Spheal => SpeciesDiscriminant::Spheal,
        Species::Sealeo => SpeciesDiscriminant::Sealeo,
        Species::Walrein => SpeciesDiscriminant::Walrein,
        Species::Clamperl => SpeciesDiscriminant::Clamperl,
        Species::Huntail => SpeciesDiscriminant::Huntail,
        Species::Gorebyss => SpeciesDiscriminant::Gorebyss,
        Species::Relicanth => SpeciesDiscriminant::Relicanth,
        Species::Luvdisc => SpeciesDiscriminant::Luvdisc,
        Species::Bagon => SpeciesDiscriminant::Bagon,
        Species::Shelgon => SpeciesDiscriminant::Shelgon,
        Species::Salamence(_) => SpeciesDiscriminant::Salamence,
        Species::Beldum => SpeciesDiscriminant::Beldum,
        Species::Metang => SpeciesDiscriminant::Metang,
        Species::Metagross(_) => SpeciesDiscriminant::Metagross,
        Species::Regirock => SpeciesDiscriminant::Regirock,
        Species::Regice => SpeciesDiscriminant::Regice,
        Species::Registeel => SpeciesDiscriminant::Registeel,
        Species::Latias => SpeciesDiscriminant::Latias,
        Species::Latios => SpeciesDiscriminant::Latios,
        Species::Kyogre(_) => SpeciesDiscriminant::Kyogre,
        Species::Groudon(_) => SpeciesDiscriminant::Groudon,
        Species::Rayquaza(_) => SpeciesDiscriminant::Rayquaza,
        Species::Jirachi => SpeciesDiscriminant::Jirachi,
        Species::Deoxys(_) => SpeciesDiscriminant::Deoxys,
        _ => SpeciesDiscriminant::Bulbasaur,
    }
}

/// The species of `s`, without its form, for a species of the fourth generation on.
pub open spec fn kind_of_late(s: Species) -> SpeciesDiscriminant {
    match s {
        Species::Turtwig => SpeciesDiscriminant::Turtwig,
        Species::Grotle => SpeciesDiscriminant::Grotle,
        Species::Torterra => SpeciesDiscriminant::Torterra,
        Species::Chimchar => SpeciesDiscriminant::Chimchar,
        Species::Monferno => SpeciesDiscriminant::Monferno,
        Species::Infernape => SpeciesDiscriminant::Infernape,
        Species::Piplup => SpeciesDiscriminant::Piplup,
        Species::Prinplup => SpeciesDiscriminant::Prinplup,
        Species::Empoleon => SpeciesDiscriminant::Empoleon,
        Species::Starly => SpeciesDiscriminant::Starly,
        Species::Staravia => SpeciesDiscriminant::Staravia,
        Species::Staraptor => SpeciesDiscriminant::Staraptor,
        Species::Bidoof => SpeciesDiscriminant::Bidoof,
        Species::Bibarel => SpeciesDiscriminant::Bibarel,
        Species::Kricketot => SpeciesDiscriminant::Kricketot,
        Species::Kricketune => SpeciesDiscriminant::Kricketune,
        Species::Shinx => SpeciesDiscriminant::Shinx,
        Species::Luxio => SpeciesDiscriminant::Luxio,
        Species::Luxray => SpeciesDiscriminant::Luxray,
        Species::Budew => SpeciesDiscriminant::Budew,
        Species::Roserade => SpeciesDiscriminant::Roserade,
        Species::Cranidos => SpeciesDiscriminant::Cranidos,
        Species::Rampardos => SpeciesDiscriminant::Rampardos,
        Species::Shieldon => SpeciesDiscriminant::Shieldon,
        Species::Bastiodon => SpeciesDiscriminant::Bastiodon,
        Species::Burmy => SpeciesDiscriminant::Burmy,
        Species::Wormadam(_) => SpeciesDiscriminant::Wormadam,
        Species::Mothim => SpeciesDiscriminant::Mothim,
        Species::Combee => SpeciesDiscriminant::Combee,
        Species::Vespiquen => SpeciesDiscriminant::Vespiquen,
        Species::Pachirisu => SpeciesDiscriminant::Pachirisu,
        Species::Buizel => SpeciesDiscriminant::Buizel,
        Species::Floatzel => SpeciesDiscriminant::Floatzel,
        Species::Cherubi => SpeciesDiscriminant::Cherubi,
        Species::Cherrim => SpeciesDiscriminant::Cherrim,
        Species::Shellos => SpeciesDiscriminant::Shellos,
        Species::Gastrodon => SpeciesDiscriminant::Gastrodon,
        Species::Ambipom => SpeciesDiscriminant::Ambipom,
        Species::Drifloon => SpeciesDiscriminant::Drifloon,
        Species::Drifblim => SpeciesDiscriminant::Drifblim,
        Species::Buneary => SpeciesDiscriminant::Buneary,
        Species::Lopunny(_) => SpeciesDiscriminant::Lopunny,
        Species::Mismagius => SpeciesDiscriminant::Mismagius,
        Species::Honchkrow => SpeciesDiscriminant::Honchkrow,
        Species::Glameow => SpeciesDiscriminant::Glameow,
        Species::Purugly => SpeciesDiscriminant::Purugly,
        Species::Chingling => SpeciesDiscriminant::Chingling,
        Species::Stunky => SpeciesDiscriminant::Stunky,
        Species::Skuntank => SpeciesDiscriminant::Skuntank,
        Species::Bronzor => SpeciesDiscriminant::Bronzor,
        Species::Bronzong => SpeciesDiscriminant::Bronzong,
        Species::Bonsly => SpeciesDiscriminant::Bonsly,
        Species::MimeJr => SpeciesDiscriminant::MimeJr,
        Species::Happiny => SpeciesDiscriminant::Happiny,
        Species::Chatot => SpeciesDiscriminant::Chatot,
        Species::Spiritomb => SpeciesDiscriminant::Spiritomb,
        Species::Gible => SpeciesDiscriminant::Gible,
        Species::Gabite => SpeciesDiscriminant::Gabite,
        Species::Garchomp(_) => SpeciesDiscriminant::Garchomp,
        Species::Munchlax => SpeciesDiscriminant::Munchlax,
        Species::Riolu => SpeciesDiscriminant::Riolu,
        Species::Lucario(_) => SpeciesDiscriminant::Lucario,
        Species::Hippopotas => SpeciesDiscriminant::Hippopotas,
        Species::Hippowdon => SpeciesDiscriminant::Hippowdon,
        Species::Skorupi => SpeciesDiscriminant::Skorupi,
        Species::Drapion => SpeciesDiscriminant::Drapion,
        Species::Croagunk => SpeciesDiscriminant::Croagunk,
        Species::Toxicroak => SpeciesDiscriminant::Toxicroak,
        Species::Carnivine => SpeciesDiscriminant::Carnivine,
        Species::Finneon => SpeciesDiscriminant::Finneon,
        Species::Lumineon => SpeciesDiscriminant::Lumineon,
        Species::Mantyke => SpeciesDiscriminant::Mantyke,
        Species::Snover => SpeciesDiscriminant::Snover,
        Species::Abomasnow(_) => SpeciesDiscriminant::Abomasnow,
        Species::Weavile => SpeciesDiscriminant::Weavile,
        Species::Magnezone => SpeciesDiscriminant::Magnezone,
        Species::Lickilicky => SpeciesDiscriminant::Lickilicky,
        Species::Rhyperior => SpeciesDiscriminant::Rhyperior,
        Species::Tangrowth => SpeciesDiscriminant::Tangrowth,
        Species::Electivire => SpeciesDiscriminant::Electivire,
        Species::Magmortar => SpeciesDiscriminant::Magmortar,
        Species::Togekiss => SpeciesDiscriminant::Togekiss,
        Species::Yanmega => SpeciesDiscriminant::Yanmega,
        Species::Leafeon => SpeciesDiscriminant::Leafeon,
        Species::Glaceon => SpeciesDiscriminant::Glaceon,
        Species::Gliscor => SpeciesDiscriminant::Gliscor,
        Species::Mamoswine => SpeciesDiscriminant::Mamoswine,
        Species::PorygonZ => SpeciesDiscriminant::PorygonZ,
        Species::Gallade(_) => SpeciesDiscriminant::Gallade,
        Species::Probopass => SpeciesDiscriminant::Probopass,
        Species::Dusknoir => SpeciesDiscriminant::Dusknoir,
        Species::Froslass => SpeciesDiscriminant::Froslass,
        Species::Rotom(_) => SpeciesDiscriminant::Rotom,
        Species::Uxie => SpeciesDiscriminant::Uxie,
        Species::Mesprit => SpeciesDiscriminant::Mesprit,
        Species::Azelf => SpeciesDiscriminant::Azelf,
        Species::Dialga => SpeciesDiscriminant::Dialga,
        Species::Palkia => SpeciesDiscriminant::Palkia,
        Species::Heatran => SpeciesDiscriminant::Heatran,
        Species::Regigigas => SpeciesDiscriminant::Regigigas,
        Species::Giratina(_) => SpeciesDiscriminant::Giratina,
        Species::Cresselia => SpeciesDiscriminant::Cresselia,
        Species::Phione => SpeciesDiscriminant::Phione,
        Species::Manaphy => SpeciesDiscriminant::Manaphy,
        Species::Darkrai => SpeciesDiscriminant::Darkrai,
        Species::Shaymin(_) => SpeciesDiscriminant::Shaymin,
        Species::Arceus(_) => SpeciesDiscriminant::Arceus,
        Species::Victini => SpeciesDiscriminant::Victini,
        Species::Snivy => SpeciesDiscriminant::Snivy,
        Species::Servine => SpeciesDiscriminant::Servine,
        Species::Serperior => SpeciesDiscriminant::Serperior,
        Species::Tepig => SpeciesDiscriminant::Tepig,
        Species::Pignite => SpeciesDiscriminant::Pignite,
        Species::Emboar => SpeciesDiscriminant::Emboar,
        Species::Oshawott => SpeciesDiscriminant::Oshawott,
        Species::Dewott => SpeciesDiscriminant::Dewott,
        Species::Samurott => SpeciesDiscriminant::Samurott,
        Species::Patrat => SpeciesDiscriminant::Patrat,
        Species::Watchog => SpeciesDiscriminant::Watchog,
        Species::Lillipup => SpeciesDiscriminant::Lillipup,
        Species::Herdier => SpeciesDiscriminant::Herdier,
        Species::Stoutland => SpeciesDiscriminant::Stoutland,
        Species::Purrloin => SpeciesDiscriminant::Purrloin,
        Species::Liepard => SpeciesDiscriminant::Liepard,
        Species::Pansage => SpeciesDiscriminant::Pansage,
        Species::Simisage => SpeciesDiscriminant::Simisage,
        Species::Pansear => SpeciesDiscriminant::Pansear,
        Species::Simisear => SpeciesDiscriminant::Simisear,
        Species::Panpour => SpeciesDiscriminant::Panpour,
        Species::Simipour => SpeciesDiscriminant::Simipour,
        Species::Munna => SpeciesDiscriminant::Munna,
        Species::Musharna => SpeciesDiscriminant::Musharna,
        Species::Pidove => SpeciesDiscriminant::Pidove,
        Species::Tranquill => SpeciesDiscriminant::Tranquill,
        Species::Unfezant => SpeciesDiscriminant::Unfezant,
        Species::Blitzle => SpeciesDiscriminant::Blitzle,
        Species::Zebstrika => SpeciesDiscriminant::Zebstrika,
        Species::Roggenrola => SpeciesDiscriminant::Roggenrola,
        Species::Boldore => SpeciesDiscriminant::Boldore,
        Species::Gigalith => SpeciesDiscriminant::Gigalith,
        Species::Woobat => SpeciesDiscriminant::Woobat,
        Species::Swoobat => SpeciesDiscriminant::Swoobat,
        Species::Drilbur => SpeciesDiscriminant::Drilbur,
        Species::Excadrill => SpeciesDiscriminant::Excadrill,
        Species::Audino => SpeciesDiscriminant::Audino,
        Species::Timburr => SpeciesDiscriminant::Timburr,
        Species::Gurdurr => SpeciesDiscriminant::Gurdurr,
        Species::Conkeldurr => SpeciesDiscriminant::Conkeldurr,
        Species::Tympole => SpeciesDiscriminant::Tympole,
        Species::Palpitoad => SpeciesDiscriminant::Palpitoad,
        Species::Seismitoad => SpeciesDiscriminant::Seismitoad,
        Species::Throh => SpeciesDiscriminant::Throh,
        Species::Sawk => SpeciesDiscriminant::Sawk,
        Species::Sewaddle => SpeciesDiscriminant::Sewaddle,
        Species::Swadloon => SpeciesDiscriminant::Swadloon,
        Species::Leavanny => SpeciesDiscriminant::Leavanny,
        Species::Venipede => SpeciesDiscriminant::Venipede,
        Species::Whirlipede => SpeciesDiscriminant::Whirlipede,
        Species::Scolipede => SpeciesDiscriminant::Scolipede,
        Species::Cottonee => SpeciesDiscriminant::Cottonee,
        Species::Whimsicott => SpeciesDiscriminant::Whimsicott,
        Species::Petilil => SpeciesDiscriminant::Petilil,
        Species::Lilligant => SpeciesDiscriminant::Lilligant,
        Species::Basculin => SpeciesDiscriminant::Basculin,
        Species::Sandile => SpeciesDiscriminant::Sandile,
        Species::Krokorok => SpeciesDiscriminant::Krokorok,
        Species::Krookodile => SpeciesDiscriminant::Krookodile,
        Species::Darumaka => SpeciesDiscriminant::Darumaka,
        Species::Darmanitan(_) => SpeciesDiscriminant::Darmanitan,
        Species::Maractus => SpeciesDiscriminant::Maractus,
        Species::Dwebble => SpeciesDiscriminant::Dwebble,
        Species::Crustle => SpeciesDiscriminant::Crustle,
        Species::Scraggy => SpeciesDiscriminant::Scraggy,
        Species::Scrafty => SpeciesDiscriminant::Scrafty,
        Species::Sigilyph => SpeciesDiscriminant::Sigilyph,
        Species::Yamask => SpeciesDiscriminant::Yamask,
        Species::Cofagrigus => SpeciesDiscriminant::Cofagrigus,
        Species::Tirtouga => SpeciesDiscriminant::Tirtouga,
        Species::Carracosta => SpeciesDiscriminant::Carracosta,
        Species::Archen => SpeciesDiscriminant::Archen,
        Species::Archeops => SpeciesDiscriminant::Archeops,
        Species::Trubbish => SpeciesDiscriminant::Trubbish,
        Species::Garbodor => SpeciesDiscriminant::Garbodor,
        Species::Zorua => SpeciesDiscriminant::Zorua,
        Species::Zoroark => SpeciesDiscriminant::Zoroark,
        Species::Minccino => SpeciesDiscriminant::Minccino,
        Species::Cinccino => SpeciesDiscriminant::Cinccino,
        Species::Gothita => SpeciesDiscriminant::Gothita,
        Species::Gothorita => SpeciesDiscriminant::Gothorita,
        Species::Gothitelle => SpeciesDiscriminant::Gothitelle,
        Species::Solosis => SpeciesDiscriminant::Solosis,
        Species::Duosion => SpeciesDiscriminant::Duosion,
        Species::Reuniclus => SpeciesDiscriminant::Reuniclus,
        Species::Ducklett => SpeciesDiscriminant::Ducklett,
        Species::Swanna => SpeciesDiscriminant::Swanna,
        Species::Vanillite => SpeciesDiscriminant::Vanillite,
        Species::Vanillish => SpeciesDiscriminant::Vanillish,
        Species::Vanilluxe => SpeciesDiscriminant::Vanilluxe,
        Species::Deerling => SpeciesDiscriminant::Deerling,
        Species::Sawsbuck => SpeciesDiscriminant::Sawsbuck,
        Species::Emolga => SpeciesDiscriminant::Emolga,
        Species::Karrablast => SpeciesDiscriminant::Karrablast,
        Species::Escavalier => SpeciesDiscriminant::Escavalier,
        Species::Foongus => SpeciesDiscriminant::Foongus,
        Species::Amoonguss => SpeciesDiscriminant::Amoonguss,
        Species::Frillish => SpeciesDiscriminant::Frillish,
        Species::Jellicent => SpeciesDiscriminant::Jellicent,
        Species::Alomomola => SpeciesDiscriminant::Alomomola,
        Species::Joltik => SpeciesDiscriminant::Joltik,
        Species::Galvantula => SpeciesDiscriminant::Galvantula,
        Species::Ferroseed => SpeciesDiscriminant::Ferroseed,
        Species::Ferrothorn => SpeciesDiscriminant::Ferrothorn,
        Species::Klink => SpeciesDiscriminant::Klink,
        Species::Klang => SpeciesDiscriminant::Klang,
        Species::Klinklang => SpeciesDiscriminant::Klinklang,
        Species::Tynamo => SpeciesDiscriminant::Tynamo,
        Species::Eelektrik => SpeciesDiscriminant::Eelektrik,
        Species::Eelektross => SpeciesDiscriminant::Eelektross,
        Species::Elgyem => SpeciesDiscriminant::Elgyem,
        Species::Beheeyem => SpeciesDiscriminant::Beheeyem,
        Species::Litwick => SpeciesDiscriminant::Litwick,
        Species::Lampent => SpeciesDiscriminant::Lampent,
        Species::Chandelure => SpeciesDiscriminant::Chandelure,
        Species::Axew => SpeciesDiscriminant::Axew,
        Species::Fraxure => SpeciesDiscriminant::Fraxure,
        Species::Haxorus => SpeciesDiscriminant::Haxorus,
        Species::Cubchoo => SpeciesDiscriminant::Cubchoo,
        Species::Beartic => SpeciesDiscriminant::Beartic,
        Species::Cryogonal => SpeciesDiscriminant::Cryogonal,
        Species::Shelmet => SpeciesDiscriminant::Shelmet,
        Species::Accelgor => SpeciesDiscriminant::Accelgor,
        Species::Stunfisk => SpeciesDiscriminant::Stunfisk,
        Species::Mienfoo => SpeciesDiscriminant::Mienfoo,
        Species::Mienshao => SpeciesDiscriminant::Mienshao,
        Species::Druddigon => SpeciesDiscriminant::Druddigon,
        Species::Golett => SpeciesDiscriminant::Golett,
        Species::Golurk => SpeciesDiscriminant::Golurk,
        Species::Pawniard => SpeciesDiscriminant::Pawniard,
        Species::Bisharp => SpeciesDiscriminant::Bisharp,
        Species::Bouffalant => SpeciesDiscriminant::Bouffalant,
        Species::Rufflet => SpeciesDiscriminant::Rufflet,
        Species::Braviary => SpeciesDiscriminant::Braviary,
        Species::Vullaby => SpeciesDiscriminant::Vullaby,
        Species::Mandibuzz => SpeciesDiscriminant::Mandibuzz,
        Species::Heatmor => SpeciesDiscriminant::Heatmor,
        Species::Durant => SpeciesDiscriminant::Durant,
        Species::Deino => SpeciesDiscriminant::Deino,
        Species::Zweilous => SpeciesDiscriminant::Zweilous,
        Species::Hydreigon => SpeciesDiscriminant::Hydreigon,
        Species::Larvesta => SpeciesDiscriminant::Larvesta,
        Species::Volcarona => SpeciesDiscriminant::Volcarona,
        Species::Cobalion => SpeciesDiscriminant::Cobalion,
        Species::Terrakion => SpeciesDiscriminant::Terrakion,
        Species::Virizion => SpeciesDiscriminant::Virizion,
        Species::Tornadus(_) => SpeciesDiscriminant::Tornadus,
        Species::Thundurus(_) => SpeciesDiscriminant::Thundurus,
        Species::Reshiram => SpeciesDiscriminant::Reshiram,
        Species::Zekrom => SpeciesDiscriminant::Zekrom,
        Species::Landorus(_) => SpeciesDiscriminant::Landorus,
        Species::Kyurem(_) => SpeciesDiscriminant::Kyurem,
        Species::Keldeo => SpeciesDiscriminant::Keldeo,
        Species::Meloetta(_) => SpeciesDiscriminant::Meloetta,
        Species::Genesect => SpeciesDiscriminant::Genesect,
        Species::Chespin => SpeciesDiscriminant::Chespin,
        Species::Quilladin => SpeciesDiscriminant::Quilladin,
        Species::Chesnaught => SpeciesDiscriminant::Chesnaught,
        Species::Fennekin => SpeciesDiscriminant::Fennekin,
        Species::Braixen => SpeciesDiscriminant::Braixen,
        Species::Delphox => SpeciesDiscriminant::Delphox,
        Species::Froakie => SpeciesDiscriminant::Froakie,
        Species::Frogadier => SpeciesDiscriminant::Frogadier,
        Species::Greninja(_) => SpeciesDiscriminant::Greninja,
        Species::Bunnelby => SpeciesDiscriminant::Bunnelby,
        Species::Diggersby => SpeciesDiscriminant::Diggersby,
        Species::Fletchling => SpeciesDiscriminant::Fletchling,
        Species::Fletchinder => SpeciesDiscriminant::Fletchinder,
        Species::Talonflame => SpeciesDiscriminant::Talonflame,
        Species::Scatterbug => SpeciesDiscriminant::Scatterbug,
        Species::Spewpa => SpeciesDiscriminant::Spewpa,
        Species::Vivillon => SpeciesDiscriminant::Vivillon,
        Species::Litleo => SpeciesDiscriminant::Litleo,
        Species::Pyroar => SpeciesDiscriminant::Pyroar,
        Species::Flabebe => SpeciesDiscriminant::Flabebe,
        Species::Floette => SpeciesDiscriminant::Floette,
        Species::Florges => SpeciesDiscriminant::Florges,
        Species::Skiddo => SpeciesDiscriminant::Skiddo,
        Species::Gogoat => SpeciesDiscriminant::Gogoat,
        Species::Pancham => SpeciesDiscriminant::Pancham,
        Species::Pangoro => SpeciesDiscriminant::Pangoro,
        Species::Furfrou => SpeciesDiscriminant::Furfrou,
        Species::Espurr => SpeciesDiscriminant::Espurr,
        Species::Meowstic => SpeciesDiscriminant::Meowstic,
        Species::Honedge => SpeciesDiscriminant::Honedge,
        Species::Doublade => SpeciesDiscriminant::Doublade,
        Species::Aegislash(_) => SpeciesDiscriminant::Aegislash,
        Species::Spritzee => SpeciesDiscriminant::Spritzee,
        Species::Aromatisse => SpeciesDiscriminant::Aromatisse,
        Species::Swirlix => SpeciesDiscriminant::Swirlix,
        Species::Slurpuff => SpeciesDiscriminant::Slurpuff,
        Species::Inkay => SpeciesDiscriminant::Inkay,
        Species::Malamar => SpeciesDiscriminant::Malamar,
        Species::Binacle => SpeciesDiscriminant::Binacle,
        Species::Barbaracle => SpeciesDiscriminant::Barbaracle,
        Species::Skrelp => SpeciesDiscriminant::Skrelp,
        Species::Dragalge => SpeciesDiscriminant::Dragalge,
        Species::Clauncher => SpeciesDiscriminant::Clauncher,
        Species::Clawitzer => SpeciesDiscriminant::Clawitzer,
        Species::Helioptile => SpeciesDiscriminant::Helioptile,
        Species::Heliolisk => SpeciesDiscriminant::Heliolisk,
        Species::Tyrunt => SpeciesDiscriminant::Tyrunt,
        Species::Tyrantrum => SpeciesDiscriminant::Tyrantrum,
        Species::Amaura => SpeciesDiscriminant::Amaura,
        Species::Aurorus => SpeciesDiscriminant::Aurorus,
        Species::Sylveon => SpeciesDiscriminant::Sylveon,
        Species::Hawlucha => SpeciesDiscriminant::Hawlucha,
        Species::Dedenne => SpeciesDiscriminant::Dedenne,
        Species::Carbink => SpeciesDiscriminant::Carbink,
        Species::Goomy => SpeciesDiscriminant::Goomy,
        Species::Sliggoo => SpeciesDiscriminant::Sliggoo,
        Species::Goodra => SpeciesDiscriminant::Goodra,
        Species::Klefki => SpeciesDiscriminant::Klefki,
        Species::Phantump => SpeciesDiscriminant::Phantump,
        Species::Trevenant => SpeciesDiscriminant::Trevenant,
        Species::Pumpkaboo(_) => SpeciesDiscriminant::Pumpkaboo,
        Species::Gourgeist(_) => SpeciesDiscriminant::Gourgeist,
        Species::Bergmite => SpeciesDiscriminant::Bergmite,
        Species::Avalugg => SpeciesDiscriminant::Avalugg,
        Species::Noibat => SpeciesDiscriminant::Noibat,
        Species::Noivern => SpeciesDiscriminant::Noivern,
        Species::Xerneas => SpeciesDiscriminant::Xerneas,
        Species::Yveltal => SpeciesDiscriminant::Yveltal,
        Species::Zygarde(_) => SpeciesDiscriminant::Zygarde,
        Species::Diancie(_) => SpeciesDiscriminant::Diancie,
        Species::Hoopa(_) => SpeciesDiscriminant::Hoopa,
        Species::Volcanion => SpeciesDiscriminant::Volcanion,
        Species::Rowlet => SpeciesDiscriminant::Rowlet,
        Species::Dartrix => SpeciesDiscriminant::Dartrix,
        Species::Decidueye => SpeciesDiscriminant::Decidueye,
        Species::Litten => SpeciesDiscriminant::Litten,
        Species::Torracat => SpeciesDiscriminant::Torracat,
        Species::Incineroar => SpeciesDiscriminant::Incineroar,
        Species::Popplio => SpeciesDiscriminant::Popplio,
        Species::Brionne => SpeciesDiscriminant::Brionne,
        Species::Primarina => SpeciesDiscriminant::Primarina,
        Species::Pikipek => SpeciesDiscriminant::Pikipek,
        Species::Trumbeak => SpeciesDiscriminant::Trumbeak,
        Species::Toucannon => SpeciesDiscriminant::Toucannon,
        Species::Yungoos => SpeciesDiscriminant::Yungoos,
        Species::Gumshoos => SpeciesDiscriminant::Gumshoos,
        Species::Grubbin => SpeciesDiscriminant::Grubbin,
        Species::Charjabug => SpeciesDiscriminant::Charjabug,
        Species::Vikavolt => SpeciesDiscriminant::Vikavolt,
        Species::Crabrawler => SpeciesDiscriminant::Crabrawler,
        Species::Crabominable => SpeciesDiscriminant::Crabominable,
        Species::Oricorio(_) => SpeciesDiscriminant::Oricorio,
        Species::Cutiefly => SpeciesDiscriminant::Cutiefly,
        Species::Ribombee => SpeciesDiscriminant::Ribombee,
        Species::Rockruff => SpeciesDiscriminant::Rockruff,
        Species::Lycanroc(_) => SpeciesDiscriminant::Lycanroc,
        Species::Wishiwashi(_) => SpeciesDiscriminant::Wishiwashi,
        Species::Mareanie => SpeciesDiscriminant::Mareanie,
        Species::Toxapex => SpeciesDiscriminant::Toxapex,
        Species::Mudbray => SpeciesDiscriminant::Mudbray,
        Species::Mudsdale => SpeciesDiscriminant::Mudsdale,
        Species::Dewpider => SpeciesDiscriminant::Dewpider,
        Species::Araquanid => SpeciesDiscriminant::Araquanid,
        Species::Fomantis => SpeciesDiscriminant::Fomantis,
        Species::Lurantis => SpeciesDiscriminant::Lurantis,
        Species::Morelull => SpeciesDiscriminant::Morelull,
        Species::Shiinotic => SpeciesDiscriminant::Shiinotic,
        Species::Salandit => SpeciesDiscriminant::Salandit,
        Species::Salazzle => SpeciesDiscriminant::Salazzle,
        Species::Stufful => SpeciesDiscriminant::Stufful,
        Species::Bewear => SpeciesDiscriminant::Bewear,
        Species::Bounsweet => SpeciesDiscriminant::Bounsweet,
        Species::Steenee => SpeciesDiscriminant::Steenee,
        Species::Tsareena => SpeciesDiscriminant::Tsareena,
        Species::Comfey => SpeciesDiscriminant::Comfey,
        Species::Oranguru => SpeciesDiscriminant::Oranguru,
        Species::Passimian => SpeciesDiscriminant::Passimian,
        Species::Wimpod => SpeciesDiscriminant::Wimpod,
        Species::Golisopod => SpeciesDiscriminant::Golisopod,
        Species::Sandygast => SpeciesDiscriminant::Sandygast,
        Species::Palossand => SpeciesDiscriminant::Palossand,
        Species::Pyukumuku => SpeciesDiscriminant::Pyukumuku,
        Species::TypeNull(_) => SpeciesDiscriminant::TypeNull,
        Species::Silvally(_) => SpeciesDiscriminant::Silvally,
        Species::Minior(_) => SpeciesDiscriminant::Minior,
        Species::Komala => SpeciesDiscriminant::Komala,
        Species::Turtonator => SpeciesDiscriminant::Turtonator,
        Species::Togedemaru => SpeciesDiscriminant::Togedemaru,
        Species::Mimikyu(_) => SpeciesDiscriminant::Mimikyu,
        Species::Bruxish => SpeciesDiscriminant::Bruxish,
        Species::Drampa => SpeciesDiscriminant::Drampa,
        Species::Dhelmise => SpeciesDiscriminant::Dhelmise,
        Species::JangmoO => SpeciesDiscriminant::JangmoO,
        Species::HakamoO => SpeciesDiscriminant::HakamoO,
        Species::KommoO => SpeciesDiscriminant::KommoO,
        Species::TapuKoko => SpeciesDiscriminant::TapuKoko,
        Species::TapuLele => SpeciesDiscriminant::TapuLele,
        Species::TapuBulu => SpeciesDiscriminant::TapuBulu,
        Species::TapuFini => SpeciesDiscriminant::TapuFini,
        Species::Cosmog => SpeciesDiscriminant::Cosmog,
        Species::Cosmoem => SpeciesDiscriminant::Cosmoem,
        Species::Solgaleo => SpeciesDiscriminant::Solgaleo,
        Species::Lunala => SpeciesDiscriminant::Lunala,
        Species::Nihilego => SpeciesDiscriminant::Nihilego,
        Species::Buzzwole => SpeciesDiscriminant::Buzzwole,
        Species::Pheromosa => SpeciesDiscriminant::Pheromosa,
        Species::Xurkitree => SpeciesDiscriminant::Xurkitree,
        Species::Celesteela => SpeciesDiscriminant::Celesteela,
        Species::Kartana => SpeciesDiscriminant::Kartana,
        Species::Guzzlord => SpeciesDiscriminant::Guzzlord,
        Species::Necrozma(_) => SpeciesDiscriminant::Necrozma,
        Species::Magearna => SpeciesDiscriminant::Magearna,
        Species::Marshadow => SpeciesDiscriminant::Marshadow,
        Species::Poipole => SpeciesDiscriminant::Poipole,
        Species::Naganadel => SpeciesDiscriminant::Naganadel,
        Species::Stakataka => SpeciesDiscriminant::Stakataka,
        Species::Blacephalon => SpeciesDiscriminant::Blacephalon,
        Species::Zeraora => SpeciesDiscriminant::Zeraora,
        _ => SpeciesDiscriminant::Bulbasaur,
    }
}

/// Whether a species comes in several forms.
pub open spec fn bears_formes(k: SpeciesDiscriminant) -> bool {
    match k {
        SpeciesDiscriminant::Venusaur
        | SpeciesDiscriminant::Charizard
        | SpeciesDiscriminant::Blastoise
        | SpeciesDiscriminant::Beedrill
        | SpeciesDiscriminant::Pidgeot
        | SpeciesDiscriminant::Rattata
        | SpeciesDiscriminant::Raticate
        | SpeciesDiscriminant::Raichu
        | SpeciesDiscriminant::Sandshrew
        | SpeciesDiscriminant::Sandslash
        | SpeciesDiscriminant::Vulpix
        | SpeciesDiscriminant::Ninetales
        | SpeciesDiscriminant::Diglett
        | SpeciesDiscriminant::Dugtrio
        | SpeciesDiscriminant::Persian
        | SpeciesDiscriminant::Alakazam
        | SpeciesDiscriminant::Geodude
        | SpeciesDiscriminant::Graveler
        | SpeciesDiscriminant::Golem
        | SpeciesDiscriminant::Grimer
        | SpeciesDiscriminant::Muk
        | SpeciesDiscriminant::Gengar
        | SpeciesDiscriminant::Exeggutor
        | SpeciesDiscriminant::Marowak
        | SpeciesDiscriminant::Kangaskhan
        | SpeciesDiscriminant::Pinsir
        | SpeciesDiscriminant::Gyarados
        | SpeciesDiscriminant::Aerodactyl
        | SpeciesDiscriminant::Mewtwo
        | SpeciesDiscriminant::Steelix
        | SpeciesDiscriminant::Scizor
        | SpeciesDiscriminant::Heracross
        | SpeciesDiscriminant::Houndoom
        | SpeciesDiscriminant::Tyranitar
        | SpeciesDiscriminant::Sceptile
        | SpeciesDiscriminant::Blaziken
        | SpeciesDiscriminant::Swampert
        | SpeciesDiscriminant::Gardevoir
        | SpeciesDiscriminant::Sableye
        | SpeciesDiscriminant::Mawile
        | SpeciesDiscriminant::Aggron
        | SpeciesDiscriminant::Medicham
        | SpeciesDiscriminant::Manectric
        | SpeciesDiscriminant::Sharpedo
        | SpeciesDiscriminant::Camerupt
        | SpeciesDiscriminant::Altaria
        | SpeciesDiscriminant::Castform
        | SpeciesDiscriminant::Salamence
        | SpeciesDiscriminant::Metagross
        | SpeciesDiscriminant::Kyogre
        | SpeciesDiscriminant::Groudon
        | SpeciesDiscriminant::Rayquaza
        | SpeciesDiscriminant::Deoxys
        | SpeciesDiscriminant::Wormadam
        | SpeciesDiscriminant::Lopunny
        | SpeciesDiscriminant::Garchomp
        | SpeciesDiscriminant::Lucario
        | SpeciesDiscriminant::Abomasnow
        | SpeciesDiscriminant::Gallade
        | SpeciesDiscriminant::Rotom
        | SpeciesDiscriminant::Giratina
        | SpeciesDiscriminant::Shaymin
        | SpeciesDiscriminant::Arceus
        | SpeciesDiscriminant::Darmanitan
        | SpeciesDiscriminant::Tornadus
        | SpeciesDiscriminant::Thundurus
        | SpeciesDiscriminant::Landorus
        | SpeciesDiscriminant::Kyurem
        | SpeciesDiscriminant::Meloetta
        | SpeciesDiscriminant::Greninja
        | SpeciesDiscriminant::Aegislash
        | SpeciesDiscriminant::Pumpkaboo
        | SpeciesDiscriminant::Gourgeist
        | SpeciesDiscriminant::Zygarde
        | SpeciesDiscriminant::Diancie
        | SpeciesDiscriminant::Hoopa
        | SpeciesDiscriminant::Oricorio
        | SpeciesDiscriminant::Lycanroc
        | SpeciesDiscriminant::Wishiwashi
        | SpeciesDiscriminant::TypeNull
        | SpeciesDiscriminant::Silvally
        | SpeciesDiscriminant::Minior
        | SpeciesDiscriminant::Mimikyu
        | SpeciesDiscriminant::Necrozma
        => true,
        _ => false,
    }
}

/// The position of a species in dex order, from 0.
pub open spec fn dex_index(k: SpeciesDiscriminant) -> int {
    match k {
        SpeciesDiscriminant::Bulbasaur
        | SpeciesDiscriminant::Ivysaur
        | SpeciesDiscriminant::Venusaur
        | SpeciesDiscriminant::Charmander
        | SpeciesDiscriminant::Charmeleon
        | SpeciesDiscriminant::Charizard
        | SpeciesDiscriminant::Squirtle
        | SpeciesDiscriminant::Wartortle
        | SpeciesDiscriminant::Blastoise
        | SpeciesDiscriminant::Caterpie
        | SpeciesDiscriminant::Metapod
        | SpeciesDiscriminant::Butterfree
        | SpeciesDiscriminant::Weedle
        | SpeciesDiscriminant::Kakuna
        | SpeciesDiscriminant::Beedrill
        | SpeciesDiscriminant::Pidgey
        | SpeciesDiscriminant::Pidgeotto
        | SpeciesDiscriminant::Pidgeot
        | SpeciesDiscriminant::Rattata
        | SpeciesDiscriminant::Raticate
        | SpeciesDiscriminant::Spearow
        | SpeciesDiscriminant::Fearow
        | SpeciesDiscriminant::Ekans
        | SpeciesDiscriminant::Arbok
        | SpeciesDiscriminant::Pikachu
        | SpeciesDiscriminant::Raichu
        | SpeciesDiscriminant::Sandshrew
        | SpeciesDiscriminant::Sandslash
        | SpeciesDiscriminant::NidoranF
        | SpeciesDiscriminant::Nidorina
        | SpeciesDiscriminant::Nidoqueen
        | SpeciesDiscriminant::NidoranM
        | SpeciesDiscriminant::Nidorino
        | SpeciesDiscriminant::Nidoking
        | SpeciesDiscriminant::Clefairy
        | SpeciesDiscriminant::Clefable
        | SpeciesDiscriminant::Vulpix
        | SpeciesDiscriminant::Ninetales
        | SpeciesDiscriminant::Jigglypuff
        | SpeciesDiscriminant::Wigglytuff
        | SpeciesDiscriminant::Zubat
        | SpeciesDiscriminant::Golbat
        | SpeciesDiscriminant::Oddish
        | SpeciesDiscriminant::Gloom
        | SpeciesDiscriminant::Vileplume
        | SpeciesDiscriminant::Paras
        | SpeciesDiscriminant::Parasect
        | SpeciesDiscriminant::Venonat
        | SpeciesDiscriminant::Venomoth
        | SpeciesDiscriminant::Diglett
        | SpeciesDiscriminant::Dugtrio
        | SpeciesDiscriminant::Meowth
        | SpeciesDiscriminant::Persian
        | SpeciesDiscriminant::Psyduck
        | SpeciesDiscriminant::Golduck
        | SpeciesDiscriminant::Mankey
        | SpeciesDiscriminant::Primeape
        | SpeciesDiscriminant::Growlithe
        | SpeciesDiscriminant::Arcanine
        | SpeciesDiscriminant::Poliwag
        | SpeciesDiscriminant::Poliwhirl
        | SpeciesDiscriminant::Poliwrath
        | SpeciesDiscriminant::Abra
        | SpeciesDiscriminant::Kadabra
        | SpeciesDiscriminant::Alakazam
        | SpeciesDiscriminant::Machop
        | SpeciesDiscriminant::Machoke
        | SpeciesDiscriminant::Machamp
        | SpeciesDiscriminant::Bellsprout
        | SpeciesDiscriminant::Weepinbell
        | SpeciesDiscriminant::Victreebel
        | SpeciesDiscriminant::Tentacool
        | SpeciesDiscriminant::Tentacruel
        | SpeciesDiscriminant::Geodude
        | SpeciesDiscriminant::Graveler
        | SpeciesDiscriminant::Golem
        | SpeciesDiscriminant::Ponyta
        | SpeciesDiscriminant::Rapidash
        | SpeciesDiscriminant::Slowpoke
        | SpeciesDiscriminant::Slowbro
        | SpeciesDiscriminant::Magnemite
        | SpeciesDiscriminant::Magneton
        | SpeciesDiscriminant::Farfetchd
        | SpeciesDiscriminant::Doduo
        | SpeciesDiscriminant::Dodrio
        | SpeciesDiscriminant::Seel
        | SpeciesDiscriminant::Dewgong
        | SpeciesDiscriminant::Grimer
        | SpeciesDiscriminant::Muk
        | SpeciesDiscriminant::Shellder
        | SpeciesDiscriminant::Cloyster
        | SpeciesDiscriminant::Gastly
        | SpeciesDiscriminant::Haunter
        | SpeciesDiscriminant::Gengar
        | SpeciesDiscriminant::Onix
        | SpeciesDiscriminant::Drowzee
        | SpeciesDiscriminant::Hypno
        | SpeciesDiscriminant::Krabby
        | SpeciesDiscriminant::Kingler
        | SpeciesDiscriminant::Voltorb
        | SpeciesDiscriminant::Electrode
        | SpeciesDiscriminant::Exeggcute
        | SpeciesDiscriminant::Exeggutor
        | SpeciesDiscriminant::Cubone
        | SpeciesDiscriminant::Marowak
        | SpeciesDiscriminant::Hitmonlee
        | SpeciesDiscriminant::Hitmonchan
        | SpeciesDiscriminant::Lickitung
        | SpeciesDiscriminant::Koffing
        | SpeciesDiscriminant::Weezing
        | SpeciesDiscriminant::Rhyhorn
        | SpeciesDiscriminant::Rhydon
        | SpeciesDiscriminant::Chansey
        | SpeciesDiscriminant::Tangela
        | SpeciesDiscriminant::Kangaskhan
        | SpeciesDiscriminant::Horsea
        | SpeciesDiscriminant::Seadra
        | SpeciesDiscriminant::Goldeen
        | SpeciesDiscriminant::Seaking
        | SpeciesDiscriminant::Staryu
        | SpeciesDiscriminant::Starmie
        | SpeciesDiscriminant::MrMime
        | SpeciesDiscriminant::Scyther
        | SpeciesDiscriminant::Jynx
        | SpeciesDiscriminant::Electabuzz
        | SpeciesDiscriminant::Magmar
        | SpeciesDiscriminant::Pinsir
        | SpeciesDiscriminant::Tauros
        | SpeciesDiscriminant::Magikarp
        | SpeciesDiscriminant::Gyarados
        | SpeciesDiscriminant::Lapras
        | SpeciesDiscriminant::Ditto
        | SpeciesDiscriminant::Eevee
        | SpeciesDiscriminant::Vaporeon
        | SpeciesDiscriminant::Jolteon
        | SpeciesDiscriminant::Flareon
        | SpeciesDiscriminant::Porygon
        | SpeciesDiscriminant::Omanyte
        | SpeciesDiscriminant::Omastar
        | SpeciesDiscriminant::Kabuto
        | SpeciesDiscriminant::Kabutops
        | SpeciesDiscriminant::Aerodactyl
        | SpeciesDiscriminant::Snorlax
        | SpeciesDiscriminant::Articuno
        | SpeciesDiscriminant::Zapdos
        | SpeciesDiscriminant::Moltres
        | SpeciesDiscriminant::Dratini
        | SpeciesDiscriminant::Dragonair
        | SpeciesDiscriminant::Dragonite
        | SpeciesDiscriminant::Mewtwo
        | SpeciesDiscriminant::Mew
        | SpeciesDiscriminant::Chikorita
        | SpeciesDiscriminant::Bayleef
        | SpeciesDiscriminant::Meganium
        | SpeciesDiscriminant::Cyndaquil
        | SpeciesDiscriminant::Quilava
        | SpeciesDiscriminant::Typhlosion
        | SpeciesDiscriminant::Totodile
        | SpeciesDiscriminant::Croconaw
        | SpeciesDiscriminant::Feraligatr
        | SpeciesDiscriminant::Sentret
        | SpeciesDiscriminant::Furret
        | SpeciesDiscriminant::Hoothoot
        | SpeciesDiscriminant::Noctowl
        | SpeciesDiscriminant::Ledyba
        | SpeciesDiscriminant::Ledian
        | SpeciesDiscriminant::Spinarak
        | SpeciesDiscriminant::Ariados
        | SpeciesDiscriminant::Crobat
        | SpeciesDiscriminant::Chinchou
        | SpeciesDiscriminant::Lanturn
        | SpeciesDiscriminant::Pichu
        | SpeciesDiscriminant::Cleffa
        | SpeciesDiscriminant::Igglybuff
        | SpeciesDiscriminant::Togepi
        | SpeciesDiscriminant::Togetic
        | SpeciesDiscriminant::Natu
        | SpeciesDiscriminant::Xatu
        | SpeciesDiscriminant::Mareep
        | SpeciesDiscriminant::Flaaffy
        | SpeciesDiscriminant::Ampharos
        | SpeciesDiscriminant::Bellossom
        | SpeciesDiscriminant::Marill
        | SpeciesDiscriminant::Azumarill
        | SpeciesDiscriminant::Sudowoodo
        | SpeciesDiscriminant::Politoed
        | SpeciesDiscriminant::Hoppip
        | SpeciesDiscriminant::Skiploom
        | SpeciesDiscriminant::Jumpluff
        | SpeciesDiscriminant::Aipom
        | SpeciesDiscriminant::Sunkern
        | SpeciesDiscriminant::Sunflora
        | SpeciesDiscriminant::Yanma
        | SpeciesDiscriminant::Wooper
        | SpeciesDiscriminant::Quagsire
        | SpeciesDiscriminant::Espeon
        | SpeciesDiscriminant::Umbreon
        | SpeciesDiscriminant::Murkrow
        | SpeciesDiscriminant::Slowking
        | SpeciesDiscriminant::Misdreavus
        | SpeciesDiscriminant::Unown
        | SpeciesDiscriminant::Wobbuffet
        | SpeciesDiscriminant::Girafarig
        | SpeciesDiscriminant::Pineco
        | SpeciesDiscriminant::Forretress
        | SpeciesDiscriminant::Dunsparce
        | SpeciesDiscriminant::Gligar
        | SpeciesDiscriminant::Steelix
        | SpeciesDiscriminant::Snubbull
        | SpeciesDiscriminant::Granbull
        | SpeciesDiscriminant::Qwilfish
        | SpeciesDiscriminant::Scizor
        | SpeciesDiscriminant::Shuckle
        | SpeciesDiscriminant::Heracross
        | SpeciesDiscriminant::Sneasel
        | SpeciesDiscriminant::Teddiursa
        | SpeciesDiscriminant::Ursaring
        | SpeciesDiscriminant::Slugma
        | SpeciesDiscriminant::Magcargo
        | SpeciesDiscriminant::Swinub
        | SpeciesDiscriminant::Piloswine
        | SpeciesDiscriminant::Corsola
        | SpeciesDiscriminant::Remoraid
        | SpeciesDiscriminant::Octillery
        | SpeciesDiscriminant::Delibird
        | SpeciesDiscriminant::Mantine
        | SpeciesDiscriminant::Skarmory
        | SpeciesDiscriminant::Houndour
        | SpeciesDiscriminant::Houndoom
        | SpeciesDiscriminant::Kingdra
        | SpeciesDiscriminant::Phanpy
        | SpeciesDiscriminant::Donphan
        | SpeciesDiscriminant::Porygon2
        | SpeciesDiscriminant::Stantler
        | SpeciesDiscriminant::Smeargle
        | SpeciesDiscriminant::Tyrogue
        | SpeciesDiscriminant::Hitmontop
        | SpeciesDiscriminant::Smoochum
        | SpeciesDiscriminant::Elekid
        | SpeciesDiscriminant::Magby
        | SpeciesDiscriminant::Miltank
        | SpeciesDiscriminant::Blissey
        | SpeciesDiscriminant::Raikou
        | SpeciesDiscriminant::Entei
        | SpeciesDiscriminant::Suicune
        | SpeciesDiscriminant::Larvitar
        | SpeciesDiscriminant::Pupitar
        | SpeciesDiscriminant::Tyranitar
        | SpeciesDiscriminant::Lugia
        | SpeciesDiscriminant::HoOh
        | SpeciesDiscriminant::Celebi
        | SpeciesDiscriminant::Treecko
        | SpeciesDiscriminant::Grovyle
        | SpeciesDiscriminant::Sceptile
        | SpeciesDiscriminant::Torchic
        | SpeciesDiscriminant::Combusken
        | SpeciesDiscriminant::Blaziken
        | SpeciesDiscriminant::Mudkip
        | SpeciesDiscriminant::Marshtomp
        | SpeciesDiscriminant::Swampert
        | SpeciesDiscriminant::Poochyena
        | SpeciesDiscriminant::Mightyena
        | SpeciesDiscriminant::Zigzagoon
        | SpeciesDiscriminant::Linoone
        | SpeciesDiscriminant::Wurmple
        | SpeciesDiscriminant::Silcoon
        | SpeciesDiscriminant::Beautifly
        | SpeciesDiscriminant::Cascoon
        | SpeciesDiscriminant::Dustox
        | SpeciesDiscriminant::Lotad
        | SpeciesDiscriminant::Lombre
        | SpeciesDiscriminant::Ludicolo
        | SpeciesDiscriminant::Seedot
        | SpeciesDiscriminant::Nuzleaf
        | SpeciesDiscriminant::Shiftry
        | SpeciesDiscriminant::Taillow
        | SpeciesDiscriminant::Swellow
        | SpeciesDiscriminant::Wingull
        | SpeciesDiscriminant::Pelipper
        | SpeciesDiscriminant::Ralts
        | SpeciesDiscriminant::Kirlia
        | SpeciesDiscriminant::Gardevoir
        | SpeciesDiscriminant::Surskit
        | SpeciesDiscriminant::Masquerain
        | SpeciesDiscriminant::Shroomish
        | SpeciesDiscriminant::Breloom
        | SpeciesDiscriminant::Slakoth
        | SpeciesDiscriminant::Vigoroth
        | SpeciesDiscriminant::Slaking
        | SpeciesDiscriminant::Nincada
        | SpeciesDiscriminant::Ninjask
        | SpeciesDiscriminant::Shedinja
        | SpeciesDiscriminant::Whismur
        | SpeciesDiscriminant::Loudred
        | SpeciesDiscriminant::Exploud
        | SpeciesDiscriminant::Makuhita
        | SpeciesDiscriminant::Hariyama
        | SpeciesDiscriminant::Azurill
        | SpeciesDiscriminant::Nosepass
        | SpeciesDiscriminant::Skitty
        | SpeciesDiscriminant::Delcatty
        | SpeciesDiscriminant::Sableye
        | SpeciesDiscriminant::Mawile
        | SpeciesDiscriminant::Aron
        | SpeciesDiscriminant::Lairon
        | SpeciesDiscriminant::Aggron
        | SpeciesDiscriminant::Meditite
        | SpeciesDiscriminant::Medicham
        | SpeciesDiscriminant::Electrike
        | SpeciesDiscriminant::Manectric
        | SpeciesDiscriminant::Plusle
        | SpeciesDiscriminant::Minun
        | SpeciesDiscriminant::Volbeat
        | SpeciesDiscriminant::Illumise
        | SpeciesDiscriminant::Roselia
        | SpeciesDiscriminant::Gulpin
        | SpeciesDiscriminant::Swalot
        | SpeciesDiscriminant::Carvanha
        | SpeciesDiscriminant::Sharpedo
        | SpeciesDiscriminant::Wailmer
        | SpeciesDiscriminant::Wailord
        | SpeciesDiscriminant::Numel
        | SpeciesDiscriminant::Camerupt
        | SpeciesDiscriminant::Torkoal
        | SpeciesDiscriminant::Spoink
        | SpeciesDiscriminant::Grumpig
        | SpeciesDiscriminant::Spinda
        | SpeciesDiscriminant::Trapinch
        | SpeciesDiscriminant::Vibrava
        | SpeciesDiscriminant::Flygon
        | SpeciesDiscriminant::Cacnea
        | SpeciesDiscriminant::Cacturne
        | SpeciesDiscriminant::Swablu
        | SpeciesDiscriminant::Altaria
        | SpeciesDiscriminant::Zangoose
        | SpeciesDiscriminant::Seviper
        | SpeciesDiscriminant::Lunatone
        | SpeciesDiscriminant::Solrock
        | SpeciesDiscriminant::Barboach
        | SpeciesDiscriminant::Whiscash
        | SpeciesDiscriminant::Corphish
        | SpeciesDiscriminant::Crawdaunt
        | SpeciesDiscriminant::Baltoy
        | SpeciesDiscriminant::Claydol
        | SpeciesDiscriminant::Lileep
        | SpeciesDiscriminant::Cradily
        | SpeciesDiscriminant::Anorith
        | SpeciesDiscriminant::Armaldo
        | SpeciesDiscriminant::Feebas
        | SpeciesDiscriminant::Milotic
        | SpeciesDiscriminant::Castform
        | SpeciesDiscriminant::Kecleon
        | SpeciesDiscriminant::Shuppet
        | SpeciesDiscriminant::Banette
        | SpeciesDiscriminant::Duskull
        | SpeciesDiscriminant::Dusclops
        | SpeciesDiscriminant::Tropius
        | SpeciesDiscriminant::Chimecho
        | SpeciesDiscriminant::Absol
        | SpeciesDiscriminant::Wynaut
        | SpeciesDiscriminant::Snorunt
        | SpeciesDiscriminant::Glalie
        | SpeciesDiscriminant::Spheal
        | SpeciesDiscriminant::Sealeo
        | SpeciesDiscriminant::Walrein
        | SpeciesDiscriminant::Clamperl
        | SpeciesDiscriminant::Huntail
        | SpeciesDiscriminant::Gorebyss
        | SpeciesDiscriminant::Relicanth
        | SpeciesDiscriminant::Luvdisc
        | SpeciesDiscriminant::Bagon
        | SpeciesDiscriminant::Shelgon
        | SpeciesDiscriminant::Salamence
        | SpeciesDiscriminant::Beldum
        | SpeciesDiscriminant::Metang
        | SpeciesDiscriminant::Metagross
        | SpeciesDiscriminant::Regirock
        | SpeciesDiscriminant::Regice
        | SpeciesDiscriminant::Registeel
        | SpeciesDiscriminant::Latias
        | SpeciesDiscriminant::Latios
        | SpeciesDiscriminant::Kyogre
        | SpeciesDiscriminant::Groudon
        | SpeciesDiscriminant::Rayquaza
        | SpeciesDiscriminant::Jirachi
        | SpeciesDiscriminant::Deoxys
        => dex_index_early(k),
        _ => dex_index_late(k),
    }
}

/// The position of a species in dex order, from 0, for a species of the first three generations.
pub open spec fn dex_index_early(k: SpeciesDiscriminant) -> int {
    match k {
        SpeciesDiscriminant::Bulbasaur => 0,
        SpeciesDiscriminant::Ivysaur => 1,
        SpeciesDiscriminant::Venusaur => 2,
        SpeciesDiscriminant::Charmander => 3,
        SpeciesDiscriminant::Charmeleon => 4,
        SpeciesDiscriminant::Charizard => 5,
        SpeciesDiscriminant::Squirtle => 6,
        SpeciesDiscriminant::Wartortle => 7,
        SpeciesDiscriminant::Blastoise => 8,
        SpeciesDiscriminant::Caterpie => 9,
        SpeciesDiscriminant::Metapod => 10,
        SpeciesDiscriminant::Butterfree => 11,
        SpeciesDiscriminant::Weedle => 12,
        SpeciesDiscriminant::Kakuna => 13,
        SpeciesDiscriminant::Beedrill => 14,
        SpeciesDiscriminant::Pidgey => 15,
        SpeciesDiscriminant::Pidgeotto => 16,
        SpeciesDiscriminant::Pidgeot => 17,
        SpeciesDiscriminant::Rattata => 18,
        SpeciesDiscriminant::Raticate => 19,
        SpeciesDiscriminant::Spearow => 20,
        SpeciesDiscriminant::Fearow => 21,
        SpeciesDiscriminant::Ekans => 22,
        SpeciesDiscriminant::Arbok => 23,
        SpeciesDiscriminant::Pikachu => 24,
        SpeciesDiscriminant::Raichu => 25,
        SpeciesDiscriminant::Sandshrew => 26,
        SpeciesDiscriminant::Sandslash => 27,
        SpeciesDiscriminant::NidoranF => 28,
        SpeciesDiscriminant::Nidorina => 29,
        SpeciesDiscriminant::Nidoqueen => 30,
        SpeciesDiscriminant::NidoranM => 31,
        SpeciesDiscriminant::Nidorino => 32,
        SpeciesDiscriminant::Nidoking => 33,
        SpeciesDiscriminant::Clefairy => 34,
        SpeciesDiscriminant::Clefable => 35,
        SpeciesDiscriminant::Vulpix => 36,
        SpeciesDiscriminant::Ninetales => 37,
        SpeciesDiscriminant::Jigglypuff => 38,
        SpeciesDiscriminant::Wigglytuff => 39,
        SpeciesDiscriminant::Zubat => 40,
        SpeciesDiscriminant::Golbat => 41,
        SpeciesDiscriminant::Oddish => 42,
        SpeciesDiscriminant::Gloom => 43,
        SpeciesDiscriminant::Vileplume => 44,
        SpeciesDiscriminant::Paras => 45,
        SpeciesDiscriminant::Parasect => 46,
        SpeciesDiscriminant::Venonat => 47,
        SpeciesDiscriminant::Venomoth => 48,
        SpeciesDiscriminant::Diglett => 49,
        SpeciesDiscriminant::Dugtrio => 50,
        SpeciesDiscriminant::Meowth => 51,
        SpeciesDiscriminant::Persian => 52,
        SpeciesDiscriminant::Psyduck => 53,
        SpeciesDiscriminant::Golduck => 54,
        SpeciesDiscriminant::Mankey => 55,
        SpeciesDiscriminant::Primeape => 56,
        SpeciesDiscriminant::Growlithe => 57,
        SpeciesDiscriminant::Arcanine => 58,
        SpeciesDiscriminant::Poliwag => 59,
        SpeciesDiscriminant::Poliwhirl => 60,
        SpeciesDiscriminant::Poliwrath => 61,
        SpeciesDiscriminant::Abra => 62,
        SpeciesDiscriminant::Kadabra => 63,
        SpeciesDiscriminant::Alakazam => 64,
        SpeciesDiscriminant::Machop => 65,
        SpeciesDiscriminant::Machoke => 66,
        SpeciesDiscriminant::Machamp => 67,
        SpeciesDiscriminant::Bellsprout => 68,
        SpeciesDiscriminant::Weepinbell => 69,
        SpeciesDiscriminant::Victreebel => 70,
        SpeciesDiscriminant::Tentacool => 71,
        SpeciesDiscriminant::Tentacruel => 72,
        SpeciesDiscriminant::Geodude => 73,
        SpeciesDiscriminant::Graveler => 74,
        SpeciesDiscriminant::Golem => 75,
        SpeciesDiscriminant::Ponyta => 76,
        SpeciesDiscriminant::Rapidash => 77,
        SpeciesDiscriminant::Slowpoke => 78,
        SpeciesDiscriminant::Slowbro => 79,
        SpeciesDiscriminant::Magnemite => 80,
        SpeciesDiscriminant::Magneton => 81,
        SpeciesDiscriminant::Farfetchd => 82,
        SpeciesDiscriminant::Doduo => 83,
        SpeciesDiscriminant::Dodrio => 84,
        SpeciesDiscriminant::Seel => 85,
        SpeciesDiscriminant::Dewgong => 86,
        SpeciesDiscriminant::Grimer => 87,
        SpeciesDiscriminant::Muk => 88,
        SpeciesDiscriminant::Shellder => 89,
        SpeciesDiscriminant::Cloyster => 90,
        SpeciesDiscriminant::Gastly => 91,
        SpeciesDiscriminant::Haunter => 92,
        SpeciesDiscriminant::Gengar => 93,
        SpeciesDiscriminant::Onix => 94,
        SpeciesDiscriminant::Drowzee => 95,
        SpeciesDiscriminant::Hypno => 96,
        SpeciesDiscriminant::Krabby => 97,
        SpeciesDiscriminant::Kingler => 98,
        SpeciesDiscriminant::Voltorb => 99,
        SpeciesDiscriminant::Electrode => 100,
        SpeciesDiscriminant::Exeggcute => 101,
        SpeciesDiscriminant::Exeggutor => 102,
        SpeciesDiscriminant::Cubone => 103,
        SpeciesDiscriminant::Marowak => 104,
        SpeciesDiscriminant::Hitmonlee => 105,
        SpeciesDiscriminant::Hitmonchan => 106,
        SpeciesDiscriminant::Lickitung => 107,
        SpeciesDiscriminant::Koffing => 108,
        SpeciesDiscriminant::Weezing => 109,
        SpeciesDiscriminant::Rhyhorn => 110,
        SpeciesDiscriminant::Rhydon => 111,
        SpeciesDiscriminant::Chansey => 112,
        SpeciesDiscriminant::Tangela => 113,
        SpeciesDiscriminant::Kangaskhan => 114,
        SpeciesDiscriminant::Horsea => 115,
        SpeciesDiscriminant::Seadra => 116,
        SpeciesDiscriminant::Goldeen => 117,
        SpeciesDiscriminant::Seaking => 118,
        SpeciesDiscriminant::Staryu => 119,
        SpeciesDiscriminant::Starmie => 120,
        SpeciesDiscriminant::MrMime => 121,
        SpeciesDiscriminant::Scyther => 122,
        SpeciesDiscriminant::Jynx => 123,
        SpeciesDiscriminant::Electabuzz => 124,
        SpeciesDiscriminant::Magmar => 125,
        SpeciesDiscriminant::Pinsir => 126,
        SpeciesDiscriminant::Tauros => 127,
        SpeciesDiscriminant::Magikarp => 128,
        SpeciesDiscriminant::Gyarados => 129,
        SpeciesDiscriminant::Lapras => 130,
        SpeciesDiscriminant::Ditto => 131,
        SpeciesDiscriminant::Eevee => 132,
        SpeciesDiscriminant::Vaporeon => 133,
        SpeciesDiscriminant::Jolteon => 134,
        SpeciesDiscriminant::Flareon => 135,
        SpeciesDiscriminant::Porygon => 136,
        SpeciesDiscriminant::Omanyte => 137,
        SpeciesDiscriminant::Omastar => 138,
        SpeciesDiscriminant::Kabuto => 139,
        SpeciesDiscriminant::Kabutops => 140,
        SpeciesDiscriminant::Aerodactyl => 141,
        SpeciesDiscriminant::Snorlax => 142,
        SpeciesDiscriminant::Articuno => 143,
        SpeciesDiscriminant::Zapdos => 144,
        SpeciesDiscriminant::Moltres => 145,
        SpeciesDiscriminant::Dratini => 146,
        SpeciesDiscriminant::Dragonair => 147,
        SpeciesDiscriminant::Dragonite => 148,
        SpeciesDiscriminant::Mewtwo => 149,
        SpeciesDiscriminant::Mew => 150,
        SpeciesDiscriminant::Chikorita => 151,
        SpeciesDiscriminant::Bayleef => 152,
        SpeciesDiscriminant::Meganium => 153,
        SpeciesDiscriminant::Cyndaquil => 154,
        SpeciesDiscriminant::Quilava => 155,
        SpeciesDiscriminant::Typhlosion => 156,
        SpeciesDiscriminant::Totodile => 157,
        SpeciesDiscriminant::Croconaw => 158,
        SpeciesDiscriminant::Feraligatr => 159,
        SpeciesDiscriminant::Sentret => 160,
        SpeciesDiscriminant::Furret => 161,
        SpeciesDiscriminant::Hoothoot => 162,
        SpeciesDiscriminant::Noctowl => 163,
        SpeciesDiscriminant::Ledyba => 164,
        SpeciesDiscriminant::Ledian => 165,
        SpeciesDiscriminant::Spinarak => 166,
        SpeciesDiscriminant::Ariados => 167,
        SpeciesDiscriminant::Crobat => 168,
        SpeciesDiscriminant::Chinchou => 169,
        SpeciesDiscriminant::Lanturn => 170,
        SpeciesDiscriminant::Pichu => 171,
        SpeciesDiscriminant::Cleffa => 172,
        SpeciesDiscriminant::Igglybuff => 173,
        SpeciesDiscriminant::Togepi => 174,
        SpeciesDiscriminant::Togetic => 175,
        SpeciesDiscriminant::Natu => 176,
        SpeciesDiscriminant::Xatu => 177,
        SpeciesDiscriminant::Mareep => 178,
        SpeciesDiscriminant::Flaaffy => 179,
        SpeciesDiscriminant::Ampharos => 180,
        SpeciesDiscriminant::Bellossom => 181,
        SpeciesDiscriminant::Marill => 182,
        SpeciesDiscriminant::Azumarill => 183,
        SpeciesDiscriminant::Sudowoodo => 184,
        SpeciesDiscriminant::Politoed => 185,
        SpeciesDiscriminant::Hoppip => 186,
        SpeciesDiscriminant::Skiploom => 187,
        SpeciesDiscriminant::Jumpluff => 188,
        SpeciesDiscriminant::Aipom => 189,
        SpeciesDiscriminant::Sunkern => 190,
        SpeciesDiscriminant::Sunflora => 191,
        SpeciesDiscriminant::Yanma => 192,
        SpeciesDiscriminant::Wooper => 193,
        SpeciesDiscriminant::Quagsire => 194,
        SpeciesDiscriminant::Espeon => 195,
        SpeciesDiscriminant::Umbreon => 196,
        SpeciesDiscriminant::Murkrow => 197,
        SpeciesDiscriminant::Slowking => 198,
        SpeciesDiscriminant::Misdreavus => 199,
        SpeciesDiscriminant::Unown => 200,
        SpeciesDiscriminant::Wobbuffet => 201,
        SpeciesDiscriminant::Girafarig => 202,
        SpeciesDiscriminant::Pineco => 203,
        SpeciesDiscriminant::Forretress => 204,
        SpeciesDiscriminant::Dunsparce => 205,
        SpeciesDiscriminant::Gligar => 206,
        SpeciesDiscriminant::Steelix => 207,
        SpeciesDiscriminant::Snubbull => 208,
        SpeciesDiscriminant::Granbull => 209,
        SpeciesDiscriminant::Qwilfish => 210,
        SpeciesDiscriminant::Scizor => 211,
        SpeciesDiscriminant::Shuckle => 212,
        SpeciesDiscriminant::Heracross => 213,
        SpeciesDiscriminant::Sneasel => 214,
        SpeciesDiscriminant::Teddiursa => 215,
        SpeciesDiscriminant::Ursaring => 216,
        SpeciesDiscriminant::Slugma => 217,
        SpeciesDiscriminant::Magcargo => 218,
        SpeciesDiscriminant::Swinub => 219,
        SpeciesDiscriminant::Piloswine => 220,
        SpeciesDiscriminant::Corsola => 221,
        SpeciesDiscriminant::Remoraid => 222,
        SpeciesDiscriminant::Octillery => 223,
        SpeciesDiscriminant::Delibird => 224,
        SpeciesDiscriminant::Mantine => 225,
        SpeciesDiscriminant::Skarmory => 226,
        SpeciesDiscriminant::Houndour => 227,
        SpeciesDiscriminant::Houndoom => 228,
        SpeciesDiscriminant::Kingdra => 229,
        SpeciesDiscriminant::Phanpy => 230,
        SpeciesDiscriminant::Donphan => 231,
        SpeciesDiscriminant::Porygon2 => 232,
        SpeciesDiscriminant::Stantler => 233,
        SpeciesDiscriminant::Smeargle => 234,
        SpeciesDiscriminant::Tyrogue => 235,
        SpeciesDiscriminant::Hitmontop => 236,
        SpeciesDiscriminant::Smoochum => 237,
        SpeciesDiscriminant::Elekid => 238,
        SpeciesDiscriminant::Magby => 239,
        SpeciesDiscriminant::Miltank => 240,
        SpeciesDiscriminant::Blissey => 241,
        SpeciesDiscriminant::Raikou => 242,
        SpeciesDiscriminant::Entei => 243,
        SpeciesDiscriminant::Suicune => 244,
        SpeciesDiscriminant::Larvitar => 245,
        SpeciesDiscriminant::Pupitar => 246,
        SpeciesDiscriminant::Tyranitar => 247,
        SpeciesDiscriminant::Lugia => 248,
        SpeciesDiscriminant::HoOh => 249,
        SpeciesDiscriminant::Celebi => 250,
        SpeciesDiscriminant::Treecko => 251,
        SpeciesDiscriminant::Grovyle => 252,
        SpeciesDiscriminant::Sceptile => 253,
        SpeciesDiscriminant::Torchic => 254,
        SpeciesDiscriminant::Combusken => 255,
        SpeciesDiscriminant::Blaziken => 256,
        SpeciesDiscriminant::Mudkip => 257,
        SpeciesDiscriminant::Marshtomp => 258,
        SpeciesDiscriminant::Swampert => 259,
        SpeciesDiscriminant::Poochyena => 260,
        SpeciesDiscriminant::Mightyena => 261,
        SpeciesDiscriminant::Zigzagoon => 262,
        SpeciesDiscriminant::Linoone => 263,
        SpeciesDiscriminant::Wurmple => 264,
        SpeciesDiscriminant::Silcoon => 265,
        SpeciesDiscriminant::Beautifly => 266,
        SpeciesDiscriminant::Cascoon => 267,
        SpeciesDiscriminant::Dustox => 268,
        SpeciesDiscriminant::Lotad => 269,
        SpeciesDiscriminant::Lombre => 270,
        SpeciesDiscriminant::Ludicolo => 271,
        SpeciesDiscriminant::Seedot => 272,
        SpeciesDiscriminant::Nuzleaf => 273,
        SpeciesDiscriminant::Shiftry => 274,
        SpeciesDiscriminant::Taillow => 275,
        SpeciesDiscriminant::Swellow => 276,
        SpeciesDiscriminant::Wingull => 277,
        SpeciesDiscriminant::Pelipper => 278,
        SpeciesDiscriminant::Ralts => 279,
        SpeciesDiscriminant::Kirlia => 280,
        SpeciesDiscriminant::Gardevoir => 281,
        SpeciesDiscriminant::Surskit => 282,
        SpeciesDiscriminant::Masquerain => 283,
        SpeciesDiscriminant::Shroomish => 284,
        SpeciesDiscriminant::Breloom => 285,
        SpeciesDiscriminant::Slakoth => 286,
        SpeciesDiscriminant::Vigoroth => 287,
        SpeciesDiscriminant::Slaking => 288,
        SpeciesDiscriminant::Nincada => 289,
        SpeciesDiscriminant::Ninjask => 290,
        SpeciesDiscriminant::Shedinja => 291,
        SpeciesDiscriminant::Whismur => 292,
        SpeciesDiscriminant::Loudred => 293,
        SpeciesDiscriminant::Exploud => 294,
        SpeciesDiscriminant::Makuhita => 295,
        SpeciesDiscriminant::Hariyama => 296,
        SpeciesDiscriminant::Azurill => 297,
        SpeciesDiscriminant::Nosepass => 298,
        SpeciesDiscriminant::Skitty => 299,
        SpeciesDiscriminant::Delcatty => 300,
        SpeciesDiscriminant::Sableye => 301,
        SpeciesDiscriminant::Mawile => 302,
        SpeciesDiscriminant::Aron => 303,
        SpeciesDiscriminant::Lairon => 304,
        SpeciesDiscriminant::Aggron => 305,
        SpeciesDiscriminant::Meditite => 306,
        SpeciesDiscriminant::Medicham => 307,
        SpeciesDiscriminant::Electrike => 308,
        SpeciesDiscriminant::Manectric => 309,
        SpeciesDiscriminant::Plusle => 310,
        SpeciesDiscriminant::Minun => 311,
        SpeciesDiscriminant::Volbeat => 312,
        SpeciesDiscriminant::Illumise => 313,
        SpeciesDiscriminant::Roselia => 314,
        SpeciesDiscriminant::Gulpin => 315,
        SpeciesDiscriminant::Swalot => 316,
        SpeciesDiscriminant::Carvanha => 317,
        SpeciesDiscriminant::Sharpedo => 318,
        SpeciesDiscriminant::Wailmer => 319,
        SpeciesDiscriminant::Wailord => 320,
        SpeciesDiscriminant::Numel => 321,
        SpeciesDiscriminant::Camerupt => 322,
        SpeciesDiscriminant::Torkoal => 323,
        SpeciesDiscriminant::Spoink => 324,
        SpeciesDiscriminant::Grumpig => 325,
        SpeciesDiscriminant::Spinda => 326,
        SpeciesDiscriminant::Trapinch => 327,
        SpeciesDiscriminant::Vibrava => 328,
        SpeciesDiscriminant::Flygon => 329,
        SpeciesDiscriminant::Cacnea => 330,
        SpeciesDiscriminant::Cacturne => 331,
        SpeciesDiscriminant::Swablu => 332,
        SpeciesDiscriminant::Altaria => 333,
        SpeciesDiscriminant::Zangoose => 334,
        SpeciesDiscriminant::Seviper => 335,
        SpeciesDiscriminant::Lunatone => 336,
        SpeciesDiscriminant::Solrock => 337,
        SpeciesDiscriminant::Barboach => 338,
        SpeciesDiscriminant::Whiscash => 339,
        SpeciesDiscriminant::Corphish => 340,
        SpeciesDiscriminant::Crawdaunt => 341,
        SpeciesDiscriminant::Baltoy => 342,
        SpeciesDiscriminant::Claydol => 343,
        SpeciesDiscriminant::Lileep => 344,
        SpeciesDiscriminant::Cradily => 345,
        SpeciesDiscriminant::Anorith => 346,
        SpeciesDiscriminant::Armaldo => 347,
        SpeciesDiscriminant::Feebas => 348,
        SpeciesDiscriminant::Milotic => 349,
        SpeciesDiscriminant::Castform => 350,
        SpeciesDiscriminant::Kecleon => 351,
        SpeciesDiscriminant::Shuppet => 352,
        SpeciesDiscriminant::Banette => 353,
        SpeciesDiscriminant::Duskull => 354,
        SpeciesDiscriminant::Dusclops => 355,
        SpeciesDiscriminant::Tropius => 356,
        SpeciesDiscriminant::Chimecho => 357,
        SpeciesDiscriminant::Absol => 358,
        SpeciesDiscriminant::Wynaut => 359,
        SpeciesDiscriminant::Snorunt => 360,
        SpeciesDiscriminant::Glalie => 361,
        SpeciesDiscriminant::Spheal => 362,
        SpeciesDiscriminant::Sealeo => 363,
        SpeciesDiscriminant::Walrein => 364,
        SpeciesDiscriminant::Clamperl => 365,
        SpeciesDiscriminant::Huntail => 366,
        SpeciesDiscriminant::Gorebyss => 367,
        SpeciesDiscriminant::Relicanth => 368,
        SpeciesDiscriminant::Luvdisc => 369,
        SpeciesDiscriminant::Bagon => 370,
        SpeciesDiscriminant::Shelgon => 371,
        SpeciesDiscriminant::Salamence => 372,
        SpeciesDiscriminant::Beldum => 373,
        SpeciesDiscriminant::Metang => 374,
        SpeciesDiscriminant::Metagross => 375,
        SpeciesDiscriminant::Regirock => 376,
        SpeciesDiscriminant::Regice => 377,
        SpeciesDiscriminant::Registeel => 378,
        SpeciesDiscriminant::Latias => 379,
        SpeciesDiscriminant::Latios => 380,
        SpeciesDiscriminant::Kyogre => 381,
        SpeciesDiscriminant::Groudon => 382,
        SpeciesDiscriminant::Rayquaza => 383,
        SpeciesDiscriminant::Jirachi => 384,
        SpeciesDiscriminant::Deoxys => 385,
        _ => 0,
    }
}

/// The position of a species in dex order, from 0, for a species of the fourth generation on.
pub open spec fn dex_index_late(k: SpeciesDiscriminant) -> int {
    match k {
        SpeciesDiscriminant::Turtwig => 386,
        SpeciesDiscriminant::Grotle => 387,
        SpeciesDiscriminant::Torterra => 388,
        SpeciesDiscriminant::Chimchar => 389,
        SpeciesDiscriminant::Monferno => 390,
        SpeciesDiscriminant::Infernape => 391,
        SpeciesDiscriminant::Piplup => 392,
        SpeciesDiscriminant::Prinplup => 393,
        SpeciesDiscriminant::Empoleon => 394,
        SpeciesDiscriminant::Starly => 395,
        SpeciesDiscriminant::Staravia => 396,
        SpeciesDiscriminant::Staraptor => 397,
        SpeciesDiscriminant::Bidoof => 398,
        SpeciesDiscriminant::Bibarel => 399,
        SpeciesDiscriminant::Kricketot => 400,
        SpeciesDiscriminant::Kricketune => 401,
        SpeciesDiscriminant::Shinx => 402,
        SpeciesDiscriminant::Luxio => 403,
        SpeciesDiscriminant::Luxray => 404,
        SpeciesDiscriminant::Budew => 405,
        SpeciesDiscriminant::Roserade => 406,
        SpeciesDiscriminant::Cranidos => 407,
        SpeciesDiscriminant::Rampardos => 408,
        SpeciesDiscriminant::Shieldon => 409,
        SpeciesDiscriminant::Bastiodon => 410,
        SpeciesDiscriminant::Burmy => 411,
        SpeciesDiscriminant::Wormadam => 412,
        SpeciesDiscriminant::Mothim => 413,
        SpeciesDiscriminant::Combee => 414,
        SpeciesDiscriminant::Vespiquen => 415,
        SpeciesDiscriminant::Pachirisu => 416,
        SpeciesDiscriminant::Buizel => 417,
        SpeciesDiscriminant::Floatzel => 418,
        SpeciesDiscriminant::Cherubi => 419,
        SpeciesDiscriminant::Cherrim => 420,
        SpeciesDiscriminant::Shellos => 421,
        SpeciesDiscriminant::Gastrodon => 422,
        SpeciesDiscriminant::Ambipom => 423,
        SpeciesDiscriminant::Drifloon => 424,
        SpeciesDiscriminant::Drifblim => 425,
        SpeciesDiscriminant::Buneary => 426,
        SpeciesDiscriminant::Lopunny => 427,
        SpeciesDiscriminant::Mismagius => 428,
        SpeciesDiscriminant::Honchkrow => 429,
        SpeciesDiscriminant::Glameow => 430,
        SpeciesDiscriminant::Purugly => 431,
        SpeciesDiscriminant::Chingling => 432,
        SpeciesDiscriminant::Stunky => 433,
        SpeciesDiscriminant::Skuntank => 434,
        SpeciesDiscriminant::Bronzor => 435,
        SpeciesDiscriminant::Bronzong => 436,
        SpeciesDiscriminant::Bonsly => 437,
        SpeciesDiscriminant::MimeJr => 438,
        SpeciesDiscriminant::Happiny => 439,
        SpeciesDiscriminant::Chatot => 440,
        SpeciesDiscriminant::Spiritomb => 441,
        SpeciesDiscriminant::Gible => 442,
        SpeciesDiscriminant::Gabite => 443,
        SpeciesDiscriminant::Garchomp => 444,
        SpeciesDiscriminant::Munchlax => 445,
        SpeciesDiscriminant::Riolu => 446,
        SpeciesDiscriminant::Lucario => 447,
        SpeciesDiscriminant::Hippopotas => 448,
        SpeciesDiscriminant::Hippowdon => 449,
        SpeciesDiscriminant::Skorupi => 450,
        SpeciesDiscriminant::Drapion => 451,
        SpeciesDiscriminant::Croagunk => 452,
        SpeciesDiscriminant::Toxicroak => 453,
        SpeciesDiscriminant::Carnivine => 454,
        SpeciesDiscriminant::Finneon => 455,
        SpeciesDiscriminant::Lumineon => 456,
        SpeciesDiscriminant::Mantyke => 457,
        SpeciesDiscriminant::Snover => 458,
        SpeciesDiscriminant::Abomasnow => 459,
        SpeciesDiscriminant::Weavile => 460,
        SpeciesDiscriminant::Magnezone => 461,
        SpeciesDiscriminant::Lickilicky => 462,
        SpeciesDiscriminant::Rhyperior => 463,
        SpeciesDiscriminant::Tangrowth => 464,
        SpeciesDiscriminant::Electivire => 465,
        SpeciesDiscriminant::Magmortar => 466,
        SpeciesDiscriminant::Togekiss => 467,
        SpeciesDiscriminant::Yanmega => 468,
        SpeciesDiscriminant::Leafeon => 469,
        SpeciesDiscriminant::Glaceon => 470,
        SpeciesDiscriminant::Gliscor => 471,
        SpeciesDiscriminant::Mamoswine => 472,
        SpeciesDiscriminant::PorygonZ => 473,
        SpeciesDiscriminant::Gallade => 474,
        SpeciesDiscriminant::Probopass => 475,
        SpeciesDiscriminant::Dusknoir => 476,
        SpeciesDiscriminant::Froslass => 477,
        SpeciesDiscriminant::Rotom => 478,
        SpeciesDiscriminant::Uxie => 479,
        SpeciesDiscriminant::Mesprit => 480,
        SpeciesDiscriminant::Azelf => 481,
        SpeciesDiscriminant::Dialga => 482,
        SpeciesDiscriminant::Palkia => 483,
        SpeciesDiscriminant::Heatran => 484,
        SpeciesDiscriminant::Regigigas => 485,
        SpeciesDiscriminant::Giratina => 486,
        SpeciesDiscriminant::Cresselia => 487,
        SpeciesDiscriminant::Phione => 488,
        SpeciesDiscriminant::Manaphy => 489,
        SpeciesDiscriminant::Darkrai => 490,
        SpeciesDiscriminant::Shaymin => 491,
        SpeciesDiscriminant::Arceus => 492,
        SpeciesDiscriminant::Victini => 493,
        SpeciesDiscriminant::Snivy => 494,
        SpeciesDiscriminant::Servine => 495,
        SpeciesDiscriminant::Serperior => 496,
        SpeciesDiscriminant::Tepig => 497,
        SpeciesDiscriminant::Pignite => 498,
        SpeciesDiscriminant::Emboar => 499,
        SpeciesDiscriminant::Oshawott => 500,
        SpeciesDiscriminant::Dewott => 501,
        SpeciesDiscriminant::Samurott => 502,
        SpeciesDiscriminant::Patrat => 503,
        SpeciesDiscriminant::Watchog => 504,
        SpeciesDiscriminant::Lillipup => 505,
        SpeciesDiscriminant::Herdier => 506,
        SpeciesDiscriminant::Stoutland => 507,
        SpeciesDiscriminant::Purrloin => 508,
        SpeciesDiscriminant::Liepard => 509,
        SpeciesDiscriminant::Pansage => 510,
        SpeciesDiscriminant::Simisage => 511,
        SpeciesDiscriminant::Pansear => 512,
        SpeciesDiscriminant::Simisear => 513,
        SpeciesDiscriminant::Panpour => 514,
        SpeciesDiscriminant::Simipour => 515,
        SpeciesDiscriminant::Munna => 516,
        SpeciesDiscriminant::Musharna => 517,
        SpeciesDiscriminant::Pidove => 518,
        SpeciesDiscriminant::Tranquill => 519,
        SpeciesDiscriminant::Unfezant => 520,
        SpeciesDiscriminant::Blitzle => 521,
        SpeciesDiscriminant::Zebstrika => 522,
        SpeciesDiscriminant::Roggenrola => 523,
        SpeciesDiscriminant::Boldore => 524,
        SpeciesDiscriminant::Gigalith => 525,
        SpeciesDiscriminant::Woobat => 526,
        SpeciesDiscriminant::Swoobat => 527,
        SpeciesDiscriminant::Drilbur => 528,
        SpeciesDiscriminant::Excadrill => 529,
        SpeciesDiscriminant::Audino => 530,
        SpeciesDiscriminant::Timburr => 531,
        SpeciesDiscriminant::Gurdurr => 532,
        SpeciesDiscriminant::Conkeldurr => 533,
        SpeciesDiscriminant::Tympole => 534,
        SpeciesDiscriminant::Palpitoad => 535,
        SpeciesDiscriminant::Seismitoad => 536,
        SpeciesDiscriminant::Throh => 537,
        SpeciesDiscriminant::Sawk => 538,
        SpeciesDiscriminant::Sewaddle => 539,
        SpeciesDiscriminant::Swadloon => 540,
        SpeciesDiscriminant::Leavanny => 541,
        SpeciesDiscriminant::Venipede => 542,
        SpeciesDiscriminant::Whirlipede => 543,
        SpeciesDiscriminant::Scolipede => 544,
        SpeciesDiscriminant::Cottonee => 545,
        SpeciesDiscriminant::Whimsicott => 546,
        SpeciesDiscriminant::Petilil => 547,
        SpeciesDiscriminant::Lilligant => 548,
        SpeciesDiscriminant::Basculin => 549,
        SpeciesDiscriminant::Sandile => 550,
        SpeciesDiscriminant::Krokorok => 551,
        SpeciesDiscriminant::Krookodile => 552,
        SpeciesDiscriminant::Darumaka => 553,
        SpeciesDiscriminant::Darmanitan => 554,
        SpeciesDiscriminant::Maractus => 555,
        SpeciesDiscriminant::Dwebble => 556,
        SpeciesDiscriminant::Crustle => 557,
        SpeciesDiscriminant::Scraggy => 558,
        SpeciesDiscriminant::Scrafty => 559,
        SpeciesDiscriminant::Sigilyph => 560,
        SpeciesDiscriminant::Yamask => 561,
        SpeciesDiscriminant::Cofagrigus => 562,
        SpeciesDiscriminant::Tirtouga => 563,
        SpeciesDiscriminant::Carracosta => 564,
        SpeciesDiscriminant::Archen => 565,
        SpeciesDiscriminant::Archeops => 566,
        SpeciesDiscriminant::Trubbish => 567,
        SpeciesDiscriminant::Garbodor => 568,
        SpeciesDiscriminant::Zorua => 569,
        SpeciesDiscriminant::Zoroark => 570,
        SpeciesDiscriminant::Minccino => 571,
        SpeciesDiscriminant::Cinccino => 572,
        SpeciesDiscriminant::Gothita => 573,
        SpeciesDiscriminant::Gothorita => 574,
        SpeciesDiscriminant::Gothitelle => 575,
        SpeciesDiscriminant::Solosis => 576,
        SpeciesDiscriminant::Duosion => 577,
        SpeciesDiscriminant::Reuniclus => 578,
        SpeciesDiscriminant::Ducklett => 579,
        SpeciesDiscriminant::Swanna => 580,
        SpeciesDiscriminant::Vanillite => 581,
        SpeciesDiscriminant::Vanillish => 582,
        SpeciesDiscriminant::Vanilluxe => 583,
        SpeciesDiscriminant::Deerling => 584,
        SpeciesDiscriminant::Sawsbuck => 585,
        SpeciesDiscriminant::Emolga => 586,
        SpeciesDiscriminant::Karrablast => 587,
        SpeciesDiscriminant::Escavalier => 588,
        SpeciesDiscriminant::Foongus => 589,
        SpeciesDiscriminant::Amoonguss => 590,
        SpeciesDiscriminant::Frillish => 591,
        SpeciesDiscriminant::Jellicent => 592,
        SpeciesDiscriminant::Alomomola => 593,
        SpeciesDiscriminant::Joltik => 594,
        SpeciesDiscriminant::Galvantula => 595,
        SpeciesDiscriminant::Ferroseed => 596,
        SpeciesDiscriminant::Ferrothorn => 597,
        SpeciesDiscriminant::Klink => 598,
        SpeciesDiscriminant::Klang => 599,
        SpeciesDiscriminant::Klinklang => 600,
        SpeciesDiscriminant::Tynamo => 601,
        SpeciesDiscriminant::Eelektrik => 602,
        SpeciesDiscriminant::Eelektross => 603,
        SpeciesDiscriminant::Elgyem => 604,
        SpeciesDiscriminant::Beheeyem => 605,
        SpeciesDiscriminant::Litwick => 606,
        SpeciesDiscriminant::Lampent => 607,
        SpeciesDiscriminant::Chandelure => 608,
        SpeciesDiscriminant::Axew => 609,
        SpeciesDiscriminant::Fraxure => 610,
        SpeciesDiscriminant::Haxorus => 611,
        SpeciesDiscriminant::Cubchoo => 612,
        SpeciesDiscriminant::Beartic => 613,
        SpeciesDiscriminant::Cryogonal => 614,
        SpeciesDiscriminant::Shelmet => 615,
        SpeciesDiscriminant::Accelgor => 616,
        SpeciesDiscriminant::Stunfisk => 617,
        SpeciesDiscriminant::Mienfoo => 618,
        SpeciesDiscriminant::Mienshao => 619,
        SpeciesDiscriminant::Druddigon => 620,
        SpeciesDiscriminant::Golett => 621,
        SpeciesDiscriminant::Golurk => 622,
        SpeciesDiscriminant::Pawniard => 623,
        SpeciesDiscriminant::Bisharp => 624,
        SpeciesDiscriminant::Bouffalant => 625,
        SpeciesDiscriminant::Rufflet => 626,
        SpeciesDiscriminant::Braviary => 627,
        SpeciesDiscriminant::Vullaby => 628,
        SpeciesDiscriminant::Mandibuzz => 629,
        SpeciesDiscriminant::Heatmor => 630,
        SpeciesDiscriminant::Durant => 631,
        SpeciesDiscriminant::Deino => 632,
        SpeciesDiscriminant::Zweilous => 633,
        SpeciesDiscriminant::Hydreigon => 634,
        SpeciesDiscriminant::Larvesta => 635,
        SpeciesDiscriminant::Volcarona => 636,
        SpeciesDiscriminant::Cobalion => 637,
        SpeciesDiscriminant::Terrakion => 638,
        SpeciesDiscriminant::Virizion => 639,
        SpeciesDiscriminant::Tornadus => 640,
        SpeciesDiscriminant::Thundurus => 641,
        SpeciesDiscriminant::Reshiram => 642,
        SpeciesDiscriminant::Zekrom => 643,
        SpeciesDiscriminant::Landorus => 644,
        SpeciesDiscriminant::Kyurem => 645,
        SpeciesDiscriminant::Keldeo => 646,
        SpeciesDiscriminant::Meloetta => 647,
        SpeciesDiscriminant::Genesect => 648,
        SpeciesDiscriminant::Chespin => 649,
        SpeciesDiscriminant::Quilladin => 650,
        SpeciesDiscriminant::Chesnaught => 651,
        SpeciesDiscriminant::Fennekin => 652,
        SpeciesDiscriminant::Braixen => 653,
        SpeciesDiscriminant::Delphox => 654,
        SpeciesDiscriminant::Froakie => 655,
        SpeciesDiscriminant::Frogadier => 656,
        SpeciesDiscriminant::Greninja => 657,
        SpeciesDiscriminant::Bunnelby => 658,
        SpeciesDiscriminant::Diggersby => 659,
        SpeciesDiscriminant::Fletchling => 660,
        SpeciesDiscriminant::Fletchinder => 661,
        SpeciesDiscriminant::Talonflame => 662,
        SpeciesDiscriminant::Scatterbug => 663,
        SpeciesDiscriminant::Spewpa => 664,
        SpeciesDiscriminant::Vivillon => 665,
        SpeciesDiscriminant::Litleo => 666,
        SpeciesDiscriminant::Pyroar => 667,
        SpeciesDiscriminant::Flabebe => 668,
        SpeciesDiscriminant::Floette => 669,
        SpeciesDiscriminant::Florges => 670,
        SpeciesDiscriminant::Skiddo => 671,
        SpeciesDiscriminant::Gogoat => 672,
        SpeciesDiscriminant::Pancham => 673,
        SpeciesDiscriminant::Pangoro => 674,
        SpeciesDiscriminant::Furfrou => 675,
        SpeciesDiscriminant::Espurr => 676,
        SpeciesDiscriminant::Meowstic => 677,
        SpeciesDiscriminant::Honedge => 678,
        SpeciesDiscriminant::Doublade => 679,
        SpeciesDiscriminant::Aegislash => 680,
        SpeciesDiscriminant::Spritzee => 681,
        SpeciesDiscriminant::Aromatisse => 682,
        SpeciesDiscriminant::Swirlix => 683,
        SpeciesDiscriminant::Slurpuff => 684,
        SpeciesDiscriminant::Inkay => 685,
        SpeciesDiscriminant::Malamar => 686,
        SpeciesDiscriminant::Binacle => 687,
        SpeciesDiscriminant::Barbaracle => 688,
        SpeciesDiscriminant::Skrelp => 689,
        SpeciesDiscriminant::Dragalge => 690,
        SpeciesDiscriminant::Clauncher => 691,
        SpeciesDiscriminant::Clawitzer => 692,
        SpeciesDiscriminant::Helioptile => 693,
        SpeciesDiscriminant::Heliolisk => 694,
        SpeciesDiscriminant::Tyrunt => 695,
        SpeciesDiscriminant::Tyrantrum => 696,
        SpeciesDiscriminant::Amaura => 697,
        SpeciesDiscriminant::Aurorus => 698,
        SpeciesDiscriminant::Sylveon => 699,
        SpeciesDiscriminant::Hawlucha => 700,
        SpeciesDiscriminant::Dedenne => 701,
        SpeciesDiscriminant::Carbink => 702,
        SpeciesDiscriminant::Goomy => 703,
        SpeciesDiscriminant::Sliggoo => 704,
        SpeciesDiscriminant::Goodra => 705,
        SpeciesDiscriminant::Klefki => 706,
        SpeciesDiscriminant::Phantump => 707,
        SpeciesDiscriminant::Trevenant => 708,
        SpeciesDiscriminant::Pumpkaboo => 709,
        SpeciesDiscriminant::Gourgeist => 710,
        SpeciesDiscriminant::Bergmite => 711,
        SpeciesDiscriminant::Avalugg => 712,
        SpeciesDiscriminant::Noibat => 713,
        SpeciesDiscriminant::Noivern => 714,
        SpeciesDiscriminant::Xerneas => 715,
        SpeciesDiscriminant::Yveltal => 716,
        SpeciesDiscriminant::Zygarde => 717,
        SpeciesDiscriminant::Diancie => 718,
        SpeciesDiscriminant::Hoopa => 719,
        SpeciesDiscriminant::Volcanion => 720,
        SpeciesDiscriminant::Rowlet => 721,
        SpeciesDiscriminant::Dartrix => 722,
        SpeciesDiscriminant::Decidueye => 723,
        SpeciesDiscriminant::Litten => 724,
        SpeciesDiscriminant::Torracat => 725,
        SpeciesDiscriminant::Incineroar => 726,
        SpeciesDiscriminant::Popplio => 727,
        SpeciesDiscriminant::Brionne => 728,
        SpeciesDiscriminant::Primarina => 729,
        SpeciesDiscriminant::Pikipek => 730,
        SpeciesDiscriminant::Trumbeak => 731,
        SpeciesDiscriminant::Toucannon => 732,
        SpeciesDiscriminant::Yungoos => 733,
        SpeciesDiscriminant::Gumshoos => 734,
        SpeciesDiscriminant::Grubbin => 735,
        SpeciesDiscriminant::Charjabug => 736,
        SpeciesDiscriminant::Vikavolt => 737,
        SpeciesDiscriminant::Crabrawler => 738,
        SpeciesDiscriminant::Crabominable => 739,
        SpeciesDiscriminant::Oricorio => 740,
        SpeciesDiscriminant::Cutiefly => 741,
        SpeciesDiscriminant::Ribombee => 742,
        SpeciesDiscriminant::Rockruff => 743,
        SpeciesDiscriminant::Lycanroc => 744,
        SpeciesDiscriminant::Wishiwashi => 745,
        SpeciesDiscriminant::Mareanie => 746,
        SpeciesDiscriminant::Toxapex => 747,
        SpeciesDiscriminant::Mudbray => 748,
        SpeciesDiscriminant::Mudsdale => 749,
        SpeciesDiscriminant::Dewpider => 750,
        SpeciesDiscriminant::Araquanid => 751,
        SpeciesDiscriminant::Fomantis => 752,
        SpeciesDiscriminant::Lurantis => 753,
        SpeciesDiscriminant::Morelull => 754,
        SpeciesDiscriminant::Shiinotic => 755,
        SpeciesDiscriminant::Salandit => 756,
        SpeciesDiscriminant::Salazzle => 757,
        SpeciesDiscriminant::Stufful => 758,
        SpeciesDiscriminant::Bewear => 759,
        SpeciesDiscriminant::Bounsweet => 760,
        SpeciesDiscriminant::Steenee => 761,
        SpeciesDiscriminant::Tsareena => 762,
        SpeciesDiscriminant::Comfey => 763,
        SpeciesDiscriminant::Oranguru => 764,
        SpeciesDiscriminant::Passimian => 765,
        SpeciesDiscriminant::Wimpod => 766,
        SpeciesDiscriminant::Golisopod => 767,
        SpeciesDiscriminant::Sandygast => 768,
        SpeciesDiscriminant::Palossand => 769,
        SpeciesDiscriminant::Pyukumuku => 770,
        SpeciesDiscriminant::TypeNull => 771,
        SpeciesDiscriminant::Silvally => 772,
        SpeciesDiscriminant::Minior => 773,
        SpeciesDiscriminant::Komala => 774,
        SpeciesDiscriminant::Turtonator => 775,
        SpeciesDiscriminant::Togedemaru => 776,
        SpeciesDiscriminant::Mimikyu => 777,
        SpeciesDiscriminant::Bruxish => 778,
        SpeciesDiscriminant::Drampa => 779,
        SpeciesDiscriminant::Dhelmise => 780,
        SpeciesDiscriminant::JangmoO => 781,
        SpeciesDiscriminant::HakamoO => 782,
        SpeciesDiscriminant::KommoO => 783,
        SpeciesDiscriminant::TapuKoko => 784,
        SpeciesDiscriminant::TapuLele => 785,
        SpeciesDiscriminant::TapuBulu => 786,
        SpeciesDiscriminant::TapuFini => 787,
        SpeciesDiscriminant::Cosmog => 788,
        SpeciesDiscriminant::Cosmoem => 789,
        SpeciesDiscriminant::Solgaleo => 790,
        SpeciesDiscriminant::Lunala => 791,
        SpeciesDiscriminant::Nihilego => 792,
        SpeciesDiscriminant::Buzzwole => 793,
        SpeciesDiscriminant::Pheromosa => 794,
        SpeciesDiscriminant::Xurkitree => 795,
        SpeciesDiscriminant::Celesteela => 796,
        SpeciesDiscriminant::Kartana => 797,
        SpeciesDiscriminant::Guzzlord => 798,
        SpeciesDiscriminant::Necrozma => 799,
        SpeciesDiscriminant::Magearna => 800,
        SpeciesDiscriminant::Marshadow => 801,
        SpeciesDiscriminant::Poipole => 802,
        SpeciesDiscriminant::Naganadel => 803,
        SpeciesDiscriminant::Stakataka => 804,
        SpeciesDiscriminant::Blacephalon => 805,
        SpeciesDiscriminant::Zeraora => 806,
        _ => 0,
    }
}

/// The species at position `i` of dex order, for `i` below the number of species.
pub open spec fn species_at(i: int) -> SpeciesDiscriminant {
    if i < 403 {
        if i < 201 {
            if i < 100 {
                if i < 50 {
                    if i < 25 {
                        if i < 12 {
                            if i < 6 {
                                if i < 3 {
                                    if i < 1 {
                                        SpeciesDiscriminant::Bulbasaur
                                    } else {
                                        if i < 2 {
                                            SpeciesDiscriminant::Ivysaur
                                        } else {
                                            SpeciesDiscriminant::Venusaur
                                        }
                                    }
                                } else {
                                    if i < 4 {
                                        SpeciesDiscriminant::Charmander
                                    } else {
                                        if i < 5 {
                                            SpeciesDiscriminant::Charmeleon
                                        } else {
                                            SpeciesDiscriminant::Charizard
                                        }
                                    }
                                }
                            } else {
                                if i < 9 {
                                    if i < 7 {
                                        SpeciesDiscriminant::Squirtle
                                    } else {
                                        if i < 8 {
                                            SpeciesDiscriminant::Wartortle
                                        } else {
                                            SpeciesDiscriminant::Blastoise
                                        }
                                    }
                                } else {
                                    if i < 10 {
                                        SpeciesDiscriminant::Caterpie
                                    } else {
                                        if i < 11 {
                                            SpeciesDiscriminant::Metapod
                                        } else {
                                            SpeciesDiscriminant::Butterfree
                                        }
                                    }
                                }
                            }
                        } else {
                            if i < 18 {
                                if i < 15 {
                                    if i < 13 {
                                        SpeciesDiscriminant::Weedle
                                    } else {
                                        if i < 14 {
                                            SpeciesDiscriminant::Kakuna
                                        } else {
                                            SpeciesDiscriminant::Beedrill
                                        }
                                    }
                                } else {
                                    if i < 16 {
                                        SpeciesDiscriminant::Pidgey
                                    } else {
                                        if i < 17 {
                                            SpeciesDiscriminant::Pidgeotto
                                        } else {
                                            SpeciesDiscriminant::Pidgeot
                                        }
                                    }
                                }
                            } else {
                                if i < 21 {
                                    if i < 19 {
                                        SpeciesDiscriminant::Rattata
                                    } else {
                                        if i < 20 {
                                            SpeciesDiscriminant::Raticate
                                        } else {
                                            SpeciesDiscriminant::Spearow
                                        }
                                    }
                                } else {
                                    if i < 23 {
                                        if i < 22 {
                                            SpeciesDiscriminant::Fearow
                                        } else {
                                            SpeciesDiscriminant::Ekans
                                        }
                                    } else {
                                        if i < 24 {
                                            SpeciesDiscriminant::Arbok
                                        } else {
                                            SpeciesDiscriminant::Pikachu
                                        }
                                    }
                                }
                            }
                        }
                    } else {
                        if i < 37 {
                            if i < 31 {
                                if i < 28 {
                                    if i < 26 {
                                        SpeciesDiscriminant::Raichu
                                    } else {
                                        if i < 27 {
                                            SpeciesDiscriminant::Sandshrew
                                        } else {
                                            SpeciesDiscriminant::Sandslash
                                        }
                                    }
                                } else {
                                    if i < 29 {
                                        SpeciesDiscriminant::NidoranF
                                    } else {
                                        if i < 30 {
                                            SpeciesDiscriminant::Nidorina
                                        } else {
                                            SpeciesDiscriminant::Nidoqueen
                                        }
                                    }
                                }
                            } else {
                                if i < 34 {
                                    if i < 32 {
                                        SpeciesDiscriminant::NidoranM
                                    } else {
                                        if i < 33 {
                                            SpeciesDiscriminant::Nidorino
                                        } else {
                                            SpeciesDiscriminant::Nidoking
                                        }
                                    }
                                } else {
                                    if i < 35 {
                                        SpeciesDiscriminant::Clefairy
                                    } else {
                                        if i < 36 {
                                            SpeciesDiscriminant::Clefable
                                        } else {
                                            SpeciesDiscriminant::Vulpix
                                        }
                                    }
                                }
                            }
                        } else {
                            if i < 43 {
                                if i < 40 {
                                    if i < 38 {
                                        SpeciesDiscriminant::Ninetales
                                    } else {
                                        if i < 39 {
                                            SpeciesDiscriminant::Jigglypuff
                                        } else {
                                            SpeciesDiscriminant::Wigglytuff
                                        }
                                    }
                                } else {
                                    if i < 41 {
                                        SpeciesDiscriminant::Zubat
                                    } else {
                                        if i < 42 {
                                            SpeciesDiscriminant::Golbat
                                        } else {
                                            SpeciesDiscriminant::Oddish
                                        }
                                    }
                                }
                            } else {
                                if i < 46 {
                                    if i < 44 {
                                        SpeciesDiscriminant::Gloom
                                    } else {
                                        if i < 45 {
                                            SpeciesDiscriminant::Vileplume
                                        } else {
                                            SpeciesDiscriminant::Paras
                                        }
                                    }
                                } else {
                                    if i < 48 {
                                        if i < 47 {
                                            SpeciesDiscriminant::Parasect
                                        } else {
                                            SpeciesDiscriminant::Venonat
                                        }
                                    } else {
                                        if i < 49 {
                                            SpeciesDiscriminant::Venomoth
                                        } else {
                                            SpeciesDiscriminant::Diglett
                                        }
                                    }
                                }
                            }
                        }
                    }
                } else {
                    if i < 75 {
                        if i < 62 {
                            if i < 56 {
                                if i < 53 {
                                    if i < 51 {
                                        SpeciesDiscriminant::Dugtrio
                                    } else {
                                        if i < 52 {
                                            SpeciesDiscriminant::Meowth
                                        } else {
                                            SpeciesDiscriminant::Persian
                                        }
                                    }
                                } else {
                                    if i < 54 {
                                        SpeciesDiscriminant::Psyduck
                                    } else {
                                        if i < 55 {
                                            SpeciesDiscriminant::Golduck
                                        } else {
                                            SpeciesDiscriminant::Mankey
                                        }
                                    }
                                }
                            } else {
                                if i < 59 {
                                    if i < 57 {
                                        SpeciesDiscriminant::Primeape
                                    } else {
                                        if i < 58 {
                                            SpeciesDiscriminant::Growlithe
                                        } else {
                                            SpeciesDiscriminant::Arcanine
                                        }
                                    }
                                } else {
                                    if i < 60 {
                                        SpeciesDiscriminant::Poliwag
                                    } else {
                                        if i < 61 {
                                            SpeciesDiscriminant::Poliwhirl
                                        } else {
                                            SpeciesDiscriminant::Poliwrath
                                        }
                                    }
                                }
                            }
                        } else {
                            if i < 68 {
                                if i < 65 {
                                    if i < 63 {
                                        SpeciesDiscriminant::Abra
                                    } else {
                                        if i < 64 {
                                            SpeciesDiscriminant::Kadabra
                                        } else {
                                            SpeciesDiscriminant::Alakazam
                                        }
                                    }
                                } else {
                                    if i < 66 {
                                        SpeciesDiscriminant::Machop
                                    } else {
                                        if i < 67 {
                                            SpeciesDiscriminant::Machoke
                                        } else {
                                            SpeciesDiscriminant::Machamp
                                        }
                                    }
                                }
                            } else {
                                if i < 71 {
                                    if i < 69 {
                                        SpeciesDiscriminant::Bellsprout
                                    } else {
                                        if i < 70 {
                                            SpeciesDiscriminant::Weepinbell
                                        } else {
                                            SpeciesDiscriminant::Victreebel
                                        }
                                    }
                                } else {
                                    if i < 73 {
                                        if i < 72 {
                                            SpeciesDiscriminant::Tentacool
                                        } else {
                                            SpeciesDiscriminant::Tentacruel
                                        }
                                    } else {
                                        if i < 74 {
                                            SpeciesDiscriminant::Geodude
                                        } else {
                                            SpeciesDiscriminant::Graveler
                                        }
                                    }
                                }
                            }
                        }
                    } else {
                        if i < 87 {
                            if i < 81 {
                                if i < 78 {
                                    if i < 76 {
                                        SpeciesDiscriminant::Golem
                                    } else {
                                        if i < 77 {
                                            SpeciesDiscriminant::Ponyta
                                        } else {
                                            SpeciesDiscriminant::Rapidash
                                        }
                                    }
                                } else {
                                    if i < 79 {
                                        SpeciesDiscriminant::Slowpoke
                                    } else {
                                        if i < 80 {
                                            SpeciesDiscriminant::Slowbro
                                        } else {
                                            SpeciesDiscriminant::Magnemite
                                        }
                                    }
                                }
                            } else {
                                if i < 84 {
                                    if i < 82 {
                                        SpeciesDiscriminant::Magneton
                                    } else {
                                        if i < 83 {
                                            SpeciesDiscriminant::Farfetchd
                                        } else {
                                            SpeciesDiscriminant::Doduo
                                        }
                                    }
                                } else {
                                    if i < 85 {
                                        SpeciesDiscriminant::Dodrio
                                    } else {
                                        if i < 86 {
                                            SpeciesDiscriminant::Seel
                                        } else {
                                            SpeciesDiscriminant::Dewgong
                                        }
                                    }
                                }
                            }
                        } else {
                            if i < 93 {
                                if i < 90 {
                                    if i < 88 {
                                        SpeciesDiscriminant::Grimer
                                    } else {
                                        if i < 89 {
                                            SpeciesDiscriminant::Muk
                                        } else {
                                            SpeciesDiscriminant::Shellder
                                        }
                                    }
                                } else {
                                    if i < 91 {
                                        SpeciesDiscriminant::Cloyster
                                    } else {
                                        if i < 92 {
                                            SpeciesDiscriminant::Gastly
                                        } else {
                                            SpeciesDiscriminant::Haunter
                                        }
                                    }
                                }
                            } else {
                                if i < 96 {
                                    if i < 94 {
                                        SpeciesDiscriminant::Gengar
                                    } else {
                                        if i < 95 {
                                            SpeciesDiscriminant::Onix
                                        } else {
                                            SpeciesDiscriminant::Drowzee
                                        }
                                    }
                                } else {
                                    if i < 98 {
                                        if i < 97 {
                                            SpeciesDiscriminant::Hypno
                                        } else {
                                            SpeciesDiscriminant::Krabby
                                        }
                                    } else {
                                        if i < 99 {
                                            SpeciesDiscriminant::Kingler
                                        } else {
                                            SpeciesDiscriminant::Voltorb
                                        }
                                    }
                                }
                            }
                        }
                    }
                }
            } else {
                if i < 150 {
                    if i < 125 {
                        if i < 112 {
                            if i < 106 {
                                if i < 103 {
                                    if i < 101 {
                                        SpeciesDiscriminant::Electrode
                                    } else {
                                        if i < 102 {
                                            SpeciesDiscriminant::Exeggcute
                                        } else {
                                            SpeciesDiscriminant::Exeggutor
                                        }
                                    }
                                } else {
                                    if i < 104 {
                                        SpeciesDiscriminant::Cubone
                                    } else {
                                        if i < 105 {
                                            SpeciesDiscriminant::Marowak
                                        } else {
                                            SpeciesDiscriminant::Hitmonlee
                                        }
                                    }
                                }
                            } else {
                                if i < 109 {
                                    if i < 107 {
                                        SpeciesDiscriminant::Hitmonchan
                                    } else {
                                        if i < 108 {
                                            SpeciesDiscriminant::Lickitung
                                        } else {
                                            SpeciesDiscriminant::Koffing
                                        }
                                    }
                                } else {
                                    if i < 110 {
                                        SpeciesDiscriminant::Weezing
                                    } else {
                                        if i < 111 {
                                            SpeciesDiscriminant::Rhyhorn
                                        } else {
                                            SpeciesDiscriminant::Rhydon
                                        }
                                    }
                                }
                            }
                        } else {
                            if i < 118 {
                                if i < 115 {
                                    if i < 113 {
                                        SpeciesDiscriminant::Chansey
                                    } else {
                                        if i < 114 {
                                            SpeciesDiscriminant::Tangela
                                        } else {
                                            SpeciesDiscriminant::Kangaskhan
                                        }
                                    }
                                } else {
                                    if i < 116 {
                                        SpeciesDiscriminant::Horsea
                                    } else {
                                        if i < 117 {
                                            SpeciesDiscriminant::Seadra
                                        } else {
                                            SpeciesDiscriminant::Goldeen
                                        }
                                    }
                                }
                            } else {
                                if i < 121 {
                                    if i < 119 {
                                        SpeciesDiscriminant::Seaking
                                    } else {
                                        if i < 120 {
                                            SpeciesDiscriminant::Staryu
                                        } else {
                                            SpeciesDiscriminant::Starmie
                                        }
                                    }
                                } else {
                                    if i < 123 {
                                        if i < 122 {
                                            SpeciesDiscriminant::MrMime
                                        } else {
                                            SpeciesDiscriminant::Scyther
                                        }
                                    } else {
                                        if i < 124 {
                                            SpeciesDiscriminant::Jynx
                                        } else {
                                            SpeciesDiscriminant::Electabuzz
                                        }
                                    }
                                }
                            }
                        }
                    } else {
                        if i < 137 {
                            if i < 131 {
                                if i < 128 {
                                    if i < 126 {
                                        SpeciesDiscriminant::Magmar
                                    } else {
                                        if i < 127 {
                                            SpeciesDiscriminant::Pinsir
                                        } else {
                                            SpeciesDiscriminant::Tauros
                                        }
                                    }
                                } else {
                                    if i < 129 {
                                        SpeciesDiscriminant::Magikarp
                                    } else {
                                        if i < 130 {
                                            SpeciesDiscriminant::Gyarados
                                        } else {
                                            SpeciesDiscriminant::Lapras
                                        }
                                    }
                                }
                            } else {
                                if i < 134 {
                                    if i < 132 {
                                        SpeciesDiscriminant::Ditto
                                    } else {
                                        if i < 133 {
                                            SpeciesDiscriminant::Eevee
                                        } else {
                                            SpeciesDiscriminant::Vaporeon
                                        }
                                    }
                                } else {
                                    if i < 135 {
                                        SpeciesDiscriminant::Jolteon
                                    } else {
                                        if i < 136 {
                                            SpeciesDiscriminant::Flareon
                                        } else {
                                            SpeciesDiscriminant::Porygon
                                        }
                                    }
                                }
                            }
                        } else {
                            if i < 143 {
                                if i < 140 {
                                    if i < 138 {
                                        SpeciesDiscriminant::Omanyte
                                    } else {
                                        if i < 139 {
                                            SpeciesDiscriminant::Omastar
                                        } else {
                                            SpeciesDiscriminant::Kabuto
                                        }
                                    }
                                } else {
                                    if i < 141 {
                                        SpeciesDiscriminant::Kabutops
                                    } else {
                                        if i < 142 {
                                            SpeciesDiscriminant::Aerodactyl
                                        } else {
                                            SpeciesDiscriminant::Snorlax
                                        }
                                    }
                                }
                            } else {
                                if i < 146 {
                                    if i < 144 {
                                        SpeciesDiscriminant::Articuno
                                    } else {
                                        if i < 145 {
                                            SpeciesDiscriminant::Zapdos
                                        } else {
                                            SpeciesDiscriminant::Moltres
                                        }
                                    }
                                } else {
                                    if i < 148 {
                                        if i < 147 {
                                            SpeciesDiscriminant::Dratini
                                        } else {
                                            SpeciesDiscriminant::Dragonair
                                        }
                                    } else {
                                        if i < 149 {
                                            SpeciesDiscriminant::Dragonite
                                        } else {
                                            SpeciesDiscriminant::Mewtwo
                                        }
                                    }
                                }
                            }
                        }
                    }
                } else {
                    if i < 175 {
                        if i < 162 {
                            if i < 156 {
                                if i < 153 {
                                    if i < 151 {
                                        SpeciesDiscriminant::Mew
                                    } else {
                                        if i < 152 {
                                            SpeciesDiscriminant::Chikorita
                                        } else {
                                            SpeciesDiscriminant::Bayleef
                                        }
                                    }
                                } else {
                                    if i < 154 {
                                        SpeciesDiscriminant::Meganium
                                    } else {
                                        if i < 155 {
                                            SpeciesDiscriminant::Cyndaquil
                                        } else {
                                            SpeciesDiscriminant::Quilava
                                        }
                                    }
                                }
                            } else {
                                if i < 159 {
                                    if i < 157 {
                                        SpeciesDiscriminant::Typhlosion
                                    } else {
                                        if i < 158 {
                                            SpeciesDiscriminant::Totodile
                                        } else {
                                            SpeciesDiscriminant::Croconaw
                                        }
                                    }
                                } else {
                                    if i < 160 {
                                        SpeciesDiscriminant::Feraligatr
                                    } else {
                                        if i < 161 {
                                            SpeciesDiscriminant::Sentret
                                        } else {
                                            SpeciesDiscriminant::Furret
                                        }
                                    }
                                }
                            }
                        } else {
                            if i < 168 {
                                if i < 165 {
                                    if i < 163 {
                                        SpeciesDiscriminant::Hoothoot
                                    } else {
                                        if i < 164 {
                                            SpeciesDiscriminant::Noctowl
                                        } else {
                                            SpeciesDiscriminant::Ledyba
                                        }
                                    }
                                } else {
                                    if i < 166 {
                                        SpeciesDiscriminant::Ledian
                                    } else {
                                        if i < 167 {
                                            SpeciesDiscriminant::Spinarak
                                        } else {
                                            SpeciesDiscriminant::Ariados
                                        }
                                    }
                                }
                            } else {
                                if i < 171 {
                                    if i < 169 {
                                        SpeciesDiscriminant::Crobat
                                    } else {
                                        if i < 170 {
                                            SpeciesDiscriminant::Chinchou
                                        } else {
                                            SpeciesDiscriminant::Lanturn
                                        }
                                    }
                                } else {
                                    if i < 173 {
                                        if i < 172 {
                                            SpeciesDiscriminant::Pichu
                                        } else {
                                            SpeciesDiscriminant::Cleffa
                                        }
                                    } else {
                                        if i < 174 {
                                            SpeciesDiscriminant::Igglybuff
                                        } else {
                                            SpeciesDiscriminant::Togepi
                                        }
                                    }
                                }
                            }
                        }
                    } else {
                        if i < 188 {
                            if i < 181 {
                                if i < 178 {
                                    if i < 176 {
                                        SpeciesDiscriminant::Togetic
                                    } else {
                                        if i < 177 {
                                            SpeciesDiscriminant::Natu
                                        } else {
                                            SpeciesDiscriminant::Xatu
                                        }
                                    }
                                } else {
                                    if i < 179 {
                                        SpeciesDiscriminant::Mareep
                                    } else {
                                        if i < 180 {
                                            SpeciesDiscriminant::Flaaffy
                                        } else {
                                            SpeciesDiscriminant::Ampharos
                                        }
                                    }
                                }
                            } else {
                                if i < 184 {
                                    if i < 182 {
                                        SpeciesDiscriminant::Bellossom
                                    } else {
                                        if i < 183 {
                                            SpeciesDiscriminant::Marill
                                        } else {
                                            SpeciesDiscriminant::Azumarill
                                        }
                                    }
                                } else {
                                    if i < 186 {
                                        if i < 185 {
                                            SpeciesDiscriminant::Sudowoodo
                                        } else {
                                            SpeciesDiscriminant::Politoed
                                        }
                                    } else {
                                        if i < 187 {
                                            SpeciesDiscriminant::Hoppip
                                        } else {
                                            SpeciesDiscriminant::Skiploom
                                        }
                                    }
                                }
                            }
                        } else {
                            if i < 194 {
                                if i < 191 {
                                    if i < 189 {
                                        SpeciesDiscriminant::Jumpluff
                                    } else {
                                        if i < 190 {
                                            SpeciesDiscriminant::Aipom
                                        } else {
                                            SpeciesDiscriminant::Sunkern
                                        }
                                    }
                                } else {
                                    if i < 192 {
                                        SpeciesDiscriminant::Sunflora
                                    } else {
                                        if i < 193 {
                                            SpeciesDiscriminant::Yanma
                                        } else {
                                            SpeciesDiscriminant::Wooper
                                        }
                                    }
                                }
                            } else {
                                if i < 197 {
                                    if i < 195 {
                                        SpeciesDiscriminant::Quagsire
                                    } else {
                                        if i < 196 {
                                            SpeciesDiscriminant::Espeon
                                        } else {
                                            SpeciesDiscriminant::Umbreon
                                        }
                                    }
                                } else {
                                    if i < 199 {
                                        if i < 198 {
                                            SpeciesDiscriminant::Murkrow
                                        } else {
                                            SpeciesDiscriminant::Slowking
                                        }
                                    } else {
                                        if i < 200 {
                                            SpeciesDiscriminant::Misdreavus
                                        } else {
                                            SpeciesDiscriminant::Unown
                                        }
                                    }
                                }
                            }
                        }
                    }
                }
            }
        } else {
            if i < 302 {
                if i < 251 {
                    if i < 226 {
                        if i < 213 {
                            if i < 207 {
                                if i < 204 {
                                    if i < 202 {
                                        SpeciesDiscriminant::Wobbuffet
                                    } else {
                                        if i < 203 {
                                            SpeciesDiscriminant::Girafarig
                                        } else {
                                            SpeciesDiscriminant::Pineco
                                        }
                                    }
                                } else {
                                    if i < 205 {
                                        SpeciesDiscriminant::Forretress
                                    } else {
                                        if i < 206 {
                                            SpeciesDiscriminant::Dunsparce
                                        } else {
                                            SpeciesDiscriminant::Gligar
                                        }
                                    }
                                }
                            } else {
                                if i < 210 {
                                    if i < 208 {
                                        SpeciesDiscriminant::Steelix
                                    } else {
                                        if i < 209 {
                                            SpeciesDiscriminant::Snubbull
                                        } else {
                                            SpeciesDiscriminant::Granbull
                                        }
                                    }
                                } else {
                                    if i < 211 {
                                        SpeciesDiscriminant::Qwilfish
                                    } else {
                                        if i < 212 {
                                            SpeciesDiscriminant::Scizor
                                        } else {
                                            SpeciesDiscriminant::Shuckle
                                        }
                                    }
                                }
                            }
                        } else {
                            if i < 219 {
                                if i < 216 {
                                    if i < 214 {
                                        SpeciesDiscriminant::Heracross
                                    } else {
                                        if i < 215 {
                                            SpeciesDiscriminant::Sneasel
                                        } else {
                                            SpeciesDiscriminant::Teddiursa
                                        }
                                    }
                                } else {
                                    if i < 217 {
                                        SpeciesDiscriminant::Ursaring
                                    } else {
                                        if i < 218 {
                                            SpeciesDiscriminant::Slugma
                                        } else {
                                            SpeciesDiscriminant::Magcargo
                                        }
                                    }
                                }
                            } else {
                                if i < 222 {
                                    if i < 220 {
                                        SpeciesDiscriminant::Swinub
                                    } else {
                                        if i < 221 {
                                            SpeciesDiscriminant::Piloswine
                                        } else {
                                            SpeciesDiscriminant::Corsola
                                        }
                                    }
                                } else {
                                    if i < 224 {
                                        if i < 223 {
                                            SpeciesDiscriminant::Remoraid
                                        } else {
                                            SpeciesDiscriminant::Octillery
                                        }
                                    } else {
                                        if i < 225 {
                                            SpeciesDiscriminant::Delibird
                                        } else {
                                            SpeciesDiscriminant::Mantine
                                        }
                                    }
                                }
                            }
                        }
                    } else {
                        if i < 238 {
                            if i < 232 {
                                if i < 229 {
                                    if i < 227 {
                                        SpeciesDiscriminant::Skarmory
                                    } else {
                                        if i < 228 {
                                            SpeciesDiscriminant::Houndour
                                        } else {
                                            SpeciesDiscriminant::Houndoom
                                        }
                                    }
                                } else {
                                    if i < 230 {
                                        SpeciesDiscriminant::Kingdra
                                    } else {
                                        if i < 231 {
                                            SpeciesDiscriminant::Phanpy
                                        } else {
                                            SpeciesDiscriminant::Donphan
                                        }
                                    }
                                }
                            } else {
                                if i < 235 {
                                    if i < 233 {
                                        SpeciesDiscriminant::Porygon2
                                    } else {
                                        if i < 234 {
                                            SpeciesDiscriminant::Stantler
                                        } else {
                                            SpeciesDiscriminant::Smeargle
                                        }
                                    }
                                } else {
                                    if i < 236 {
                                        SpeciesDiscriminant::Tyrogue
                                    } else {
                                        if i < 237 {
                                            SpeciesDiscriminant::Hitmontop
                                        } else {
                                            SpeciesDiscriminant::Smoochum
                                        }
                                    }
                                }
                            }
                        } else {
                            if i < 244 {
                                if i < 241 {
                                    if i < 239 {
                                        SpeciesDiscriminant::Elekid
                                    } else {
                                        if i < 240 {
                                            SpeciesDiscriminant::Magby
                                        } else {
                                            SpeciesDiscriminant::Miltank
                                        }
                                    }
                                } else {
                                    if i < 242 {
                                        SpeciesDiscriminant::Blissey
                                    } else {
                                        if i < 243 {
                                            SpeciesDiscriminant::Raikou
                                        } else {
                                            SpeciesDiscriminant::Entei
                                        }
                                    }
                                }
                            } else {
                                if i < 247 {
                                    if i < 245 {
                                        SpeciesDiscriminant::Suicune
                                    } else {
                                        if i < 246 {
                                            SpeciesDiscriminant::Larvitar
                                        } else {
                                            SpeciesDiscriminant::Pupitar
                                        }
                                    }
                                } else {
                                    if i < 249 {
                                        if i < 248 {
                                            SpeciesDiscriminant::Tyranitar
                                        } else {
                                            SpeciesDiscriminant::Lugia
                                        }
                                    } else {
                                        if i < 250 {
                                            SpeciesDiscriminant::HoOh
                                        } else {
                                            SpeciesDiscriminant::Celebi
                                        }
                                    }
                                }
                            }
                        }
                    }
                } else {
                    if i < 276 {
                        if i < 263 {
                            if i < 257 {
                                if i < 254 {
                                    if i < 252 {
                                        SpeciesDiscriminant::Treecko
                                    } else {
                                        if i < 253 {
                                            SpeciesDiscriminant::Grovyle
                                        } else {
                                            SpeciesDiscriminant::Sceptile
                                        }
                                    }
                                } else {
                                    if i < 255 {
                                        SpeciesDiscriminant::Torchic
                                    } else {
                                        if i < 256 {
                                            SpeciesDiscriminant::Combusken
                                        } else {
                                            SpeciesDiscriminant::Blaziken
                                        }
                                    }
                                }
                            } else {
                                if i < 260 {
                                    if i < 258 {
                                        SpeciesDiscriminant::Mudkip
                                    } else {
                                        if i < 259 {
                                            SpeciesDiscriminant::Marshtomp
                                        } else {
                                            SpeciesDiscriminant::Swampert
                                        }
                                    }
                                } else {
                                    if i < 261 {
                                        SpeciesDiscriminant::Poochyena
                                    } else {
                                        if i < 262 {
                                            SpeciesDiscriminant::Mightyena
                                        } else {
                                            SpeciesDiscriminant::Zigzagoon
                                        }
                                    }
                                }
                            }
                        } else {
                            if i < 269 {
                                if i < 266 {
                                    if i < 264 {
                                        SpeciesDiscriminant::Linoone
                                    } else {
                                        if i < 265 {
                                            SpeciesDiscriminant::Wurmple
                                        } else {
                                            SpeciesDiscriminant::Silcoon
                                        }
                                    }
                                } else {
                                    if i < 267 {
                                        SpeciesDiscriminant::Beautifly
                                    } else {
                                        if i < 268 {
                                            SpeciesDiscriminant::Cascoon
                                        } else {
                                            SpeciesDiscriminant::Dustox
                                        }
                                    }
                                }
                            } else {
                                if i < 272 {
                                    if i < 270 {
                                        SpeciesDiscriminant::Lotad
                                    } else {
                                        if i < 271 {
                                            SpeciesDiscriminant::Lombre
                                        } else {
                                            SpeciesDiscriminant::Ludicolo
                                        }
                                    }
                                } else {
                                    if i < 274 {
                                        if i < 273 {
                                            SpeciesDiscriminant::Seedot
                                        } else {
                                            SpeciesDiscriminant::Nuzleaf
                                        }
                                    } else {
                                        if i < 275 {
                                            SpeciesDiscriminant::Shiftry
                                        } else {
                                            SpeciesDiscriminant::Taillow
                                        }
                                    }
                                }
                            }
                        }
                    } else {
                        if i < 289 {
                            if i < 282 {
                                if i < 279 {
                                    if i < 277 {
                                        SpeciesDiscriminant::Swellow
                                    } else {
                                        if i < 278 {
                                            SpeciesDiscriminant::Wingull
                                        } else {
                                            SpeciesDiscriminant::Pelipper
                                        }
                                    }
                                } else {
                                    if i < 280 {
                                        SpeciesDiscriminant::Ralts
                                    } else {
                                        if i < 281 {
                                            SpeciesDiscriminant::Kirlia
                                        } else {
                                            SpeciesDiscriminant::Gardevoir
                                        }
                                    }
                                }
                            } else {
                                if i < 285 {
                                    if i < 283 {
                                        SpeciesDiscriminant::Surskit
                                    } else {
                                        if i < 284 {
                                            SpeciesDiscriminant::Masquerain
                                        } else {
                                            SpeciesDiscriminant::Shroomish
                                        }
                                    }
                                } else {
                                    if i < 287 {
                                        if i < 286 {
                                            SpeciesDiscriminant::Breloom
                                        } else {
                                            SpeciesDiscriminant::Slakoth
                                        }
                                    } else {
                                        if i < 288 {
                                            SpeciesDiscriminant::Vigoroth
                                        } else {
                                            SpeciesDiscriminant::Slaking
                                        }
                                    }
                                }
                            }
                        } else {
                            if i < 295 {
                                if i < 292 {
                                    if i < 290 {
                                        SpeciesDiscriminant::Nincada
                                    } else {
                                        if i < 291 {
                                            SpeciesDiscriminant::Ninjask
                                        } else {
                                            SpeciesDiscriminant::Shedinja
                                        }
                                    }
                                } else {
                                    if i < 293 {
                                        SpeciesDiscriminant::Whismur
                                    } else {
                                        if i < 294 {
                                            SpeciesDiscriminant::Loudred
                                        } else {
                                            SpeciesDiscriminant::Exploud
                                        }
                                    }
                                }
                            } else {
                                if i < 298 {
                                    if i < 296 {
                                        SpeciesDiscriminant::Makuhita
                                    } else {
                                        if i < 297 {
                                            SpeciesDiscriminant::Hariyama
                                        } else {
                                            SpeciesDiscriminant::Azurill
                                        }
                                    }
                                } else {
                                    if i < 300 {
                                        if i < 299 {
                                            SpeciesDiscriminant::Nosepass
                                        } else {
                                            SpeciesDiscriminant::Skitty
                                        }
                                    } else {
                                        if i < 301 {
                                            SpeciesDiscriminant::Delcatty
                                        } else {
                                            SpeciesDiscriminant::Sableye
                                        }
                                    }
                                }
                            }
                        }
                    }
                }
            } else {
                if i < 352 {
                    if i < 327 {
                        if i < 314 {
                            if i < 308 {
                                if i < 305 {
                                    if i < 303 {
                                        SpeciesDiscriminant::Mawile
                                    } else {
                                        if i < 304 {
                                            SpeciesDiscriminant::Aron
                                        } else {
                                            SpeciesDiscriminant::Lairon
                                        }
                                    }
                                } else {
                                    if i < 306 {
                                        SpeciesDiscriminant::Aggron
                                    } else {
                                        if i < 307 {
                                            SpeciesDiscriminant::Meditite
                                        } else {
                                            SpeciesDiscriminant::Medicham
                                        }
                                    }
                                }
                            } else {
                                if i < 311 {
                                    if i < 309 {
                                        SpeciesDiscriminant::Electrike
                                    } else {
                                        if i < 310 {
                                            SpeciesDiscriminant::Manectric
                                        } else {
                                            SpeciesDiscriminant::Plusle
                                        }
                                    }
                                } else {
                                    if i < 312 {
                                        SpeciesDiscriminant::Minun
                                    } else {
                                        if i < 313 {
                                            SpeciesDiscriminant::Volbeat
                                        } else {
                                            SpeciesDiscriminant::Illumise
                                        }
                                    }
                                }
                            }
                        } else {
                            if i < 320 {
                                if i < 317 {
                                    if i < 315 {
                                        SpeciesDiscriminant::Roselia
                                    } else {
                                        if i < 316 {
                                            SpeciesDiscriminant::Gulpin
                                        } else {
                                            SpeciesDiscriminant::Swalot
                                        }
                                    }
                                } else {
                                    if i < 318 {
                                        SpeciesDiscriminant::Carvanha
                                    } else {
                                        if i < 319 {
                                            SpeciesDiscriminant::Sharpedo
                                        } else {
                                            SpeciesDiscriminant::Wailmer
                                        }
                                    }
                                }
                            } else {
                                if i < 323 {
                                    if i < 321 {
                                        SpeciesDiscriminant::Wailord
                                    } else {
                                        if i < 322 {
                                            SpeciesDiscriminant::Numel
                                        } else {
                                            SpeciesDiscriminant::Camerupt
                                        }
                                    }
                                } else {
                                    if i < 325 {
                                        if i < 324 {
                                            SpeciesDiscriminant::Torkoal
                                        } else {
                                            SpeciesDiscriminant::Spoink
                                        }
                                    } else {
                                        if i < 326 {
                                            SpeciesDiscriminant::Grumpig
                                        } else {
                                            SpeciesDiscriminant::Spinda
                                        }
                                    }
                                }
                            }
                        }
                    } else {
                        if i < 339 {
                            if i < 333 {
                                if i < 330 {
                                    if i < 328 {
                                        SpeciesDiscriminant::Trapinch
                                    } else {
                                        if i < 329 {
                                            SpeciesDiscriminant::Vibrava
                                        } else {
                                            SpeciesDiscriminant::Flygon
                                        }
                                    }
                                } else {
                                    if i < 331 {
                                        SpeciesDiscriminant::Cacnea
                                    } else {
                                        if i < 332 {
                                            SpeciesDiscriminant::Cacturne
                                        } else {
                                            SpeciesDiscriminant::Swablu
                                        }
                                    }
                                }
                            } else {
                                if i < 336 {
                                    if i < 334 {
                                        SpeciesDiscriminant::Altaria
                                    } else {
                                        if i < 335 {
                                            SpeciesDiscriminant::Zangoose
                                        } else {
                                            SpeciesDiscriminant::Seviper
                                        }
                                    }
                                } else {
                                    if i < 337 {
                                        SpeciesDiscriminant::Lunatone
                                    } else {
                                        if i < 338 {
                                            SpeciesDiscriminant::Solrock
                                        } else {
                                            SpeciesDiscriminant::Barboach
                                        }
                                    }
                                }
                            }
                        } else {
                            if i < 345 {
                                if i < 342 {
                                    if i < 340 {
                                        SpeciesDiscriminant::Whiscash
                                    } else {
                                        if i < 341 {
                                            SpeciesDiscriminant::Corphish
                                        } else {
                                            SpeciesDiscriminant::Crawdaunt
                                        }
                                    }
                                } else {
                                    if i < 343 {
                                        SpeciesDiscriminant::Baltoy
                                    } else {
                                        if i < 344 {
                                            SpeciesDiscriminant::Claydol
                                        } else {
                                            SpeciesDiscriminant::Lileep
                                        }
                                    }
                                }
                            } else {
                                if i < 348 {
                                    if i < 346 {
                                        SpeciesDiscriminant::Cradily
                                    } else {
                                        if i < 347 {
                                            SpeciesDiscriminant::Anorith
                                        } else {
                                            SpeciesDiscriminant::Armaldo
                                        }
                                    }
                                } else {
                                    if i < 350 {
                                        if i < 349 {
                                            SpeciesDiscriminant::Feebas
                                        } else {
                                            SpeciesDiscriminant::Milotic
                                        }
                                    } else {
                                        if i < 351 {
                                            SpeciesDiscriminant::Castform
                                        } else {
                                            SpeciesDiscriminant::Kecleon
                                        }
                                    }
                                }
                            }
                        }
                    }
                } else {
                    if i < 377 {
                        if i < 364 {
                            if i < 358 {
                                if i < 355 {
                                    if i < 353 {
                                        SpeciesDiscriminant::Shuppet
                                    } else {
                                        if i < 354 {
                                            SpeciesDiscriminant::Banette
                                        } else {
                                            SpeciesDiscriminant::Duskull
                                        }
                                    }
                                } else {
                                    if i < 356 {
                                        SpeciesDiscriminant::Dusclops
                                    } else {
                                        if i < 357 {
                                            SpeciesDiscriminant::Tropius
                                        } else {
                                            SpeciesDiscriminant::Chimecho
                                        }
                                    }
                                }
                            } else {
                                if i < 361 {
                                    if i < 359 {
                                        SpeciesDiscriminant::Absol
                                    } else {
                                        if i < 360 {
                                            SpeciesDiscriminant::Wynaut
                                        } else {
                                            SpeciesDiscriminant::Snorunt
                                        }
                                    }
                                } else {
                                    if i < 362 {
                                        SpeciesDiscriminant::Glalie
                                    } else {
                                        if i < 363 {
                                            SpeciesDiscriminant::Spheal
                                        } else {
                                            SpeciesDiscriminant::Sealeo
                                        }
                                    }
                                }
                            }
                        } else {
                            if i < 370 {
                                if i < 367 {
                                    if i < 365 {
                                        SpeciesDiscriminant::Walrein
                                    } else {
                                        if i < 366 {
                                            SpeciesDiscriminant::Clamperl
                                        } else {
                                            SpeciesDiscriminant::Huntail
                                        }
                                    }
                                } else {
                                    if i < 368 {
                                        SpeciesDiscriminant::Gorebyss
                                    } else {
                                        if i < 369 {
                                            SpeciesDiscriminant::Relicanth
                                        } else {
                                            SpeciesDiscriminant::Luvdisc
                                        }
                                    }
                                }
                            } else {
                                if i < 373 {
                                    if i < 371 {
                                        SpeciesDiscriminant::Bagon
                                    } else {
                                        if i < 372 {
                                            SpeciesDiscriminant::Shelgon
                                        } else {
                                            SpeciesDiscriminant::Salamence
                                        }
                                    }
                                } else {
                                    if i < 375 {
                                        if i < 374 {
                                            SpeciesDiscriminant::Beldum
                                        } else {
                                            SpeciesDiscriminant::Metang
                                        }
                                    } else {
                                        if i < 376 {
                                            SpeciesDiscriminant::Metagross
                                        } else {
                                            SpeciesDiscriminant::Regirock
                                        }
                                    }
                                }
                            }
                        }
                    } else {
                        if i < 390 {
                            if i < 383 {
                                if i < 380 {
                                    if i < 378 {
                                        SpeciesDiscriminant::Regice
                                    } else {
                                        if i < 379 {
                                            SpeciesDiscriminant::Registeel
                                        } else {
                                            SpeciesDiscriminant::Latias
                                        }
                                    }
                                } else {
                                    if i < 381 {
                                        SpeciesDiscriminant::Latios
                                    } else {
                                        if i < 382 {
                                            SpeciesDiscriminant::Kyogre
                                        } else {
                                            SpeciesDiscriminant::Groudon
                                        }
                                    }
                                }
                            } else {
                                if i < 386 {
                                    if i < 384 {
                                        SpeciesDiscriminant::Rayquaza
                                    } else {
                                        if i < 385 {
                                            SpeciesDiscriminant::Jirachi
                                        } else {
                                            SpeciesDiscriminant::Deoxys
                                        }
                                    }
                                } else {
                                    if i < 388 {
                                        if i < 387 {
                                            SpeciesDiscriminant::Turtwig
                                        } else {
                                            SpeciesDiscriminant::Grotle
                                        }
                                    } else {
                                        if i < 389 {
                                            SpeciesDiscriminant::Torterra
                                        } else {
                                            SpeciesDiscriminant::Chimchar
                                        }
                                    }
                                }
                            }
                        } else {
                            if i < 396 {
                                if i < 393 {
                                    if i < 391 {
                                        SpeciesDiscriminant::Monferno
                                    } else {
                                        if i < 392 {
                                            SpeciesDiscriminant::Infernape
                                        } else {
                                            SpeciesDiscriminant::Piplup
                                        }
                                    }
                                } else {
                                    if i < 394 {
                                        SpeciesDiscriminant::Prinplup
                                    } else {
                                        if i < 395 {
                                            SpeciesDiscriminant::Empoleon
                                        } else {
                                            SpeciesDiscriminant::Starly
                                        }
                                    }
                                }
                            } else {
                                if i < 399 {
                                    if i < 397 {
                                        SpeciesDiscriminant::Staravia
                                    } else {
                                        if i < 398 {
                                            SpeciesDiscriminant::Staraptor
                                        } else {
                                            SpeciesDiscriminant::Bidoof
                                        }
                                    }
                                } else {
                                    if i < 401 {
                                        if i < 400 {
                                            SpeciesDiscriminant::Bibarel
                                        } else {
                                            SpeciesDiscriminant::Kricketot
                                        }
                                    } else {
                                        if i < 402 {
                                            SpeciesDiscriminant::Kricketune
                                        } else {
                                            SpeciesDiscriminant::Shinx
                                        }
                                    }
                                }
                            }
                        }
                    }
                }
            }
        }
    } else {
        if i < 605 {
            if i < 504 {
                if i < 453 {
                    if i < 428 {
                        if i < 415 {
                            if i < 409 {
                                if i < 406 {
                                    if i < 404 {
                                        SpeciesDiscriminant::Luxio
                                    } else {
                                        if i < 405 {
                                            SpeciesDiscriminant::Luxray
                                        } else {
                                            SpeciesDiscriminant::Budew
                                        }
                                    }
                                } else {
                                    if i < 407 {
                                        SpeciesDiscriminant::Roserade
                                    } else {
                                        if i < 408 {
                                            SpeciesDiscriminant::Cranidos
                                        } else {
                                            SpeciesDiscriminant::Rampardos
                                        }
                                    }
                                }
                            } else {
                                if i < 412 {
                                    if i < 410 {
                                        SpeciesDiscriminant::Shieldon
                                    } else {
                                        if i < 411 {
                                            SpeciesDiscriminant::Bastiodon
                                        } else {
                                            SpeciesDiscriminant::Burmy
                                        }
                                    }
                                } else {
                                    if i < 413 {
                                        SpeciesDiscriminant::Wormadam
                                    } else {
                                        if i < 414 {
                                            SpeciesDiscriminant::Mothim
                                        } else {
                                            SpeciesDiscriminant::Combee
                                        }
                                    }
                                }
                            }
                        } else {
                            if i < 421 {
                                if i < 418 {
                                    if i < 416 {
                                        SpeciesDiscriminant::Vespiquen
                                    } else {
                                        if i < 417 {
                                            SpeciesDiscriminant::Pachirisu
                                        } else {
                                            SpeciesDiscriminant::Buizel
                                        }
                                    }
                                } else {
                                    if i < 419 {
                                        SpeciesDiscriminant::Floatzel
                                    } else {
                                        if i < 420 {
                                            SpeciesDiscriminant::Cherubi
                                        } else {
                                            SpeciesDiscriminant::Cherrim
                                        }
                                    }
                                }
                            } else {
                                if i < 424 {
                                    if i < 422 {
                                        SpeciesDiscriminant::Shellos
                                    } else {
                                        if i < 423 {
                                            SpeciesDiscriminant::Gastrodon
                                        } else {
                                            SpeciesDiscriminant::Ambipom
                                        }
                                    }
                                } else {
                                    if i < 426 {
                                        if i < 425 {
                                            SpeciesDiscriminant::Drifloon
                                        } else {
                                            SpeciesDiscriminant::Drifblim
                                        }
                                    } else {
                                        if i < 427 {
                                            SpeciesDiscriminant::Buneary
                                        } else {
                                            SpeciesDiscriminant::Lopunny
                                        }
                                    }
                                }
                            }
                        }
                    } else {
                        if i < 440 {
                            if i < 434 {
                                if i < 431 {
                                    if i < 429 {
                                        SpeciesDiscriminant::Mismagius
                                    } else {
                                        if i < 430 {
                                            SpeciesDiscriminant::Honchkrow
                                        } else {
                                            SpeciesDiscriminant::Glameow
                                        }
                                    }
                                } else {
                                    if i < 432 {
                                        SpeciesDiscriminant::Purugly
                                    } else {
                                        if i < 433 {
                                            SpeciesDiscriminant::Chingling
                                        } else {
                                            SpeciesDiscriminant::Stunky
                                        }
                                    }
                                }
                            } else {
                                if i < 437 {
                                    if i < 435 {
                                        SpeciesDiscriminant::Skuntank
                                    } else {
                                        if i < 436 {
                                            SpeciesDiscriminant::Bronzor
                                        } else {
                                            SpeciesDiscriminant::Bronzong
                                        }
                                    }
                                } else {
                                    if i < 438 {
                                        SpeciesDiscriminant::Bonsly
                                    } else {
                                        if i < 439 {
                                            SpeciesDiscriminant::MimeJr
                                        } else {
                                            SpeciesDiscriminant::Happiny
                                        }
                                    }
                                }
                            }
                        } else {
                            if i < 446 {
                                if i < 443 {
                                    if i < 441 {
                                        SpeciesDiscriminant::Chatot
                                    } else {
                                        if i < 442 {
                                            SpeciesDiscriminant::Spiritomb
                                        } else {
                                            SpeciesDiscriminant::Gible
                                        }
                                    }
                                } else {
                                    if i < 444 {
                                        SpeciesDiscriminant::Gabite
                                    } else {
                                        if i < 445 {
                                            SpeciesDiscriminant::Garchomp
                                        } else {
                                            SpeciesDiscriminant::Munchlax
                                        }
                                    }
                                }
                            } else {
                                if i < 449 {
                                    if i < 447 {
                                        SpeciesDiscriminant::Riolu
                                    } else {
                                        if i < 448 {
                                            SpeciesDiscriminant::Lucario
                                        } else {
                                            SpeciesDiscriminant::Hippopotas
                                        }
                                    }
                                } else {
                                    if i < 451 {
                                        if i < 450 {
                                            SpeciesDiscriminant::Hippowdon
                                        } else {
                                            SpeciesDiscriminant::Skorupi
                                        }
                                    } else {
                                        if i < 452 {
                                            SpeciesDiscriminant::Drapion
                                        } else {
                                            SpeciesDiscriminant::Croagunk
                                        }
                                    }
                                }
                            }
                        }
                    }
                } else {
                    if i < 478 {
                        if i < 465 {
                            if i < 459 {
                                if i < 456 {
                                    if i < 454 {
                                        SpeciesDiscriminant::Toxicroak
                                    } else {
                                        if i < 455 {
                                            SpeciesDiscriminant::Carnivine
                                        } else {
                                            SpeciesDiscriminant::Finneon
                                        }
                                    }
                                } else {
                                    if i < 457 {
                                        SpeciesDiscriminant::Lumineon
                                    } else {
                                        if i < 458 {
                                            SpeciesDiscriminant::Mantyke
                                        } else {
                                            SpeciesDiscriminant::Snover
                                        }
                                    }
                                }
                            } else {
                                if i < 462 {
                                    if i < 460 {
                                        SpeciesDiscriminant::Abomasnow
                                    } else {
                                        if i < 461 {
                                            SpeciesDiscriminant::Weavile
                                        } else {
                                            SpeciesDiscriminant::Magnezone
                                        }
                                    }
                                } else {
                                    if i < 463 {
                                        SpeciesDiscriminant::Lickilicky
                                    } else {
                                        if i < 464 {
                                            SpeciesDiscriminant::Rhyperior
                                        } else {
                                            SpeciesDiscriminant::Tangrowth
                                        }
                                    }
                                }
                            }
                        } else {
                            if i < 471 {
                                if i < 468 {
                                    if i < 466 {
                                        SpeciesDiscriminant::Electivire
                                    } else {
                                        if i < 467 {
                                            SpeciesDiscriminant::Magmortar
                                        } else {
                                            SpeciesDiscriminant::Togekiss
                                        }
                                    }
                                } else {
                                    if i < 469 {
                                        SpeciesDiscriminant::Yanmega
                                    } else {
                                        if i < 470 {
                                            SpeciesDiscriminant::Leafeon
                                        } else {
                                            SpeciesDiscriminant::Glaceon
                                        }
                                    }
                                }
                            } else {
                                if i < 474 {
                                    if i < 472 {
                                        SpeciesDiscriminant::Gliscor
                                    } else {
                                        if i < 473 {
                                            SpeciesDiscriminant::Mamoswine
                                        } else {
                                            SpeciesDiscriminant::PorygonZ
                                        }
                                    }
                                } else {
                                    if i < 476 {
                                        if i < 475 {
                                            SpeciesDiscriminant::Gallade
                                        } else {
                                            SpeciesDiscriminant::Probopass
                                        }
                                    } else {
                                        if i < 477 {
                                            SpeciesDiscriminant::Dusknoir
                                        } else {
                                            SpeciesDiscriminant::Froslass
                                        }
                                    }
                                }
                            }
                        }
                    } else {
                        if i < 491 {
                            if i < 484 {
                                if i < 481 {
                                    if i < 479 {
                                        SpeciesDiscriminant::Rotom
                                    } else {
                                        if i < 480 {
                                            SpeciesDiscriminant::Uxie
                                        } else {
                                            SpeciesDiscriminant::Mesprit
                                        }
                                    }
                                } else {
                                    if i < 482 {
                                        SpeciesDiscriminant::Azelf
                                    } else {
                                        if i < 483 {
                                            SpeciesDiscriminant::Dialga
                                        } else {
                                            SpeciesDiscriminant::Palkia
                                        }
                                    }
                                }
                            } else {
                                if i < 487 {
                                    if i < 485 {
                                        SpeciesDiscriminant::Heatran
                                    } else {
                                        if i < 486 {
                                            SpeciesDiscriminant::Regigigas
                                        } else {
                                            SpeciesDiscriminant::Giratina
                                        }
                                    }
                                } else {
                                    if i < 489 {
                                        if i < 488 {
                                            SpeciesDiscriminant::Cresselia
                                        } else {
                                            SpeciesDiscriminant::Phione
                                        }
                                    } else {
                                        if i < 490 {
                                            SpeciesDiscriminant::Manaphy
                                        } else {
                                            SpeciesDiscriminant::Darkrai
                                        }
                                    }
                                }
                            }
                        } else {
                            if i < 497 {
                                if i < 494 {
                                    if i < 492 {
                                        SpeciesDiscriminant::Shaymin
                                    } else {
                                        if i < 493 {
                                            SpeciesDiscriminant::Arceus
                                        } else {
                                            SpeciesDiscriminant::Victini
                                        }
                                    }
                                } else {
                                    if i < 495 {
                                        SpeciesDiscriminant::Snivy
                                    } else {
                                        if i < 496 {
                                            SpeciesDiscriminant::Servine
                                        } else {
                                            SpeciesDiscriminant::Serperior
                                        }
                                    }
                                }
                            } else {
                                if i < 500 {
                                    if i < 498 {
                                        SpeciesDiscriminant::Tepig
                                    } else {
                                        if i < 499 {
                                            SpeciesDiscriminant::Pignite
                                        } else {
                                            SpeciesDiscriminant::Emboar
                                        }
                                    }
                                } else {
                                    if i < 502 {
                                        if i < 501 {
                                            SpeciesDiscriminant::Oshawott
                                        } else {
                                            SpeciesDiscriminant::Dewott
                                        }
                                    } else {
                                        if i < 503 {
                                            SpeciesDiscriminant::Samurott
                                        } else {
                                            SpeciesDiscriminant::Patrat
                                        }
                                    }
                                }
                            }
                        }
                    }
                }
            } else {
                if i < 554 {
                    if i < 529 {
                        if i < 516 {
                            if i < 510 {
                                if i < 507 {
                                    if i < 505 {
                                        SpeciesDiscriminant::Watchog
                                    } else {
                                        if i < 506 {
                                            SpeciesDiscriminant::Lillipup
                                        } else {
                                            SpeciesDiscriminant::Herdier
                                        }
                                    }
                                } else {
                                    if i < 508 {
                                        SpeciesDiscriminant::Stoutland
                                    } else {
                                        if i < 509 {
                                            SpeciesDiscriminant::Purrloin
                                        } else {
                                            SpeciesDiscriminant::Liepard
                                        }
                                    }
                                }
                            } else {
                                if i < 513 {
                                    if i < 511 {
                                        SpeciesDiscriminant::Pansage
                                    } else {
                                        if i < 512 {
                                            SpeciesDiscriminant::Simisage
                                        } else {
                                            SpeciesDiscriminant::Pansear
                                        }
                                    }
                                } else {
                                    if i < 514 {
                                        SpeciesDiscriminant::Simisear
                                    } else {
                                        if i < 515 {
                                            SpeciesDiscriminant::Panpour
                                        } else {
                                            SpeciesDiscriminant::Simipour
                                        }
                                    }
                                }
                            }
                        } else {
                            if i < 522 {
                                if i < 519 {
                                    if i < 517 {
                                        SpeciesDiscriminant::Munna
                                    } else {
                                        if i < 518 {
                                            SpeciesDiscriminant::Musharna
                                        } else {
                                            SpeciesDiscriminant::Pidove
                                        }
                                    }
                                } else {
                                    if i < 520 {
                                        SpeciesDiscriminant::Tranquill
                                    } else {
                                        if i < 521 {
                                            SpeciesDiscriminant::Unfezant
                                        } else {
                                            SpeciesDiscriminant::Blitzle
                                        }
                                    }
                                }
                            } else {
                                if i < 525 {
                                    if i < 523 {
                                        SpeciesDiscriminant::Zebstrika
                                    } else {
                                        if i < 524 {
                                            SpeciesDiscriminant::Roggenrola
                                        } else {
                                            SpeciesDiscriminant::Boldore
                                        }
                                    }
                                } else {
                                    if i < 527 {
                                        if i < 526 {
                                            SpeciesDiscriminant::Gigalith
                                        } else {
                                            SpeciesDiscriminant::Woobat
                                        }
                                    } else {
                                        if i < 528 {
                                            SpeciesDiscriminant::Swoobat
                                        } else {
                                            SpeciesDiscriminant::Drilbur
                                        }
                                    }
                                }
                            }
                        }
                    } else {
                        if i < 541 {
                            if i < 535 {
                                if i < 532 {
                                    if i < 530 {
                                        SpeciesDiscriminant::Excadrill
                                    } else {
                                        if i < 531 {
                                            SpeciesDiscriminant::Audino
                                        } else {
                                            SpeciesDiscriminant::Timburr
                                        }
                                    }
                                } else {
                                    if i < 533 {
                                        SpeciesDiscriminant::Gurdurr
                                    } else {
                                        if i < 534 {
                                            SpeciesDiscriminant::Conkeldurr
                                        } else {
                                            SpeciesDiscriminant::Tympole
                                        }
                                    }
                                }
                            } else {
                                if i < 538 {
                                    if i < 536 {
                                        SpeciesDiscriminant::Palpitoad
                                    } else {
                                        if i < 537 {
                                            SpeciesDiscriminant::Seismitoad
                                        } else {
                                            SpeciesDiscriminant::Throh
                                        }
                                    }
                                } else {
                                    if i < 539 {
                                        SpeciesDiscriminant::Sawk
                                    } else {
                                        if i < 540 {
                                            SpeciesDiscriminant::Sewaddle
                                        } else {
                                            SpeciesDiscriminant::Swadloon
                                        }
                                    }
                                }
                            }
                        } else {
                            if i < 547 {
                                if i < 544 {
                                    if i < 542 {
                                        SpeciesDiscriminant::Leavanny
                                    } else {
                                        if i < 543 {
                                            SpeciesDiscriminant::Venipede
                                        } else {
                                            SpeciesDiscriminant::Whirlipede
                                        }
                                    }
                                } else {
                                    if i < 545 {
                                        SpeciesDiscriminant::Scolipede
                                    } else {
                                        if i < 546 {
                                            SpeciesDiscriminant::Cottonee
                                        } else {
                                            SpeciesDiscriminant::Whimsicott
                                        }
                                    }
                                }
                            } else {
                                if i < 550 {
                                    if i < 548 {
                                        SpeciesDiscriminant::Petilil
                                    } else {
                                        if i < 549 {
                                            SpeciesDiscriminant::Lilligant
                                        } else {
                                            SpeciesDiscriminant::Basculin
                                        }
                                    }
                                } else {
                                    if i < 552 {
                                        if i < 551 {
                                            SpeciesDiscriminant::Sandile
                                        } else {
                                            SpeciesDiscriminant::Krokorok
                                        }
                                    } else {
                                        if i < 553 {
                                            SpeciesDiscriminant::Krookodile
                                        } else {
                                            SpeciesDiscriminant::Darumaka
                                        }
                                    }
                                }
                            }
                        }
                    }
                } else {
                    if i < 579 {
                        if i < 566 {
                            if i < 560 {
                                if i < 557 {
                                    if i < 555 {
                                        SpeciesDiscriminant::Darmanitan
                                    } else {
                                        if i < 556 {
                                            SpeciesDiscriminant::Maractus
                                        } else {
                                            SpeciesDiscriminant::Dwebble
                                        }
                                    }
                                } else {
                                    if i < 558 {
                                        SpeciesDiscriminant::Crustle
                                    } else {
                                        if i < 559 {
                                            SpeciesDiscriminant::Scraggy
                                        } else {
                                            SpeciesDiscriminant::Scrafty
                                        }
                                    }
                                }
                            } else {
                                if i < 563 {
                                    if i < 561 {
                                        SpeciesDiscriminant::Sigilyph
                                    } else {
                                        if i < 562 {
                                            SpeciesDiscriminant::Yamask
                                        } else {
                                            SpeciesDiscriminant::Cofagrigus
                                        }
                                    }
                                } else {
                                    if i < 564 {
                                        SpeciesDiscriminant::Tirtouga
                                    } else {
                                        if i < 565 {
                                            SpeciesDiscriminant::Carracosta
                                        } else {
                                            SpeciesDiscriminant::Archen
                                        }
                                    }
                                }
                            }
                        } else {
                            if i < 572 {
                                if i < 569 {
                                    if i < 567 {
                                        SpeciesDiscriminant::Archeops
                                    } else {
                                        if i < 568 {
                                            SpeciesDiscriminant::Trubbish
                                        } else {
                                            SpeciesDiscriminant::Garbodor
                                        }
                                    }
                                } else {
                                    if i < 570 {
                                        SpeciesDiscriminant::Zorua
                                    } else {
                                        if i < 571 {
                                            SpeciesDiscriminant::Zoroark
                                        } else {
                                            SpeciesDiscriminant::Minccino
                                        }
                                    }
                                }
                            } else {
                                if i < 575 {
                                    if i < 573 {
                                        SpeciesDiscriminant::Cinccino
                                    } else {
                                        if i < 574 {
                                            SpeciesDiscriminant::Gothita
                                        } else {
                                            SpeciesDiscriminant::Gothorita
                                        }
                                    }
                                } else {
                                    if i < 577 {
                                        if i < 576 {
                                            SpeciesDiscriminant::Gothitelle
                                        } else {
                                            SpeciesDiscriminant::Solosis
                                        }
                                    } else {
                                        if i < 578 {
                                            SpeciesDiscriminant::Duosion
                                        } else {
                                            SpeciesDiscriminant::Reuniclus
                                        }
                                    }
                                }
                            }
                        }
                    } else {
                        if i < 592 {
                            if i < 585 {
                                if i < 582 {
                                    if i < 580 {
                                        SpeciesDiscriminant::Ducklett
                                    } else {
                                        if i < 581 {
                                            SpeciesDiscriminant::Swanna
                                        } else {
                                            SpeciesDiscriminant::Vanillite
                                        }
                                    }
                                } else {
                                    if i < 583 {
                                        SpeciesDiscriminant::Vanillish
                                    } else {
                                        if i < 584 {
                                            SpeciesDiscriminant::Vanilluxe
                                        } else {
                                            SpeciesDiscriminant::Deerling
                                        }
                                    }
                                }
                            } else {
                                if i < 588 {
                                    if i < 586 {
                                        SpeciesDiscriminant::Sawsbuck
                                    } else {
                                        if i < 587 {
                                            SpeciesDiscriminant::Emolga
                                        } else {
                                            SpeciesDiscriminant::Karrablast
                                        }
                                    }
                                } else {
                                    if i < 590 {
                                        if i < 589 {
                                            SpeciesDiscriminant::Escavalier
                                        } else {
                                            SpeciesDiscriminant::Foongus
                                        }
                                    } else {
                                        if i < 591 {
                                            SpeciesDiscriminant::Amoonguss
                                        } else {
                                            SpeciesDiscriminant::Frillish
                                        }
                                    }
                                }
                            }
                        } else {
                            if i < 598 {
                                if i < 595 {
                                    if i < 593 {
                                        SpeciesDiscriminant::Jellicent
                                    } else {
                                        if i < 594 {
                                            SpeciesDiscriminant::Alomomola
                                        } else {
                                            SpeciesDiscriminant::Joltik
                                        }
                                    }
                                } else {
                                    if i < 596 {
                                        SpeciesDiscriminant::Galvantula
                                    } else {
                                        if i < 597 {
                                            SpeciesDiscriminant::Ferroseed
                                        } else {
                                            SpeciesDiscriminant::Ferrothorn
                                        }
                                    }
                                }
                            } else {
                                if i < 601 {
                                    if i < 599 {
                                        SpeciesDiscriminant::Klink
                                    } else {
                                        if i < 600 {
                                            SpeciesDiscriminant::Klang
                                        } else {
                                            SpeciesDiscriminant::Klinklang
                                        }
                                    }
                                } else {
                                    if i < 603 {
                                        if i < 602 {
                                            SpeciesDiscriminant::Tynamo
                                        } else {
                                            SpeciesDiscriminant::Eelektrik
                                        }
                                    } else {
                                        if i < 604 {
                                            SpeciesDiscriminant::Eelektross
                                        } else {
                                            SpeciesDiscriminant::Elgyem
                                        }
                                    }
                                }
                            }
                        }
                    }
                }
            }
        } else {
            if i < 706 {
                if i < 655 {
                    if i < 630 {
                        if i < 617 {
                            if i < 611 {
                                if i < 608 {
                                    if i < 606 {
                                        SpeciesDiscriminant::Beheeyem
                                    } else {
                                        if i < 607 {
                                            SpeciesDiscriminant::Litwick
                                        } else {
                                            SpeciesDiscriminant::Lampent
                                        }
                                    }
                                } else {
                                    if i < 609 {
                                        SpeciesDiscriminant::Chandelure
                                    } else {
                                        if i < 610 {
                                            SpeciesDiscriminant::Axew
                                        } else {
                                            SpeciesDiscriminant::Fraxure
                                        }
                                    }
                                }
                            } else {
                                if i < 614 {
                                    if i < 612 {
                                        SpeciesDiscriminant::Haxorus
                                    } else {
                                        if i < 613 {
                                            SpeciesDiscriminant::Cubchoo
                                        } else {
                                            SpeciesDiscriminant::Beartic
                                        }
                                    }
                                } else {
                                    if i < 615 {
                                        SpeciesDiscriminant::Cryogonal
                                    } else {
                                        if i < 616 {
                                            SpeciesDiscriminant::Shelmet
                                        } else {
                                            SpeciesDiscriminant::Accelgor
                                        }
                                    }
                                }
                            }
                        } else {
                            if i < 623 {
                                if i < 620 {
                                    if i < 618 {
                                        SpeciesDiscriminant::Stunfisk
                                    } else {
                                        if i < 619 {
                                            SpeciesDiscriminant::Mienfoo
                                        } else {
                                            SpeciesDiscriminant::Mienshao
                                        }
                                    }
                                } else {
                                    if i < 621 {
                                        SpeciesDiscriminant::Druddigon
                                    } else {
                                        if i < 622 {
                                            SpeciesDiscriminant::Golett
                                        } else {
                                            SpeciesDiscriminant::Golurk
                                        }
                                    }
                                }
                            } else {
                                if i < 626 {
                                    if i < 624 {
                                        SpeciesDiscriminant::Pawniard
                                    } else {
                                        if i < 625 {
                                            SpeciesDiscriminant::Bisharp
                                        } else {
                                            SpeciesDiscriminant::Bouffalant
                                        }
                                    }
                                } else {
                                    if i < 628 {
                                        if i < 627 {
                                            SpeciesDiscriminant::Rufflet
                                        } else {
                                            SpeciesDiscriminant::Braviary
                                        }
                                    } else {
                                        if i < 629 {
                                            SpeciesDiscriminant::Vullaby
                                        } else {
                                            SpeciesDiscriminant::Mandibuzz
                                        }
                                    }
                                }
                            }
                        }
                    } else {
                        if i < 642 {
                            if i < 636 {
                                if i < 633 {
                                    if i < 631 {
                                        SpeciesDiscriminant::Heatmor
                                    } else {
                                        if i < 632 {
                                            SpeciesDiscriminant::Durant
                                        } else {
                                            SpeciesDiscriminant::Deino
                                        }
                                    }
                                } else {
                                    if i < 634 {
                                        SpeciesDiscriminant::Zweilous
                                    } else {
                                        if i < 635 {
                                            SpeciesDiscriminant::Hydreigon
                                        } else {
                                            SpeciesDiscriminant::Larvesta
                                        }
                                    }
                                }
                            } else {
                                if i < 639 {
                                    if i < 637 {
                                        SpeciesDiscriminant::Volcarona
                                    } else {
                                        if i < 638 {
                                            SpeciesDiscriminant::Cobalion
                                        } else {
                                            SpeciesDiscriminant::Terrakion
                                        }
                                    }
                                } else {
                                    if i < 640 {
                                        SpeciesDiscriminant::Virizion
                                    } else {
                                        if i < 641 {
                                            SpeciesDiscriminant::Tornadus
                                        } else {
                                            SpeciesDiscriminant::Thundurus
                                        }
                                    }
                                }
                            }
                        } else {
                            if i < 648 {
                                if i < 645 {
                                    if i < 643 {
                                        SpeciesDiscriminant::Reshiram
                                    } else {
                                        if i < 644 {
                                            SpeciesDiscriminant::Zekrom
                                        } else {
                                            SpeciesDiscriminant::Landorus
                                        }
                                    }
                                } else {
                                    if i < 646 {
                                        SpeciesDiscriminant::Kyurem
                                    } else {
                                        if i < 647 {
                                            SpeciesDiscriminant::Keldeo
                                        } else {
                                            SpeciesDiscriminant::Meloetta
                                        }
                                    }
                                }
                            } else {
                                if i < 651 {
                                    if i < 649 {
                                        SpeciesDiscriminant::Genesect
                                    } else {
                                        if i < 650 {
                                            SpeciesDiscriminant::Chespin
                                        } else {
                                            SpeciesDiscriminant::Quilladin
                                        }
                                    }
                                } else {
                                    if i < 653 {
                                        if i < 652 {
                                            SpeciesDiscriminant::Chesnaught
                                        } else {
                                            SpeciesDiscriminant::Fennekin
                                        }
                                    } else {
                                        if i < 654 {
                                            SpeciesDiscriminant::Braixen
                                        } else {
                                            SpeciesDiscriminant::Delphox
                                        }
                                    }
                                }
                            }
                        }
                    }
                } else {
                    if i < 680 {
                        if i < 667 {
                            if i < 661 {
                                if i < 658 {
                                    if i < 656 {
                                        SpeciesDiscriminant::Froakie
                                    } else {
                                        if i < 657 {
                                            SpeciesDiscriminant::Frogadier
                                        } else {
                                            SpeciesDiscriminant::Greninja
                                        }
                                    }
                                } else {
                                    if i < 659 {
                                        SpeciesDiscriminant::Bunnelby
                                    } else {
                                        if i < 660 {
                                            SpeciesDiscriminant::Diggersby
                                        } else {
                                            SpeciesDiscriminant::Fletchling
                                        }
                                    }
                                }
                            } else {
                                if i < 664 {
                                    if i < 662 {
                                        SpeciesDiscriminant::Fletchinder
                                    } else {
                                        if i < 663 {
                                            SpeciesDiscriminant::Talonflame
                                        } else {
                                            SpeciesDiscriminant::Scatterbug
                                        }
                                    }
                                } else {
                                    if i < 665 {
                                        SpeciesDiscriminant::Spewpa
                                    } else {
                                        if i < 666 {
                                            SpeciesDiscriminant::Vivillon
                                        } else {
                                            SpeciesDiscriminant::Litleo
                                        }
                                    }
                                }
                            }
                        } else {
                            if i < 673 {
                                if i < 670 {
                                    if i < 668 {
                                        SpeciesDiscriminant::Pyroar
                                    } else {
                                        if i < 669 {
                                            SpeciesDiscriminant::Flabebe
                                        } else {
                                            SpeciesDiscriminant::Floette
                                        }
                                    }
                                } else {
                                    if i < 671 {
                                        SpeciesDiscriminant::Florges
                                    } else {
                                        if i < 672 {
                                            SpeciesDiscriminant::Skiddo
                                        } else {
                                            SpeciesDiscriminant::Gogoat
                                        }
                                    }
                                }
                            } else {
                                if i < 676 {
                                    if i < 674 {
                                        SpeciesDiscriminant::Pancham
                                    } else {
                                        if i < 675 {
                                            SpeciesDiscriminant::Pangoro
                                        } else {
                                            SpeciesDiscriminant::Furfrou
                                        }
                                    }
                                } else {
                                    if i < 678 {
                                        if i < 677 {
                                            SpeciesDiscriminant::Espurr
                                        } else {
                                            SpeciesDiscriminant::Meowstic
                                        }
                                    } else {
                                        if i < 679 {
                                            SpeciesDiscriminant::Honedge
                                        } else {
                                            SpeciesDiscriminant::Doublade
                                        }
                                    }
                                }
                            }
                        }
                    } else {
                        if i < 693 {
                            if i < 686 {
                                if i < 683 {
                                    if i < 681 {
                                        SpeciesDiscriminant::Aegislash
                                    } else {
                                        if i < 682 {
                                            SpeciesDiscriminant::Spritzee
                                        } else {
                                            SpeciesDiscriminant::Aromatisse
                                        }
                                    }
                                } else {
                                    if i < 684 {
                                        SpeciesDiscriminant::Swirlix
                                    } else {
                                        if i < 685 {
                                            SpeciesDiscriminant::Slurpuff
                                        } else {
                                            SpeciesDiscriminant::Inkay
                                        }
                                    }
                                }
                            } else {
                                if i < 689 {
                                    if i < 687 {
                                        SpeciesDiscriminant::Malamar
                                    } else {
                                        if i < 688 {
                                            SpeciesDiscriminant::Binacle
                                        } else {
                                            SpeciesDiscriminant::Barbaracle
                                        }
                                    }
                                } else {
                                    if i < 691 {
                                        if i < 690 {
                                            SpeciesDiscriminant::Skrelp
                                        } else {
                                            SpeciesDiscriminant::Dragalge
                                        }
                                    } else {
                                        if i < 692 {
                                            SpeciesDiscriminant::Clauncher
                                        } else {
                                            SpeciesDiscriminant::Clawitzer
                                        }
                                    }
                                }
                            }
                        } else {
                            if i < 699 {
                                if i < 696 {
                                    if i < 694 {
                                        SpeciesDiscriminant::Helioptile
                                    } else {
                                        if i < 695 {
                                            SpeciesDiscriminant::Heliolisk
                                        } else {
                                            SpeciesDiscriminant::Tyrunt
                                        }
                                    }
                                } else {
                                    if i < 697 {
                                        SpeciesDiscriminant::Tyrantrum
                                    } else {
                                        if i < 698 {
                                            SpeciesDiscriminant::Amaura
                                        } else {
                                            SpeciesDiscriminant::Aurorus
                                        }
                                    }
                                }
                            } else {
                                if i < 702 {
                                    if i < 700 {
                                        SpeciesDiscriminant::Sylveon
                                    } else {
                                        if i < 701 {
                                            SpeciesDiscriminant::Hawlucha
                                        } else {
                                            SpeciesDiscriminant::Dedenne
                                        }
                                    }
                                } else {
                                    if i < 704 {
                                        if i < 703 {
                                            SpeciesDiscriminant::Carbink
                                        } else {
                                            SpeciesDiscriminant::Goomy
                                        }
                                    } else {
                                        if i < 705 {
                                            SpeciesDiscriminant::Sliggoo
                                        } else {
                                            SpeciesDiscriminant::Goodra
                                        }
                                    }
                                }
                            }
                        }
                    }
                }
            } else {
                if i < 756 {
                    if i < 731 {
                        if i < 718 {
                            if i < 712 {
                                if i < 709 {
                                    if i < 707 {
                                        SpeciesDiscriminant::Klefki
                                    } else {
                                        if i < 708 {
                                            SpeciesDiscriminant::Phantump
                                        } else {
                                            SpeciesDiscriminant::Trevenant
                                        }
                                    }
                                } else {
                                    if i < 710 {
                                        SpeciesDiscriminant::Pumpkaboo
                                    } else {
                                        if i < 711 {
                                            SpeciesDiscriminant::Gourgeist
                                        } else {
                                            SpeciesDiscriminant::Bergmite
                                        }
                                    }
                                }
                            } else {
                                if i < 715 {
                                    if i < 713 {
                                        SpeciesDiscriminant::Avalugg
                                    } else {
                                        if i < 714 {
                                            SpeciesDiscriminant::Noibat
                                        } else {
                                            SpeciesDiscriminant::Noivern
                                        }
                                    }
                                } else {
                                    if i < 716 {
                                        SpeciesDiscriminant::Xerneas
                                    } else {
                                        if i < 717 {
                                            SpeciesDiscriminant::Yveltal
                                        } else {
                                            SpeciesDiscriminant::Zygarde
                                        }
                                    }
                                }
                            }
                        } else {
                            if i < 724 {
                                if i < 721 {
                                    if i < 719 {
                                        SpeciesDiscriminant::Diancie
                                    } else {
                                        if i < 720 {
                                            SpeciesDiscriminant::Hoopa
                                        } else {
                                            SpeciesDiscriminant::Volcanion
                                        }
                                    }
                                } else {
                                    if i < 722 {
                                        SpeciesDiscriminant::Rowlet
                                    } else {
                                        if i < 723 {
                                            SpeciesDiscriminant::Dartrix
                                        } else {
                                            SpeciesDiscriminant::Decidueye
                                        }
                                    }
                                }
                            } else {
                                if i < 727 {
                                    if i < 725 {
                                        SpeciesDiscriminant::Litten
                                    } else {
                                        if i < 726 {
                                            SpeciesDiscriminant::Torracat
                                        } else {
                                            SpeciesDiscriminant::Incineroar
                                        }
                                    }
                                } else {
                                    if i < 729 {
                                        if i < 728 {
                                            SpeciesDiscriminant::Popplio
                                        } else {
                                            SpeciesDiscriminant::Brionne
                                        }
                                    } else {
                                        if i < 730 {
                                            SpeciesDiscriminant::Primarina
                                        } else {
                                            SpeciesDiscriminant::Pikipek
                                        }
                                    }
                                }
                            }
                        }
                    } else {
                        if i < 743 {
                            if i < 737 {
                                if i < 734 {
                                    if i < 732 {
                                        SpeciesDiscriminant::Trumbeak
                                    } else {
                                        if i < 733 {
                                            SpeciesDiscriminant::Toucannon
                                        } else {
                                            SpeciesDiscriminant::Yungoos
                                        }
                                    }
                                } else {
                                    if i < 735 {
                                        SpeciesDiscriminant::Gumshoos
                                    } else {
                                        if i < 736 {
                                            SpeciesDiscriminant::Grubbin
                                        } else {
                                            SpeciesDiscriminant::Charjabug
                                        }
                                    }
                                }
                            } else {
                                if i < 740 {
                                    if i < 738 {
                                        SpeciesDiscriminant::Vikavolt
                                    } else {
                                        if i < 739 {
                                            SpeciesDiscriminant::Crabrawler
                                        } else {
                                            SpeciesDiscriminant::Crabominable
                                        }
                                    }
                                } else {
                                    if i < 741 {
                                        SpeciesDiscriminant::Oricorio
                                    } else {
                                        if i < 742 {
                                            SpeciesDiscriminant::Cutiefly
                                        } else {
                                            SpeciesDiscriminant::Ribombee
                                        }
                                    }
                                }
                            }
                        } else {
                            if i < 749 {
                                if i < 746 {
                                    if i < 744 {
                                        SpeciesDiscriminant::Rockruff
                                    } else {
                                        if i < 745 {
                                            SpeciesDiscriminant::Lycanroc
                                        } else {
                                            SpeciesDiscriminant::Wishiwashi
                                        }
                                    }
                                } else {
                                    if i < 747 {
                                        SpeciesDiscriminant::Mareanie
                                    } else {
                                        if i < 748 {
                                            SpeciesDiscriminant::Toxapex
                                        } else {
                                            SpeciesDiscriminant::Mudbray
                                        }
                                    }
                                }
                            } else {
                                if i < 752 {
                                    if i < 750 {
                                        SpeciesDiscriminant::Mudsdale
                                    } else {
                                        if i < 751 {
                                            SpeciesDiscriminant::Dewpider
                                        } else {
                                            SpeciesDiscriminant::Araquanid
                                        }
                                    }
                                } else {
                                    if i < 754 {
                                        if i < 753 {
                                            SpeciesDiscriminant::Fomantis
                                        } else {
                                            SpeciesDiscriminant::Lurantis
                                        }
                                    } else {
                                        if i < 755 {
                                            SpeciesDiscriminant::Morelull
                                        } else {
                                            SpeciesDiscriminant::Shiinotic
                                        }
                                    }
                                }
                            }
                        }
                    }
                } else {
                    if i < 781 {
                        if i < 768 {
                            if i < 762 {
                                if i < 759 {
                                    if i < 757 {
                                        SpeciesDiscriminant::Salandit
                                    } else {
                                        if i < 758 {
                                            SpeciesDiscriminant::Salazzle
                                        } else {
                                            SpeciesDiscriminant::Stufful
                                        }
                                    }
                                } else {
                                    if i < 760 {
                                        SpeciesDiscriminant::Bewear
                                    } else {
                                        if i < 761 {
                                            SpeciesDiscriminant::Bounsweet
                                        } else {
                                            SpeciesDiscriminant::Steenee
                                        }
                                    }
                                }
                            } else {
                                if i < 765 {
                                    if i < 763 {
                                        SpeciesDiscriminant::Tsareena
                                    } else {
                                        if i < 764 {
                                            SpeciesDiscriminant::Comfey
                                        } else {
                                            SpeciesDiscriminant::Oranguru
                                        }
                                    }
                                } else {
                                    if i < 766 {
                                        SpeciesDiscriminant::Passimian
                                    } else {
                                        if i < 767 {
                                            SpeciesDiscriminant::Wimpod
                                        } else {
                                            SpeciesDiscriminant::Golisopod
                                        }
                                    }
                                }
                            }
                        } else {
                            if i < 774 {
                                if i < 771 {
                                    if i < 769 {
                                        SpeciesDiscriminant::Sandygast
                                    } else {
                                        if i < 770 {
                                            SpeciesDiscriminant::Palossand
                                        } else {
                                            SpeciesDiscriminant::Pyukumuku
                                        }
                                    }
                                } else {
                                    if i < 772 {
                                        SpeciesDiscriminant::TypeNull
                                    } else {
                                        if i < 773 {
                                            SpeciesDiscriminant::Silvally
                                        } else {
                                            SpeciesDiscriminant::Minior
                                        }
                                    }
                                }
                            } else {
                                if i < 777 {
                                    if i < 775 {
                                        SpeciesDiscriminant::Komala
                                    } else {
                                        if i < 776 {
                                            SpeciesDiscriminant::Turtonator
                                        } else {
                                            SpeciesDiscriminant::Togedemaru
                                        }
                                    }
                                } else {
                                    if i < 779 {
                                        if i < 778 {
                                            SpeciesDiscriminant::Mimikyu
                                        } else {
                                            SpeciesDiscriminant::Bruxish
                                        }
                                    } else {
                                        if i < 780 {
                                            SpeciesDiscriminant::Drampa
                                        } else {
                                            SpeciesDiscriminant::Dhelmise
                                        }
                                    }
                                }
                            }
                        }
                    } else {
                        if i < 794 {
                            if i < 787 {
                                if i < 784 {
                                    if i < 782 {
                                        SpeciesDiscriminant::JangmoO
                                    } else {
                                        if i < 783 {
                                            SpeciesDiscriminant::HakamoO
                                        } else {
                                            SpeciesDiscriminant::KommoO
                                        }
                                    }
                                } else {
                                    if i < 785 {
                                        SpeciesDiscriminant::TapuKoko
                                    } else {
                                        if i < 786 {
                                            SpeciesDiscriminant::TapuLele
                                        } else {
                                            SpeciesDiscriminant::TapuBulu
                                        }
                                    }
                                }
                            } else {
                                if i < 790 {
                                    if i < 788 {
                                        SpeciesDiscriminant::TapuFini
                                    } else {
                                        if i < 789 {
                                            SpeciesDiscriminant::Cosmog
                                        } else {
                                            SpeciesDiscriminant::Cosmoem
                                        }
                                    }
                                } else {
                                    if i < 792 {
                                        if i < 791 {
                                            SpeciesDiscriminant::Solgaleo
                                        } else {
                                            SpeciesDiscriminant::Lunala
                                        }
                                    } else {
                                        if i < 793 {
                                            SpeciesDiscriminant::Nihilego
                                        } else {
                                            SpeciesDiscriminant::Buzzwole
                                        }
                                    }
                                }
                            }
                        } else {
                            if i < 800 {
                                if i < 797 {
                                    if i < 795 {
                                        SpeciesDiscriminant::Pheromosa
                                    } else {
                                        if i < 796 {
                                            SpeciesDiscriminant::Xurkitree
                                        } else {
                                            SpeciesDiscriminant::Celesteela
                                        }
                                    }
                                } else {
                                    if i < 798 {
                                        SpeciesDiscriminant::Kartana
                                    } else {
                                        if i < 799 {
                                            SpeciesDiscriminant::Guzzlord
                                        } else {
                                            SpeciesDiscriminant::Necrozma
                                        }
                                    }
                                }
                            } else {
                                if i < 803 {
                                    if i < 801 {
                                        SpeciesDiscriminant::Magearna
                                    } else {
                                        if i < 802 {
                                            SpeciesDiscriminant::Marshadow
                                        } else {
                                            SpeciesDiscriminant::Poipole
                                        }
                                    }
                                } else {
                                    if i < 805 {
                                        if i < 804 {
                                            SpeciesDiscriminant::Naganadel
                                        } else {
                                            SpeciesDiscriminant::Stakataka
                                        }
                                    } else {
                                        if i < 806 {
                                            SpeciesDiscriminant::Blacephalon
                                        } else {
                                            SpeciesDiscriminant::Zeraora
                                        }
                                    }
                                }
                            }
                        }
                    }
                }
            }
        }
    }
}

/// Every species, in dex order.
pub open spec fn all_species_seq() -> Seq<SpeciesDiscriminant> {
    Seq::new(807, |i: int| species_at(i))
}

/// The in-game name of a species.
pub open spec fn display_name(k: SpeciesDiscriminant) -> Seq<char> {
    match k {
        SpeciesDiscriminant::Bulbasaur
        | SpeciesDiscriminant::Ivysaur
        | SpeciesDiscriminant::Venusaur
        | SpeciesDiscriminant::Charmander
        | SpeciesDiscriminant::Charmeleon
        | SpeciesDiscriminant::Charizard
        | SpeciesDiscriminant::Squirtle
        | SpeciesDiscriminant::Wartortle
        | SpeciesDiscriminant::Blastoise
        | SpeciesDiscriminant::Caterpie
        | SpeciesDiscriminant::Metapod
        | SpeciesDiscriminant::Butterfree
        | SpeciesDiscriminant::Weedle
        | SpeciesDiscriminant::Kakuna
        | SpeciesDiscriminant::Beedrill
        | SpeciesDiscriminant::Pidgey
        | SpeciesDiscriminant::Pidgeotto
        | SpeciesDiscriminant::Pidgeot
        | SpeciesDiscriminant::Rattata
        | SpeciesDiscriminant::Raticate
        | SpeciesDiscriminant::Spearow
        | SpeciesDiscriminant::Fearow
        | SpeciesDiscriminant::Ekans
        | SpeciesDiscriminant::Arbok
        | SpeciesDiscriminant::Pikachu
        | SpeciesDiscriminant::Raichu
        | SpeciesDiscriminant::Sandshrew
        | SpeciesDiscriminant::Sandslash
        | SpeciesDiscriminant::NidoranF
        | SpeciesDiscriminant::Nidorina
        | SpeciesDiscriminant::Nidoqueen
        | SpeciesDiscriminant::NidoranM
        | SpeciesDiscriminant::Nidorino
        | SpeciesDiscriminant::Nidoking
        | SpeciesDiscriminant::Clefairy
        | SpeciesDiscriminant::Clefable
        | SpeciesDiscriminant::Vulpix
        | SpeciesDiscriminant::Ninetales
        | SpeciesDiscriminant::Jigglypuff
        | SpeciesDiscriminant::Wigglytuff
        | SpeciesDiscriminant::Zubat
        | SpeciesDiscriminant::Golbat
        | SpeciesDiscriminant::Oddish
        | SpeciesDiscriminant::Gloom
        | SpeciesDiscriminant::Vileplume
        | SpeciesDiscriminant::Paras
        | SpeciesDiscriminant::Parasect
        | SpeciesDiscriminant::Venonat
        | SpeciesDiscriminant::Venomoth
        | SpeciesDiscriminant::Diglett
        | SpeciesDiscriminant::Dugtrio
        | SpeciesDiscriminant::Meowth
        | SpeciesDiscriminant::Persian
        | SpeciesDiscriminant::Psyduck
        | SpeciesDiscriminant::Golduck
        | SpeciesDiscriminant::Mankey
        | SpeciesDiscriminant::Primeape
        | SpeciesDiscriminant::Growlithe
        | SpeciesDiscriminant::Arcanine
        | SpeciesDiscriminant::Poliwag
        | SpeciesDiscriminant::Poliwhirl
        | SpeciesDiscriminant::Poliwrath
        | SpeciesDiscriminant::Abra
        | SpeciesDiscriminant::Kadabra
        | SpeciesDiscriminant::Alakazam
        | SpeciesDiscriminant::Machop
        | SpeciesDiscriminant::Machoke
        | SpeciesDiscriminant::Machamp
        | SpeciesDiscriminant::Bellsprout
        | SpeciesDiscriminant::Weepinbell
        | SpeciesDiscriminant::Victreebel
        | SpeciesDiscriminant::Tentacool
        | SpeciesDiscriminant::Tentacruel
        | SpeciesDiscriminant::Geodude
        | SpeciesDiscriminant::Graveler
        | SpeciesDiscriminant::Golem
        | SpeciesDiscriminant::Ponyta
        | SpeciesDiscriminant::Rapidash
        | SpeciesDiscriminant::Slowpoke
        | SpeciesDiscriminant::Slowbro
        | SpeciesDiscriminant::Magnemite
        | SpeciesDiscriminant::Magneton
        | SpeciesDiscriminant::Farfetchd
        | SpeciesDiscriminant::Doduo
        | SpeciesDiscriminant::Dodrio
        | SpeciesDiscriminant::Seel
        | SpeciesDiscriminant::Dewgong
        | SpeciesDiscriminant::Grimer
        | SpeciesDiscriminant::Muk
        | SpeciesDiscriminant::Shellder
        | SpeciesDiscriminant::Cloyster
        | SpeciesDiscriminant::Gastly
        | SpeciesDiscriminant::Haunter
        | SpeciesDiscriminant::Gengar
        | SpeciesDiscriminant::Onix
        | SpeciesDiscriminant::Drowzee
        | SpeciesDiscriminant::Hypno
        | SpeciesDiscriminant::Krabby
        | SpeciesDiscriminant::Kingler
        | SpeciesDiscriminant::Voltorb
        | SpeciesDiscriminant::Electrode
        | SpeciesDiscriminant::Exeggcute
        | SpeciesDiscriminant::Exeggutor
        | SpeciesDiscriminant::Cubone
        | SpeciesDiscriminant::Marowak
        | SpeciesDiscriminant::Hitmonlee
        | SpeciesDiscriminant::Hitmonchan
        | SpeciesDiscriminant::Lickitung
        | SpeciesDiscriminant::Koffing
        | SpeciesDiscriminant::Weezing
        | SpeciesDiscriminant::Rhyhorn
        | SpeciesDiscriminant::Rhydon
        | SpeciesDiscriminant::Chansey
        | SpeciesDiscriminant::Tangela
        | SpeciesDiscriminant::Kangaskhan
        | SpeciesDiscriminant::Horsea
        | SpeciesDiscriminant::Seadra
        | SpeciesDiscriminant::Goldeen
        | SpeciesDiscriminant::Seaking
        | SpeciesDiscriminant::Staryu
        | SpeciesDiscriminant::Starmie
        | SpeciesDiscriminant::MrMime
        | SpeciesDiscriminant::Scyther
        | SpeciesDiscriminant::Jynx
        | SpeciesDiscriminant::Electabuzz
        | SpeciesDiscriminant::Magmar
        | SpeciesDiscriminant::Pinsir
        | SpeciesDiscriminant::Tauros
        | SpeciesDiscriminant::Magikarp
        | SpeciesDiscriminant::Gyarados
        | SpeciesDiscriminant::Lapras
        | SpeciesDiscriminant::Ditto
        | SpeciesDiscriminant::Eevee
        | SpeciesDiscriminant::Vaporeon
        | SpeciesDiscriminant::Jolteon
        | SpeciesDiscriminant::Flareon
        | SpeciesDiscriminant::Porygon
        | SpeciesDiscriminant::Omanyte
        | SpeciesDiscriminant::Omastar
        | SpeciesDiscriminant::Kabuto
        | SpeciesDiscriminant::Kabutops
        | SpeciesDiscriminant::Aerodactyl
        | SpeciesDiscriminant::Snorlax
        | SpeciesDiscriminant::Articuno
        | SpeciesDiscriminant::Zapdos
        | SpeciesDiscriminant::Moltres
        | SpeciesDiscriminant::Dratini
        | SpeciesDiscriminant::Dragonair
        | SpeciesDiscriminant::Dragonite
        | SpeciesDiscriminant::Mewtwo
        | SpeciesDiscriminant::Mew
        | SpeciesDiscriminant::Chikorita
        | SpeciesDiscriminant::Bayleef
        | SpeciesDiscriminant::Meganium
        | SpeciesDiscriminant::Cyndaquil
        | SpeciesDiscriminant::Quilava
        | SpeciesDiscriminant::Typhlosion
        | SpeciesDiscriminant::Totodile
        | SpeciesDiscriminant::Croconaw
        | SpeciesDiscriminant::Feraligatr
        | SpeciesDiscriminant::Sentret
        | SpeciesDiscriminant::Furret
        | SpeciesDiscriminant::Hoothoot
        | SpeciesDiscriminant::Noctowl
        | SpeciesDiscriminant::Ledyba
        | SpeciesDiscriminant::Ledian
        | SpeciesDiscriminant::Spinarak
        | SpeciesDiscriminant::Ariados
        | SpeciesDiscriminant::Crobat
        | SpeciesDiscriminant::Chinchou
        | SpeciesDiscriminant::Lanturn
        | SpeciesDiscriminant::Pichu
        | SpeciesDiscriminant::Cleffa
        | SpeciesDiscriminant::Igglybuff
        | SpeciesDiscriminant::Togepi
        | SpeciesDiscriminant::Togetic
        | SpeciesDiscriminant::Natu
        | SpeciesDiscriminant::Xatu
        | SpeciesDiscriminant::Mareep
        | SpeciesDiscriminant::Flaaffy
        | SpeciesDiscriminant::Ampharos
        | SpeciesDiscriminant::Bellossom
        | SpeciesDiscriminant::Marill
        | SpeciesDiscriminant::Azumarill
        | SpeciesDiscriminant::Sudowoodo
        | SpeciesDiscriminant::Politoed
        | SpeciesDiscriminant::Hoppip
        | SpeciesDiscriminant::Skiploom
        | SpeciesDiscriminant::Jumpluff
        | SpeciesDiscriminant::Aipom
        | SpeciesDiscriminant::Sunkern
        | SpeciesDiscriminant::Sunflora
        | SpeciesDiscriminant::Yanma
        | SpeciesDiscriminant::Wooper
        | SpeciesDiscriminant::Quagsire
        | SpeciesDiscriminant::Espeon
        | SpeciesDiscriminant::Umbreon
        | SpeciesDiscriminant::Murkrow
        | SpeciesDiscriminant::Slowking
        | SpeciesDiscriminant::Misdreavus
        | SpeciesDiscriminant::Unown
        | SpeciesDiscriminant::Wobbuffet
        | SpeciesDiscriminant::Girafarig
        | SpeciesDiscriminant::Pineco
        | SpeciesDiscriminant::Forretress
        | SpeciesDiscriminant::Dunsparce
        | SpeciesDiscriminant::Gligar
        | SpeciesDiscriminant::Steelix
        | SpeciesDiscriminant::Snubbull
        | SpeciesDiscriminant::Granbull
        | SpeciesDiscriminant::Qwilfish
        | SpeciesDiscriminant::Scizor
        | SpeciesDiscriminant::Shuckle
        | SpeciesDiscriminant::Heracross
        | SpeciesDiscriminant::Sneasel
        | SpeciesDiscriminant::Teddiursa
        | SpeciesDiscriminant::Ursaring
        | SpeciesDiscriminant::Slugma
        | SpeciesDiscriminant::Magcargo
        | SpeciesDiscriminant::Swinub
        | SpeciesDiscriminant::Piloswine
        | SpeciesDiscriminant::Corsola
        | SpeciesDiscriminant::Remoraid
        | SpeciesDiscriminant::Octillery
        | SpeciesDiscriminant::Delibird
        | SpeciesDiscriminant::Mantine
        | SpeciesDiscriminant::Skarmory
        | SpeciesDiscriminant::Houndour
        | SpeciesDiscriminant::Houndoom
        | SpeciesDiscriminant::Kingdra
        | SpeciesDiscriminant::Phanpy
        | SpeciesDiscriminant::Donphan
        | SpeciesDiscriminant::Porygon2
        | SpeciesDiscriminant::Stantler
        | SpeciesDiscriminant::Smeargle
        | SpeciesDiscriminant::Tyrogue
        | SpeciesDiscriminant::Hitmontop
        | SpeciesDiscriminant::Smoochum
        | SpeciesDiscriminant::Elekid
        | SpeciesDiscriminant::Magby
        | SpeciesDiscriminant::Miltank
        | SpeciesDiscriminant::Blissey
        | SpeciesDiscriminant::Raikou
        | SpeciesDiscriminant::Entei
        | SpeciesDiscriminant::Suicune
        | SpeciesDiscriminant::Larvitar
        | SpeciesDiscriminant::Pupitar
        | SpeciesDiscriminant::Tyranitar
        | SpeciesDiscriminant::Lugia
        | SpeciesDiscriminant::HoOh
        | SpeciesDiscriminant::Celebi
        | SpeciesDiscriminant::Treecko
        | SpeciesDiscriminant::Grovyle
        | SpeciesDiscriminant::Sceptile
        | SpeciesDiscriminant::Torchic
        | SpeciesDiscriminant::Combusken
        | SpeciesDiscriminant::Blaziken
        | SpeciesDiscriminant::Mudkip
        | SpeciesDiscriminant::Marshtomp
        | SpeciesDiscriminant::Swampert
        | SpeciesDiscriminant::Poochyena
        | SpeciesDiscriminant::Mightyena
        | SpeciesDiscriminant::Zigzagoon
        | SpeciesDiscriminant::Linoone
        | SpeciesDiscriminant::Wurmple
        | SpeciesDiscriminant::Silcoon
        | SpeciesDiscriminant::Beautifly
        | SpeciesDiscriminant::Cascoon
        | SpeciesDiscriminant::Dustox
        | SpeciesDiscriminant::Lotad
        | SpeciesDiscriminant::Lombre
        | SpeciesDiscriminant::Ludicolo
        | SpeciesDiscriminant::Seedot
        | SpeciesDiscriminant::Nuzleaf
        | SpeciesDiscriminant::Shiftry
        | SpeciesDiscriminant::Taillow
        | SpeciesDiscriminant::Swellow
        | SpeciesDiscriminant::Wingull
        | SpeciesDiscriminant::Pelipper
        | SpeciesDiscriminant::Ralts
        | SpeciesDiscriminant::Kirlia
        | SpeciesDiscriminant::Gardevoir
        | SpeciesDiscriminant::Surskit
        | SpeciesDiscriminant::Masquerain
        | SpeciesDiscriminant::Shroomish
        | SpeciesDiscriminant::Breloom
        | SpeciesDiscriminant::Slakoth
        | SpeciesDiscriminant::Vigoroth
        | SpeciesDiscriminant::Slaking
        | SpeciesDiscriminant::Nincada
        | SpeciesDiscriminant::Ninjask
        | SpeciesDiscriminant::Shedinja
        | SpeciesDiscriminant::Whismur
        | SpeciesDiscriminant::Loudred
        | SpeciesDiscriminant::Exploud
        | SpeciesDiscriminant::Makuhita
        | SpeciesDiscriminant::Hariyama
        | SpeciesDiscriminant::Azurill
        | SpeciesDiscriminant::Nosepass
        | SpeciesDiscriminant::Skitty
        | SpeciesDiscriminant::Delcatty
        | SpeciesDiscriminant::Sableye
        | SpeciesDiscriminant::Mawile
        | SpeciesDiscriminant::Aron
        | SpeciesDiscriminant::Lairon
        | SpeciesDiscriminant::Aggron
        | SpeciesDiscriminant::Meditite
        | SpeciesDiscriminant::Medicham
        | SpeciesDiscriminant::Electrike
        | SpeciesDiscriminant::Manectric
        | SpeciesDiscriminant::Plusle
        | SpeciesDiscriminant::Minun
        | SpeciesDiscriminant::Volbeat
        | SpeciesDiscriminant::Illumise
        | SpeciesDiscriminant::Roselia
        | SpeciesDiscriminant::Gulpin
        | SpeciesDiscriminant::Swalot
        | SpeciesDiscriminant::Carvanha
        | SpeciesDiscriminant::Sharpedo
        | SpeciesDiscriminant::Wailmer
        | SpeciesDiscriminant::Wailord
        | SpeciesDiscriminant::Numel
        | SpeciesDiscriminant::Camerupt
        | SpeciesDiscriminant::Torkoal
        | SpeciesDiscriminant::Spoink
        | SpeciesDiscriminant::Grumpig
        | SpeciesDiscriminant::Spinda
        | SpeciesDiscriminant::Trapinch
        | SpeciesDiscriminant::Vibrava
        | SpeciesDiscriminant::Flygon
        | SpeciesDiscriminant::Cacnea
        | SpeciesDiscriminant::Cacturne
        | SpeciesDiscriminant::Swablu
        | SpeciesDiscriminant::Altaria
        | SpeciesDiscriminant::Zangoose
        | SpeciesDiscriminant::Seviper
        | SpeciesDiscriminant::Lunatone
        | SpeciesDiscriminant::Solrock
        | SpeciesDiscriminant::Barboach
        | SpeciesDiscriminant::Whiscash
        | SpeciesDiscriminant::Corphish
        | SpeciesDiscriminant::Crawdaunt
        | SpeciesDiscriminant::Baltoy
        | SpeciesDiscriminant::Claydol
        | SpeciesDiscriminant::Lileep
        | SpeciesDiscriminant::Cradily
        | SpeciesDiscriminant::Anorith
        | SpeciesDiscriminant::Armaldo
        | SpeciesDiscriminant::Feebas
        | SpeciesDiscriminant::Milotic
        | SpeciesDiscriminant::Castform
        | SpeciesDiscriminant::Kecleon
        | SpeciesDiscriminant::Shuppet
        | SpeciesDiscriminant::Banette
        | SpeciesDiscriminant::Duskull
        | SpeciesDiscriminant::Dusclops
        | SpeciesDiscriminant::Tropius
        | SpeciesDiscriminant::Chimecho
        | SpeciesDiscriminant::Absol
        | SpeciesDiscriminant::Wynaut
        | SpeciesDiscriminant::Snorunt
        | SpeciesDiscriminant::Glalie
        | SpeciesDiscriminant::Spheal
        | SpeciesDiscriminant::Sealeo
        | SpeciesDiscriminant::Walrein
        | SpeciesDiscriminant::Clamperl
        | SpeciesDiscriminant::Huntail
        | SpeciesDiscriminant::Gorebyss
        | SpeciesDiscriminant::Relicanth
        | SpeciesDiscriminant::Luvdisc
        | SpeciesDiscriminant::Bagon
        | SpeciesDiscriminant::Shelgon
        | SpeciesDiscriminant::Salamence
        | SpeciesDiscriminant::Beldum
        | SpeciesDiscriminant::Metang
        | SpeciesDiscriminant::Metagross
        | SpeciesDiscriminant::Regirock
        | SpeciesDiscriminant::Regice
        | SpeciesDiscriminant::Registeel
        | SpeciesDiscriminant::Latias
        | SpeciesDiscriminant::Latios
        | SpeciesDiscriminant::Kyogre
        | SpeciesDiscriminant::Groudon
        | SpeciesDiscriminant::Rayquaza
        | SpeciesDiscriminant::Jirachi
        | SpeciesDiscriminant::Deoxys
        => display_name_early(k),
        _ => display_name_late(k),
    }
}

/// The in-game name of a species, for a species of the first three generations.
pub open spec fn display_name_early(k: SpeciesDiscriminant) -> Seq<char> {
    match k {
        SpeciesDiscriminant::Bulbasaur => "Bulbasaur"@,
        SpeciesDiscriminant::Ivysaur => "Ivysaur"@,
        SpeciesDiscriminant::Venusaur => "Venusaur"@,
        SpeciesDiscriminant::Charmander => "Charmander"@,
        SpeciesDiscriminant::Charmeleon => "Charmeleon"@,
        SpeciesDiscriminant::Charizard => "Charizard"@,
        SpeciesDiscriminant::Squirtle => "Squirtle"@,
        SpeciesDiscriminant::Wartortle => "Wartortle"@,
        SpeciesDiscriminant::Blastoise => "Blastoise"@,
        SpeciesDiscriminant::Caterpie => "Caterpie"@,
        SpeciesDiscriminant::Metapod => "Metapod"@,
        SpeciesDiscriminant::Butterfree => "Butterfree"@,
        SpeciesDiscriminant::Weedle => "Weedle"@,
        SpeciesDiscriminant::Kakuna => "Kakuna"@,
        SpeciesDiscriminant::Beedrill => "Beedrill"@,
        SpeciesDiscriminant::Pidgey => "Pidgey"@,
        SpeciesDiscriminant::Pidgeotto => "Pidgeotto"@,
        SpeciesDiscriminant::Pidgeot => "Pidgeot"@,
        SpeciesDiscriminant::Rattata => "Rattata"@,
        SpeciesDiscriminant::Raticate => "Raticate"@,
        SpeciesDiscriminant::Spearow => "Spearow"@,
        SpeciesDiscriminant::Fearow => "Fearow"@,
        SpeciesDiscriminant::Ekans => "Ekans"@,
        SpeciesDiscriminant::Arbok => "Arbok"@,
        SpeciesDiscriminant::Pikachu => "Pikachu"@,
        SpeciesDiscriminant::Raichu => "Raichu"@,
        SpeciesDiscriminant::Sandshrew => "Sandshrew"@,
        SpeciesDiscriminant::Sandslash => "Sandslash"@,
        SpeciesDiscriminant::NidoranF => "Nidoran♀"@,
        SpeciesDiscriminant::Nidorina => "Nidorina"@,
        SpeciesDiscriminant::Nidoqueen => "Nidoqueen"@,
        SpeciesDiscriminant::NidoranM => "Nidoran♂"@,
        SpeciesDiscriminant::Nidorino => "Nidorino"@,
        SpeciesDiscriminant::Nidoking => "Nidoking"@,
        SpeciesDiscriminant::Clefairy => "Clefairy"@,
        SpeciesDiscriminant::Clefable => "Clefable"@,
        SpeciesDiscriminant::Vulpix => "Vulpix"@,
        SpeciesDiscriminant::Ninetales => "Ninetales"@,
        SpeciesDiscriminant::Jigglypuff => "Jigglypuff"@,
        SpeciesDiscriminant::Wigglytuff => "Wigglytuff"@,
        SpeciesDiscriminant::Zubat => "Zubat"@,
        SpeciesDiscriminant::Golbat => "Golbat"@,
        SpeciesDiscriminant::Oddish => "Oddish"@,
        SpeciesDiscriminant::Gloom => "Gloom"@,
        SpeciesDiscriminant::Vileplume => "Vileplume"@,
        SpeciesDiscriminant::Paras => "Paras"@,
        SpeciesDiscriminant::Parasect => "Parasect"@,
        SpeciesDiscriminant::Venonat => "Venonat"@,
        SpeciesDiscriminant::Venomoth => "Venomoth"@,
        SpeciesDiscriminant::Diglett => "Diglett"@,
        SpeciesDiscriminant::Dugtrio => "Dugtrio"@,
        SpeciesDiscriminant::Meowth => "Meowth"@,
        SpeciesDiscriminant::Persian => "Persian"@,
        SpeciesDiscriminant::Psyduck => "Psyduck"@,
        SpeciesDiscriminant::Golduck => "Golduck"@,
        SpeciesDiscriminant::Mankey => "Mankey"@,
        SpeciesDiscriminant::Primeape => "Primeape"@,
        SpeciesDiscriminant::Growlithe => "Growlithe"@,
        SpeciesDiscriminant::Arcanine => "Arcanine"@,
        SpeciesDiscriminant::Poliwag => "Poliwag"@,
        SpeciesDiscriminant::Poliwhirl => "Poliwhirl"@,
        SpeciesDiscriminant::Poliwrath => "Poliwrath"@,
        SpeciesDiscriminant::Abra => "Abra"@,
        SpeciesDiscriminant::Kadabra => "Kadabra"@,
        SpeciesDiscriminant::Alakazam => "Alakazam"@,
        SpeciesDiscriminant::Machop => "Machop"@,
        SpeciesDiscriminant::Machoke => "Machoke"@,
        SpeciesDiscriminant::Machamp => "Machamp"@,
        SpeciesDiscriminant::Bellsprout => "Bellsprout"@,
        SpeciesDiscriminant::Weepinbell => "Weepinbell"@,
        SpeciesDiscriminant::Victreebel => "Victreebel"@,
        SpeciesDiscriminant::Tentacool => "Tentacool"@,
        SpeciesDiscriminant::Tentacruel => "Tentacruel"@,
        SpeciesDiscriminant::Geodude => "Geodude"@,
        SpeciesDiscriminant::Graveler => "Graveler"@,
        SpeciesDiscriminant::Golem => "Golem"@,
        SpeciesDiscriminant::Ponyta => "Ponyta"@,
        SpeciesDiscriminant::Rapidash => "Rapidash"@,
        SpeciesDiscriminant::Slowpoke => "Slowpoke"@,
        SpeciesDiscriminant::Slowbro => "Slowbro"@,
        SpeciesDiscriminant::Magnemite => "Magnemite"@,
        SpeciesDiscriminant::Magneton => "Magneton"@,
        SpeciesDiscriminant::Farfetchd => "Farfetch'd"@,
        SpeciesDiscriminant::Doduo => "Doduo"@,
        SpeciesDiscriminant::Dodrio => "Dodrio"@,
        SpeciesDiscriminant::Seel => "Seel"@,
        SpeciesDiscriminant::Dewgong => "Dewgong"@,
        SpeciesDiscriminant::Grimer => "Grimer"@,
        SpeciesDiscriminant::Muk => "Muk"@,
        SpeciesDiscriminant::Shellder => "Shellder"@,
        SpeciesDiscriminant::Cloyster => "Cloyster"@,
        SpeciesDiscriminant::Gastly => "Gastly"@,
        SpeciesDiscriminant::Haunter => "Haunter"@,
        SpeciesDiscriminant::Gengar => "Gengar"@,
        SpeciesDiscriminant::Onix => "Onix"@,
        SpeciesDiscriminant::Drowzee => "Drowzee"@,
        SpeciesDiscriminant::Hypno => "Hypno"@,
        SpeciesDiscriminant::Krabby => "Krabby"@,
        SpeciesDiscriminant::Kingler => "Kingler"@,
        SpeciesDiscriminant::Voltorb => "Voltorb"@,
        SpeciesDiscriminant::Electrode => "Electrode"@,
        SpeciesDiscriminant::Exeggcute => "Exeggcute"@,
        SpeciesDiscriminant::Exeggutor => "Exeggutor"@,
        SpeciesDiscriminant::Cubone => "Cubone"@,
        SpeciesDiscriminant::Marowak => "Marowak"@,
        SpeciesDiscriminant::Hitmonlee => "Hitmonlee"@,
        SpeciesDiscriminant::Hitmonchan => "Hitmonchan"@,
        SpeciesDiscriminant::Lickitung => "Lickitung"@,
        SpeciesDiscriminant::Koffing => "Koffing"@,
        SpeciesDiscriminant::Weezing => "Weezing"@,
        SpeciesDiscriminant::Rhyhorn => "Rhyhorn"@,
        SpeciesDiscriminant::Rhydon => "Rhydon"@,
        SpeciesDiscriminant::Chansey => "Chansey"@,
        SpeciesDiscriminant::Tangela => "Tangela"@,
        SpeciesDiscriminant::Kangaskhan => "Kangaskhan"@,
        SpeciesDiscriminant::Horsea => "Horsea"@,
        SpeciesDiscriminant::Seadra => "Seadra"@,
        SpeciesDiscriminant::Goldeen => "Goldeen"@,
        SpeciesDiscriminant::Seaking => "Seaking"@,
        SpeciesDiscriminant::Staryu => "Staryu"@,
        SpeciesDiscriminant::Starmie => "Starmie"@,
        SpeciesDiscriminant::MrMime => "Mr. Mime"@,
        SpeciesDiscriminant::Scyther => "Scyther"@,
        SpeciesDiscriminant::Jynx => "Jynx"@,
        SpeciesDiscriminant::Electabuzz => "Electabuzz"@,
        SpeciesDiscriminant::Magmar => "Magmar"@,
        SpeciesDiscriminant::Pinsir => "Pinsir"@,
        SpeciesDiscriminant::Tauros => "Tauros"@,
        SpeciesDiscriminant::Magikarp => "Magikarp"@,
        SpeciesDiscriminant::Gyarados => "Gyarados"@,
        SpeciesDiscriminant::Lapras => "Lapras"@,
        SpeciesDiscriminant::Ditto => "Ditto"@,
        SpeciesDiscriminant::Eevee => "Eevee"@,
        SpeciesDiscriminant::Vaporeon => "Vaporeon"@,
        SpeciesDiscriminant::Jolteon => "Jolteon"@,
        SpeciesDiscriminant::Flareon => "Flareon"@,
        SpeciesDiscriminant::Porygon => "Porygon"@,
        SpeciesDiscriminant::Omanyte => "Omanyte"@,
        SpeciesDiscriminant::Omastar => "Omastar"@,
        SpeciesDiscriminant::Kabuto => "Kabuto"@,
        SpeciesDiscriminant::Kabutops => "Kabutops"@,
        SpeciesDiscriminant::Aerodactyl => "Aerodactyl"@,
        SpeciesDiscriminant::Snorlax => "Snorlax"@,
        SpeciesDiscriminant::Articuno => "Articuno"@,
        SpeciesDiscriminant::Zapdos => "Zapdos"@,
        SpeciesDiscriminant::Moltres => "Moltres"@,
        SpeciesDiscriminant::Dratini => "Dratini"@,
        SpeciesDiscriminant::Dragonair => "Dragonair"@,
        SpeciesDiscriminant::Dragonite => "Dragonite"@,
        SpeciesDiscriminant::Mewtwo => "Mewtwo"@,
        SpeciesDiscriminant::Mew => "Mew"@,
        SpeciesDiscriminant::Chikorita => "Chikorita"@,
        SpeciesDiscriminant::Bayleef => "Bayleef"@,
        SpeciesDiscriminant::Meganium => "Meganium"@,
        SpeciesDiscriminant::Cyndaquil => "Cyndaquil"@,
        SpeciesDiscriminant::Quilava => "Quilava"@,
        SpeciesDiscriminant::Typhlosion => "Typhlosion"@,
        SpeciesDiscriminant::Totodile => "Totodile"@,
        SpeciesDiscriminant::Croconaw => "Croconaw"@,
        SpeciesDiscriminant::Feraligatr => "Feraligatr"@,
        SpeciesDiscriminant::Sentret => "Sentret"@,
        SpeciesDiscriminant::Furret => "Furret"@,
        SpeciesDiscriminant::Hoothoot => "Hoothoot"@,
        SpeciesDiscriminant::Noctowl => "Noctowl"@,
        SpeciesDiscriminant::Ledyba => "Ledyba"@,
        SpeciesDiscriminant::Ledian => "Ledian"@,
        SpeciesDiscriminant::Spinarak => "Spinarak"@,
        SpeciesDiscriminant::Ariados => "Ariados"@,
        SpeciesDiscriminant::Crobat => "Crobat"@,
        SpeciesDiscriminant::Chinchou => "Chinchou"@,
        SpeciesDiscriminant::Lanturn => "Lanturn"@,
        SpeciesDiscriminant::Pichu => "Pichu"@,
        SpeciesDiscriminant::Cleffa => "Cleffa"@,
        SpeciesDiscriminant::Igglybuff => "Igglybuff"@,
        SpeciesDiscriminant::Togepi => "Togepi"@,
        SpeciesDiscriminant::Togetic => "Togetic"@,
        SpeciesDiscriminant::Natu => "Natu"@,
        SpeciesDiscriminant::Xatu => "Xatu"@,
        SpeciesDiscriminant::Mareep => "Mareep"@,
        SpeciesDiscriminant::Flaaffy => "Flaaffy"@,
        SpeciesDiscriminant::Ampharos => "Ampharos"@,
        SpeciesDiscriminant::Bellossom => "Bellossom"@,
        SpeciesDiscriminant::Marill => "Marill"@,
        SpeciesDiscriminant::Azumarill => "Azumarill"@,
        SpeciesDiscriminant::Sudowoodo => "Sudowoodo"@,
        SpeciesDiscriminant::Politoed => "Politoed"@,
        SpeciesDiscriminant::Hoppip => "Hoppip"@,
        SpeciesDiscriminant::Skiploom => "Skiploom"@,
        SpeciesDiscriminant::Jumpluff => "Jumpluff"@,
        SpeciesDiscriminant::Aipom => "Aipom"@,
        SpeciesDiscriminant::Sunkern => "Sunkern"@,
        SpeciesDiscriminant::Sunflora => "Sunflora"@,
        SpeciesDiscriminant::Yanma => "Yanma"@,
        SpeciesDiscriminant::Wooper => "Wooper"@,
        SpeciesDiscriminant::Quagsire => "Quagsire"@,
        SpeciesDiscriminant::Espeon => "Espeon"@,
        SpeciesDiscriminant::Umbreon => "Umbreon"@,
        SpeciesDiscriminant::Murkrow => "Murkrow"@,
        SpeciesDiscriminant::Slowking => "Slowking"@,
        SpeciesDiscriminant::Misdreavus => "Misdreavus"@,
        SpeciesDiscriminant::Unown => "Unown"@,
        SpeciesDiscriminant::Wobbuffet => "Wobbuffet"@,
        SpeciesDiscriminant::Girafarig => "Girafarig"@,
        SpeciesDiscriminant::Pineco => "Pineco"@,
        SpeciesDiscriminant::Forretress => "Forretress"@,
        SpeciesDiscriminant::Dunsparce => "Dunsparce"@,
        SpeciesDiscriminant::Gligar => "Gligar"@,
        SpeciesDiscriminant::Steelix => "Steelix"@,
        SpeciesDiscriminant::Snubbull => "Snubbull"@,
        SpeciesDiscriminant::Granbull => "Granbull"@,
        SpeciesDiscriminant::Qwilfish => "Qwilfish"@,
        SpeciesDiscriminant::Scizor => "Scizor"@,
        SpeciesDiscriminant::Shuckle => "Shuckle"@,
        SpeciesDiscriminant::Heracross => "Heracross"@,
        SpeciesDiscriminant::Sneasel => "Sneasel"@,
        SpeciesDiscriminant::Teddiursa => "Teddiursa"@,
        SpeciesDiscriminant::Ursaring => "Ursaring"@,
        SpeciesDiscriminant::Slugma => "Slugma"@,
        SpeciesDiscriminant::Magcargo => "Magcargo"@,
        SpeciesDiscriminant::Swinub => "Swinub"@,
        SpeciesDiscriminant::Piloswine => "Piloswine"@,
        SpeciesDiscriminant::Corsola => "Corsola"@,
        SpeciesDiscriminant::Remoraid => "Remoraid"@,
        SpeciesDiscriminant::Octillery => "Octillery"@,
        SpeciesDiscriminant::Delibird => "Delibird"@,
        SpeciesDiscriminant::Mantine => "Mantine"@,
        SpeciesDiscriminant::Skarmory => "Skarmory"@,
        SpeciesDiscriminant::Houndour => "Houndour"@,
        SpeciesDiscriminant::Houndoom => "Houndoom"@,
        SpeciesDiscriminant::Kingdra => "Kingdra"@,
        SpeciesDiscriminant::Phanpy => "Phanpy"@,
        SpeciesDiscriminant::Donphan => "Donphan"@,
        SpeciesDiscriminant::Porygon2 => "Porygon2"@,
        SpeciesDiscriminant::Stantler => "Stantler"@,
        SpeciesDiscriminant::Smeargle => "Smeargle"@,
        SpeciesDiscriminant::Tyrogue => "Tyrogue"@,
        SpeciesDiscriminant::Hitmontop => "Hitmontop"@,
        SpeciesDiscriminant::Smoochum => "Smoochum"@,
        SpeciesDiscriminant::Elekid => "Elekid"@,
        SpeciesDiscriminant::Magby => "Magby"@,
        SpeciesDiscriminant::Miltank => "Miltank"@,
        SpeciesDiscriminant::Blissey => "Blissey"@,
        SpeciesDiscriminant::Raikou => "Raikou"@,
        SpeciesDiscriminant::Entei => "Entei"@,
        SpeciesDiscriminant::Suicune => "Suicune"@,
        SpeciesDiscriminant::Larvitar => "Larvitar"@,
        SpeciesDiscriminant::Pupitar => "Pupitar"@,
        SpeciesDiscriminant::Tyranitar => "Tyranitar"@,
        SpeciesDiscriminant::Lugia => "Lugia"@,
        SpeciesDiscriminant::HoOh => "Ho-Oh"@,
        SpeciesDiscriminant::Celebi => "Celebi"@,
        SpeciesDiscriminant::Treecko => "Treecko"@,
        SpeciesDiscriminant::Grovyle => "Grovyle"@,
        SpeciesDiscriminant::Sceptile => "Sceptile"@,
        SpeciesDiscriminant::Torchic => "Torchic"@,
        SpeciesDiscriminant::Combusken => "Combusken"@,
        SpeciesDiscriminant::Blaziken => "Blaziken"@,
        SpeciesDiscriminant::Mudkip => "Mudkip"@,
        SpeciesDiscriminant::Marshtomp => "Marshtomp"@,
        SpeciesDiscriminant::Swampert => "Swampert"@,
        SpeciesDiscriminant::Poochyena => "Poochyena"@,
        SpeciesDiscriminant::Mightyena => "Mightyena"@,
        SpeciesDiscriminant::Zigzagoon => "Zigzagoon"@,
        SpeciesDiscriminant::Linoone => "Linoone"@,
        SpeciesDiscriminant::Wurmple => "Wurmple"@,
        SpeciesDiscriminant::Silcoon => "Silcoon"@,
        SpeciesDiscriminant::Beautifly => "Beautifly"@,
        SpeciesDiscriminant::Cascoon => "Cascoon"@,
        SpeciesDiscriminant::Dustox => "Dustox"@,
        SpeciesDiscriminant::Lotad => "Lotad"@,
        SpeciesDiscriminant::Lombre => "Lombre"@,
        SpeciesDiscriminant::Ludicolo => "Ludicolo"@,
        SpeciesDiscriminant::Seedot => "Seedot"@,
        SpeciesDiscriminant::Nuzleaf => "Nuzleaf"@,
        SpeciesDiscriminant::Shiftry => "Shiftry"@,
        SpeciesDiscriminant::Taillow => "Taillow"@,
        SpeciesDiscriminant::Swellow => "Swellow"@,
        SpeciesDiscriminant::Wingull => "Wingull"@,
        SpeciesDiscriminant::Pelipper => "Pelipper"@,
        SpeciesDiscriminant::Ralts => "Ralts"@,
        SpeciesDiscriminant::Kirlia => "Kirlia"@,
        SpeciesDiscriminant::Gardevoir => "Gardevoir"@,
        SpeciesDiscriminant::Surskit => "Surskit"@,
        SpeciesDiscriminant::Masquerain => "Masquerain"@,
        SpeciesDiscriminant::Shroomish => "Shroomish"@,
        SpeciesDiscriminant::Breloom => "Breloom"@,
        SpeciesDiscriminant::Slakoth => "Slakoth"@,
        SpeciesDiscriminant::Vigoroth => "Vigoroth"@,
        SpeciesDiscriminant::Slaking => "Slaking"@,
        SpeciesDiscriminant::Nincada => "Nincada"@,
        SpeciesDiscriminant::Ninjask => "Ninjask"@,
        SpeciesDiscriminant::Shedinja => "Shedinja"@,
        SpeciesDiscriminant::Whismur => "Whismur"@,
        SpeciesDiscriminant::Loudred => "Loudred"@,
        SpeciesDiscriminant::Exploud => "Exploud"@,
        SpeciesDiscriminant::Makuhita => "Makuhita"@,
        SpeciesDiscriminant::Hariyama => "Hariyama"@,
        SpeciesDiscriminant::Azurill => "Azurill"@,
        SpeciesDiscriminant::Nosepass => "Nosepass"@,
        SpeciesDiscriminant::Skitty => "Skitty"@,
        SpeciesDiscriminant::Delcatty => "Delcatty"@,
        SpeciesDiscriminant::Sableye => "Sableye"@,
        SpeciesDiscriminant::Mawile => "Mawile"@,
        SpeciesDiscriminant::Aron => "Aron"@,
        SpeciesDiscriminant::Lairon => "Lairon"@,
        SpeciesDiscriminant::Aggron => "Aggron"@,
        SpeciesDiscriminant::Meditite => "Meditite"@,
        SpeciesDiscriminant::Medicham => "Medicham"@,
        SpeciesDiscriminant::Electrike => "Electrike"@,
        SpeciesDiscriminant::Manectric => "Manectric"@,
        SpeciesDiscriminant::Plusle => "Plusle"@,
        SpeciesDiscriminant::Minun => "Minun"@,
        SpeciesDiscriminant::Volbeat => "Volbeat"@,
        SpeciesDiscriminant::Illumise => "Illumise"@,
        SpeciesDiscriminant::Roselia => "Roselia"@,
        SpeciesDiscriminant::Gulpin => "Gulpin"@,
        SpeciesDiscriminant::Swalot => "Swalot"@,
        SpeciesDiscriminant::Carvanha => "Carvanha"@,
        SpeciesDiscriminant::Sharpedo => "Sharpedo"@,
        SpeciesDiscriminant::Wailmer => "Wailmer"@,
        SpeciesDiscriminant::Wailord => "Wailord"@,
        SpeciesDiscriminant::Numel => "Numel"@,
        SpeciesDiscriminant::Camerupt => "Camerupt"@,
        SpeciesDiscriminant::Torkoal => "Torkoal"@,
        SpeciesDiscriminant::Spoink => "Spoink"@,
        SpeciesDiscriminant::Grumpig => "Grumpig"@,
        SpeciesDiscriminant::Spinda => "Spinda"@,
        SpeciesDiscriminant::Trapinch => "Trapinch"@,
        SpeciesDiscriminant::Vibrava => "Vibrava"@,
        SpeciesDiscriminant::Flygon => "Flygon"@,
        SpeciesDiscriminant::Cacnea => "Cacnea"@,
        SpeciesDiscriminant::Cacturne => "Cacturne"@,
        SpeciesDiscriminant::Swablu => "Swablu"@,
        SpeciesDiscriminant::Altaria => "Altaria"@,
        SpeciesDiscriminant::Zangoose => "Zangoose"@,
        SpeciesDiscriminant::Seviper => "Seviper"@,
        SpeciesDiscriminant::Lunatone => "Lunatone"@,
        SpeciesDiscriminant::Solrock => "Solrock"@,
        SpeciesDiscriminant::Barboach => "Barboach"@,
        SpeciesDiscriminant::Whiscash => "Whiscash"@,
        SpeciesDiscriminant::Corphish => "Corphish"@,
        SpeciesDiscriminant::Crawdaunt => "Crawdaunt"@,
        SpeciesDiscriminant::Baltoy => "Baltoy"@,
        SpeciesDiscriminant::Claydol => "Claydol"@,
        SpeciesDiscriminant::Lileep => "Lileep"@,
        SpeciesDiscriminant::Cradily => "Cradily"@,
        SpeciesDiscriminant::Anorith => "Anorith"@,
        SpeciesDiscriminant::Armaldo => "Armaldo"@,
        SpeciesDiscriminant::Feebas => "Feebas"@,
        SpeciesDiscriminant::Milotic => "Milotic"@,
        SpeciesDiscriminant::Castform => "Castform"@,
        SpeciesDiscriminant::Kecleon => "Kecleon"@,
        SpeciesDiscriminant::Shuppet => "Shuppet"@,
        SpeciesDiscriminant::Banette => "Banette"@,
        SpeciesDiscriminant::Duskull => "Duskull"@,
        SpeciesDiscriminant::Dusclops => "Dusclops"@,
        SpeciesDiscriminant::Tropius => "Tropius"@,
        SpeciesDiscriminant::Chimecho => "Chimecho"@,
        SpeciesDiscriminant::Absol => "Absol"@,
        SpeciesDiscriminant::Wynaut => "Wynaut"@,
        SpeciesDiscriminant::Snorunt => "Snorunt"@,
        SpeciesDiscriminant::Glalie => "Glalie"@,
        SpeciesDiscriminant::Spheal => "Spheal"@,
        SpeciesDiscriminant::Sealeo => "Sealeo"@,
        SpeciesDiscriminant::Walrein => "Walrein"@,
        SpeciesDiscriminant::Clamperl => "Clamperl"@,
        SpeciesDiscriminant::Huntail => "Huntail"@,
        SpeciesDiscriminant::Gorebyss => "Gorebyss"@,
        SpeciesDiscriminant::Relicanth => "Relicanth"@,
        SpeciesDiscriminant::Luvdisc => "Luvdisc"@,
        SpeciesDiscriminant::Bagon => "Bagon"@,
        SpeciesDiscriminant::Shelgon => "Shelgon"@,
        SpeciesDiscriminant::Salamence => "Salamence"@,
        SpeciesDiscriminant::Beldum => "Beldum"@,
        SpeciesDiscriminant::Metang => "Metang"@,
        SpeciesDiscriminant::Metagross => "Metagross"@,
        SpeciesDiscriminant::Regirock => "Regirock"@,
        SpeciesDiscriminant::Regice => "Regice"@,
        SpeciesDiscriminant::Registeel => "Registeel"@,
        SpeciesDiscriminant::Latias => "Latias"@,
        SpeciesDiscriminant::Latios => "Latios"@,
        SpeciesDiscriminant::Kyogre => "Kyogre"@,
        SpeciesDiscriminant::Groudon => "Groudon"@,
        SpeciesDiscriminant::Rayquaza => "Rayquaza"@,
        SpeciesDiscriminant::Jirachi => "Jirachi"@,
        SpeciesDiscriminant::Deoxys => "Deoxys"@,
        _ => ""@,
    }
}

/// The in-game name of a species, for a species of the fourth generation on.
pub open spec fn display_name_late(k: SpeciesDiscriminant) -> Seq<char> {
    match k {
        SpeciesDiscriminant::Turtwig => "Turtwig"@,
        SpeciesDiscriminant::Grotle => "Grotle"@,
        SpeciesDiscriminant::Torterra => "Torterra"@,
        SpeciesDiscriminant::Chimchar => "Chimchar"@,
        SpeciesDiscriminant::Monferno => "Monferno"@,
        SpeciesDiscriminant::Infernape => "Infernape"@,
        SpeciesDiscriminant::Piplup => "Piplup"@,
        SpeciesDiscriminant::Prinplup => "Prinplup"@,
        SpeciesDiscriminant::Empoleon => "Empoleon"@,
        SpeciesDiscriminant::Starly => "Starly"@,
        SpeciesDiscriminant::Staravia => "Staravia"@,
        SpeciesDiscriminant::Staraptor => "Staraptor"@,
        SpeciesDiscriminant::Bidoof => "Bidoof"@,
        SpeciesDiscriminant::Bibarel => "Bibarel"@,
        SpeciesDiscriminant::Kricketot => "Kricketot"@,
        SpeciesDiscriminant::Kricketune => "Kricketune"@,
        SpeciesDiscriminant::Shinx => "Shinx"@,
        SpeciesDiscriminant::Luxio => "Luxio"@,
        SpeciesDiscriminant::Luxray => "Luxray"@,
        SpeciesDiscriminant::Budew => "Budew"@,
        SpeciesDiscriminant::Roserade => "Roserade"@,
        SpeciesDiscriminant::Cranidos => "Cranidos"@,
        SpeciesDiscriminant::Rampardos => "Rampardos"@,
        SpeciesDiscriminant::Shieldon => "Shieldon"@,
        SpeciesDiscriminant::Bastiodon => "Bastiodon"@,
        SpeciesDiscriminant::Burmy => "Burmy"@,
        SpeciesDiscriminant::Wormadam => "Wormadam"@,
        SpeciesDiscriminant::Mothim => "Mothim"@,
        SpeciesDiscriminant::Combee => "Combee"@,
        SpeciesDiscriminant::Vespiquen => "Vespiquen"@,
        SpeciesDiscriminant::Pachirisu => "Pachirisu"@,
        SpeciesDiscriminant::Buizel => "Buizel"@,
        SpeciesDiscriminant::Floatzel => "Floatzel"@,
        SpeciesDiscriminant::Cherubi => "Cherubi"@,
        SpeciesDiscriminant::Cherrim => "Cherrim"@,
        SpeciesDiscriminant::Shellos => "Shellos"@,
        SpeciesDiscriminant::Gastrodon => "Gastrodon"@,
        SpeciesDiscriminant::Ambipom => "Ambipom"@,
        SpeciesDiscriminant::Drifloon => "Drifloon"@,
        SpeciesDiscriminant::Drifblim => "Drifblim"@,
        SpeciesDiscriminant::Buneary => "Buneary"@,
        SpeciesDiscriminant::Lopunny => "Lopunny"@,
        SpeciesDiscriminant::Mismagius => "Mismagius"@,
        SpeciesDiscriminant::Honchkrow => "Honchkrow"@,
        SpeciesDiscriminant::Glameow => "Glameow"@,
        SpeciesDiscriminant::Purugly => "Purugly"@,
        SpeciesDiscriminant::Chingling => "Chingling"@,
        SpeciesDiscriminant::Stunky => "Stunky"@,
        SpeciesDiscriminant::Skuntank => "Skuntank"@,
        SpeciesDiscriminant::Bronzor => "Bronzor"@,
        SpeciesDiscriminant::Bronzong => "Bronzong"@,
        SpeciesDiscriminant::Bonsly => "Bonsly"@,
        SpeciesDiscriminant::MimeJr => "Mime Jr."@,
        SpeciesDiscriminant::Happiny => "Happiny"@,
        SpeciesDiscriminant::Chatot => "Chatot"@,
        SpeciesDiscriminant::Spiritomb => "Spiritomb"@,
        SpeciesDiscriminant::Gible => "Gible"@,
        SpeciesDiscriminant::Gabite => "Gabite"@,
        SpeciesDiscriminant::Garchomp => "Garchomp"@,
        SpeciesDiscriminant::Munchlax => "Munchlax"@,
        SpeciesDiscriminant::Riolu => "Riolu"@,
        SpeciesDiscriminant::Lucario => "Lucario"@,
        SpeciesDiscriminant::Hippopotas => "Hippopotas"@,
        SpeciesDiscriminant::Hippowdon => "Hippowdon"@,
        SpeciesDiscriminant::Skorupi => "Skorupi"@,
        SpeciesDiscriminant::Drapion => "Drapion"@,
        SpeciesDiscriminant::Croagunk => "Croagunk"@,
        SpeciesDiscriminant::Toxicroak => "Toxicroak"@,
        SpeciesDiscriminant::Carnivine => "Carnivine"@,
        SpeciesDiscriminant::Finneon => "Finneon"@,
        SpeciesDiscriminant::Lumineon => "Lumineon"@,
        SpeciesDiscriminant::Mantyke => "Mantyke"@,
        SpeciesDiscriminant::Snover => "Snover"@,
        SpeciesDiscriminant::Abomasnow => "Abomasnow"@,
        SpeciesDiscriminant::Weavile => "Weavile"@,
        SpeciesDiscriminant::Magnezone => "Magnezone"@,
        SpeciesDiscriminant::Lickilicky => "Lickilicky"@,
        SpeciesDiscriminant::Rhyperior => "Rhyperior"@,
        SpeciesDiscriminant::Tangrowth => "Tangrowth"@,
        SpeciesDiscriminant::Electivire => "Electivire"@,
        SpeciesDiscriminant::Magmortar => "Magmortar"@,
        SpeciesDiscriminant::Togekiss => "Togekiss"@,
        SpeciesDiscriminant::Yanmega => "Yanmega"@,
        SpeciesDiscriminant::Leafeon => "Leafeon"@,
        SpeciesDiscriminant::Glaceon => "Glaceon"@,
        SpeciesDiscriminant::Gliscor => "Gliscor"@,
        SpeciesDiscriminant::Mamoswine => "Mamoswine"@,
        SpeciesDiscriminant::PorygonZ => "Porygon-Z"@,
        SpeciesDiscriminant::Gallade => "Gallade"@,
        SpeciesDiscriminant::Probopass => "Probopass"@,
        SpeciesDiscriminant::Dusknoir => "Dusknoir"@,
        SpeciesDiscriminant::Froslass => "Froslass"@,
        SpeciesDiscriminant::Rotom => "Rotom"@,
        SpeciesDiscriminant::Uxie => "Uxie"@,
        SpeciesDiscriminant::Mesprit => "Mesprit"@,
        SpeciesDiscriminant::Azelf => "Azelf"@,
        SpeciesDiscriminant::Dialga => "Dialga"@,
        SpeciesDiscriminant::Palkia => "Palkia"@,
        SpeciesDiscriminant::Heatran => "Heatran"@,
        SpeciesDiscriminant::Regigigas => "Regigigas"@,
        SpeciesDiscriminant::Giratina => "Giratina"@,
        SpeciesDiscriminant::Cresselia => "Cresselia"@,
        SpeciesDiscriminant::Phione => "Phione"@,
        SpeciesDiscriminant::Manaphy => "Manaphy"@,
        SpeciesDiscriminant::Darkrai => "Darkrai"@,
        SpeciesDiscriminant::Shaymin => "Shaymin"@,
        SpeciesDiscriminant::Arceus => "Arceus"@,
        SpeciesDiscriminant::Victini => "Victini"@,
        SpeciesDiscriminant::Snivy => "Snivy"@,
        SpeciesDiscriminant::Servine => "Servine"@,
        SpeciesDiscriminant::Serperior => "Serperior"@,
        SpeciesDiscriminant::Tepig => "Tepig"@,
        SpeciesDiscriminant::Pignite => "Pignite"@,
        SpeciesDiscriminant::Emboar => "Emboar"@,
        SpeciesDiscriminant::Oshawott => "Oshawott"@,
        SpeciesDiscriminant::Dewott => "Dewott"@,
        SpeciesDiscriminant::Samurott => "Samurott"@,
        SpeciesDiscriminant::Patrat => "Patrat"@,
        SpeciesDiscriminant::Watchog => "Watchog"@,
        SpeciesDiscriminant::Lillipup => "Lillipup"@,
        SpeciesDiscriminant::Herdier => "Herdier"@,
        SpeciesDiscriminant::Stoutland => "Stoutland"@,
        SpeciesDiscriminant::Purrloin => "Purrloin"@,
        SpeciesDiscriminant::Liepard => "Liepard"@,
        SpeciesDiscriminant::Pansage => "Pansage"@,
        SpeciesDiscriminant::Simisage => "Simisage"@,
        SpeciesDiscriminant::Pansear => "Pansear"@,
        SpeciesDiscriminant::Simisear => "Simisear"@,
        SpeciesDiscriminant::Panpour => "Panpour"@,
        SpeciesDiscriminant::Simipour => "Simipour"@,
        SpeciesDiscriminant::Munna => "Munna"@,
        SpeciesDiscriminant::Musharna => "Musharna"@,
        SpeciesDiscriminant::Pidove => "Pidove"@,
        SpeciesDiscriminant::Tranquill => "Tranquill"@,
        SpeciesDiscriminant::Unfezant => "Unfezant"@,
        SpeciesDiscriminant::Blitzle => "Blitzle"@,
        SpeciesDiscriminant::Zebstrika => "Zebstrika"@,
        SpeciesDiscriminant::Roggenrola => "Roggenrola"@,
        SpeciesDiscriminant::Boldore => "Boldore"@,
        SpeciesDiscriminant::Gigalith => "Gigalith"@,
        SpeciesDiscriminant::Woobat => "Woobat"@,
        SpeciesDiscriminant::Swoobat => "Swoobat"@,
        SpeciesDiscriminant::Drilbur => "Drilbur"@,
        SpeciesDiscriminant::Excadrill => "Excadrill"@,
        SpeciesDiscriminant::Audino => "Audino"@,
        SpeciesDiscriminant::Timburr => "Timburr"@,
        SpeciesDiscriminant::Gurdurr => "Gurdurr"@,
        SpeciesDiscriminant::Conkeldurr => "Conkeldurr"@,
        SpeciesDiscriminant::Tympole => "Tympole"@,
        SpeciesDiscriminant::Palpitoad => "Palpitoad"@,
        SpeciesDiscriminant::Seismitoad => "Seismitoad"@,
        SpeciesDiscriminant::Throh => "Throh"@,
        SpeciesDiscriminant::Sawk => "Sawk"@,
        SpeciesDiscriminant::Sewaddle => "Sewaddle"@,
        SpeciesDiscriminant::Swadloon => "Swadloon"@,
        SpeciesDiscriminant::Leavanny => "Leavanny"@,
        SpeciesDiscriminant::Venipede => "Venipede"@,
        SpeciesDiscriminant::Whirlipede => "Whirlipede"@,
        SpeciesDiscriminant::Scolipede => "Scolipede"@,
        SpeciesDiscriminant::Cottonee => "Cottonee"@,
        SpeciesDiscriminant::Whimsicott => "Whimsicott"@,
        SpeciesDiscriminant::Petilil => "Petilil"@,
        SpeciesDiscriminant::Lilligant => "Lilligant"@,
        SpeciesDiscriminant::Basculin => "Basculin"@,
        SpeciesDiscriminant::Sandile => "Sandile"@,
        SpeciesDiscriminant::Krokorok => "Krokorok"@,
        SpeciesDiscriminant::Krookodile => "Krookodile"@,
        SpeciesDiscriminant::Darumaka => "Darumaka"@,
        SpeciesDiscriminant::Darmanitan => "Darmanitan"@,
        SpeciesDiscriminant::Maractus => "Maractus"@,
        SpeciesDiscriminant::Dwebble => "Dwebble"@,
        SpeciesDiscriminant::Crustle => "Crustle"@,
        SpeciesDiscriminant::Scraggy => "Scraggy"@,
        SpeciesDiscriminant::Scrafty => "Scrafty"@,
        SpeciesDiscriminant::Sigilyph => "Sigilyph"@,
        SpeciesDiscriminant::Yamask => "Yamask"@,
        SpeciesDiscriminant::Cofagrigus => "Cofagrigus"@,
        SpeciesDiscriminant::Tirtouga => "Tirtouga"@,
        SpeciesDiscriminant::Carracosta => "Carracosta"@,
        SpeciesDiscriminant::Archen => "Archen"@,
        SpeciesDiscriminant::Archeops => "Archeops"@,
        SpeciesDiscriminant::Trubbish => "Trubbish"@,
        SpeciesDiscriminant::Garbodor => "Garbodor"@,
        SpeciesDiscriminant::Zorua => "Zorua"@,
        SpeciesDiscriminant::Zoroark => "Zoroark"@,
        SpeciesDiscriminant::Minccino => "Minccino"@,
        SpeciesDiscriminant::Cinccino => "Cinccino"@,
        SpeciesDiscriminant::Gothita => "Gothita"@,
        SpeciesDiscriminant::Gothorita => "Gothorita"@,
        SpeciesDiscriminant::Gothitelle => "Gothitelle"@,
        SpeciesDiscriminant::Solosis => "Solosis"@,
        SpeciesDiscriminant::Duosion => "Duosion"@,
        SpeciesDiscriminant::Reuniclus => "Reuniclus"@,
        SpeciesDiscriminant::Ducklett => "Ducklett"@,
        SpeciesDiscriminant::Swanna => "Swanna"@,
        SpeciesDiscriminant::Vanillite => "Vanillite"@,
        SpeciesDiscriminant::Vanillish => "Vanillish"@,
        SpeciesDiscriminant::Vanilluxe => "Vanilluxe"@,
        SpeciesDiscriminant::Deerling => "Deerling"@,
        SpeciesDiscriminant::Sawsbuck => "Sawsbuck"@,
        SpeciesDiscriminant::Emolga => "Emolga"@,
        SpeciesDiscriminant::Karrablast => "Karrablast"@,
        SpeciesDiscriminant::Escavalier => "Escavalier"@,
        SpeciesDiscriminant::Foongus => "Foongus"@,
        SpeciesDiscriminant::Amoonguss => "Amoonguss"@,
        SpeciesDiscriminant::Frillish => "Frillish"@,
        SpeciesDiscriminant::Jellicent => "Jellicent"@,
        SpeciesDiscriminant::Alomomola => "Alomomola"@,
        SpeciesDiscriminant::Joltik => "Joltik"@,
        SpeciesDiscriminant::Galvantula => "Galvantula"@,
        SpeciesDiscriminant::Ferroseed => "Ferroseed"@,
        SpeciesDiscriminant::Ferrothorn => "Ferrothorn"@,
        SpeciesDiscriminant::Klink => "Klink"@,
        SpeciesDiscriminant::Klang => "Klang"@,
        SpeciesDiscriminant::Klinklang => "Klinklang"@,
        SpeciesDiscriminant::Tynamo => "Tynamo"@,
        SpeciesDiscriminant::Eelektrik => "Eelektrik"@,
        SpeciesDiscriminant::Eelektross => "Eelektross"@,
        SpeciesDiscriminant::Elgyem => "Elgyem"@,
        SpeciesDiscriminant::Beheeyem => "Beheeyem"@,
        SpeciesDiscriminant::Litwick => "Litwick"@,
        SpeciesDiscriminant::Lampent => "Lampent"@,
        SpeciesDiscriminant::Chandelure => "Chandelure"@,
        SpeciesDiscriminant::Axew => "Axew"@,
        SpeciesDiscriminant::Fraxure => "Fraxure"@,
        SpeciesDiscriminant::Haxorus => "Haxorus"@,
        SpeciesDiscriminant::Cubchoo => "Cubchoo"@,
        SpeciesDiscriminant::Beartic => "Beartic"@,
        SpeciesDiscriminant::Cryogonal => "Cryogonal"@,
        SpeciesDiscriminant::Shelmet => "Shelmet"@,
        SpeciesDiscriminant::Accelgor => "Accelgor"@,
        SpeciesDiscriminant::Stunfisk => "Stunfisk"@,
        SpeciesDiscriminant::Mienfoo => "Mienfoo"@,
        SpeciesDiscriminant::Mienshao => "Mienshao"@,
        SpeciesDiscriminant::Druddigon => "Druddigon"@,
        SpeciesDiscriminant::Golett => "Golett"@,
        SpeciesDiscriminant::Golurk => "Golurk"@,
        SpeciesDiscriminant::Pawniard => "Pawniard"@,
        SpeciesDiscriminant::Bisharp => "Bisharp"@,
        SpeciesDiscriminant::Bouffalant => "Bouffalant"@,
        SpeciesDiscriminant::Rufflet => "Rufflet"@,
        SpeciesDiscriminant::Braviary => "Braviary"@,
        SpeciesDiscriminant::Vullaby => "Vullaby"@,
        SpeciesDiscriminant::Mandibuzz => "Mandibuzz"@,
        SpeciesDiscriminant::Heatmor => "Heatmor"@,
        SpeciesDiscriminant::Durant => "Durant"@,
        SpeciesDiscriminant::Deino => "Deino"@,
        SpeciesDiscriminant::Zweilous => "Zweilous"@,
        SpeciesDiscriminant::Hydreigon => "Hydreigon"@,
        SpeciesDiscriminant::Larvesta => "Larvesta"@,
        SpeciesDiscriminant::Volcarona => "Volcarona"@,
        SpeciesDiscriminant::Cobalion => "Cobalion"@,
        SpeciesDiscriminant::Terrakion => "Terrakion"@,
        SpeciesDiscriminant::Virizion => "Virizion"@,
        SpeciesDiscriminant::Tornadus => "Tornadus"@,
        SpeciesDiscriminant::Thundurus => "Thundurus"@,
        SpeciesDiscriminant::Reshiram => "Reshiram"@,
        SpeciesDiscriminant::Zekrom => "Zekrom"@,
        SpeciesDiscriminant::Landorus => "Landorus"@,
        SpeciesDiscriminant::Kyurem => "Kyurem"@,
        SpeciesDiscriminant::Keldeo => "Keldeo"@,
        SpeciesDiscriminant::Meloetta => "Meloetta"@,
        SpeciesDiscriminant::Genesect => "Genesect"@,
        SpeciesDiscriminant::Chespin => "Chespin"@,
        SpeciesDiscriminant::Quilladin => "Quilladin"@,
        SpeciesDiscriminant::Chesnaught => "Chesnaught"@,
        SpeciesDiscriminant::Fennekin => "Fennekin"@,
        SpeciesDiscriminant::Braixen => "Braixen"@,
        SpeciesDiscriminant::Delphox => "Delphox"@,
        SpeciesDiscriminant::Froakie => "Froakie"@,
        SpeciesDiscriminant::Frogadier => "Frogadier"@,
        SpeciesDiscriminant::Greninja => "Greninja"@,
        SpeciesDiscriminant::Bunnelby => "Bunnelby"@,
        SpeciesDiscriminant::Diggersby => "Diggersby"@,
        SpeciesDiscriminant::Fletchling => "Fletchling"@,
        SpeciesDiscriminant::Fletchinder => "Fletchinder"@,
        SpeciesDiscriminant::Talonflame => "Talonflame"@,
        SpeciesDiscriminant::Scatterbug => "Scatterbug"@,
        SpeciesDiscriminant::Spewpa => "Spewpa"@,
        SpeciesDiscriminant::Vivillon => "Vivillon"@,
        SpeciesDiscriminant::Litleo => "Litleo"@,
        SpeciesDiscriminant::Pyroar => "Pyroar"@,
        SpeciesDiscriminant::Flabebe => "Flabebe"@,
        SpeciesDiscriminant::Floette => "Floette"@,
        SpeciesDiscriminant::Florges => "Florges"@,
        SpeciesDiscriminant::Skiddo => "Skiddo"@,
        SpeciesDiscriminant::Gogoat => "Gogoat"@,
        SpeciesDiscriminant::Pancham => "Pancham"@,
        SpeciesDiscriminant::Pangoro => "Pangoro"@,
        SpeciesDiscriminant::Furfrou => "Furfrou"@,
        SpeciesDiscriminant::Espurr => "Espurr"@,
        SpeciesDiscriminant::Meowstic => "Meowstic"@,
        SpeciesDiscriminant::Honedge => "Honedge"@,
        SpeciesDiscriminant::Doublade => "Doublade"@,
        SpeciesDiscriminant::Aegislash => "Aegislash"@,
        SpeciesDiscriminant::Spritzee => "Spritzee"@,
        SpeciesDiscriminant::Aromatisse => "Aromatisse"@,
        SpeciesDiscriminant::Swirlix => "Swirlix"@,
        SpeciesDiscriminant::Slurpuff => "Slurpuff"@,
        SpeciesDiscriminant::Inkay => "Inkay"@,
        SpeciesDiscriminant::Malamar => "Malamar"@,
        SpeciesDiscriminant::Binacle => "Binacle"@,
        SpeciesDiscriminant::Barbaracle => "Barbaracle"@,
        SpeciesDiscriminant::Skrelp => "Skrelp"@,
        SpeciesDiscriminant::Dragalge => "Dragalge"@,
        SpeciesDiscriminant::Clauncher => "Clauncher"@,
        SpeciesDiscriminant::Clawitzer => "Clawitzer"@,
        SpeciesDiscriminant::Helioptile => "Helioptile"@,
        SpeciesDiscriminant::Heliolisk => "Heliolisk"@,
        SpeciesDiscriminant::Tyrunt => "Tyrunt"@,
        SpeciesDiscriminant::Tyrantrum => "Tyrantrum"@,
        SpeciesDiscriminant::Amaura => "Amaura"@,
        SpeciesDiscriminant::Aurorus => "Aurorus"@,
        SpeciesDiscriminant::Sylveon => "Sylveon"@,
        SpeciesDiscriminant::Hawlucha => "Hawlucha"@,
        SpeciesDiscriminant::Dedenne => "Dedenne"@,
        SpeciesDiscriminant::Carbink => "Carbink"@,
        SpeciesDiscriminant::Goomy => "Goomy"@,
        SpeciesDiscriminant::Sliggoo => "Sliggoo"@,
        SpeciesDiscriminant::Goodra => "Goodra"@,
        SpeciesDiscriminant::Klefki => "Klefki"@,
        SpeciesDiscriminant::Phantump => "Phantump"@,
        SpeciesDiscriminant::Trevenant => "Trevenant"@,
        SpeciesDiscriminant::Pumpkaboo => "Pumpkaboo"@,
        SpeciesDiscriminant::Gourgeist => "Gourgeist"@,
        SpeciesDiscriminant::Bergmite => "Bergmite"@,
        SpeciesDiscriminant::Avalugg => "Avalugg"@,
        SpeciesDiscriminant::Noibat => "Noibat"@,
        SpeciesDiscriminant::Noivern => "Noivern"@,
        SpeciesDiscriminant::Xerneas => "Xerneas"@,
        SpeciesDiscriminant::Yveltal => "Yveltal"@,
        SpeciesDiscriminant::Zygarde => "Zygarde"@,
        SpeciesDiscriminant::Diancie => "Diancie"@,
        SpeciesDiscriminant::Hoopa => "Hoopa"@,
        SpeciesDiscriminant::Volcanion => "Volcanion"@,
        SpeciesDiscriminant::Rowlet => "Rowlet"@,
        SpeciesDiscriminant::Dartrix => "Dartrix"@,
        SpeciesDiscriminant::Decidueye => "Decidueye"@,
        SpeciesDiscriminant::Litten => "Litten"@,
        SpeciesDiscriminant::Torracat => "Torracat"@,
        SpeciesDiscriminant::Incineroar => "Incineroar"@,
        SpeciesDiscriminant::Popplio => "Popplio"@,
        SpeciesDiscriminant::Brionne => "Brionne"@,
        SpeciesDiscriminant::Primarina => "Primarina"@,
        SpeciesDiscriminant::Pikipek => "Pikipek"@,
        SpeciesDiscriminant::Trumbeak => "Trumbeak"@,
        SpeciesDiscriminant::Toucannon => "Toucannon"@,
        SpeciesDiscriminant::Yungoos => "Yungoos"@,
        SpeciesDiscriminant::Gumshoos => "Gumshoos"@,
        SpeciesDiscriminant::Grubbin => "Grubbin"@,
        SpeciesDiscriminant::Charjabug => "Charjabug"@,
        SpeciesDiscriminant::Vikavolt => "Vikavolt"@,
        SpeciesDiscriminant::Crabrawler => "Crabrawler"@,
        SpeciesDiscriminant::Crabominable => "Crabominable"@,
        SpeciesDiscriminant::Oricorio => "Oricorio"@,
        SpeciesDiscriminant::Cutiefly => "Cutiefly"@,
        SpeciesDiscriminant::Ribombee => "Ribombee"@,
        SpeciesDiscriminant::Rockruff => "Rockruff"@,
        SpeciesDiscriminant::Lycanroc => "Lycanroc"@,
        SpeciesDiscriminant::Wishiwashi => "Wishiwashi"@,
        SpeciesDiscriminant::Mareanie => "Mareanie"@,
        SpeciesDiscriminant::Toxapex => "Toxapex"@,
        SpeciesDiscriminant::Mudbray => "Mudbray"@,
        SpeciesDiscriminant::Mudsdale => "Mudsdale"@,
        SpeciesDiscriminant::Dewpider => "Dewpider"@,
        SpeciesDiscriminant::Araquanid => "Araquanid"@,
        SpeciesDiscriminant::Fomantis => "Fomantis"@,
        SpeciesDiscriminant::Lurantis => "Lurantis"@,
        SpeciesDiscriminant::Morelull => "Morelull"@,
        SpeciesDiscriminant::Shiinotic => "Shiinotic"@,
        SpeciesDiscriminant::Salandit => "Salandit"@,
        SpeciesDiscriminant::Salazzle => "Salazzle"@,
        SpeciesDiscriminant::Stufful => "Stufful"@,
        SpeciesDiscriminant::Bewear => "Bewear"@,
        SpeciesDiscriminant::Bounsweet => "Bounsweet"@,
        SpeciesDiscriminant::Steenee => "Steenee"@,
        SpeciesDiscriminant::Tsareena => "Tsareena"@,
        SpeciesDiscriminant::Comfey => "Comfey"@,
        SpeciesDiscriminant::Oranguru => "Oranguru"@,
        SpeciesDiscriminant::Passimian => "Passimian"@,
        SpeciesDiscriminant::Wimpod => "Wimpod"@,
        SpeciesDiscriminant::Golisopod => "Golisopod"@,
        SpeciesDiscriminant::Sandygast => "Sandygast"@,
        SpeciesDiscriminant::Palossand => "Palossand"@,
        SpeciesDiscriminant::Pyukumuku => "Pyukumuku"@,
        SpeciesDiscriminant::TypeNull => "Type: Null"@,
        SpeciesDiscriminant::Silvally => "Silvally"@,
        SpeciesDiscriminant::Minior => "Minior"@,
        SpeciesDiscriminant::Komala => "Komala"@,
        SpeciesDiscriminant::Turtonator => "Turtonator"@,
        SpeciesDiscriminant::Togedemaru => "Togedemaru"@,
        SpeciesDiscriminant::Mimikyu => "Mimikyu"@,
        SpeciesDiscriminant::Bruxish => "Bruxish"@,
        SpeciesDiscriminant::Drampa => "Drampa"@,
        SpeciesDiscriminant::Dhelmise => "Dhelmise"@,
        SpeciesDiscriminant::JangmoO => "Jangmo-O"@,
        SpeciesDiscriminant::HakamoO => "Hakamo-O"@,
        SpeciesDiscriminant::KommoO => "Kommo-O"@,
        SpeciesDiscriminant::TapuKoko => "Tapu Koko"@,
        SpeciesDiscriminant::TapuLele => "Tapu Lele"@,
        SpeciesDiscriminant::TapuBulu => "Tapu Bulu"@,
        SpeciesDiscriminant::TapuFini => "Tapu Fini"@,
        SpeciesDiscriminant::Cosmog => "Cosmog"@,
        SpeciesDiscriminant::Cosmoem => "Cosmoem"@,
        SpeciesDiscriminant::Solgaleo => "Solgaleo"@,
        SpeciesDiscriminant::Lunala => "Lunala"@,
        SpeciesDiscriminant::Nihilego => "Nihilego"@,
        SpeciesDiscriminant::Buzzwole => "Buzzwole"@,
        SpeciesDiscriminant::Pheromosa => "Pheromosa"@,
        SpeciesDiscriminant::Xurkitree => "Xurkitree"@,
        SpeciesDiscriminant::Celesteela => "Celesteela"@,
        SpeciesDiscriminant::Kartana => "Kartana"@,
        SpeciesDiscriminant::Guzzlord => "Guzzlord"@,
        SpeciesDiscriminant::Necrozma => "Necrozma"@,
        SpeciesDiscriminant::Magearna => "Magearna"@,
        SpeciesDiscriminant::Marshadow => "Marshadow"@,
        SpeciesDiscriminant::Poipole => "Poipole"@,
        SpeciesDiscriminant::Naganadel => "Naganadel"@,
        SpeciesDiscriminant::Stakataka => "Stakataka"@,
        SpeciesDiscriminant::Blacephalon => "Blacephalon"@,
        SpeciesDiscriminant::Zeraora => "Zeraora"@,
        _ => ""@,
    }
}

/// The name of the variant of a species, which differs from its in-game name only where that
/// name has punctuation, a space or a symbol.
pub open spec fn variant_name(k: SpeciesDiscriminant) -> Seq<char> {
    match k {
        SpeciesDiscriminant::NidoranF => "NidoranF"@,
        SpeciesDiscriminant::NidoranM => "NidoranM"@,
        SpeciesDiscriminant::Farfetchd => "Farfetchd"@,
        SpeciesDiscriminant::MrMime => "MrMime"@,
        SpeciesDiscriminant::HoOh => "HoOh"@,
        SpeciesDiscriminant::MimeJr => "MimeJr"@,
        SpeciesDiscriminant::PorygonZ => "PorygonZ"@,
        SpeciesDiscriminant::TypeNull => "TypeNull"@,
        SpeciesDiscriminant::JangmoO => "JangmoO"@,
        SpeciesDiscriminant::HakamoO => "HakamoO"@,
        SpeciesDiscriminant::KommoO => "KommoO"@,
        SpeciesDiscriminant::TapuKoko => "TapuKoko"@,
        SpeciesDiscriminant::TapuLele => "TapuLele"@,
        SpeciesDiscriminant::TapuBulu => "TapuBulu"@,
        SpeciesDiscriminant::TapuFini => "TapuFini"@,
        _ => display_name(k),
    }
}

/// Whether `text` names species `k`, by its in-game name or by the name of its variant.
pub open spec fn names_species(k: SpeciesDiscriminant, text: Seq<char>) -> bool {
    text == display_name(k) || text == variant_name(k)
}

/// Whether two texts are the same.
fn same_text(a: &str, b: &str) -> (r: bool)
    ensures
        r == (a@ == b@),
{
    let n = a.unicode_len();
    if n != b.unicode_len() {
        return false;
    }
    let mut i: usize = 0;
    while i < n
        invariant
            n == a@.len(),
            n == b@.len(),
            i <= n,
            a@.take(i as int) == b@.take(i as int),
        decreases n - i,
    {
        if a.get_char(i) != b.get_char(i) {
            return false;
        }
        assert(a@.take(i + 1) =~= a@.take(i as int).push(a@[i as int]));
        assert(b@.take(i + 1) =~= b@.take(i as int).push(b@[i as int]));
        i = i + 1;
    }
    assert(a@.take(n as int) =~= a@);
    assert(b@.take(n as int) =~= b@);
    true
}

impl Species {
    /// Whether this species comes in several forms, like Deoxys-Attack and Deoxys-Defense.
    pub fn has_forme(self) -> (r: bool)
        ensures
            r == bears_formes(kind_of(self)),
    {
        SpeciesDiscriminant::from(self).has_formes()
    }
}

impl SpeciesDiscriminant {
    /// Whether this species comes in several forms.
    pub fn has_formes(self) -> (r: bool)
        ensures
            r == bears_formes(self),
    {
        match self {
            SpeciesDiscriminant::Venusaur
            | SpeciesDiscriminant::Charizard
            | SpeciesDiscriminant::Blastoise
            | SpeciesDiscriminant::Beedrill
            | SpeciesDiscriminant::Pidgeot
            | SpeciesDiscriminant::Rattata
            | SpeciesDiscriminant::Raticate
            | SpeciesDiscriminant::Raichu
            | SpeciesDiscriminant::Sandshrew
            | SpeciesDiscriminant::Sandslash
            | SpeciesDiscriminant::Vulpix
            | SpeciesDiscriminant::Ninetales
            | SpeciesDiscriminant::Diglett
            | SpeciesDiscriminant::Dugtrio
            | SpeciesDiscriminant::Persian
            | SpeciesDiscriminant::Alakazam
            | SpeciesDiscriminant::Geodude
            | SpeciesDiscriminant::Graveler
            | SpeciesDiscriminant::Golem
            | SpeciesDiscriminant::Grimer
            | SpeciesDiscriminant::Muk
            | SpeciesDiscriminant::Gengar
            | SpeciesDiscriminant::Exeggutor
            | SpeciesDiscriminant::Marowak
            | SpeciesDiscriminant::Kangaskhan
            | SpeciesDiscriminant::Pinsir
            | SpeciesDiscriminant::Gyarados
            | SpeciesDiscriminant::Aerodactyl
            | SpeciesDiscriminant::Mewtwo
            | SpeciesDiscriminant::Steelix
            | SpeciesDiscriminant::Scizor
            | SpeciesDiscriminant::Heracross
            | SpeciesDiscriminant::Houndoom
            | SpeciesDiscriminant::Tyranitar
            | SpeciesDiscriminant::Sceptile
            | SpeciesDiscriminant::Blaziken
            | SpeciesDiscriminant::Swampert
            | SpeciesDiscriminant::Gardevoir
            | SpeciesDiscriminant::Sableye
            | SpeciesDiscriminant::Mawile
            | SpeciesDiscriminant::Aggron
            | SpeciesDiscriminant::Medicham
            | SpeciesDiscriminant::Manectric
            | SpeciesDiscriminant::Sharpedo
            | SpeciesDiscriminant::Camerupt
            | SpeciesDiscriminant::Altaria
            | SpeciesDiscriminant::Castform
            | SpeciesDiscriminant::Salamence
            | SpeciesDiscriminant::Metagross
            | SpeciesDiscriminant::Kyogre
            | SpeciesDiscriminant::Groudon
            | SpeciesDiscriminant::Rayquaza
            | SpeciesDiscriminant::Deoxys
            | SpeciesDiscriminant::Wormadam
            | SpeciesDiscriminant::Lopunny
            | SpeciesDiscriminant::Garchomp
            | SpeciesDiscriminant::Lucario
            | SpeciesDiscriminant::Abomasnow
            | SpeciesDiscriminant::Gallade
            | SpeciesDiscriminant::Rotom
            | SpeciesDiscriminant::Giratina
            | SpeciesDiscriminant::Shaymin
            | SpeciesDiscriminant::Arceus
            | SpeciesDiscriminant::Darmanitan
            | SpeciesDiscriminant::Tornadus
            | SpeciesDiscriminant::Thundurus
            | SpeciesDiscriminant::Landorus
            | SpeciesDiscriminant::Kyurem
            | SpeciesDiscriminant::Meloetta
            | SpeciesDiscriminant::Greninja
            | SpeciesDiscriminant::Aegislash
            | SpeciesDiscriminant::Pumpkaboo
            | SpeciesDiscriminant::Gourgeist
            | SpeciesDiscriminant::Zygarde
            | SpeciesDiscriminant::Diancie
            | SpeciesDiscriminant::Hoopa
            | SpeciesDiscriminant::Oricorio
            | SpeciesDiscriminant::Lycanroc
            | SpeciesDiscriminant::Wishiwashi
            | SpeciesDiscriminant::TypeNull
            | SpeciesDiscriminant::Silvally
            | SpeciesDiscriminant::Minior
            | SpeciesDiscriminant::Mimikyu
            | SpeciesDiscriminant::Necrozma
            => true,
            _ => false,
        }
    }
}

impl core::convert::From<Species> for SpeciesDiscriminant {
    /// The species of `s`, without its form.
    fn from(s: Species) -> (r: SpeciesDiscriminant) {
        match s {
            Species::Bulbasaur
            | Species::Ivysaur
            | Species::Venusaur(_)
            | Species::Charmander
            | Species::Charmeleon
            | Species::Charizard(_)
            | Species::Squirtle
            | Species::Wartortle
            | Species::Blastoise(_)
            | Species::Caterpie
            | Species::Metapod
            | Species::Butterfree
            | Species::Weedle
            | Species::Kakuna
            | Species::Beedrill(_)
            | Species::Pidgey
            | Species::Pidgeotto
            | Species::Pidgeot(_)
            | Species::Rattata(_)
            | Species::Raticate(_)
            | Species::Spearow
            | Species::Fearow
            | Species::Ekans
            | Species::Arbok
            | Species::Pikachu
            | Species::Raichu(_)
            | Species::Sandshrew(_)
            | Species::Sandslash(_)
            | Species::NidoranF
            | Species::Nidorina
            | Species::Nidoqueen
            | Species::NidoranM
            | Species::Nidorino
            | Species::Nidoking
            | Species::Clefairy
            | Species::Clefable
            | Species::Vulpix(_)
            | Species::Ninetales(_)
            | Species::Jigglypuff
            | Species::Wigglytuff
            | Species::Zubat
            | Species::Golbat
            | Species::Oddish
            | Species::Gloom
            | Species::Vileplume
            | Species::Paras
            | Species::Parasect
            | Species::Venonat
            | Species::Venomoth
            | Species::Diglett(_)
            | Species::Dugtrio(_)
            | Species::Meowth
            | Species::Persian(_)
            | Species::Psyduck
            | Species::Golduck
            | Species::Mankey
            | Species::Primeape
            | Species::Growlithe
            | Species::Arcanine
            | Species::Poliwag
            | Species::Poliwhirl
            | Species::Poliwrath
            | Species::Abra
            | Species::Kadabra
            | Species::Alakazam(_)
            | Species::Machop
            | Species::Machoke
            | Species::Machamp
            | Species::Bellsprout
            | Species::Weepinbell
            | Species::Victreebel
            | Species::Tentacool
            | Species::Tentacruel
            | Species::Geodude(_)
            | Species::Graveler(_)
            | Species::Golem(_)
            | Species::Ponyta
            | Species::Rapidash
            | Species::Slowpoke
            | Species::Slowbro
            | Species::Magnemite
            | Species::Magneton
            | Species::Farfetchd
            | Species::Doduo
            | Species::Dodrio
            | Species::Seel
            | Species::Dewgong
            | Species::Grimer(_)
            | Species::Muk(_)
            | Species::Shellder
            | Species::Cloyster
            | Species::Gastly
            | Species::Haunter
            | Species::Gengar(_)
            | Species::Onix
            | Species::Drowzee
            | Species::Hypno
            | Species::Krabby
            | Species::Kingler
            | Species::Voltorb
            | Species::Electrode
            | Species::Exeggcute
            | Species::Exeggutor(_)
            | Species::Cubone
            | Species::Marowak(_)
            | Species::Hitmonlee
            | Species::Hitmonchan
            | Species::Lickitung
            | Species::Koffing
            | Species::Weezing
            | Species::Rhyhorn
            | Species::Rhydon
            | Species::Chansey
            | Species::Tangela
            | Species::Kangaskhan(_)
            | Species::Horsea
            | Species::Seadra
            | Species::Goldeen
            | Species::Seaking
            | Species::Staryu
            | Species::Starmie
            | Species::MrMime
            | Species::Scyther
            | Species::Jynx
            | Species::Electabuzz
            | Species::Magmar
            | Species::Pinsir(_)
            | Species::Tauros
            | Species::Magikarp
            | Species::Gyarados(_)
            | Species::Lapras
            | Species::Ditto
            | Species::Eevee
            | Species::Vaporeon
            | Species::Jolteon
            | Species::Flareon
            | Species::Porygon
            | Species::Omanyte
            | Species::Omastar
            | Species::Kabuto
            | Species::Kabutops
            | Species::Aerodactyl(_)
            | Species::Snorlax
            | Species::Articuno
            | Species::Zapdos
            | Species::Moltres
            | Species::Dratini
            | Species::Dragonair
            | Species::Dragonite
            | Species::Mewtwo(_)
            | Species::Mew
            | Species::Chikorita
            | Species::Bayleef
            | Species::Meganium
            | Species::Cyndaquil
            | Species::Quilava
            | Species::Typhlosion
            | Species::Totodile
            | Species::Croconaw
            | Species::Feraligatr
            | Species::Sentret
            | Species::Furret
            | Species::Hoothoot
            | Species::Noctowl
            | Species::Ledyba
            | Species::Ledian
            | Species::Spinarak
            | Species::Ariados
            | Species::Crobat
            | Species::Chinchou
            | Species::Lanturn
            | Species::Pichu
            | Species::Cleffa
            | Species::Igglybuff
            | Species::Togepi
            | Species::Togetic
            | Species::Natu
            | Species::Xatu
            | Species::Mareep
            | Species::Flaaffy
            | Species::Ampharos
            | Species::Bellossom
            | Species::Marill
            | Species::Azumarill
            | Species::Sudowoodo
            | Species::Politoed
            | Species::Hoppip
            | Species::Skiploom
            | Species::Jumpluff
            | Species::Aipom
            | Species::Sunkern
            | Species::Sunflora
            | Species::Yanma
            | Species::Wooper
            | Species::Quagsire
            | Species::Espeon
            | Species::Umbreon
            | Species::Murkrow
            | Species::Slowking
            | Species::Misdreavus
            | Species::Unown
            | Species::Wobbuffet
            | Species::Girafarig
            | Species::Pineco
            | Species::Forretress
            | Species::Dunsparce
            | Species::Gligar
            | Species::Steelix(_)
            | Species::Snubbull
            | Species::Granbull
            | Species::Qwilfish
            | Species::Scizor(_)
            | Species::Shuckle
            | Species::Heracross(_)
            | Species::Sneasel
            | Species::Teddiursa
            | Species::Ursaring
            | Species::Slugma
            | Species::Magcargo
            | Species::Swinub
            | Species::Piloswine
            | Species::Corsola
            | Species::Remoraid
            | Species::Octillery
            | Species::Delibird
            | Species::Mantine
            | Species::Skarmory
            | Species::Houndour
            | Species::Houndoom(_)
            | Species::Kingdra
            | Species::Phanpy
            | Species::Donphan
            | Species::Porygon2
            | Species::Stantler
            | Species::Smeargle
            | Species::Tyrogue
            | Species::Hitmontop
            | Species::Smoochum
            | Species::Elekid
            | Species::Magby
            | Species::Miltank
            | Species::Blissey
            | Species::Raikou
            | Species::Entei
            | Species::Suicune
            | Species::Larvitar
            | Species::Pupitar
            | Species::Tyranitar(_)
            | Species::Lugia
            | Species::HoOh
            | Species::Celebi
            | Species::Treecko
            | Species::Grovyle
            | Species::Sceptile(_)
            | Species::Torchic
            | Species::Combusken
            | Species::Blaziken(_)
            | Species::Mudkip
            | Species::Marshtomp
            | Species::Swampert(_)
            | Species::Poochyena
            | Species::Mightyena
            | Species::Zigzagoon
            | Species::Linoone
            | Species::Wurmple
            | Species::Silcoon
            | Species::Beautifly
            | Species::Cascoon
            | Species::Dustox
            | Species::Lotad
            | Species::Lombre
            | Species::Ludicolo
            | Species::Seedot
            | Species::Nuzleaf
            | Species::Shiftry
            | Species::Taillow
            | Species::Swellow
            | Species::Wingull
            | Species::Pelipper
            | Species::Ralts
            | Species::Kirlia
            | Species::Gardevoir(_)
            | Species::Surskit
            | Species::Masquerain
            | Species::Shroomish
            | Species::Breloom
            | Species::Slakoth
            | Species::Vigoroth
            | Species::Slaking
            | Species::Nincada
            | Species::Ninjask
            | Species::Shedinja
            | Species::Whismur
            | Species::Loudred
            | Species::Exploud
            | Species::Makuhita
            | Species::Hariyama
            | Species::Azurill
            | Species::Nosepass
            | Species::Skitty
            | Species::Delcatty
            | Species::Sableye(_)
            | Species::Mawile(_)
            | Species::Aron
            | Species::Lairon
            | Species::Aggron(_)
            | Species::Meditite
            | Species::Medicham(_)
            | Species::Electrike
            | Species::Manectric(_)
            | Species::Plusle
            | Species::Minun
            | Species::Volbeat
            | Species::Illumise
            | Species::Roselia
            | Species::Gulpin
            | Species::Swalot
            | Species::Carvanha
            | Species::Sharpedo(_)
            | Species::Wailmer
            | Species::Wailord
            | Species::Numel
            | Species::Camerupt(_)
            | Species::Torkoal
            | Species::Spoink
            | Species::Grumpig
            | Species::Spinda
            | Species::Trapinch
            | Species::Vibrava
            | Species::Flygon
            | Species::Cacnea
            | Species::Cacturne
            | Species::Swablu
            | Species::Altaria(_)
            | Species::Zangoose
            | Species::Seviper
            | Species::Lunatone
            | Species::Solrock
            | Species::Barboach
            | Species::Whiscash
            | Species::Corphish
            | Species::Crawdaunt
            | Species::Baltoy
            | Species::Claydol
            | Species::Lileep
            | Species::Cradily
            | Species::Anorith
            | Species::Armaldo
            | Species::Feebas
            | Species::Milotic
            | Species::Castform(_)
            | Species::Kecleon
            | Species::Shuppet
            | Species::Banette
            | Species::Duskull
            | Species::Dusclops
            | Species::Tropius
            | Species::Chimecho
            | Species::Absol
            | Species::Wynaut
            | Species::Snorunt
            | Species::Glalie
            | Species::Spheal
            | Species::Sealeo
            | Species::Walrein
            | Species::Clamperl
            | Species::Huntail
            | Species::Gorebyss
            | Species::Relicanth
            | Species::Luvdisc
            | Species::Bagon
            | Species::Shelgon
            | Species::Salamence(_)
            | Species::Beldum
            | Species::Metang
            | Species::Metagross(_)
            | Species::Regirock
            | Species::Regice
            | Species::Registeel
            | Species::Latias
            | Species::Latios
            | Species::Kyogre(_)
            | Species::Groudon(_)
            | Species::Rayquaza(_)
            | Species::Jirachi
            | Species::Deoxys(_)
            => SpeciesDiscriminant::kind_early(s),
            _ => SpeciesDiscriminant::kind_late(s),
        }
    }
}

impl vstd::std_specs::convert::FromSpecImpl<Species> for SpeciesDiscriminant {
    open spec fn obeys_from_spec() -> bool {
        true
    }

    open spec fn from_spec(s: Species) -> SpeciesDiscriminant {
        kind_of(s)
    }
}

impl SpeciesDiscriminant {
    /// The species of `s`, without its form, where `s` is of the first three generations.
    fn kind_early(s: Species) -> (r: SpeciesDiscriminant)
        ensures
            r == kind_of_early(s),
    {
        match s {
            Species::Bulbasaur => SpeciesDiscriminant::Bulbasaur,
            Species::Ivysaur => SpeciesDiscriminant::Ivysaur,
            Species::Venusaur(_) => SpeciesDiscriminant::Venusaur,
            Species::Charmander => SpeciesDiscriminant::Charmander,
            Species::Charmeleon => SpeciesDiscriminant::Charmeleon,
            Species::Charizard(_) => SpeciesDiscriminant::Charizard,
            Species::Squirtle => SpeciesDiscriminant::Squirtle,
            Species::Wartortle => SpeciesDiscriminant::Wartortle,
            Species::Blastoise(_) => SpeciesDiscriminant::Blastoise,
            Species::Caterpie => SpeciesDiscriminant::Caterpie,
            Species::Metapod => SpeciesDiscriminant::Metapod,
            Species::Butterfree => SpeciesDiscriminant::Butterfree,
            Species::Weedle => SpeciesDiscriminant::Weedle,
            Species::Kakuna => SpeciesDiscriminant::Kakuna,
            Species::Beedrill(_) => SpeciesDiscriminant::Beedrill,
            Species::Pidgey => SpeciesDiscriminant::Pidgey,
            Species::Pidgeotto => SpeciesDiscriminant::Pidgeotto,
            Species::Pidgeot(_) => SpeciesDiscriminant::Pidgeot,
            Species::Rattata(_) => SpeciesDiscriminant::Rattata,
            Species::Raticate(_) => SpeciesDiscriminant::Raticate,
            Species::Spearow => SpeciesDiscriminant::Spearow,
            Species::Fearow => SpeciesDiscriminant::Fearow,
            Species::Ekans => SpeciesDiscriminant::Ekans,
            Species::Arbok => SpeciesDiscriminant::Arbok,
            Species::Pikachu => SpeciesDiscriminant::Pikachu,
            Species::Raichu(_) => SpeciesDiscriminant::Raichu,
            Species::Sandshrew(_) => SpeciesDiscriminant::Sandshrew,
            Species::Sandslash(_) => SpeciesDiscriminant::Sandslash,
            Species::NidoranF => SpeciesDiscriminant::NidoranF,
            Species::Nidorina => SpeciesDiscriminant::Nidorina,
            Species::Nidoqueen => SpeciesDiscriminant::Nidoqueen,
            Species::NidoranM => SpeciesDiscriminant::NidoranM,
            Species::Nidorino => SpeciesDiscriminant::Nidorino,
            Species::Nidoking => SpeciesDiscriminant::Nidoking,
            Species::Clefairy => SpeciesDiscriminant::Clefairy,
            Species::Clefable => SpeciesDiscriminant::Clefable,
            Species::Vulpix(_) => SpeciesDiscriminant::Vulpix,
            Species::Ninetales(_) => SpeciesDiscriminant::Ninetales,
            Species::Jigglypuff => SpeciesDiscriminant::Jigglypuff,
            Species::Wigglytuff => SpeciesDiscriminant::Wigglytuff,
            Species::Zubat => SpeciesDiscriminant::Zubat,
            Species::Golbat => SpeciesDiscriminant::Golbat,
            Species::Oddish => SpeciesDiscriminant::Oddish,
            Species::Gloom => SpeciesDiscriminant::Gloom,
            Species::Vileplume => SpeciesDiscriminant::Vileplume,
            Species::Paras => SpeciesDiscriminant::Paras,
            Species::Parasect => SpeciesDiscriminant::Parasect,
            Species::Venonat => SpeciesDiscriminant::Venonat,
            Species::Venomoth => SpeciesDiscriminant::Venomoth,
            Species::Diglett(_) => SpeciesDiscriminant::Diglett,
            Species::Dugtrio(_) => SpeciesDiscriminant::Dugtrio,
            Species::Meowth => SpeciesDiscriminant::Meowth,
            Species::Persian(_) => SpeciesDiscriminant::Persian,
            Species::Psyduck => SpeciesDiscriminant::Psyduck,
            Species::Golduck => SpeciesDiscriminant::Golduck,
            Species::Mankey => SpeciesDiscriminant::Mankey,
            Species::Primeape => SpeciesDiscriminant::Primeape,
            Species::Growlithe => SpeciesDiscriminant::Growlithe,
            Species::Arcanine => SpeciesDiscriminant::Arcanine,
            Species::Poliwag => SpeciesDiscriminant::Poliwag,
            Species::Poliwhirl => SpeciesDiscriminant::Poliwhirl,
            Species::Poliwrath => SpeciesDiscriminant::Poliwrath,
            Species::Abra => SpeciesDiscriminant::Abra,
            Species::Kadabra => SpeciesDiscriminant::Kadabra,
            Species::Alakazam(_) => SpeciesDiscriminant::Alakazam,
            Species::Machop => SpeciesDiscriminant::Machop,
            Species::Machoke => SpeciesDiscriminant::Machoke,
            Species::Machamp => SpeciesDiscriminant::Machamp,
            Species::Bellsprout => SpeciesDiscriminant::Bellsprout,
            Species::Weepinbell => SpeciesDiscriminant::Weepinbell,
            Species::Victreebel => SpeciesDiscriminant::Victreebel,
            Species::Tentacool => SpeciesDiscriminant::Tentacool,
            Species::Tentacruel => SpeciesDiscriminant::Tentacruel,
            Species::Geodude(_) => SpeciesDiscriminant::Geodude,
            Species::Graveler(_) => SpeciesDiscriminant::Graveler,
            Species::Golem(_) => SpeciesDiscriminant::Golem,
            Species::Ponyta => SpeciesDiscriminant::Ponyta,
            Species::Rapidash => SpeciesDiscriminant::Rapidash,
            Species::Slowpoke => SpeciesDiscriminant::Slowpoke,
            Species::Slowbro => SpeciesDiscriminant::Slowbro,
            Species::Magnemite => SpeciesDiscriminant::Magnemite,
            Species::Magneton => SpeciesDiscriminant::Magneton,
            Species::Farfetchd => SpeciesDiscriminant::Farfetchd,
            Species::Doduo => SpeciesDiscriminant::Doduo,
            Species::Dodrio => SpeciesDiscriminant::Dodrio,
            Species::Seel => SpeciesDiscriminant::Seel,
            Species::Dewgong => SpeciesDiscriminant::Dewgong,
            Species::Grimer(_) => SpeciesDiscriminant::Grimer,
            Species::Muk(_) => SpeciesDiscriminant::Muk,
            Species::Shellder => SpeciesDiscriminant::Shellder,
            Species::Cloyster => SpeciesDiscriminant::Cloyster,
            Species::Gastly => SpeciesDiscriminant::Gastly,
            Species::Haunter => SpeciesDiscriminant::Haunter,
            Species::Gengar(_) => SpeciesDiscriminant::Gengar,
            Species::Onix => SpeciesDiscriminant::Onix,
            Species::Drowzee => SpeciesDiscriminant::Drowzee,
            Species::Hypno => SpeciesDiscriminant::Hypno,
            Species::Krabby => SpeciesDiscriminant::Krabby,
            Species::Kingler => SpeciesDiscriminant::Kingler,
            Species::Voltorb => SpeciesDiscriminant::Voltorb,
            Species::Electrode => SpeciesDiscriminant::Electrode,
            Species::Exeggcute => SpeciesDiscriminant::Exeggcute,
            Species::Exeggutor(_) => SpeciesDiscriminant::Exeggutor,
            Species::Cubone => SpeciesDiscriminant::Cubone,
            Species::Marowak(_) => SpeciesDiscriminant::Marowak,
            Species::Hitmonlee => SpeciesDiscriminant::Hitmonlee,
            Species::Hitmonchan => SpeciesDiscriminant::Hitmonchan,
            Species::Lickitung => SpeciesDiscriminant::Lickitung,
            Species::Koffing => SpeciesDiscriminant::Koffing,
            Species::Weezing => SpeciesDiscriminant::Weezing,
            Species::Rhyhorn => SpeciesDiscriminant::Rhyhorn,
            Species::Rhydon => SpeciesDiscriminant::Rhydon,
            Species::Chansey => SpeciesDiscriminant::Chansey,
            Species::Tangela => SpeciesDiscriminant::Tangela,
            Species::Kangaskhan(_) => SpeciesDiscriminant::Kangaskhan,
            Species::Horsea => SpeciesDiscriminant::Horsea,
            Species::Seadra => SpeciesDiscriminant::Seadra,
            Species::Goldeen => SpeciesDiscriminant::Goldeen,
            Species::Seaking => SpeciesDiscriminant::Seaking,
            Species::Staryu => SpeciesDiscriminant::Staryu,
            Species::Starmie => SpeciesDiscriminant::Starmie,
            Species::MrMime => SpeciesDiscriminant::MrMime,
            Species::Scyther => SpeciesDiscriminant::Scyther,
            Species::Jynx => SpeciesDiscriminant::Jynx,
            Species::Electabuzz => SpeciesDiscriminant::Electabuzz,
            Species::Magmar => SpeciesDiscriminant::Magmar,
            Species::Pinsir(_) => SpeciesDiscriminant::Pinsir,
            Species::Tauros => SpeciesDiscriminant::Tauros,
            Species::Magikarp => SpeciesDiscriminant::Magikarp,
            Species::Gyarados(_) => SpeciesDiscriminant::Gyarados,
            Species::Lapras => SpeciesDiscriminant::Lapras,
            Species::Ditto => SpeciesDiscriminant::Ditto,
            Species::Eevee => SpeciesDiscriminant::Eevee,
            Species::Vaporeon => SpeciesDiscriminant::Vaporeon,
            Species::Jolteon => SpeciesDiscriminant::Jolteon,
            Species::Flareon => SpeciesDiscriminant::Flareon,
            Species::Porygon => SpeciesDiscriminant::Porygon,
            Species::Omanyte => SpeciesDiscriminant::Omanyte,
            Species::Omastar => SpeciesDiscriminant::Omastar,
            Species::Kabuto => SpeciesDiscriminant::Kabuto,
            Species::Kabutops => SpeciesDiscriminant::Kabutops,
            Species::Aerodactyl(_) => SpeciesDiscriminant::Aerodactyl,
            Species::Snorlax => SpeciesDiscriminant::Snorlax,
            Species::Articuno => SpeciesDiscriminant::Articuno,
            Species::Zapdos => SpeciesDiscriminant::Zapdos,
            Species::Moltres => SpeciesDiscriminant::Moltres,
            Species::Dratini => SpeciesDiscriminant::Dratini,
            Species::Dragonair => SpeciesDiscriminant::Dragonair,
            Species::Dragonite => SpeciesDiscriminant::Dragonite,
            Species::Mewtwo(_) => SpeciesDiscriminant::Mewtwo,
            Species::Mew => SpeciesDiscriminant::Mew,
            Species::Chikorita => SpeciesDiscriminant::Chikorita,
            Species::Bayleef => SpeciesDiscriminant::Bayleef,
            Species::Meganium => SpeciesDiscriminant::Meganium,
            Species::Cyndaquil => SpeciesDiscriminant::Cyndaquil,
            Species::Quilava => SpeciesDiscriminant::Quilava,
            Species::Typhlosion => SpeciesDiscriminant::Typhlosion,
            Species::Totodile => SpeciesDiscriminant::Totodile,
            Species::Croconaw => SpeciesDiscriminant::Croconaw,
            Species::Feraligatr => SpeciesDiscriminant::Feraligatr,
            Species::Sentret => SpeciesDiscriminant::Sentret,
            Species::Furret => SpeciesDiscriminant::Furret,
            Species::Hoothoot => SpeciesDiscriminant::Hoothoot,
            Species::Noctowl => SpeciesDiscriminant::Noctowl,
            Species::Ledyba => SpeciesDiscriminant::Ledyba,
            Species::Ledian => SpeciesDiscriminant::Ledian,
            Species::Spinarak => SpeciesDiscriminant::Spinarak,
            Species::Ariados => SpeciesDiscriminant::Ariados,
            Species::Crobat => SpeciesDiscriminant::Crobat,
            Species::Chinchou => SpeciesDiscriminant::Chinchou,
            Species::Lanturn => SpeciesDiscriminant::Lanturn,
            Species::Pichu => SpeciesDiscriminant::Pichu,
            Species::Cleffa => SpeciesDiscriminant::Cleffa,
            Species::Igglybuff => SpeciesDiscriminant::Igglybuff,
            Species::Togepi => SpeciesDiscriminant::Togepi,
            Species::Togetic => SpeciesDiscriminant::Togetic,
            Species::Natu => SpeciesDiscriminant::Natu,
            Species::Xatu => SpeciesDiscriminant::Xatu,
            Species::Mareep => SpeciesDiscriminant::Mareep,
            Species::Flaaffy => SpeciesDiscriminant::Flaaffy,
            Species::Ampharos => SpeciesDiscriminant::Ampharos,
            Species::Bellossom => SpeciesDiscriminant::Bellossom,
            Species::Marill => SpeciesDiscriminant::Marill,
            Species::Azumarill => SpeciesDiscriminant::Azumarill,
            Species::Sudowoodo => SpeciesDiscriminant::Sudowoodo,
            Species::Politoed => SpeciesDiscriminant::Politoed,
            Species::Hoppip => SpeciesDiscriminant::Hoppip,
            Species::Skiploom => SpeciesDiscriminant::Skiploom,
            Species::Jumpluff => SpeciesDiscriminant::Jumpluff,
            Species::Aipom => SpeciesDiscriminant::Aipom,
            Species::Sunkern => SpeciesDiscriminant::Sunkern,
            Species::Sunflora => SpeciesDiscriminant::Sunflora,
            Species::Yanma => SpeciesDiscriminant::Yanma,
            Species::Wooper => SpeciesDiscriminant::Wooper,
            Species::Quagsire => SpeciesDiscriminant::Quagsire,
            Species::Espeon => SpeciesDiscriminant::Espeon,
            Species::Umbreon => SpeciesDiscriminant::Umbreon,
            Species::Murkrow => SpeciesDiscriminant::Murkrow,
            Species::Slowking => SpeciesDiscriminant::Slowking,
            Species::Misdreavus => SpeciesDiscriminant::Misdreavus,
            Species::Unown => SpeciesDiscriminant::Unown,
            Species::Wobbuffet => SpeciesDiscriminant::Wobbuffet,
            Species::Girafarig => SpeciesDiscriminant::Girafarig,
            Species::Pineco => SpeciesDiscriminant::Pineco,
            Species::Forretress => SpeciesDiscriminant::Forretress,
            Species::Dunsparce => SpeciesDiscriminant::Dunsparce,
            Species::Gligar => SpeciesDiscriminant::Gligar,
            Species::Steelix(_) => SpeciesDiscriminant::Steelix,
            Species::Snubbull => SpeciesDiscriminant::Snubbull,
            Species::Granbull => SpeciesDiscriminant::Granbull,
            Species::Qwilfish => SpeciesDiscriminant::Qwilfish,
            Species::Scizor(_) => SpeciesDiscriminant::Scizor,
            Species::Shuckle => SpeciesDiscriminant::Shuckle,
            Species::Heracross(_) => SpeciesDiscriminant::Heracross,
            Species::Sneasel => SpeciesDiscriminant::Sneasel,
            Species::Teddiursa => SpeciesDiscriminant::Teddiursa,
            Species::Ursaring => SpeciesDiscriminant::Ursaring,
            Species::Slugma => SpeciesDiscriminant::Slugma,
            Species::Magcargo => SpeciesDiscriminant::Magcargo,
            Species::Swinub => SpeciesDiscriminant::Swinub,
            Species::Piloswine => SpeciesDiscriminant::Piloswine,
            Species::Corsola => SpeciesDiscriminant::Corsola,
            Species::Remoraid => SpeciesDiscriminant::Remoraid,
            Species::Octillery => SpeciesDiscriminant::Octillery,
            Species::Delibird => SpeciesDiscriminant::Delibird,
            Species::Mantine => SpeciesDiscriminant::Mantine,
            Species::Skarmory => SpeciesDiscriminant::Skarmory,
            Species::Houndour => SpeciesDiscriminant::Houndour,
            Species::Houndoom(_) => SpeciesDiscriminant::Houndoom,
            Species::Kingdra => SpeciesDiscriminant::Kingdra,
            Species::Phanpy => SpeciesDiscriminant::Phanpy,
            Species::Donphan => SpeciesDiscriminant::Donphan,
            Species::Porygon2 => SpeciesDiscriminant::Porygon2,
            Species::Stantler => SpeciesDiscriminant::Stantler,
            Species::Smeargle => SpeciesDiscriminant::Smeargle,
            Species::Tyrogue => SpeciesDiscriminant::Tyrogue,
            Species::Hitmontop => SpeciesDiscriminant::Hitmontop,
            Species::Smoochum => SpeciesDiscriminant::Smoochum,
            Species::Elekid => SpeciesDiscriminant::Elekid,
            Species::Magby => SpeciesDiscriminant::Magby,
            Species::Miltank => SpeciesDiscriminant::Miltank,
            Species::Blissey => SpeciesDiscriminant::Blissey,
            Species::Raikou => SpeciesDiscriminant::Raikou,
            Species::Entei => SpeciesDiscriminant::Entei,
            Species::Suicune => SpeciesDiscriminant::Suicune,
            Species::Larvitar => SpeciesDiscriminant::Larvitar,
            Species::Pupitar => SpeciesDiscriminant::Pupitar,
            Species::Tyranitar(_) => SpeciesDiscriminant::Tyranitar,
            Species::Lugia => SpeciesDiscriminant::Lugia,
            Species::HoOh => SpeciesDiscriminant::HoOh,
            Species::Celebi => SpeciesDiscriminant::Celebi,
            Species::Treecko => SpeciesDiscriminant::Treecko,
            Species::Grovyle => SpeciesDiscriminant::Grovyle,
            Species::Sceptile(_) => SpeciesDiscriminant::Sceptile,
            Species::Torchic => SpeciesDiscriminant::Torchic,
            Species::Combusken => SpeciesDiscriminant::Combusken,
            Species::Blaziken(_) => SpeciesDiscriminant::Blaziken,
            Species::Mudkip => SpeciesDiscriminant::Mudkip,
            Species::Marshtomp => SpeciesDiscriminant::Marshtomp,
            Species::Swampert(_) => SpeciesDiscriminant::Swampert,
            Species::Poochyena => SpeciesDiscriminant::Poochyena,
            Species::Mightyena => SpeciesDiscriminant::Mightyena,
            Species::Zigzagoon => SpeciesDiscriminant::Zigzagoon,
            Species::Linoone => SpeciesDiscriminant::Linoone,
            Species::Wurmple => SpeciesDiscriminant::Wurmple,
            Species::Silcoon => SpeciesDiscriminant::Silcoon,
            Species::Beautifly => SpeciesDiscriminant::Beautifly,
            Species::Cascoon => SpeciesDiscriminant::Cascoon,
            Species::Dustox => SpeciesDiscriminant::Dustox,
            Species::Lotad => SpeciesDiscriminant::Lotad,
            Species::Lombre => SpeciesDiscriminant::Lombre,
            Species::Ludicolo => SpeciesDiscriminant::Ludicolo,
            Species::Seedot => SpeciesDiscriminant::Seedot,
            Species::Nuzleaf => SpeciesDiscriminant::Nuzleaf,
            Species::Shiftry => SpeciesDiscriminant::Shiftry,
            Species::Taillow => SpeciesDiscriminant::Taillow,
            Species::Swellow => SpeciesDiscriminant::Swellow,
            Species::Wingull => SpeciesDiscriminant::Wingull,
            Species::Pelipper => SpeciesDiscriminant::Pelipper,
            Species::Ralts => SpeciesDiscriminant::Ralts,
            Species::Kirlia => SpeciesDiscriminant::Kirlia,
            Species::Gardevoir(_) => SpeciesDiscriminant::Gardevoir,
            Species::Surskit => SpeciesDiscriminant::Surskit,
            Species::Masquerain => SpeciesDiscriminant::Masquerain,
            Species::Shroomish => SpeciesDiscriminant::Shroomish,
            Species::Breloom => SpeciesDiscriminant::Breloom,
            Species::Slakoth => SpeciesDiscriminant::Slakoth,
            Species::Vigoroth => SpeciesDiscriminant::Vigoroth,
            Species::Slaking => SpeciesDiscriminant::Slaking,
            Species::Nincada => SpeciesDiscriminant::Nincada,
            Species::Ninjask => SpeciesDiscriminant::Ninjask,
            Species::Shedinja => SpeciesDiscriminant::Shedinja,
            Species::Whismur => SpeciesDiscriminant::Whismur,
            Species::Loudred => SpeciesDiscriminant::Loudred,
            Species::Exploud => SpeciesDiscriminant::Exploud,
            Species::Makuhita => SpeciesDiscriminant::Makuhita,
            Species::Hariyama => SpeciesDiscriminant::Hariyama,
            Species::Azurill => SpeciesDiscriminant::Azurill,
            Species::Nosepass => SpeciesDiscriminant::Nosepass,
            Species::Skitty => SpeciesDiscriminant::Skitty,
            Species::Delcatty => SpeciesDiscriminant::Delcatty,
            Species::Sableye(_) => SpeciesDiscriminant::Sableye,
            Species::Mawile(_) => SpeciesDiscriminant::Mawile,
            Species::Aron => SpeciesDiscriminant::Aron,
            Species::Lairon => SpeciesDiscriminant::Lairon,
            Species::Aggron(_) => SpeciesDiscriminant::Aggron,
            Species::Meditite => SpeciesDiscriminant::Meditite,
            Species::Medicham(_) => SpeciesDiscriminant::Medicham,
            Species::Electrike => SpeciesDiscriminant::Electrike,
            Species::Manectric(_) => SpeciesDiscriminant::Manectric,
            Species::Plusle => SpeciesDiscriminant::Plusle,
            Species::Minun => SpeciesDiscriminant::Minun,
            Species::Volbeat => SpeciesDiscriminant::Volbeat,
            Species::Illumise => SpeciesDiscriminant::Illumise,
            Species::Roselia => SpeciesDiscriminant::Roselia,
            Species::Gulpin => SpeciesDiscriminant::Gulpin,
            Species::Swalot => SpeciesDiscriminant::Swalot,
            Species::Carvanha => SpeciesDiscriminant::Carvanha,
            Species::Sharpedo(_) => SpeciesDiscriminant::Sharpedo,
            Species::Wailmer => SpeciesDiscriminant::Wailmer,
            Species::Wailord => SpeciesDiscriminant::Wailord,
            Species::Numel => SpeciesDiscriminant::Numel,
            Species::Camerupt(_) => SpeciesDiscriminant::Camerupt,
            Species::Torkoal => SpeciesDiscriminant::Torkoal,
            Species::Spoink => SpeciesDiscriminant::Spoink,
            Species::Grumpig => SpeciesDiscriminant::Grumpig,
            Species::Spinda => SpeciesDiscriminant::Spinda,
            Species::Trapinch => SpeciesDiscriminant::Trapinch,
            Species::Vibrava => SpeciesDiscriminant::Vibrava,
            Species::Flygon => SpeciesDiscriminant::Flygon,
            Species::Cacnea => SpeciesDiscriminant::Cacnea,
            Species::Cacturne => SpeciesDiscriminant::Cacturne,
            Species::Swablu => SpeciesDiscriminant::Swablu,
            Species::Altaria(_) => SpeciesDiscriminant::Altaria,
            Species::Zangoose => SpeciesDiscriminant::Zangoose,
            Species::Seviper => SpeciesDiscriminant::Seviper,
            Species::Lunatone => SpeciesDiscriminant::Lunatone,
            Species::Solrock => SpeciesDiscriminant::Solrock,
            Species::Barboach => SpeciesDiscriminant::Barboach,
            Species::Whiscash => SpeciesDiscriminant::Whiscash,
            Species::Corphish => SpeciesDiscriminant::Corphish,
            Species::Crawdaunt => SpeciesDiscriminant::Crawdaunt,
            Species::Baltoy => SpeciesDiscriminant::Baltoy,
            Species::Claydol => SpeciesDiscriminant::Claydol,
            Species::Lileep => SpeciesDiscriminant::Lileep,
            Species::Cradily => SpeciesDiscriminant::Cradily,
            Species::Anorith => SpeciesDiscriminant::Anorith,
            Species::Armaldo => SpeciesDiscriminant::Armaldo,
            Species::Feebas => SpeciesDiscriminant::Feebas,
            Species::Milotic => SpeciesDiscriminant::Milotic,
            Species::Castform(_) => SpeciesDiscriminant::Castform,
            Species::Kecleon => SpeciesDiscriminant::Kecleon,
            Species::Shuppet => SpeciesDiscriminant::Shuppet,
            Species::Banette => SpeciesDiscriminant::Banette,
            Species::Duskull => SpeciesDiscriminant::Duskull,
            Species::Dusclops => SpeciesDiscriminant::Dusclops,
            Species::Tropius => SpeciesDiscriminant::Tropius,
            Species::Chimecho => SpeciesDiscriminant::Chimecho,
            Species::Absol => SpeciesDiscriminant::Absol,
            Species::Wynaut => SpeciesDiscriminant::Wynaut,
            Species::Snorunt => SpeciesDiscriminant::Snorunt,
            Species::Glalie => SpeciesDiscriminant::Glalie,
            Species::Spheal => SpeciesDiscriminant::Spheal,
            Species::Sealeo => SpeciesDiscriminant::Sealeo,
            Species::Walrein => SpeciesDiscriminant::Walrein,
            Species::Clamperl => SpeciesDiscriminant::Clamperl,
            Species::Huntail => SpeciesDiscriminant::Huntail,
            Species::Gorebyss => SpeciesDiscriminant::Gorebyss,
            Species::Relicanth => SpeciesDiscriminant::Relicanth,
            Species::Luvdisc => SpeciesDiscriminant::Luvdisc,
            Species::Bagon => SpeciesDiscriminant::Bagon,
            Species::Shelgon => SpeciesDiscriminant::Shelgon,
            Species::Salamence(_) => SpeciesDiscriminant::Salamence,
            Species::Beldum => SpeciesDiscriminant::Beldum,
            Species::Metang => SpeciesDiscriminant::Metang,
            Species::Metagross(_) => SpeciesDiscriminant::Metagross,
            Species::Regirock => SpeciesDiscriminant::Regirock,
            Species::Regice => SpeciesDiscriminant::Regice,
            Species::Registeel => SpeciesDiscriminant::Registeel,
            Species::Latias => SpeciesDiscriminant::Latias,
            Species::Latios => SpeciesDiscriminant::Latios,
            Species::Kyogre(_) => SpeciesDiscriminant::Kyogre,
            Species::Groudon(_) => SpeciesDiscriminant::Groudon,
            Species::Rayquaza(_) => SpeciesDiscriminant::Rayquaza,
            Species::Jirachi => SpeciesDiscriminant::Jirachi,
            Species::Deoxys(_) => SpeciesDiscriminant::Deoxys,
            _ => SpeciesDiscriminant::Bulbasaur,
        }
    }

    /// The species of `s`, without its form, where `s` is of the fourth generation on.
    fn kind_late(s: Species) -> (r: SpeciesDiscriminant)
        ensures
            r == kind_of_late(s),
    {
        match s {
            Species::Turtwig => SpeciesDiscriminant::Turtwig,
            Species::Grotle => SpeciesDiscriminant::Grotle,
            Species::Torterra => SpeciesDiscriminant::Torterra,
            Species::Chimchar => SpeciesDiscriminant::Chimchar,
            Species::Monferno => SpeciesDiscriminant::Monferno,
            Species::Infernape => SpeciesDiscriminant::Infernape,
            Species::Piplup => SpeciesDiscriminant::Piplup,
            Species::Prinplup => SpeciesDiscriminant::Prinplup,
            Species::Empoleon => SpeciesDiscriminant::Empoleon,
            Species::Starly => SpeciesDiscriminant::Starly,
            Species::Staravia => SpeciesDiscriminant::Staravia,
            Species::Staraptor => SpeciesDiscriminant::Staraptor,
            Species::Bidoof => SpeciesDiscriminant::Bidoof,
            Species::Bibarel => SpeciesDiscriminant::Bibarel,
            Species::Kricketot => SpeciesDiscriminant::Kricketot,
            Species::Kricketune => SpeciesDiscriminant::Kricketune,
            Species::Shinx => SpeciesDiscriminant::Shinx,
            Species::Luxio => SpeciesDiscriminant::Luxio,
            Species::Luxray => SpeciesDiscriminant::Luxray,
            Species::Budew => SpeciesDiscriminant::Budew,
            Species::Roserade => SpeciesDiscriminant::Roserade,
            Species::Cranidos => SpeciesDiscriminant::Cranidos,
            Species::Rampardos => SpeciesDiscriminant::Rampardos,
            Species::Shieldon => SpeciesDiscriminant::Shieldon,
            Species::Bastiodon => SpeciesDiscriminant::Bastiodon,
            Species::Burmy => SpeciesDiscriminant::Burmy,
            Species::Wormadam(_) => SpeciesDiscriminant::Wormadam,
            Species::Mothim => SpeciesDiscriminant::Mothim,
            Species::Combee => SpeciesDiscriminant::Combee,
            Species::Vespiquen => SpeciesDiscriminant::Vespiquen,
            Species::Pachirisu => SpeciesDiscriminant::Pachirisu,
            Species::Buizel => SpeciesDiscriminant::Buizel,
            Species::Floatzel => SpeciesDiscriminant::Floatzel,
            Species::Cherubi => SpeciesDiscriminant::Cherubi,
            Species::Cherrim => SpeciesDiscriminant::Cherrim,
            Species::Shellos => SpeciesDiscriminant::Shellos,
            Species::Gastrodon => SpeciesDiscriminant::Gastrodon,
            Species::Ambipom => SpeciesDiscriminant::Ambipom,
            Species::Drifloon => SpeciesDiscriminant::Drifloon,
            Species::Drifblim => SpeciesDiscriminant::Drifblim,
            Species::Buneary => SpeciesDiscriminant::Buneary,
            Species::Lopunny(_) => SpeciesDiscriminant::Lopunny,
            Species::Mismagius => SpeciesDiscriminant::Mismagius,
            Species::Honchkrow => SpeciesDiscriminant::Honchkrow,
            Species::Glameow => SpeciesDiscriminant::Glameow,
            Species::Purugly => SpeciesDiscriminant::Purugly,
            Species::Chingling => SpeciesDiscriminant::Chingling,
            Species::Stunky => SpeciesDiscriminant::Stunky,
            Species::Skuntank => SpeciesDiscriminant::Skuntank,
            Species::Bronzor => SpeciesDiscriminant::Bronzor,
            Species::Bronzong => SpeciesDiscriminant::Bronzong,
            Species::Bonsly => SpeciesDiscriminant::Bonsly,
            Species::MimeJr => SpeciesDiscriminant::MimeJr,
            Species::Happiny => SpeciesDiscriminant::Happiny,
            Species::Chatot => SpeciesDiscriminant::Chatot,
            Species::Spiritomb => SpeciesDiscriminant::Spiritomb,
            Species::Gible => SpeciesDiscriminant::Gible,
            Species::Gabite => SpeciesDiscriminant::Gabite,
            Species::Garchomp(_) => SpeciesDiscriminant::Garchomp,
            Species::Munchlax => SpeciesDiscriminant::Munchlax,
            Species::Riolu => SpeciesDiscriminant::Riolu,
            Species::Lucario(_) => SpeciesDiscriminant::Lucario,
            Species::Hippopotas => SpeciesDiscriminant::Hippopotas,
            Species::Hippowdon => SpeciesDiscriminant::Hippowdon,
            Species::Skorupi => SpeciesDiscriminant::Skorupi,
            Species::Drapion => SpeciesDiscriminant::Drapion,
            Species::Croagunk => SpeciesDiscriminant::Croagunk,
            Species::Toxicroak => SpeciesDiscriminant::Toxicroak,
            Species::Carnivine => SpeciesDiscriminant::Carnivine,
            Species::Finneon => SpeciesDiscriminant::Finneon,
            Species::Lumineon => SpeciesDiscriminant::Lumineon,
            Species::Mantyke => SpeciesDiscriminant::Mantyke,
            Species::Snover => SpeciesDiscriminant::Snover,
            Species::Abomasnow(_) => SpeciesDiscriminant::Abomasnow,
            Species::Weavile => SpeciesDiscriminant::Weavile,
            Species::Magnezone => SpeciesDiscriminant::Magnezone,
            Species::Lickilicky => SpeciesDiscriminant::Lickilicky,
            Species::Rhyperior => SpeciesDiscriminant::Rhyperior,
            Species::Tangrowth => SpeciesDiscriminant::Tangrowth,
            Species::Electivire => SpeciesDiscriminant::Electivire,
            Species::Magmortar => SpeciesDiscriminant::Magmortar,
            Species::Togekiss => SpeciesDiscriminant::Togekiss,
            Species::Yanmega => SpeciesDiscriminant::Yanmega,
            Species::Leafeon => SpeciesDiscriminant::Leafeon,
            Species::Glaceon => SpeciesDiscriminant::Glaceon,
            Species::Gliscor => SpeciesDiscriminant::Gliscor,
            Species::Mamoswine => SpeciesDiscriminant::Mamoswine,
            Species::PorygonZ => SpeciesDiscriminant::PorygonZ,
            Species::Gallade(_) => SpeciesDiscriminant::Gallade,
            Species::Probopass => SpeciesDiscriminant::Probopass,
            Species::Dusknoir => SpeciesDiscriminant::Dusknoir,
            Species::Froslass => SpeciesDiscriminant::Froslass,
            Species::Rotom(_) => SpeciesDiscriminant::Rotom,
            Species::Uxie => SpeciesDiscriminant::Uxie,
            Species::Mesprit => SpeciesDiscriminant::Mesprit,
            Species::Azelf => SpeciesDiscriminant::Azelf,
            Species::Dialga => SpeciesDiscriminant::Dialga,
            Species::Palkia => SpeciesDiscriminant::Palkia,
            Species::Heatran => SpeciesDiscriminant::Heatran,
            Species::Regigigas => SpeciesDiscriminant::Regigigas,
            Species::Giratina(_) => SpeciesDiscriminant::Giratina,
            Species::Cresselia => SpeciesDiscriminant::Cresselia,
            Species::Phione => SpeciesDiscriminant::Phione,
            Species::Manaphy => SpeciesDiscriminant::Manaphy,
            Species::Darkrai => SpeciesDiscriminant::Darkrai,
            Species::Shaymin(_) => SpeciesDiscriminant::Shaymin,
            Species::Arceus(_) => SpeciesDiscriminant::Arceus,
            Species::Victini => SpeciesDiscriminant::Victini,
            Species::Snivy => SpeciesDiscriminant::Snivy,
            Species::Servine => SpeciesDiscriminant::Servine,
            Species::Serperior => SpeciesDiscriminant::Serperior,
            Species::Tepig => SpeciesDiscriminant::Tepig,
            Species::Pignite => SpeciesDiscriminant::Pignite,
            Species::Emboar => SpeciesDiscriminant::Emboar,
            Species::Oshawott => SpeciesDiscriminant::Oshawott,
            Species::Dewott => SpeciesDiscriminant::Dewott,
            Species::Samurott => SpeciesDiscriminant::Samurott,
            Species::Patrat => SpeciesDiscriminant::Patrat,
            Species::Watchog => SpeciesDiscriminant::Watchog,
            Species::Lillipup => SpeciesDiscriminant::Lillipup,
            Species::Herdier => SpeciesDiscriminant::Herdier,
            Species::Stoutland => SpeciesDiscriminant::Stoutland,
            Species::Purrloin => SpeciesDiscriminant::Purrloin,
            Species::Liepard => SpeciesDiscriminant::Liepard,
            Species::Pansage => SpeciesDiscriminant::Pansage,
            Species::Simisage => SpeciesDiscriminant::Simisage,
            Species::Pansear => SpeciesDiscriminant::Pansear,
            Species::Simisear => SpeciesDiscriminant::Simisear,
            Species::Panpour => SpeciesDiscriminant::Panpour,
            Species::Simipour => SpeciesDiscriminant::Simipour,
            Species::Munna => SpeciesDiscriminant::Munna,
            Species::Musharna => SpeciesDiscriminant::Musharna,
            Species::Pidove => SpeciesDiscriminant::Pidove,
            Species::Tranquill => SpeciesDiscriminant::Tranquill,
            Species::Unfezant => SpeciesDiscriminant::Unfezant,
            Species::Blitzle => SpeciesDiscriminant::Blitzle,
            Species::Zebstrika => SpeciesDiscriminant::Zebstrika,
            Species::Roggenrola => SpeciesDiscriminant::Roggenrola,
            Species::Boldore => SpeciesDiscriminant::Boldore,
            Species::Gigalith => SpeciesDiscriminant::Gigalith,
            Species::Woobat => SpeciesDiscriminant::Woobat,
            Species::Swoobat => SpeciesDiscriminant::Swoobat,
            Species::Drilbur => SpeciesDiscriminant::Drilbur,
            Species::Excadrill => SpeciesDiscriminant::Excadrill,
            Species::Audino => SpeciesDiscriminant::Audino,
            Species::Timburr => SpeciesDiscriminant::Timburr,
            Species::Gurdurr => SpeciesDiscriminant::Gurdurr,
            Species::Conkeldurr => SpeciesDiscriminant::Conkeldurr,
            Species::Tympole => SpeciesDiscriminant::Tympole,
            Species::Palpitoad => SpeciesDiscriminant::Palpitoad,
            Species::Seismitoad => SpeciesDiscriminant::Seismitoad,
            Species::Throh => SpeciesDiscriminant::Throh,
            Species::Sawk => SpeciesDiscriminant::Sawk,
            Species::Sewaddle => SpeciesDiscriminant::Sewaddle,
            Species::Swadloon => SpeciesDiscriminant::Swadloon,
            Species::Leavanny => SpeciesDiscriminant::Leavanny,
            Species::Venipede => SpeciesDiscriminant::Venipede,
            Species::Whirlipede => SpeciesDiscriminant::Whirlipede,
            Species::Scolipede => SpeciesDiscriminant::Scolipede,
            Species::Cottonee => SpeciesDiscriminant::Cottonee,
            Species::Whimsicott => SpeciesDiscriminant::Whimsicott,
            Species::Petilil => SpeciesDiscriminant::Petilil,
            Species::Lilligant => SpeciesDiscriminant::Lilligant,
            Species::Basculin => SpeciesDiscriminant::Basculin,
            Species::Sandile => SpeciesDiscriminant::Sandile,
            Species::Krokorok => SpeciesDiscriminant::Krokorok,
            Species::Krookodile => SpeciesDiscriminant::Krookodile,
            Species::Darumaka => SpeciesDiscriminant::Darumaka,
            Species::Darmanitan(_) => SpeciesDiscriminant::Darmanitan,
            Species::Maractus => SpeciesDiscriminant::Maractus,
            Species::Dwebble => SpeciesDiscriminant::Dwebble,
            Species::Crustle => SpeciesDiscriminant::Crustle,
            Species::Scraggy => SpeciesDiscriminant::Scraggy,
            Species::Scrafty => SpeciesDiscriminant::Scrafty,
            Species::Sigilyph => SpeciesDiscriminant::Sigilyph,
            Species::Yamask => SpeciesDiscriminant::Yamask,
            Species::Cofagrigus => SpeciesDiscriminant::Cofagrigus,
            Species::Tirtouga => SpeciesDiscriminant::Tirtouga,
            Species::Carracosta => SpeciesDiscriminant::Carracosta,
            Species::Archen => SpeciesDiscriminant::Archen,
            Species::Archeops => SpeciesDiscriminant::Archeops,
            Species::Trubbish => SpeciesDiscriminant::Trubbish,
            Species::Garbodor => SpeciesDiscriminant::Garbodor,
            Species::Zorua => SpeciesDiscriminant::Zorua,
            Species::Zoroark => SpeciesDiscriminant::Zoroark,
            Species::Minccino => SpeciesDiscriminant::Minccino,
            Species::Cinccino => SpeciesDiscriminant::Cinccino,
            Species::Gothita => SpeciesDiscriminant::Gothita,
            Species::Gothorita => SpeciesDiscriminant::Gothorita,
            Species::Gothitelle => SpeciesDiscriminant::Gothitelle,
            Species::Solosis => SpeciesDiscriminant::Solosis,
            Species::Duosion => SpeciesDiscriminant::Duosion,
            Species::Reuniclus => SpeciesDiscriminant::Reuniclus,
            Species::Ducklett => SpeciesDiscriminant::Ducklett,
            Species::Swanna => SpeciesDiscriminant::Swanna,
            Species::Vanillite => SpeciesDiscriminant::Vanillite,
            Species::Vanillish => SpeciesDiscriminant::Vanillish,
            Species::Vanilluxe => SpeciesDiscriminant::Vanilluxe,
            Species::Deerling => SpeciesDiscriminant::Deerling,
            Species::Sawsbuck => SpeciesDiscriminant::Sawsbuck,
            Species::Emolga => SpeciesDiscriminant::Emolga,
            Species::Karrablast => SpeciesDiscriminant::Karrablast,
            Species::Escavalier => SpeciesDiscriminant::Escavalier,
            Species::Foongus => SpeciesDiscriminant::Foongus,
            Species::Amoonguss => SpeciesDiscriminant::Amoonguss,
            Species::Frillish => SpeciesDiscriminant::Frillish,
            Species::Jellicent => SpeciesDiscriminant::Jellicent,
            Species::Alomomola => SpeciesDiscriminant::Alomomola,
            Species::Joltik => SpeciesDiscriminant::Joltik,
            Species::Galvantula => SpeciesDiscriminant::Galvantula,
            Species::Ferroseed => SpeciesDiscriminant::Ferroseed,
            Species::Ferrothorn => SpeciesDiscriminant::Ferrothorn,
            Species::Klink => SpeciesDiscriminant::Klink,
            Species::Klang => SpeciesDiscriminant::Klang,
            Species::Klinklang => SpeciesDiscriminant::Klinklang,
            Species::Tynamo => SpeciesDiscriminant::Tynamo,
            Species::Eelektrik => SpeciesDiscriminant::Eelektrik,
            Species::Eelektross => SpeciesDiscriminant::Eelektross,
            Species::Elgyem => SpeciesDiscriminant::Elgyem,
            Species::Beheeyem => SpeciesDiscriminant::Beheeyem,
            Species::Litwick => SpeciesDiscriminant::Litwick,
            Species::Lampent => SpeciesDiscriminant::Lampent,
            Species::Chandelure => SpeciesDiscriminant::Chandelure,
            Species::Axew => SpeciesDiscriminant::Axew,
            Species::Fraxure => SpeciesDiscriminant::Fraxure,
            Species::Haxorus => SpeciesDiscriminant::Haxorus,
            Species::Cubchoo => SpeciesDiscriminant::Cubchoo,
            Species::Beartic => SpeciesDiscriminant::Beartic,
            Species::Cryogonal => SpeciesDiscriminant::Cryogonal,
            Species::Shelmet => SpeciesDiscriminant::Shelmet,
            Species::Accelgor => SpeciesDiscriminant::Accelgor,
            Species::Stunfisk => SpeciesDiscriminant::Stunfisk,
            Species::Mienfoo => SpeciesDiscriminant::Mienfoo,
            Species::Mienshao => SpeciesDiscriminant::Mienshao,
            Species::Druddigon => SpeciesDiscriminant::Druddigon,
            Species::Golett => SpeciesDiscriminant::Golett,
            Species::Golurk => SpeciesDiscriminant::Golurk,
            Species::Pawniard => SpeciesDiscriminant::Pawniard,
            Species::Bisharp => SpeciesDiscriminant::Bisharp,
            Species::Bouffalant => SpeciesDiscriminant::Bouffalant,
            Species::Rufflet => SpeciesDiscriminant::Rufflet,
            Species::Braviary => SpeciesDiscriminant::Braviary,
            Species::Vullaby => SpeciesDiscriminant::Vullaby,
            Species::Mandibuzz => SpeciesDiscriminant::Mandibuzz,
            Species::Heatmor => SpeciesDiscriminant::Heatmor,
            Species::Durant => SpeciesDiscriminant::Durant,
            Species::Deino => SpeciesDiscriminant::Deino,
            Species::Zweilous => SpeciesDiscriminant::Zweilous,
            Species::Hydreigon => SpeciesDiscriminant::Hydreigon,
            Species::Larvesta => SpeciesDiscriminant::Larvesta,
            Species::Volcarona => SpeciesDiscriminant::Volcarona,
            Species::Cobalion => SpeciesDiscriminant::Cobalion,
            Species::Terrakion => SpeciesDiscriminant::Terrakion,
            Species::Virizion => SpeciesDiscriminant::Virizion,
            Species::Tornadus(_) => SpeciesDiscriminant::Tornadus,
            Species::Thundurus(_) => SpeciesDiscriminant::Thundurus,
            Species::Reshiram => SpeciesDiscriminant::Reshiram,
            Species::Zekrom => SpeciesDiscriminant::Zekrom,
            Species::Landorus(_) => SpeciesDiscriminant::Landorus,
            Species::Kyurem(_) => SpeciesDiscriminant::Kyurem,
            Species::Keldeo => SpeciesDiscriminant::Keldeo,
            Species::Meloetta(_) => SpeciesDiscriminant::Meloetta,
            Species::Genesect => SpeciesDiscriminant::Genesect,
            Species::Chespin => SpeciesDiscriminant::Chespin,
            Species::Quilladin => SpeciesDiscriminant::Quilladin,
            Species::Chesnaught => SpeciesDiscriminant::Chesnaught,
            Species::Fennekin => SpeciesDiscriminant::Fennekin,
            Species::Braixen => SpeciesDiscriminant::Braixen,
            Species::Delphox => SpeciesDiscriminant::Delphox,
            Species::Froakie => SpeciesDiscriminant::Froakie,
            Species::Frogadier => SpeciesDiscriminant::Frogadier,
            Species::Greninja(_) => SpeciesDiscriminant::Greninja,
            Species::Bunnelby => SpeciesDiscriminant::Bunnelby,
            Species::Diggersby => SpeciesDiscriminant::Diggersby,
            Species::Fletchling => SpeciesDiscriminant::Fletchling,
            Species::Fletchinder => SpeciesDiscriminant::Fletchinder,
            Species::Talonflame => SpeciesDiscriminant::Talonflame,
            Species::Scatterbug => SpeciesDiscriminant::Scatterbug,
            Species::Spewpa => SpeciesDiscriminant::Spewpa,
            Species::Vivillon => SpeciesDiscriminant::Vivillon,
            Species::Litleo => SpeciesDiscriminant::Litleo,
            Species::Pyroar => SpeciesDiscriminant::Pyroar,
            Species::Flabebe => SpeciesDiscriminant::Flabebe,
            Species::Floette => SpeciesDiscriminant::Floette,
            Species::Florges => SpeciesDiscriminant::Florges,
            Species::Skiddo => SpeciesDiscriminant::Skiddo,
            Species::Gogoat => SpeciesDiscriminant::Gogoat,
            Species::Pancham => SpeciesDiscriminant::Pancham,
            Species::Pangoro => SpeciesDiscriminant::Pangoro,
            Species::Furfrou => SpeciesDiscriminant::Furfrou,
            Species::Espurr => SpeciesDiscriminant::Espurr,
            Species::Meowstic => SpeciesDiscriminant::Meowstic,
            Species::Honedge => SpeciesDiscriminant::Honedge,
            Species::Doublade => SpeciesDiscriminant::Doublade,
            Species::Aegislash(_) => SpeciesDiscriminant::Aegislash,
            Species::Spritzee => SpeciesDiscriminant::Spritzee,
            Species::Aromatisse => SpeciesDiscriminant::Aromatisse,
            Species::Swirlix => SpeciesDiscriminant::Swirlix,
            Species::Slurpuff => SpeciesDiscriminant::Slurpuff,
            Species::Inkay => SpeciesDiscriminant::Inkay,
            Species::Malamar => SpeciesDiscriminant::Malamar,
            Species::Binacle => SpeciesDiscriminant::Binacle,
            Species::Barbaracle => SpeciesDiscriminant::Barbaracle,
            Species::Skrelp => SpeciesDiscriminant::Skrelp,
            Species::Dragalge => SpeciesDiscriminant::Dragalge,
            Species::Clauncher => SpeciesDiscriminant::Clauncher,
            Species::Clawitzer => SpeciesDiscriminant::Clawitzer,
            Species::Helioptile => SpeciesDiscriminant::Helioptile,
            Species::Heliolisk => SpeciesDiscriminant::Heliolisk,
            Species::Tyrunt => SpeciesDiscriminant::Tyrunt,
            Species::Tyrantrum => SpeciesDiscriminant::Tyrantrum,
            Species::Amaura => SpeciesDiscriminant::Amaura,
            Species::Aurorus => SpeciesDiscriminant::Aurorus,
            Species::Sylveon => SpeciesDiscriminant::Sylveon,
            Species::Hawlucha => SpeciesDiscriminant::Hawlucha,
            Species::Dedenne => SpeciesDiscriminant::Dedenne,
            Species::Carbink => SpeciesDiscriminant::Carbink,
            Species::Goomy => SpeciesDiscriminant::Goomy,
            Species::Sliggoo => SpeciesDiscriminant::Sliggoo,
            Species::Goodra => SpeciesDiscriminant::Goodra,
            Species::Klefki => SpeciesDiscriminant::Klefki,
            Species::Phantump => SpeciesDiscriminant::Phantump,
            Species::Trevenant => SpeciesDiscriminant::Trevenant,
            Species::Pumpkaboo(_) => SpeciesDiscriminant::Pumpkaboo,
            Species::Gourgeist(_) => SpeciesDiscriminant::Gourgeist,
            Species::Bergmite => SpeciesDiscriminant::Bergmite,
            Species::Avalugg => SpeciesDiscriminant::Avalugg,
            Species::Noibat => SpeciesDiscriminant::Noibat,
            Species::Noivern => SpeciesDiscriminant::Noivern,
            Species::Xerneas => SpeciesDiscriminant::Xerneas,
            Species::Yveltal => SpeciesDiscriminant::Yveltal,
            Species::Zygarde(_) => SpeciesDiscriminant::Zygarde,
            Species::Diancie(_) => SpeciesDiscriminant::Diancie,
            Species::Hoopa(_) => SpeciesDiscriminant::Hoopa,
            Species::Volcanion => SpeciesDiscriminant::Volcanion,
            Species::Rowlet => SpeciesDiscriminant::Rowlet,
            Species::Dartrix => SpeciesDiscriminant::Dartrix,
            Species::Decidueye => SpeciesDiscriminant::Decidueye,
            Species::Litten => SpeciesDiscriminant::Litten,
            Species::Torracat => SpeciesDiscriminant::Torracat,
            Species::Incineroar => SpeciesDiscriminant::Incineroar,
            Species::Popplio => SpeciesDiscriminant::Popplio,
            Species::Brionne => SpeciesDiscriminant::Brionne,
            Species::Primarina => SpeciesDiscriminant::Primarina,
            Species::Pikipek => SpeciesDiscriminant::Pikipek,
            Species::Trumbeak => SpeciesDiscriminant::Trumbeak,
            Species::Toucannon => SpeciesDiscriminant::Toucannon,
            Species::Yungoos => SpeciesDiscriminant::Yungoos,
            Species::Gumshoos => SpeciesDiscriminant::Gumshoos,
            Species::Grubbin => SpeciesDiscriminant::Grubbin,
            Species::Charjabug => SpeciesDiscriminant::Charjabug,
            Species::Vikavolt => SpeciesDiscriminant::Vikavolt,
            Species::Crabrawler => SpeciesDiscriminant::Crabrawler,
            Species::Crabominable => SpeciesDiscriminant::Crabominable,
            Species::Oricorio(_) => SpeciesDiscriminant::Oricorio,
            Species::Cutiefly => SpeciesDiscriminant::Cutiefly,
            Species::Ribombee => SpeciesDiscriminant::Ribombee,
            Species::Rockruff => SpeciesDiscriminant::Rockruff,
            Species::Lycanroc(_) => SpeciesDiscriminant::Lycanroc,
            Species::Wishiwashi(_) => SpeciesDiscriminant::Wishiwashi,
            Species::Mareanie => SpeciesDiscriminant::Mareanie,
            Species::Toxapex => SpeciesDiscriminant::Toxapex,
            Species::Mudbray => SpeciesDiscriminant::Mudbray,
            Species::Mudsdale => SpeciesDiscriminant::Mudsdale,
            Species::Dewpider => SpeciesDiscriminant::Dewpider,
            Species::Araquanid => SpeciesDiscriminant::Araquanid,
            Species::Fomantis => SpeciesDiscriminant::Fomantis,
            Species::Lurantis => SpeciesDiscriminant::Lurantis,
            Species::Morelull => SpeciesDiscriminant::Morelull,
            Species::Shiinotic => SpeciesDiscriminant::Shiinotic,
            Species::Salandit => SpeciesDiscriminant::Salandit,
            Species::Salazzle => SpeciesDiscriminant::Salazzle,
            Species::Stufful => SpeciesDiscriminant::Stufful,
            Species::Bewear => SpeciesDiscriminant::Bewear,
            Species::Bounsweet => SpeciesDiscriminant::Bounsweet,
            Species::Steenee => SpeciesDiscriminant::Steenee,
            Species::Tsareena => SpeciesDiscriminant::Tsareena,
            Species::Comfey => SpeciesDiscriminant::Comfey,
            Species::Oranguru => SpeciesDiscriminant::Oranguru,
            Species::Passimian => SpeciesDiscriminant::Passimian,
            Species::Wimpod => SpeciesDiscriminant::Wimpod,
            Species::Golisopod => SpeciesDiscriminant::Golisopod,
            Species::Sandygast => SpeciesDiscriminant::Sandygast,
            Species::Palossand => SpeciesDiscriminant::Palossand,
            Species::Pyukumuku => SpeciesDiscriminant::Pyukumuku,
            Species::TypeNull(_) => SpeciesDiscriminant::TypeNull,
            Species::Silvally(_) => SpeciesDiscriminant::Silvally,
            Species::Minior(_) => SpeciesDiscriminant::Minior,
            Species::Komala => SpeciesDiscriminant::Komala,
            Species::Turtonator => SpeciesDiscriminant::Turtonator,
            Species::Togedemaru => SpeciesDiscriminant::Togedemaru,
            Species::Mimikyu(_) => SpeciesDiscriminant::Mimikyu,
            Species::Bruxish => SpeciesDiscriminant::Bruxish,
            Species::Drampa => SpeciesDiscriminant::Drampa,
            Species::Dhelmise => SpeciesDiscriminant::Dhelmise,
            Species::JangmoO => SpeciesDiscriminant::JangmoO,
            Species::HakamoO => SpeciesDiscriminant::HakamoO,
            Species::KommoO => SpeciesDiscriminant::KommoO,
            Species::TapuKoko => SpeciesDiscriminant::TapuKoko,
            Species::TapuLele => SpeciesDiscriminant::TapuLele,
            Species::TapuBulu => SpeciesDiscriminant::TapuBulu,
            Species::TapuFini => SpeciesDiscriminant::TapuFini,
            Species::Cosmog => SpeciesDiscriminant::Cosmog,
            Species::Cosmoem => SpeciesDiscriminant::Cosmoem,
            Species::Solgaleo => SpeciesDiscriminant::Solgaleo,
            Species::Lunala => SpeciesDiscriminant::Lunala,
            Species::Nihilego => SpeciesDiscriminant::Nihilego,
            Species::Buzzwole => SpeciesDiscriminant::Buzzwole,
            Species::Pheromosa => SpeciesDiscriminant::Pheromosa,
            Species::Xurkitree => SpeciesDiscriminant::Xurkitree,
            Species::Celesteela => SpeciesDiscriminant::Celesteela,
            Species::Kartana => SpeciesDiscriminant::Kartana,
            Species::Guzzlord => SpeciesDiscriminant::Guzzlord,
            Species::Necrozma(_) => SpeciesDiscriminant::Necrozma,
            Species::Magearna => SpeciesDiscriminant::Magearna,
            Species::Marshadow => SpeciesDiscriminant::Marshadow,
            Species::Poipole => SpeciesDiscriminant::Poipole,
            Species::Naganadel => SpeciesDiscriminant::Naganadel,
            Species::Stakataka => SpeciesDiscriminant::Stakataka,
            Species::Blacephalon => SpeciesDiscriminant::Blacephalon,
            Species::Zeraora => SpeciesDiscriminant::Zeraora,
            _ => SpeciesDiscriminant::Bulbasaur,
        }
    }

    /// The species at position `i` of dex order.
    fn from_index(i: u16) -> (r: SpeciesDiscriminant)
        requires
            i < 807,
        ensures
            r == species_at(i as int),
    {
        if i < 403 {
            if i < 201 {
                if i < 100 {
                    if i < 50 {
                        if i < 25 {
                            if i < 12 {
                                if i < 6 {
                                    if i < 3 {
                                        if i < 1 {
                                            SpeciesDiscriminant::Bulbasaur
                                        } else {
                                            if i < 2 {
                                                SpeciesDiscriminant::Ivysaur
                                            } else {
                                                SpeciesDiscriminant::Venusaur
                                            }
                                        }
                                    } else {
                                        if i < 4 {
                                            SpeciesDiscriminant::Charmander
                                        } else {
                                            if i < 5 {
                                                SpeciesDiscriminant::Charmeleon
                                            } else {
                                                SpeciesDiscriminant::Charizard
                                            }
                                        }
                                    }
                                } else {
                                    if i < 9 {
                                        if i < 7 {
                                            SpeciesDiscriminant::Squirtle
                                        } else {
                                            if i < 8 {
                                                SpeciesDiscriminant::Wartortle
                                            } else {
                                                SpeciesDiscriminant::Blastoise
                                            }
                                        }
                                    } else {
                                        if i < 10 {
                                            SpeciesDiscriminant::Caterpie
                                        } else {
                                            if i < 11 {
                                                SpeciesDiscriminant::Metapod
                                            } else {
                                                SpeciesDiscriminant::Butterfree
                                            }
                                        }
                                    }
                                }
                            } else {
                                if i < 18 {
                                    if i < 15 {
                                        if i < 13 {
                                            SpeciesDiscriminant::Weedle
                                        } else {
                                            if i < 14 {
                                                SpeciesDiscriminant::Kakuna
                                            } else {
                                                SpeciesDiscriminant::Beedrill
                                            }
                                        }
                                    } else {
                                        if i < 16 {
                                            SpeciesDiscriminant::Pidgey
                                        } else {
                                            if i < 17 {
                                                SpeciesDiscriminant::Pidgeotto
                                            } else {
                                                SpeciesDiscriminant::Pidgeot
                                            }
                                        }
                                    }
                                } else {
                                    if i < 21 {
                                        if i < 19 {
                                            SpeciesDiscriminant::Rattata
                                        } else {
                                            if i < 20 {
                                                SpeciesDiscriminant::Raticate
                                            } else {
                                                SpeciesDiscriminant::Spearow
                                            }
                                        }
                                    } else {
                                        if i < 23 {
                                            if i < 22 {
                                                SpeciesDiscriminant::Fearow
                                            } else {
                                                SpeciesDiscriminant::Ekans
                                            }
                                        } else {
                                            if i < 24 {
                                                SpeciesDiscriminant::Arbok
                                            } else {
                                                SpeciesDiscriminant::Pikachu
                                            }
                                        }
                                    }
                                }
                            }
                        } else {
                            if i < 37 {
                                if i < 31 {
                                    if i < 28 {
                                        if i < 26 {
                                            SpeciesDiscriminant::Raichu
                                        } else {
                                            if i < 27 {
                                                SpeciesDiscriminant::Sandshrew
                                            } else {
                                                SpeciesDiscriminant::Sandslash
                                            }
                                        }
                                    } else {
                                        if i < 29 {
                                            SpeciesDiscriminant::NidoranF
                                        } else {
                                            if i < 30 {
                                                SpeciesDiscriminant::Nidorina
                                            } else {
                                                SpeciesDiscriminant::Nidoqueen
                                            }
                                        }
                                    }
                                } else {
                                    if i < 34 {
                                        if i < 32 {
                                            SpeciesDiscriminant::NidoranM
                                        } else {
                                            if i < 33 {
                                                SpeciesDiscriminant::Nidorino
                                            } else {
                                                SpeciesDiscriminant::Nidoking
                                            }
                                        }
                                    } else {
                                        if i < 35 {
                                            SpeciesDiscriminant::Clefairy
                                        } else {
                                            if i < 36 {
                                                SpeciesDiscriminant::Clefable
                                            } else {
                                                SpeciesDiscriminant::Vulpix
                                            }
                                        }
                                    }
                                }
                            } else {
                                if i < 43 {
                                    if i < 40 {
                                        if i < 38 {
                                            SpeciesDiscriminant::Ninetales
                                        } else {
                                            if i < 39 {
                                                SpeciesDiscriminant::Jigglypuff
                                            } else {
                                                SpeciesDiscriminant::Wigglytuff
                                            }
                                        }
                                    } else {
                                        if i < 41 {
                                            SpeciesDiscriminant::Zubat
                                        } else {
                                            if i < 42 {
                                                SpeciesDiscriminant::Golbat
                                            } else {
                                                SpeciesDiscriminant::Oddish
                                            }
                                        }
                                    }
                                } else {
                                    if i < 46 {
                                        if i < 44 {
                                            SpeciesDiscriminant::Gloom
                                        } else {
                                            if i < 45 {
                                                SpeciesDiscriminant::Vileplume
                                            } else {
                                                SpeciesDiscriminant::Paras
                                            }
                                        }
                                    } else {
                                        if i < 48 {
                                            if i < 47 {
                                                SpeciesDiscriminant::Parasect
                                            } else {
                                                SpeciesDiscriminant::Venonat
                                            }
                                        } else {
                                            if i < 49 {
                                                SpeciesDiscriminant::Venomoth
                                            } else {
                                                SpeciesDiscriminant::Diglett
                                            }
                                        }
                                    }
                                }
                            }
                        }
                    } else {
                        if i < 75 {
                            if i < 62 {
                                if i < 56 {
                                    if i < 53 {
                                        if i < 51 {
                                            SpeciesDiscriminant::Dugtrio
                                        } else {
                                            if i < 52 {
                                                SpeciesDiscriminant::Meowth
                                            } else {
                                                SpeciesDiscriminant::Persian
                                            }
                                        }
                                    } else {
                                        if i < 54 {
                                            SpeciesDiscriminant::Psyduck
                                        } else {
                                            if i < 55 {
                                                SpeciesDiscriminant::Golduck
                                            } else {
                                                SpeciesDiscriminant::Mankey
                                            }
                                        }
                                    }
                                } else {
                                    if i < 59 {
                                        if i < 57 {
                                            SpeciesDiscriminant::Primeape
                                        } else {
                                            if i < 58 {
                                                SpeciesDiscriminant::Growlithe
                                            } else {
                                                SpeciesDiscriminant::Arcanine
                                            }
                                        }
                                    } else {
                                        if i < 60 {
                                            SpeciesDiscriminant::Poliwag
                                        } else {
                                            if i < 61 {
                                                SpeciesDiscriminant::Poliwhirl
                                            } else {
                                                SpeciesDiscriminant::Poliwrath
                                            }
                                        }
                                    }
                                }
                            } else {
                                if i < 68 {
                                    if i < 65 {
                                        if i < 63 {
                                            SpeciesDiscriminant::Abra
                                        } else {
                                            if i < 64 {
                                                SpeciesDiscriminant::Kadabra
                                            } else {
                                                SpeciesDiscriminant::Alakazam
                                            }
                                        }
                                    } else {
                                        if i < 66 {
                                            SpeciesDiscriminant::Machop
                                        } else {
                                            if i < 67 {
                                                SpeciesDiscriminant::Machoke
                                            } else {
                                                SpeciesDiscriminant::Machamp
                                            }
                                        }
                                    }
                                } else {
                                    if i < 71 {
                                        if i < 69 {
                                            SpeciesDiscriminant::Bellsprout
                                        } else {
                                            if i < 70 {
                                                SpeciesDiscriminant::Weepinbell
                                            } else {
                                                SpeciesDiscriminant::Victreebel
                                            }
                                        }
                                    } else {
                                        if i < 73 {
                                            if i < 72 {
                                                SpeciesDiscriminant::Tentacool
                                            } else {
                                                SpeciesDiscriminant::Tentacruel
                                            }
                                        } else {
                                            if i < 74 {
                                                SpeciesDiscriminant::Geodude
                                            } else {
                                                SpeciesDiscriminant::Graveler
                                            }
                                        }
                                    }
                                }
                            }
                        } else {
                            if i < 87 {
                                if i < 81 {
                                    if i < 78 {
                                        if i < 76 {
                                            SpeciesDiscriminant::Golem
                                        } else {
                                            if i < 77 {
                                                SpeciesDiscriminant::Ponyta
                                            } else {
                                                SpeciesDiscriminant::Rapidash
                                            }
                                        }
                                    } else {
                                        if i < 79 {
                                            SpeciesDiscriminant::Slowpoke
                                        } else {
                                            if i < 80 {
                                                SpeciesDiscriminant::Slowbro
                                            } else {
                                                SpeciesDiscriminant::Magnemite
                                            }
                                        }
                                    }
                                } else {
                                    if i < 84 {
                                        if i < 82 {
                                            SpeciesDiscriminant::Magneton
                                        } else {
                                            if i < 83 {
                                                SpeciesDiscriminant::Farfetchd
                                            } else {
                                                SpeciesDiscriminant::Doduo
                                            }
                                        }
                                    } else {
                                        if i < 85 {
                                            SpeciesDiscriminant::Dodrio
                                        } else {
                                            if i < 86 {
                                                SpeciesDiscriminant::Seel
                                            } else {
                                                SpeciesDiscriminant::Dewgong
                                            }
                                        }
                                    }
                                }
                            } else {
                                if i < 93 {
                                    if i < 90 {
                                        if i < 88 {
                                            SpeciesDiscriminant::Grimer
                                        } else {
                                            if i < 89 {
                                                SpeciesDiscriminant::Muk
                                            } else {
                                                SpeciesDiscriminant::Shellder
                                            }
                                        }
                                    } else {
                                        if i < 91 {
                                            SpeciesDiscriminant::Cloyster
                                        } else {
                                            if i < 92 {
                                                SpeciesDiscriminant::Gastly
                                            } else {
                                                SpeciesDiscriminant::Haunter
                                            }
                                        }
                                    }
                                } else {
                                    if i < 96 {
                                        if i < 94 {
                                            SpeciesDiscriminant::Gengar
                                        } else {
                                            if i < 95 {
                                                SpeciesDiscriminant::Onix
                                            } else {
                                                SpeciesDiscriminant::Drowzee
                                            }
                                        }
                                    } else {
                                        if i < 98 {
                                            if i < 97 {
                                                SpeciesDiscriminant::Hypno
                                            } else {
                                                SpeciesDiscriminant::Krabby
                                            }
                                        } else {
                                            if i < 99 {
                                                SpeciesDiscriminant::Kingler
                                            } else {
                                                SpeciesDiscriminant::Voltorb
                                            }
                                        }
                                    }
                                }
                            }
                        }
                    }
                } else {
                    if i < 150 {
                        if i < 125 {
                            if i < 112 {
                                if i < 106 {
                                    if i < 103 {
                                        if i < 101 {
                                            SpeciesDiscriminant::Electrode
                                        } else {
                                            if i < 102 {
                                                SpeciesDiscriminant::Exeggcute
                                            } else {
                                                SpeciesDiscriminant::Exeggutor
                                            }
                                        }
                                    } else {
                                        if i < 104 {
                                            SpeciesDiscriminant::Cubone
                                        } else {
                                            if i < 105 {
                                                SpeciesDiscriminant::Marowak
                                            } else {
                                                SpeciesDiscriminant::Hitmonlee
                                            }
                                        }
                                    }
                                } else {
                                    if i < 109 {
                                        if i < 107 {
                                            SpeciesDiscriminant::Hitmonchan
                                        } else {
                                            if i < 108 {
                                                SpeciesDiscriminant::Lickitung
                                            } else {
                                                SpeciesDiscriminant::Koffing
                                            }
                                        }
                                    } else {
                                        if i < 110 {
                                            SpeciesDiscriminant::Weezing
                                        } else {
                                            if i < 111 {
                                                SpeciesDiscriminant::Rhyhorn
                                            } else {
                                                SpeciesDiscriminant::Rhydon
                                            }
                                        }
                                    }
                                }
                            } else {
                                if i < 118 {
                                    if i < 115 {
                                        if i < 113 {
                                            SpeciesDiscriminant::Chansey
                                        } else {
                                            if i < 114 {
                                                SpeciesDiscriminant::Tangela
                                            } else {
                                                SpeciesDiscriminant::Kangaskhan
                                            }
                                        }
                                    } else {
                                        if i < 116 {
                                            SpeciesDiscriminant::Horsea
                                        } else {
                                            if i < 117 {
                                                SpeciesDiscriminant::Seadra
                                            } else {
                                                SpeciesDiscriminant::Goldeen
                                            }
                                        }
                                    }
                                } else {
                                    if i < 121 {
                                        if i < 119 {
                                            SpeciesDiscriminant::Seaking
                                        } else {
                                            if i < 120 {
                                                SpeciesDiscriminant::Staryu
                                            } else {
                                                SpeciesDiscriminant::Starmie
                                            }
                                        }
                                    } else {
                                        if i < 123 {
                                            if i < 122 {
                                                SpeciesDiscriminant::MrMime
                                            } else {
                                                SpeciesDiscriminant::Scyther
                                            }
                                        } else {
                                            if i < 124 {
                                                SpeciesDiscriminant::Jynx
                                            } else {
                                                SpeciesDiscriminant::Electabuzz
                                            }
                                        }
                                    }
                                }
                            }
                        } else {
                            if i < 137 {
                                if i < 131 {
                                    if i < 128 {
                                        if i < 126 {
                                            SpeciesDiscriminant::Magmar
                                        } else {
                                            if i < 127 {
                                                SpeciesDiscriminant::Pinsir
                                            } else {
                                                SpeciesDiscriminant::Tauros
                                            }
                                        }
                                    } else {
                                        if i < 129 {
                                            SpeciesDiscriminant::Magikarp
                                        } else {
                                            if i < 130 {
                                                SpeciesDiscriminant::Gyarados
                                            } else {
                                                SpeciesDiscriminant::Lapras
                                            }
                                        }
                                    }
                                } else {
                                    if i < 134 {
                                        if i < 132 {
                                            SpeciesDiscriminant::Ditto
                                        } else {
                                            if i < 133 {
                                                SpeciesDiscriminant::Eevee
                                            } else {
                                                SpeciesDiscriminant::Vaporeon
                                            }
                                        }
                                    } else {
                                        if i < 135 {
                                            SpeciesDiscriminant::Jolteon
                                        } else {
                                            if i < 136 {
                                                SpeciesDiscriminant::Flareon
                                            } else {
                                                SpeciesDiscriminant::Porygon
                                            }
                                        }
                                    }
                                }
                            } else {
                                if i < 143 {
                                    if i < 140 {
                                        if i < 138 {
                                            SpeciesDiscriminant::Omanyte
                                        } else {
                                            if i < 139 {
                                                SpeciesDiscriminant::Omastar
                                            } else {
                                                SpeciesDiscriminant::Kabuto
                                            }
                                        }
                                    } else {
                                        if i < 141 {
                                            SpeciesDiscriminant::Kabutops
                                        } else {
                                            if i < 142 {
                                                SpeciesDiscriminant::Aerodactyl
                                            } else {
                                                SpeciesDiscriminant::Snorlax
                                            }
                                        }
                                    }
                                } else {
                                    if i < 146 {
                                        if i < 144 {
                                            SpeciesDiscriminant::Articuno
                                        } else {
                                            if i < 145 {
                                                SpeciesDiscriminant::Zapdos
                                            } else {
                                                SpeciesDiscriminant::Moltres
                                            }
                                        }
                                    } else {
                                        if i < 148 {
                                            if i < 147 {
                                                SpeciesDiscriminant::Dratini
                                            } else {
                                                SpeciesDiscriminant::Dragonair
                                            }
                                        } else {
                                            if i < 149 {
                                                SpeciesDiscriminant::Dragonite
                                            } else {
                                                SpeciesDiscriminant::Mewtwo
                                            }
                                        }
                                    }
                                }
                            }
                        }
                    } else {
                        if i < 175 {
                            if i < 162 {
                                if i < 156 {
                                    if i < 153 {
                                        if i < 151 {
                                            SpeciesDiscriminant::Mew
                                        } else {
                                            if i < 152 {
                                                SpeciesDiscriminant::Chikorita
                                            } else {
                                                SpeciesDiscriminant::Bayleef
                                            }
                                        }
                                    } else {
                                        if i < 154 {
                                            SpeciesDiscriminant::Meganium
                                        } else {
                                            if i < 155 {
                                                SpeciesDiscriminant::Cyndaquil
                                            } else {
                                                SpeciesDiscriminant::Quilava
                                            }
                                        }
                                    }
                                } else {
                                    if i < 159 {
                                        if i < 157 {
                                            SpeciesDiscriminant::Typhlosion
                                        } else {
                                            if i < 158 {
                                                SpeciesDiscriminant::Totodile
                                            } else {
                                                SpeciesDiscriminant::Croconaw
                                            }
                                        }
                                    } else {
                                        if i < 160 {
                                            SpeciesDiscriminant::Feraligatr
                                        } else {
                                            if i < 161 {
                                                SpeciesDiscriminant::Sentret
                                            } else {
                                                SpeciesDiscriminant::Furret
                                            }
                                        }
                                    }
                                }
                            } else {
                                if i < 168 {
                                    if i < 165 {
                                        if i < 163 {
                                            SpeciesDiscriminant::Hoothoot
                                        } else {
                                            if i < 164 {
                                                SpeciesDiscriminant::Noctowl
                                            } else {
                                                SpeciesDiscriminant::Ledyba
                                            }
                                        }
                                    } else {
                                        if i < 166 {
                                            SpeciesDiscriminant::Ledian
                                        } else {
                                            if i < 167 {
                                                SpeciesDiscriminant::Spinarak
                                            } else {
                                                SpeciesDiscriminant::Ariados
                                            }
                                        }
                                    }
                                } else {
                                    if i < 171 {
                                        if i < 169 {
                                            SpeciesDiscriminant::Crobat
                                        } else {
                                            if i < 170 {
                                                SpeciesDiscriminant::Chinchou
                                            } else {
                                                SpeciesDiscriminant::Lanturn
                                            }
                                        }
                                    } else {
                                        if i < 173 {
                                            if i < 172 {
                                                SpeciesDiscriminant::Pichu
                                            } else {
                                                SpeciesDiscriminant::Cleffa
                                            }
                                        } else {
                                            if i < 174 {
                                                SpeciesDiscriminant::Igglybuff
                                            } else {
                                                SpeciesDiscriminant::Togepi
                                            }
                                        }
                                    }
                                }
                            }
                        } else {
                            if i < 188 {
                                if i < 181 {
                                    if i < 178 {
                                        if i < 176 {
                                            SpeciesDiscriminant::Togetic
                                        } else {
                                            if i < 177 {
                                                SpeciesDiscriminant::Natu
                                            } else {
                                                SpeciesDiscriminant::Xatu
                                            }
                                        }
                                    } else {
                                        if i < 179 {
                                            SpeciesDiscriminant::Mareep
                                        } else {
                                            if i < 180 {
                                                SpeciesDiscriminant::Flaaffy
                                            } else {
                                                SpeciesDiscriminant::Ampharos
                                            }
                                        }
                                    }
                                } else {
                                    if i < 184 {
                                        if i < 182 {
                                            SpeciesDiscriminant::Bellossom
                                        } else {
                                            if i < 183 {
                                                SpeciesDiscriminant::Marill
                                            } else {
                                                SpeciesDiscriminant::Azumarill
                                            }
                                        }
                                    } else {
                                        if i < 186 {
                                            if i < 185 {
                                                SpeciesDiscriminant::Sudowoodo
                                            } else {
                                                SpeciesDiscriminant::Politoed
                                            }
                                        } else {
                                            if i < 187 {
                                                SpeciesDiscriminant::Hoppip
                                            } else {
                                                SpeciesDiscriminant::Skiploom
                                            }
                                        }
                                    }
                                }
                            } else {
                                if i < 194 {
                                    if i < 191 {
                                        if i < 189 {
                                            SpeciesDiscriminant::Jumpluff
                                        } else {
                                            if i < 190 {
                                                SpeciesDiscriminant::Aipom
                                            } else {
                                                SpeciesDiscriminant::Sunkern
                                            }
                                        }
                                    } else {
                                        if i < 192 {
                                            SpeciesDiscriminant::Sunflora
                                        } else {
                                            if i < 193 {
                                                SpeciesDiscriminant::Yanma
                                            } else {
                                                SpeciesDiscriminant::Wooper
                                            }
                                        }
                                    }
                                } else {
                                    if i < 197 {
                                        if i < 195 {
                                            SpeciesDiscriminant::Quagsire
                                        } else {
                                            if i < 196 {
                                                SpeciesDiscriminant::Espeon
                                            } else {
                                                SpeciesDiscriminant::Umbreon
                                            }
                                        }
                                    } else {
                                        if i < 199 {
                                            if i < 198 {
                                                SpeciesDiscriminant::Murkrow
                                            } else {
                                                SpeciesDiscriminant::Slowking
                                            }
                                        } else {
                                            if i < 200 {
                                                SpeciesDiscriminant::Misdreavus
                                            } else {
                                                SpeciesDiscriminant::Unown
                                            }
                                        }
                                    }
                                }
                            }
                        }
                    }
                }
            } else {
                if i < 302 {
                    if i < 251 {
                        if i < 226 {
                            if i < 213 {
                                if i < 207 {
                                    if i < 204 {
                                        if i < 202 {
                                            SpeciesDiscriminant::Wobbuffet
                                        } else {
                                            if i < 203 {
                                                SpeciesDiscriminant::Girafarig
                                            } else {
                                                SpeciesDiscriminant::Pineco
                                            }
                                        }
                                    } else {
                                        if i < 205 {
                                            SpeciesDiscriminant::Forretress
                                        } else {
                                            if i < 206 {
                                                SpeciesDiscriminant::Dunsparce
                                            } else {
                                                SpeciesDiscriminant::Gligar
                                            }
                                        }
                                    }
                                } else {
                                    if i < 210 {
                                        if i < 208 {
                                            SpeciesDiscriminant::Steelix
                                        } else {
                                            if i < 209 {
                                                SpeciesDiscriminant::Snubbull
                                            } else {
                                                SpeciesDiscriminant::Granbull
                                            }
                                        }
                                    } else {
                                        if i < 211 {
                                            SpeciesDiscriminant::Qwilfish
                                        } else {
                                            if i < 212 {
                                                SpeciesDiscriminant::Scizor
                                            } else {
                                                SpeciesDiscriminant::Shuckle
                                            }
                                        }
                                    }
                                }
                            } else {
                                if i < 219 {
                                    if i < 216 {
                                        if i < 214 {
                                            SpeciesDiscriminant::Heracross
                                        } else {
                                            if i < 215 {
                                                SpeciesDiscriminant::Sneasel
                                            } else {
                                                SpeciesDiscriminant::Teddiursa
                                            }
                                        }
                                    } else {
                                        if i < 217 {
                                            SpeciesDiscriminant::Ursaring
                                        } else {
                                            if i < 218 {
                                                SpeciesDiscriminant::Slugma
                                            } else {
                                                SpeciesDiscriminant::Magcargo
                                            }
                                        }
                                    }
                                } else {
                                    if i < 222 {
                                        if i < 220 {
                                            SpeciesDiscriminant::Swinub
                                        } else {
                                            if i < 221 {
                                                SpeciesDiscriminant::Piloswine
                                            } else {
                                                SpeciesDiscriminant::Corsola
                                            }
                                        }
                                    } else {
                                        if i < 224 {
                                            if i < 223 {
                                                SpeciesDiscriminant::Remoraid
                                            } else {
                                                SpeciesDiscriminant::Octillery
                                            }
                                        } else {
                                            if i < 225 {
                                                SpeciesDiscriminant::Delibird
                                            } else {
                                                SpeciesDiscriminant::Mantine
                                            }
                                        }
                                    }
                                }
                            }
                        } else {
                            if i < 238 {
                                if i < 232 {
                                    if i < 229 {
                                        if i < 227 {
                                            SpeciesDiscriminant::Skarmory
                                        } else {
                                            if i < 228 {
                                                SpeciesDiscriminant::Houndour
                                            } else {
                                                SpeciesDiscriminant::Houndoom
                                            }
                                        }
                                    } else {
                                        if i < 230 {
                                            SpeciesDiscriminant::Kingdra
                                        } else {
                                            if i < 231 {
                                                SpeciesDiscriminant::Phanpy
                                            } else {
                                                SpeciesDiscriminant::Donphan
                                            }
                                        }
                                    }
                                } else {
                                    if i < 235 {
                                        if i < 233 {
                                            SpeciesDiscriminant::Porygon2
                                        } else {
                                            if i < 234 {
                                                SpeciesDiscriminant::Stantler
                                            } else {
                                                SpeciesDiscriminant::Smeargle
                                            }
                                        }
                                    } else {
                                        if i < 236 {
                                            SpeciesDiscriminant::Tyrogue
                                        } else {
                                            if i < 237 {
                                                SpeciesDiscriminant::Hitmontop
                                            } else {
                                                SpeciesDiscriminant::Smoochum
                                            }
                                        }
                                    }
                                }
                            } else {
                                if i < 244 {
                                    if i < 241 {
                                        if i < 239 {
                                            SpeciesDiscriminant::Elekid
                                        } else {
                                            if i < 240 {
                                                SpeciesDiscriminant::Magby
                                            } else {
                                                SpeciesDiscriminant::Miltank
                                            }
                                        }
                                    } else {
                                        if i < 242 {
                                            SpeciesDiscriminant::Blissey
                                        } else {
                                            if i < 243 {
                                                SpeciesDiscriminant::Raikou
                                            } else {
                                                SpeciesDiscriminant::Entei
                                            }
                                        }
                                    }
                                } else {
                                    if i < 247 {
                                        if i < 245 {
                                            SpeciesDiscriminant::Suicune
                                        } else {
                                            if i < 246 {
                                                SpeciesDiscriminant::Larvitar
                                            } else {
                                                SpeciesDiscriminant::Pupitar
                                            }
                                        }
                                    } else {
                                        if i < 249 {
                                            if i < 248 {
                                                SpeciesDiscriminant::Tyranitar
                                            } else {
                                                SpeciesDiscriminant::Lugia
                                            }
                                        } else {
                                            if i < 250 {
                                                SpeciesDiscriminant::HoOh
                                            } else {
                                                SpeciesDiscriminant::Celebi
                                            }
                                        }
                                    }
                                }
                            }
                        }
                    } else {
                        if i < 276 {
                            if i < 263 {
                                if i < 257 {
                                    if i < 254 {
                                        if i < 252 {
                                            SpeciesDiscriminant::Treecko
                                        } else {
                                            if i < 253 {
                                                SpeciesDiscriminant::Grovyle
                                            } else {
                                                SpeciesDiscriminant::Sceptile
                                            }
                                        }
                                    } else {
                                        if i < 255 {
                                            SpeciesDiscriminant::Torchic
                                        } else {
                                            if i < 256 {
                                                SpeciesDiscriminant::Combusken
                                            } else {
                                                SpeciesDiscriminant::Blaziken
                                            }
                                        }
                                    }
                                } else {
                                    if i < 260 {
                                        if i < 258 {
                                            SpeciesDiscriminant::Mudkip
                                        } else {
                                            if i < 259 {
                                                SpeciesDiscriminant::Marshtomp
                                            } else {
                                                SpeciesDiscriminant::Swampert
                                            }
                                        }
                                    } else {
                                        if i < 261 {
                                            SpeciesDiscriminant::Poochyena
                                        } else {
                                            if i < 262 {
                                                SpeciesDiscriminant::Mightyena
                                            } else {
                                                SpeciesDiscriminant::Zigzagoon
                                            }
                                        }
                                    }
                                }
                            } else {
                                if i < 269 {
                                    if i < 266 {
                                        if i < 264 {
                                            SpeciesDiscriminant::Linoone
                                        } else {
                                            if i < 265 {
                                                SpeciesDiscriminant::Wurmple
                                            } else {
                                                SpeciesDiscriminant::Silcoon
                                            }
                                        }
                                    } else {
                                        if i < 267 {
                                            SpeciesDiscriminant::Beautifly
                                        } else {
                                            if i < 268 {
                                                SpeciesDiscriminant::Cascoon
                                            } else {
                                                SpeciesDiscriminant::Dustox
                                            }
                                        }
                                    }
                                } else {
                                    if i < 272 {
                                        if i < 270 {
                                            SpeciesDiscriminant::Lotad
                                        } else {
                                            if i < 271 {
                                                SpeciesDiscriminant::Lombre
                                            } else {
                                                SpeciesDiscriminant::Ludicolo
                                            }
                                        }
                                    } else {
                                        if i < 274 {
                                            if i < 273 {
                                                SpeciesDiscriminant::Seedot
                                            } else {
                                                SpeciesDiscriminant::Nuzleaf
                                            }
                                        } else {
                                            if i < 275 {
                                                SpeciesDiscriminant::Shiftry
                                            } else {
                                                SpeciesDiscriminant::Taillow
                                            }
                                        }
                                    }
                                }
                            }
                        } else {
                            if i < 289 {
                                if i < 282 {
                                    if i < 279 {
                                        if i < 277 {
                                            SpeciesDiscriminant::Swellow
                                        } else {
                                            if i < 278 {
                                                SpeciesDiscriminant::Wingull
                                            } else {
                                                SpeciesDiscriminant::Pelipper
                                            }
                                        }
                                    } else {
                                        if i < 280 {
                                            SpeciesDiscriminant::Ralts
                                        } else {
                                            if i < 281 {
                                                SpeciesDiscriminant::Kirlia
                                            } else {
                                                SpeciesDiscriminant::Gardevoir
                                            }
                                        }
                                    }
                                } else {
                                    if i < 285 {
                                        if i < 283 {
                                            SpeciesDiscriminant::Surskit
                                        } else {
                                            if i < 284 {
                                                SpeciesDiscriminant::Masquerain
                                            } else {
                                                SpeciesDiscriminant::Shroomish
                                            }
                                        }
                                    } else {
                                        if i < 287 {
                                            if i < 286 {
                                                SpeciesDiscriminant::Breloom
                                            } else {
                                                SpeciesDiscriminant::Slakoth
                                            }
                                        } else {
                                            if i < 288 {
                                                SpeciesDiscriminant::Vigoroth
                                            } else {
                                                SpeciesDiscriminant::Slaking
                                            }
                                        }
                                    }
                                }
                            } else {
                                if i < 295 {
                                    if i < 292 {
                                        if i < 290 {
                                            SpeciesDiscriminant::Nincada
                                        } else {
                                            if i < 291 {
                                                SpeciesDiscriminant::Ninjask
                                            } else {
                                                SpeciesDiscriminant::Shedinja
                                            }
                                        }
                                    } else {
                                        if i < 293 {
                                            SpeciesDiscriminant::Whismur
                                        } else {
                                            if i < 294 {
                                                SpeciesDiscriminant::Loudred
                                            } else {
                                                SpeciesDiscriminant::Exploud
                                            }
                                        }
                                    }
                                } else {
                                    if i < 298 {
                                        if i < 296 {
                                            SpeciesDiscriminant::Makuhita
                                        } else {
                                            if i < 297 {
                                                SpeciesDiscriminant::Hariyama
                                            } else {
                                                SpeciesDiscriminant::Azurill
                                            }
                                        }
                                    } else {
                                        if i < 300 {
                                            if i < 299 {
                                                SpeciesDiscriminant::Nosepass
                                            } else {
                                                SpeciesDiscriminant::Skitty
                                            }
                                        } else {
                                            if i < 301 {
                                                SpeciesDiscriminant::Delcatty
                                            } else {
                                                SpeciesDiscriminant::Sableye
                                            }
                                        }
                                    }
                                }
                            }
                        }
                    }
                } else {
                    if i < 352 {
                        if i < 327 {
                            if i < 314 {
                                if i < 308 {
                                    if i < 305 {
                                        if i < 303 {
                                            SpeciesDiscriminant::Mawile
                                        } else {
                                            if i < 304 {
                                                SpeciesDiscriminant::Aron
                                            } else {
                                                SpeciesDiscriminant::Lairon
                                            }
                                        }
                                    } else {
                                        if i < 306 {
                                            SpeciesDiscriminant::Aggron
                                        } else {
                                            if i < 307 {
                                                SpeciesDiscriminant::Meditite
                                            } else {
                                                SpeciesDiscriminant::Medicham
                                            }
                                        }
                                    }
                                } else {
                                    if i < 311 {
                                        if i < 309 {
                                            SpeciesDiscriminant::Electrike
                                        } else {
                                            if i < 310 {
                                                SpeciesDiscriminant::Manectric
                                            } else {
                                                SpeciesDiscriminant::Plusle
                                            }
                                        }
                                    } else {
                                        if i < 312 {
                                            SpeciesDiscriminant::Minun
                                        } else {
                                            if i < 313 {
                                                SpeciesDiscriminant::Volbeat
                                            } else {
                                                SpeciesDiscriminant::Illumise
                                            }
                                        }
                                    }
                                }
                            } else {
                                if i < 320 {
                                    if i < 317 {
                                        if i < 315 {
                                            SpeciesDiscriminant::Roselia
                                        } else {
                                            if i < 316 {
                                                SpeciesDiscriminant::Gulpin
                                            } else {
                                                SpeciesDiscriminant::Swalot
                                            }
                                        }
                                    } else {
                                        if i < 318 {
                                            SpeciesDiscriminant::Carvanha
                                        } else {
                                            if i < 319 {
                                                SpeciesDiscriminant::Sharpedo
                                            } else {
                                                SpeciesDiscriminant::Wailmer
                                            }
                                        }
                                    }
                                } else {
                                    if i < 323 {
                                        if i < 321 {
                                            SpeciesDiscriminant::Wailord
                                        } else {
                                            if i < 322 {
                                                SpeciesDiscriminant::Numel
                                            } else {
                                                SpeciesDiscriminant::Camerupt
                                            }
                                        }
                                    } else {
                                        if i < 325 {
                                            if i < 324 {
                                                SpeciesDiscriminant::Torkoal
                                            } else {
                                                SpeciesDiscriminant::Spoink
                                            }
                                        } else {
                                            if i < 326 {
                                                SpeciesDiscriminant::Grumpig
                                            } else {
                                                SpeciesDiscriminant::Spinda
                                            }
                                        }
                                    }
                                }
                            }
                        } else {
                            if i < 339 {
                                if i < 333 {
                                    if i < 330 {
                                        if i < 328 {
                                            SpeciesDiscriminant::Trapinch
                                        } else {
                                            if i < 329 {
                                                SpeciesDiscriminant::Vibrava
                                            } else {
                                                SpeciesDiscriminant::Flygon
                                            }
                                        }
                                    } else {
                                        if i < 331 {
                                            SpeciesDiscriminant::Cacnea
                                        } else {
                                            if i < 332 {
                                                SpeciesDiscriminant::Cacturne
                                            } else {
                                                SpeciesDiscriminant::Swablu
                                            }
                                        }
                                    }
                                } else {
                                    if i < 336 {
                                        if i < 334 {
                                            SpeciesDiscriminant::Altaria
                                        } else {
                                            if i < 335 {
                                                SpeciesDiscriminant::Zangoose
                                            } else {
                                                SpeciesDiscriminant::Seviper
                                            }
                                        }
                                    } else {
                                        if i < 337 {
                                            SpeciesDiscriminant::Lunatone
                                        } else {
                                            if i < 338 {
                                                SpeciesDiscriminant::Solrock
                                            } else {
                                                SpeciesDiscriminant::Barboach
                                            }
                                        }
                                    }
                                }
                            } else {
                                if i < 345 {
                                    if i < 342 {
                                        if i < 340 {
                                            SpeciesDiscriminant::Whiscash
                                        } else {
                                            if i < 341 {
                                                SpeciesDiscriminant::Corphish
                                            } else {
                                                SpeciesDiscriminant::Crawdaunt
                                            }
                                        }
                                    } else {
                                        if i < 343 {
                                            SpeciesDiscriminant::Baltoy
                                        } else {
                                            if i < 344 {
                                                SpeciesDiscriminant::Claydol
                                            } else {
                                                SpeciesDiscriminant::Lileep
                                            }
                                        }
                                    }
                                } else {
                                    if i < 348 {
                                        if i < 346 {
                                            SpeciesDiscriminant::Cradily
                                        } else {
                                            if i < 347 {
                                                SpeciesDiscriminant::Anorith
                                            } else {
                                                SpeciesDiscriminant::Armaldo
                                            }
                                        }
                                    } else {
                                        if i < 350 {
                                            if i < 349 {
                                                SpeciesDiscriminant::Feebas
                                            } else {
                                                SpeciesDiscriminant::Milotic
                                            }
                                        } else {
                                            if i < 351 {
                                                SpeciesDiscriminant::Castform
                                            } else {
                                                SpeciesDiscriminant::Kecleon
                                            }
                                        }
                                    }
                                }
                            }
                        }
                    } else {
                        if i < 377 {
                            if i < 364 {
                                if i < 358 {
                                    if i < 355 {
                                        if i < 353 {
                                            SpeciesDiscriminant::Shuppet
                                        } else {
                                            if i < 354 {
                                                SpeciesDiscriminant::Banette
                                            } else {
                                                SpeciesDiscriminant::Duskull
                                            }
                                        }
                                    } else {
                                        if i < 356 {
                                            SpeciesDiscriminant::Dusclops
                                        } else {
                                            if i < 357 {
                                                SpeciesDiscriminant::Tropius
                                            } else {
                                                SpeciesDiscriminant::Chimecho
                                            }
                                        }
                                    }
                                } else {
                                    if i < 361 {
                                        if i < 359 {
                                            SpeciesDiscriminant::Absol
                                        } else {
                                            if i < 360 {
                                                SpeciesDiscriminant::Wynaut
                                            } else {
                                                SpeciesDiscriminant::Snorunt
                                            }
                                        }
                                    } else {
                                        if i < 362 {
                                            SpeciesDiscriminant::Glalie
                                        } else {
                                            if i < 363 {
                                                SpeciesDiscriminant::Spheal
                                            } else {
                                                SpeciesDiscriminant::Sealeo
                                            }
                                        }
                                    }
                                }
                            } else {
                                if i < 370 {
                                    if i < 367 {
                                        if i < 365 {
                                            SpeciesDiscriminant::Walrein
                                        } else {
                                            if i < 366 {
                                                SpeciesDiscriminant::Clamperl
                                            } else {
                                                SpeciesDiscriminant::Huntail
                                            }
                                        }
                                    } else {
                                        if i < 368 {
                                            SpeciesDiscriminant::Gorebyss
                                        } else {
                                            if i < 369 {
                                                SpeciesDiscriminant::Relicanth
                                            } else {
                                                SpeciesDiscriminant::Luvdisc
                                            }
                                        }
                                    }
                                } else {
                                    if i < 373 {
                                        if i < 371 {
                                            SpeciesDiscriminant::Bagon
                                        } else {
                                            if i < 372 {
                                                SpeciesDiscriminant::Shelgon
                                            } else {
                                                SpeciesDiscriminant::Salamence
                                            }
                                        }
                                    } else {
                                        if i < 375 {
                                            if i < 374 {
                                                SpeciesDiscriminant::Beldum
                                            } else {
                                                SpeciesDiscriminant::Metang
                                            }
                                        } else {
                                            if i < 376 {
                                                SpeciesDiscriminant::Metagross
                                            } else {
                                                SpeciesDiscriminant::Regirock
                                            }
                                        }
                                    }
                                }
                            }
                        } else {
                            if i < 390 {
                                if i < 383 {
                                    if i < 380 {
                                        if i < 378 {
                                            SpeciesDiscriminant::Regice
                                        } else {
                                            if i < 379 {
                                                SpeciesDiscriminant::Registeel
                                            } else {
                                                SpeciesDiscriminant::Latias
                                            }
                                        }
                                    } else {
                                        if i < 381 {
                                            SpeciesDiscriminant::Latios
                                        } else {
                                            if i < 382 {
                                                SpeciesDiscriminant::Kyogre
                                            } else {
                                                SpeciesDiscriminant::Groudon
                                            }
                                        }
                                    }
                                } else {
                                    if i < 386 {
                                        if i < 384 {
                                            SpeciesDiscriminant::Rayquaza
                                        } else {
                                            if i < 385 {
                                                SpeciesDiscriminant::Jirachi
                                            } else {
                                                SpeciesDiscriminant::Deoxys
                                            }
                                        }
                                    } else {
                                        if i < 388 {
                                            if i < 387 {
                                                SpeciesDiscriminant::Turtwig
                                            } else {
                                                SpeciesDiscriminant::Grotle
                                            }
                                        } else {
                                            if i < 389 {
                                                SpeciesDiscriminant::Torterra
                                            } else {
                                                SpeciesDiscriminant::Chimchar
                                            }
                                        }
                                    }
                                }
                            } else {
                                if i < 396 {
                                    if i < 393 {
                                        if i < 391 {
                                            SpeciesDiscriminant::Monferno
                                        } else {
                                            if i < 392 {
                                                SpeciesDiscriminant::Infernape
                                            } else {
                                                SpeciesDiscriminant::Piplup
                                            }
                                        }
                                    } else {
                                        if i < 394 {
                                            SpeciesDiscriminant::Prinplup
                                        } else {
                                            if i < 395 {
                                                SpeciesDiscriminant::Empoleon
                                            } else {
                                                SpeciesDiscriminant::Starly
                                            }
                                        }
                                    }
                                } else {
                                    if i < 399 {
                                        if i < 397 {
                                            SpeciesDiscriminant::Staravia
                                        } else {
                                            if i < 398 {
                                                SpeciesDiscriminant::Staraptor
                                            } else {
                                                SpeciesDiscriminant::Bidoof
                                            }
                                        }
                                    } else {
                                        if i < 401 {
                                            if i < 400 {
                                                SpeciesDiscriminant::Bibarel
                                            } else {
                                                SpeciesDiscriminant::Kricketot
                                            }
                                        } else {
                                            if i < 402 {
                                                SpeciesDiscriminant::Kricketune
                                            } else {
                                                SpeciesDiscriminant::Shinx
                                            }
                                        }
                                    }
                                }
                            }
                        }
                    }
                }
            }
        } else {
            if i < 605 {
                if i < 504 {
                    if i < 453 {
                        if i < 428 {
                            if i < 415 {
                                if i < 409 {
                                    if i < 406 {
                                        if i < 404 {
                                            SpeciesDiscriminant::Luxio
                                        } else {
                                            if i < 405 {
                                                SpeciesDiscriminant::Luxray
                                            } else {
                                                SpeciesDiscriminant::Budew
                                            }
                                        }
                                    } else {
                                        if i < 407 {
                                            SpeciesDiscriminant::Roserade
                                        } else {
                                            if i < 408 {
                                                SpeciesDiscriminant::Cranidos
                                            } else {
                                                SpeciesDiscriminant::Rampardos
                                            }
                                        }
                                    }
                                } else {
                                    if i < 412 {
                                        if i < 410 {
                                            SpeciesDiscriminant::Shieldon
                                        } else {
                                            if i < 411 {
                                                SpeciesDiscriminant::Bastiodon
                                            } else {
                                                SpeciesDiscriminant::Burmy
                                            }
                                        }
                                    } else {
                                        if i < 413 {
                                            SpeciesDiscriminant::Wormadam
                                        } else {
                                            if i < 414 {
                                                SpeciesDiscriminant::Mothim
                                            } else {
                                                SpeciesDiscriminant::Combee
                                            }
                                        }
                                    }
                                }
                            } else {
                                if i < 421 {
                                    if i < 418 {
                                        if i < 416 {
                                            SpeciesDiscriminant::Vespiquen
                                        } else {
                                            if i < 417 {
                                                SpeciesDiscriminant::Pachirisu
                                            } else {
                                                SpeciesDiscriminant::Buizel
                                            }
                                        }
                                    } else {
                                        if i < 419 {
                                            SpeciesDiscriminant::Floatzel
                                        } else {
                                            if i < 420 {
                                                SpeciesDiscriminant::Cherubi
                                            } else {
                                                SpeciesDiscriminant::Cherrim
                                            }
                                        }
                                    }
                                } else {
                                    if i < 424 {
                                        if i < 422 {
                                            SpeciesDiscriminant::Shellos
                                        } else {
                                            if i < 423 {
                                                SpeciesDiscriminant::Gastrodon
                                            } else {
                                                SpeciesDiscriminant::Ambipom
                                            }
                                        }
                                    } else {
                                        if i < 426 {
                                            if i < 425 {
                                                SpeciesDiscriminant::Drifloon
                                            } else {
                                                SpeciesDiscriminant::Drifblim
                                            }
                                        } else {
                                            if i < 427 {
                                                SpeciesDiscriminant::Buneary
                                            } else {
                                                SpeciesDiscriminant::Lopunny
                                            }
                                        }
                                    }
                                }
                            }
                        } else {
                            if i < 440 {
                                if i < 434 {
                                    if i < 431 {
                                        if i < 429 {
                                            SpeciesDiscriminant::Mismagius
                                        } else {
                                            if i < 430 {
                                                SpeciesDiscriminant::Honchkrow
                                            } else {
                                                SpeciesDiscriminant::Glameow
                                            }
                                        }
                                    } else {
                                        if i < 432 {
                                            SpeciesDiscriminant::Purugly
                                        } else {
                                            if i < 433 {
                                                SpeciesDiscriminant::Chingling
                                            } else {
                                                SpeciesDiscriminant::Stunky
                                            }
                                        }
                                    }
                                } else {
                                    if i < 437 {
                                        if i < 435 {
                                            SpeciesDiscriminant::Skuntank
                                        } else {
                                            if i < 436 {
                                                SpeciesDiscriminant::Bronzor
                                            } else {
                                                SpeciesDiscriminant::Bronzong
                                            }
                                        }
                                    } else {
                                        if i < 438 {
                                            SpeciesDiscriminant::Bonsly
                                        } else {
                                            if i < 439 {
                                                SpeciesDiscriminant::MimeJr
                                            } else {
                                                SpeciesDiscriminant::Happiny
                                            }
                                        }
                                    }
                                }
                            } else {
                                if i < 446 {
                                    if i < 443 {
                                        if i < 441 {
                                            SpeciesDiscriminant::Chatot
                                        } else {
                                            if i < 442 {
                                                SpeciesDiscriminant::Spiritomb
                                            } else {
                                                SpeciesDiscriminant::Gible
                                            }
                                        }
                                    } else {
                                        if i < 444 {
                                            SpeciesDiscriminant::Gabite
                                        } else {
                                            if i < 445 {
                                                SpeciesDiscriminant::Garchomp
                                            } else {
                                                SpeciesDiscriminant::Munchlax
                                            }
                                        }
                                    }
                                } else {
                                    if i < 449 {
                                        if i < 447 {
                                            SpeciesDiscriminant::Riolu
                                        } else {
                                            if i < 448 {
                                                SpeciesDiscriminant::Lucario
                                            } else {
                                                SpeciesDiscriminant::Hippopotas
                                            }
                                        }
                                    } else {
                                        if i < 451 {
                                            if i < 450 {
                                                SpeciesDiscriminant::Hippowdon
                                            } else {
                                                SpeciesDiscriminant::Skorupi
                                            }
                                        } else {
                                            if i < 452 {
                                                SpeciesDiscriminant::Drapion
                                            } else {
                                                SpeciesDiscriminant::Croagunk
                                            }
                                        }
                                    }
                                }
                            }
                        }
                    } else {
                        if i < 478 {
                            if i < 465 {
                                if i < 459 {
                                    if i < 456 {
                                        if i < 454 {
                                            SpeciesDiscriminant::Toxicroak
                                        } else {
                                            if i < 455 {
                                                SpeciesDiscriminant::Carnivine
                                            } else {
                                                SpeciesDiscriminant::Finneon
                                            }
                                        }
                                    } else {
                                        if i < 457 {
                                            SpeciesDiscriminant::Lumineon
                                        } else {
                                            if i < 458 {
                                                SpeciesDiscriminant::Mantyke
                                            } else {
                                                SpeciesDiscriminant::Snover
                                            }
                                        }
                                    }
                                } else {
                                    if i < 462 {
                                        if i < 460 {
                                            SpeciesDiscriminant::Abomasnow
                                        } else {
                                            if i < 461 {
                                                SpeciesDiscriminant::Weavile
                                            } else {
                                                SpeciesDiscriminant::Magnezone
                                            }
                                        }
                                    } else {
                                        if i < 463 {
                                            SpeciesDiscriminant::Lickilicky
                                        } else {
                                            if i < 464 {
                                                SpeciesDiscriminant::Rhyperior
                                            } else {
                                                SpeciesDiscriminant::Tangrowth
                                            }
                                        }
                                    }
                                }
                            } else {
                                if i < 471 {
                                    if i < 468 {
                                        if i < 466 {
                                            SpeciesDiscriminant::Electivire
                                        } else {
                                            if i < 467 {
                                                SpeciesDiscriminant::Magmortar
                                            } else {
                                                SpeciesDiscriminant::Togekiss
                                            }
                                        }
                                    } else {
                                        if i < 469 {
                                            SpeciesDiscriminant::Yanmega
                                        } else {
                                            if i < 470 {
                                                SpeciesDiscriminant::Leafeon
                                            } else {
                                                SpeciesDiscriminant::Glaceon
                                            }
                                        }
                                    }
                                } else {
                                    if i < 474 {
                                        if i < 472 {
                                            SpeciesDiscriminant::Gliscor
                                        } else {
                                            if i < 473 {
                                                SpeciesDiscriminant::Mamoswine
                                            } else {
                                                SpeciesDiscriminant::PorygonZ
                                            }
                                        }
                                    } else {
                                        if i < 476 {
                                            if i < 475 {
                                                SpeciesDiscriminant::Gallade
                                            } else {
                                                SpeciesDiscriminant::Probopass
                                            }
                                        } else {
                                            if i < 477 {
                                                SpeciesDiscriminant::Dusknoir
                                            } else {
                                                SpeciesDiscriminant::Froslass
                                            }
                                        }
                                    }
                                }
                            }
                        } else {
                            if i < 491 {
                                if i < 484 {
                                    if i < 481 {
                                        if i < 479 {
                                            SpeciesDiscriminant::Rotom
                                        } else {
                                            if i < 480 {
                                                SpeciesDiscriminant::Uxie
                                            } else {
                                                SpeciesDiscriminant::Mesprit
                                            }
                                        }
                                    } else {
                                        if i < 482 {
                                            SpeciesDiscriminant::Azelf
                                        } else {
                                            if i < 483 {
                                                SpeciesDiscriminant::Dialga
                                            } else {
                                                SpeciesDiscriminant::Palkia
                                            }
                                        }
                                    }
                                } else {
                                    if i < 487 {
                                        if i < 485 {
                                            SpeciesDiscriminant::Heatran
                                        } else {
                                            if i < 486 {
                                                SpeciesDiscriminant::Regigigas
                                            } else {
                                                SpeciesDiscriminant::Giratina
                                            }
                                        }
                                    } else {
                                        if i < 489 {
                                            if i < 488 {
                                                SpeciesDiscriminant::Cresselia
                                            } else {
                                                SpeciesDiscriminant::Phione
                                            }
                                        } else {
                                            if i < 490 {
                                                SpeciesDiscriminant::Manaphy
                                            } else {
                                                SpeciesDiscriminant::Darkrai
                                            }
                                        }
                                    }
                                }
                            } else {
                                if i < 497 {
                                    if i < 494 {
                                        if i < 492 {
                                            SpeciesDiscriminant::Shaymin
                                        } else {
                                            if i < 493 {
                                                SpeciesDiscriminant::Arceus
                                            } else {
                                                SpeciesDiscriminant::Victini
                                            }
                                        }
                                    } else {
                                        if i < 495 {
                                            SpeciesDiscriminant::Snivy
                                        } else {
                                            if i < 496 {
                                                SpeciesDiscriminant::Servine
                                            } else {
                                                SpeciesDiscriminant::Serperior
                                            }
                                        }
                                    }
                                } else {
                                    if i < 500 {
                                        if i < 498 {
                                            SpeciesDiscriminant::Tepig
                                        } else {
                                            if i < 499 {
                                                SpeciesDiscriminant::Pignite
                                            } else {
                                                SpeciesDiscriminant::Emboar
                                            }
                                        }
                                    } else {
                                        if i < 502 {
                                            if i < 501 {
                                                SpeciesDiscriminant::Oshawott
                                            } else {
                                                SpeciesDiscriminant::Dewott
                                            }
                                        } else {
                                            if i < 503 {
                                                SpeciesDiscriminant::Samurott
                                            } else {
                                                SpeciesDiscriminant::Patrat
                                            }
                                        }
                                    }
                                }
                            }
                        }
                    }
                } else {
                    if i < 554 {
                        if i < 529 {
                            if i < 516 {
                                if i < 510 {
                                    if i < 507 {
                                        if i < 505 {
                                            SpeciesDiscriminant::Watchog
                                        } else {
                                            if i < 506 {
                                                SpeciesDiscriminant::Lillipup
                                            } else {
                                                SpeciesDiscriminant::Herdier
                                            }
                                        }
                                    } else {
                                        if i < 508 {
                                            SpeciesDiscriminant::Stoutland
                                        } else {
                                            if i < 509 {
                                                SpeciesDiscriminant::Purrloin
                                            } else {
                                                SpeciesDiscriminant::Liepard
                                            }
                                        }
                                    }
                                } else {
                                    if i < 513 {
                                        if i < 511 {
                                            SpeciesDiscriminant::Pansage
                                        } else {
                                            if i < 512 {
                                                SpeciesDiscriminant::Simisage
                                            } else {
                                                SpeciesDiscriminant::Pansear
                                            }
                                        }
                                    } else {
                                        if i < 514 {
                                            SpeciesDiscriminant::Simisear
                                        } else {
                                            if i < 515 {
                                                SpeciesDiscriminant::Panpour
                                            } else {
                                                SpeciesDiscriminant::Simipour
                                            }
                                        }
                                    }
                                }
                            } else {
                                if i < 522 {
                                    if i < 519 {
                                        if i < 517 {
                                            SpeciesDiscriminant::Munna
                                        } else {
                                            if i < 518 {
                                                SpeciesDiscriminant::Musharna
                                            } else {
                                                SpeciesDiscriminant::Pidove
                                            }
                                        }
                                    } else {
                                        if i < 520 {
                                            SpeciesDiscriminant::Tranquill
                                        } else {
                                            if i < 521 {
                                                SpeciesDiscriminant::Unfezant
                                            } else {
                                                SpeciesDiscriminant::Blitzle
                                            }
                                        }
                                    }
                                } else {
                                    if i < 525 {
                                        if i < 523 {
                                            SpeciesDiscriminant::Zebstrika
                                        } else {
                                            if i < 524 {
                                                SpeciesDiscriminant::Roggenrola
                                            } else {
                                                SpeciesDiscriminant::Boldore
                                            }
                                        }
                                    } else {
                                        if i < 527 {
                                            if i < 526 {
                                                SpeciesDiscriminant::Gigalith
                                            } else {
                                                SpeciesDiscriminant::Woobat
                                            }
                                        } else {
                                            if i < 528 {
                                                SpeciesDiscriminant::Swoobat
                                            } else {
                                                SpeciesDiscriminant::Drilbur
                                            }
                                        }
                                    }
                                }
                            }
                        } else {
                            if i < 541 {
                                if i < 535 {
                                    if i < 532 {
                                        if i < 530 {
                                            SpeciesDiscriminant::Excadrill
                                        } else {
                                            if i < 531 {
                                                SpeciesDiscriminant::Audino
                                            } else {
                                                SpeciesDiscriminant::Timburr
                                            }
                                        }
                                    } else {
                                        if i < 533 {
                                            SpeciesDiscriminant::Gurdurr
                                        } else {
                                            if i < 534 {
                                                SpeciesDiscriminant::Conkeldurr
                                            } else {
                                                SpeciesDiscriminant::Tympole
                                            }
                                        }
                                    }
                                } else {
                                    if i < 538 {
                                        if i < 536 {
                                            SpeciesDiscriminant::Palpitoad
                                        } else {
                                            if i < 537 {
                                                SpeciesDiscriminant::Seismitoad
                                            } else {
                                                SpeciesDiscriminant::Throh
                                            }
                                        }
                                    } else {
                                        if i < 539 {
                                            SpeciesDiscriminant::Sawk
                                        } else {
                                            if i < 540 {
                                                SpeciesDiscriminant::Sewaddle
                                            } else {
                                                SpeciesDiscriminant::Swadloon
                                            }
                                        }
                                    }
                                }
                            } else {
                                if i < 547 {
                                    if i < 544 {
                                        if i < 542 {
                                            SpeciesDiscriminant::Leavanny
                                        } else {
                                            if i < 543 {
                                                SpeciesDiscriminant::Venipede
                                            } else {
                                                SpeciesDiscriminant::Whirlipede
                                            }
                                        }
                                    } else {
                                        if i < 545 {
                                            SpeciesDiscriminant::Scolipede
                                        } else {
                                            if i < 546 {
                                                SpeciesDiscriminant::Cottonee
                                            } else {
                                                SpeciesDiscriminant::Whimsicott
                                            }
                                        }
                                    }
                                } else {
                                    if i < 550 {
                                        if i < 548 {
                                            SpeciesDiscriminant::Petilil
                                        } else {
                                            if i < 549 {
                                                SpeciesDiscriminant::Lilligant
                                            } else {
                                                SpeciesDiscriminant::Basculin
                                            }
                                        }
                                    } else {
                                        if i < 552 {
                                            if i < 551 {
                                                SpeciesDiscriminant::Sandile
                                            } else {
                                                SpeciesDiscriminant::Krokorok
                                            }
                                        } else {
                                            if i < 553 {
                                                SpeciesDiscriminant::Krookodile
                                            } else {
                                                SpeciesDiscriminant::Darumaka
                                            }
                                        }
                                    }
                                }
                            }
                        }
                    } else {
                        if i < 579 {
                            if i < 566 {
                                if i < 560 {
                                    if i < 557 {
                                        if i < 555 {
                                            SpeciesDiscriminant::Darmanitan
                                        } else {
                                            if i < 556 {
                                                SpeciesDiscriminant::Maractus
                                            } else {
                                                SpeciesDiscriminant::Dwebble
                                            }
                                        }
                                    } else {
                                        if i < 558 {
                                            SpeciesDiscriminant::Crustle
                                        } else {
                                            if i < 559 {
                                                SpeciesDiscriminant::Scraggy
                                            } else {
                                                SpeciesDiscriminant::Scrafty
                                            }
                                        }
                                    }
                                } else {
                                    if i < 563 {
                                        if i < 561 {
                                            SpeciesDiscriminant::Sigilyph
                                        } else {
                                            if i < 562 {
                                                SpeciesDiscriminant::Yamask
                                            } else {
                                                SpeciesDiscriminant::Cofagrigus
                                            }
                                        }
                                    } else {
                                        if i < 564 {
                                            SpeciesDiscriminant::Tirtouga
                                        } else {
                                            if i < 565 {
                                                SpeciesDiscriminant::Carracosta
                                            } else {
                                                SpeciesDiscriminant::Archen
                                            }
                                        }
                                    }
                                }
                            } else {
                                if i < 572 {
                                    if i < 569 {
                                        if i < 567 {
                                            SpeciesDiscriminant::Archeops
                                        } else {
                                            if i < 568 {
                                                SpeciesDiscriminant::Trubbish
                                            } else {
                                                SpeciesDiscriminant::Garbodor
                                            }
                                        }
                                    } else {
                                        if i < 570 {
                                            SpeciesDiscriminant::Zorua
                                        } else {
                                            if i < 571 {
                                                SpeciesDiscriminant::Zoroark
                                            } else {
                                                SpeciesDiscriminant::Minccino
                                            }
                                        }
                                    }
                                } else {
                                    if i < 575 {
                                        if i < 573 {
                                            SpeciesDiscriminant::Cinccino
                                        } else {
                                            if i < 574 {
                                                SpeciesDiscriminant::Gothita
                                            } else {
                                                SpeciesDiscriminant::Gothorita
                                            }
                                        }
                                    } else {
                                        if i < 577 {
                                            if i < 576 {
                                                SpeciesDiscriminant::Gothitelle
                                            } else {
                                                SpeciesDiscriminant::Solosis
                                            }
                                        } else {
                                            if i < 578 {
                                                SpeciesDiscriminant::Duosion
                                            } else {
                                                SpeciesDiscriminant::Reuniclus
                                            }
                                        }
                                    }
                                }
                            }
                        } else {
                            if i < 592 {
                                if i < 585 {
                                    if i < 582 {
                                        if i < 580 {
                                            SpeciesDiscriminant::Ducklett
                                        } else {
                                            if i < 581 {
                                                SpeciesDiscriminant::Swanna
                                            } else {
                                                SpeciesDiscriminant::Vanillite
                                            }
                                        }
                                    } else {
                                        if i < 583 {
                                            SpeciesDiscriminant::Vanillish
                                        } else {
                                            if i < 584 {
                                                SpeciesDiscriminant::Vanilluxe
                                            } else {
                                                SpeciesDiscriminant::Deerling
                                            }
                                        }
                                    }
                                } else {
                                    if i < 588 {
                                        if i < 586 {
                                            SpeciesDiscriminant::Sawsbuck
                                        } else {
                                            if i < 587 {
                                                SpeciesDiscriminant::Emolga
                                            } else {
                                                SpeciesDiscriminant::Karrablast
                                            }
                                        }
                                    } else {
                                        if i < 590 {
                                            if i < 589 {
                                                SpeciesDiscriminant::Escavalier
                                            } else {
                                                SpeciesDiscriminant::Foongus
                                            }
                                        } else {
                                            if i < 591 {
                                                SpeciesDiscriminant::Amoonguss
                                            } else {
                                                SpeciesDiscriminant::Frillish
                                            }
                                        }
                                    }
                                }
                            } else {
                                if i < 598 {
                                    if i < 595 {
                                        if i < 593 {
                                            SpeciesDiscriminant::Jellicent
                                        } else {
                                            if i < 594 {
                                                SpeciesDiscriminant::Alomomola
                                            } else {
                                                SpeciesDiscriminant::Joltik
                                            }
                                        }
                                    } else {
                                        if i < 596 {
                                            SpeciesDiscriminant::Galvantula
                                        } else {
                                            if i < 597 {
                                                SpeciesDiscriminant::Ferroseed
                                            } else {
                                                SpeciesDiscriminant::Ferrothorn
                                            }
                                        }
                                    }
                                } else {
                                    if i < 601 {
                                        if i < 599 {
                                            SpeciesDiscriminant::Klink
                                        } else {
                                            if i < 600 {
                                                SpeciesDiscriminant::Klang
                                            } else {
                                                SpeciesDiscriminant::Klinklang
                                            }
                                        }
                                    } else {
                                        if i < 603 {
                                            if i < 602 {
                                                SpeciesDiscriminant::Tynamo
                                            } else {
                                                SpeciesDiscriminant::Eelektrik
                                            }
                                        } else {
                                            if i < 604 {
                                                SpeciesDiscriminant::Eelektross
                                            } else {
                                                SpeciesDiscriminant::Elgyem
                                            }
                                        }
                                    }
                                }
                            }
                        }
                    }
                }
            } else {
                if i < 706 {
                    if i < 655 {
                        if i < 630 {
                            if i < 617 {
                                if i < 611 {
                                    if i < 608 {
                                        if i < 606 {
                                            SpeciesDiscriminant::Beheeyem
                                        } else {
                                            if i < 607 {
                                                SpeciesDiscriminant::Litwick
                                            } else {
                                                SpeciesDiscriminant::Lampent
                                            }
                                        }
                                    } else {
                                        if i < 609 {
                                            SpeciesDiscriminant::Chandelure
                                        } else {
                                            if i < 610 {
                                                SpeciesDiscriminant::Axew
                                            } else {
                                                SpeciesDiscriminant::Fraxure
                                            }
                                        }
                                    }
                                } else {
                                    if i < 614 {
                                        if i < 612 {
                                            SpeciesDiscriminant::Haxorus
                                        } else {
                                            if i < 613 {
                                                SpeciesDiscriminant::Cubchoo
                                            } else {
                                                SpeciesDiscriminant::Beartic
                                            }
                                        }
                                    } else {
                                        if i < 615 {
                                            SpeciesDiscriminant::Cryogonal
                                        } else {
                                            if i < 616 {
                                                SpeciesDiscriminant::Shelmet
                                            } else {
                                                SpeciesDiscriminant::Accelgor
                                            }
                                        }
                                    }
                                }
                            } else {
                                if i < 623 {
                                    if i < 620 {
                                        if i < 618 {
                                            SpeciesDiscriminant::Stunfisk
                                        } else {
                                            if i < 619 {
                                                SpeciesDiscriminant::Mienfoo
                                            } else {
                                                SpeciesDiscriminant::Mienshao
                                            }
                                        }
                                    } else {
                                        if i < 621 {
                                            SpeciesDiscriminant::Druddigon
                                        } else {
                                            if i < 622 {
                                                SpeciesDiscriminant::Golett
                                            } else {
                                                SpeciesDiscriminant::Golurk
                                            }
                                        }
                                    }
                                } else {
                                    if i < 626 {
                                        if i < 624 {
                                            SpeciesDiscriminant::Pawniard
                                        } else {
                                            if i < 625 {
                                                SpeciesDiscriminant::Bisharp
                                            } else {
                                                SpeciesDiscriminant::Bouffalant
                                            }
                                        }
                                    } else {
                                        if i < 628 {
                                            if i < 627 {
                                                SpeciesDiscriminant::Rufflet
                                            } else {
                                                SpeciesDiscriminant::Braviary
                                            }
                                        } else {
                                            if i < 629 {
                                                SpeciesDiscriminant::Vullaby
                                            } else {
                                                SpeciesDiscriminant::Mandibuzz
                                            }
                                        }
                                    }
                                }
                            }
                        } else {
                            if i < 642 {
                                if i < 636 {
                                    if i < 633 {
                                        if i < 631 {
                                            SpeciesDiscriminant::Heatmor
                                        } else {
                                            if i < 632 {
                                                SpeciesDiscriminant::Durant
                                            } else {
                                                SpeciesDiscriminant::Deino
                                            }
                                        }
                                    } else {
                                        if i < 634 {
                                            SpeciesDiscriminant::Zweilous
                                        } else {
                                            if i < 635 {
                                                SpeciesDiscriminant::Hydreigon
                                            } else {
                                                SpeciesDiscriminant::Larvesta
                                            }
                                        }
                                    }
                                } else {
                                    if i < 639 {
                                        if i < 637 {
                                            SpeciesDiscriminant::Volcarona
                                        } else {
                                            if i < 638 {
                                                SpeciesDiscriminant::Cobalion
                                            } else {
                                                SpeciesDiscriminant::Terrakion
                                            }
                                        }
                                    } else {
                                        if i < 640 {
                                            SpeciesDiscriminant::Virizion
                                        } else {
                                            if i < 641 {
                                                SpeciesDiscriminant::Tornadus
                                            } else {
                                                SpeciesDiscriminant::Thundurus
                                            }
                                        }
                                    }
                                }
                            } else {
                                if i < 648 {
                                    if i < 645 {
                                        if i < 643 {
                                            SpeciesDiscriminant::Reshiram
                                        } else {
                                            if i < 644 {
                                                SpeciesDiscriminant::Zekrom
                                            } else {
                                                SpeciesDiscriminant::Landorus
                                            }
                                        }
                                    } else {
                                        if i < 646 {
                                            SpeciesDiscriminant::Kyurem
                                        } else {
                                            if i < 647 {
                                                SpeciesDiscriminant::Keldeo
                                            } else {
                                                SpeciesDiscriminant::Meloetta
                                            }
                                        }
                                    }
                                } else {
                                    if i < 651 {
                                        if i < 649 {
                                            SpeciesDiscriminant::Genesect
                                        } else {
                                            if i < 650 {
                                                SpeciesDiscriminant::Chespin
                                            } else {
                                                SpeciesDiscriminant::Quilladin
                                            }
                                        }
                                    } else {
                                        if i < 653 {
                                            if i < 652 {
                                                SpeciesDiscriminant::Chesnaught
                                            } else {
                                                SpeciesDiscriminant::Fennekin
                                            }
                                        } else {
                                            if i < 654 {
                                                SpeciesDiscriminant::Braixen
                                            } else {
                                                SpeciesDiscriminant::Delphox
                                            }
                                        }
                                    }
                                }
                            }
                        }
                    } else {
                        if i < 680 {
                            if i < 667 {
                                if i < 661 {
                                    if i < 658 {
                                        if i < 656 {
                                            SpeciesDiscriminant::Froakie
                                        } else {
                                            if i < 657 {
                                                SpeciesDiscriminant::Frogadier
                                            } else {
                                                SpeciesDiscriminant::Greninja
                                            }
                                        }
                                    } else {
                                        if i < 659 {
                                            SpeciesDiscriminant::Bunnelby
                                        } else {
                                            if i < 660 {
                                                SpeciesDiscriminant::Diggersby
                                            } else {
                                                SpeciesDiscriminant::Fletchling
                                            }
                                        }
                                    }
                                } else {
                                    if i < 664 {
                                        if i < 662 {
                                            SpeciesDiscriminant::Fletchinder
                                        } else {
                                            if i < 663 {
                                                SpeciesDiscriminant::Talonflame
                                            } else {
                                                SpeciesDiscriminant::Scatterbug
                                            }
                                        }
                                    } else {
                                        if i < 665 {
                                            SpeciesDiscriminant::Spewpa
                                        } else {
                                            if i < 666 {
                                                SpeciesDiscriminant::Vivillon
                                            } else {
                                                SpeciesDiscriminant::Litleo
                                            }
                                        }
                                    }
                                }
                            } else {
                                if i < 673 {
                                    if i < 670 {
                                        if i < 668 {
                                            SpeciesDiscriminant::Pyroar
                                        } else {
                                            if i < 669 {
                                                SpeciesDiscriminant::Flabebe
                                            } else {
                                                SpeciesDiscriminant::Floette
                                            }
                                        }
                                    } else {
                                        if i < 671 {
                                            SpeciesDiscriminant::Florges
                                        } else {
                                            if i < 672 {
                                                SpeciesDiscriminant::Skiddo
                                            } else {
                                                SpeciesDiscriminant::Gogoat
                                            }
                                        }
                                    }
                                } else {
                                    if i < 676 {
                                        if i < 674 {
                                            SpeciesDiscriminant::Pancham
                                        } else {
                                            if i < 675 {
                                                SpeciesDiscriminant::Pangoro
                                            } else {
                                                SpeciesDiscriminant::Furfrou
                                            }
                                        }
                                    } else {
                                        if i < 678 {
                                            if i < 677 {
                                                SpeciesDiscriminant::Espurr
                                            } else {
                                                SpeciesDiscriminant::Meowstic
                                            }
                                        } else {
                                            if i < 679 {
                                                SpeciesDiscriminant::Honedge
                                            } else {
                                                SpeciesDiscriminant::Doublade
                                            }
                                        }
                                    }
                                }
                            }
                        } else {
                            if i < 693 {
                                if i < 686 {
                                    if i < 683 {
                                        if i < 681 {
                                            SpeciesDiscriminant::Aegislash
                                        } else {
                                            if i < 682 {
                                                SpeciesDiscriminant::Spritzee
                                            } else {
                                                SpeciesDiscriminant::Aromatisse
                                            }
                                        }
                                    } else {
                                        if i < 684 {
                                            SpeciesDiscriminant::Swirlix
                                        } else {
                                            if i < 685 {
                                                SpeciesDiscriminant::Slurpuff
                                            } else {
                                                SpeciesDiscriminant::Inkay
                                            }
                                        }
                                    }
                                } else {
                                    if i < 689 {
                                        if i < 687 {
                                            SpeciesDiscriminant::Malamar
                                        } else {
                                            if i < 688 {
                                                SpeciesDiscriminant::Binacle
                                            } else {
                                                SpeciesDiscriminant::Barbaracle
                                            }
                                        }
                                    } else {
                                        if i < 691 {
                                            if i < 690 {
                                                SpeciesDiscriminant::Skrelp
                                            } else {
                                                SpeciesDiscriminant::Dragalge
                                            }
                                        } else {
                                            if i < 692 {
                                                SpeciesDiscriminant::Clauncher
                                            } else {
                                                SpeciesDiscriminant::Clawitzer
                                            }
                                        }
                                    }
                                }
                            } else {
                                if i < 699 {
                                    if i < 696 {
                                        if i < 694 {
                                            SpeciesDiscriminant::Helioptile
                                        } else {
                                            if i < 695 {
                                                SpeciesDiscriminant::Heliolisk
                                            } else {
                                                SpeciesDiscriminant::Tyrunt
                                            }
                                        }
                                    } else {
                                        if i < 697 {
                                            SpeciesDiscriminant::Tyrantrum
                                        } else {
                                            if i < 698 {
                                                SpeciesDiscriminant::Amaura
                                            } else {
                                                SpeciesDiscriminant::Aurorus
                                            }
                                        }
                                    }
                                } else {
                                    if i < 702 {
                                        if i < 700 {
                                            SpeciesDiscriminant::Sylveon
                                        } else {
                                            if i < 701 {
                                                SpeciesDiscriminant::Hawlucha
                                            } else {
                                                SpeciesDiscriminant::Dedenne
                                            }
                                        }
                                    } else {
                                        if i < 704 {
                                            if i < 703 {
                                                SpeciesDiscriminant::Carbink
                                            } else {
                                                SpeciesDiscriminant::Goomy
                                            }
                                        } else {
                                            if i < 705 {
                                                SpeciesDiscriminant::Sliggoo
                                            } else {
                                                SpeciesDiscriminant::Goodra
                                            }
                                        }
                                    }
                                }
                            }
                        }
                    }
                } else {
                    if i < 756 {
                        if i < 731 {
                            if i < 718 {
                                if i < 712 {
                                    if i < 709 {
                                        if i < 707 {
                                            SpeciesDiscriminant::Klefki
                                        } else {
                                            if i < 708 {
                                                SpeciesDiscriminant::Phantump
                                            } else {
                                                SpeciesDiscriminant::Trevenant
                                            }
                                        }
                                    } else {
                                        if i < 710 {
                                            SpeciesDiscriminant::Pumpkaboo
                                        } else {
                                            if i < 711 {
                                                SpeciesDiscriminant::Gourgeist
                                            } else {
                                                SpeciesDiscriminant::Bergmite
                                            }
                                        }
                                    }
                                } else {
                                    if i < 715 {
                                        if i < 713 {
                                            SpeciesDiscriminant::Avalugg
                                        } else {
                                            if i < 714 {
                                                SpeciesDiscriminant::Noibat
                                            } else {
                                                SpeciesDiscriminant::Noivern
                                            }
                                        }
                                    } else {
                                        if i < 716 {
                                            SpeciesDiscriminant::Xerneas
                                        } else {
                                            if i < 717 {
                                                SpeciesDiscriminant::Yveltal
                                            } else {
                                                SpeciesDiscriminant::Zygarde
                                            }
                                        }
                                    }
                                }
                            } else {
                                if i < 724 {
                                    if i < 721 {
                                        if i < 719 {
                                            SpeciesDiscriminant::Diancie
                                        } else {
                                            if i < 720 {
                                                SpeciesDiscriminant::Hoopa
                                            } else {
                                                SpeciesDiscriminant::Volcanion
                                            }
                                        }
                                    } else {
                                        if i < 722 {
                                            SpeciesDiscriminant::Rowlet
                                        } else {
                                            if i < 723 {
                                                SpeciesDiscriminant::Dartrix
                                            } else {
                                                SpeciesDiscriminant::Decidueye
                                            }
                                        }
                                    }
                                } else {
                                    if i < 727 {
                                        if i < 725 {
                                            SpeciesDiscriminant::Litten
                                        } else {
                                            if i < 726 {
                                                SpeciesDiscriminant::Torracat
                                            } else {
                                                SpeciesDiscriminant::Incineroar
                                            }
                                        }
                                    } else {
                                        if i < 729 {
                                            if i < 728 {
                                                SpeciesDiscriminant::Popplio
                                            } else {
                                                SpeciesDiscriminant::Brionne
                                            }
                                        } else {
                                            if i < 730 {
                                                SpeciesDiscriminant::Primarina
                                            } else {
                                                SpeciesDiscriminant::Pikipek
                                            }
                                        }
                                    }
                                }
                            }
                        } else {
                            if i < 743 {
                                if i < 737 {
                                    if i < 734 {
                                        if i < 732 {
                                            SpeciesDiscriminant::Trumbeak
                                        } else {
                                            if i < 733 {
                                                SpeciesDiscriminant::Toucannon
                                            } else {
                                                SpeciesDiscriminant::Yungoos
                                            }
                                        }
                                    } else {
                                        if i < 735 {
                                            SpeciesDiscriminant::Gumshoos
                                        } else {
                                            if i < 736 {
                                                SpeciesDiscriminant::Grubbin
                                            } else {
                                                SpeciesDiscriminant::Charjabug
                                            }
                                        }
                                    }
                                } else {
                                    if i < 740 {
                                        if i < 738 {
                                            SpeciesDiscriminant::Vikavolt
                                        } else {
                                            if i < 739 {
                                                SpeciesDiscriminant::Crabrawler
                                            } else {
                                                SpeciesDiscriminant::Crabominable
                                            }
                                        }
                                    } else {
                                        if i < 741 {
                                            SpeciesDiscriminant::Oricorio
                                        } else {
                                            if i < 742 {
                                                SpeciesDiscriminant::Cutiefly
                                            } else {
                                                SpeciesDiscriminant::Ribombee
                                            }
                                        }
                                    }
                                }
                            } else {
                                if i < 749 {
                                    if i < 746 {
                                        if i < 744 {
                                            SpeciesDiscriminant::Rockruff
                                        } else {
                                            if i < 745 {
                                                SpeciesDiscriminant::Lycanroc
                                            } else {
                                                SpeciesDiscriminant::Wishiwashi
                                            }
                                        }
                                    } else {
                                        if i < 747 {
                                            SpeciesDiscriminant::Mareanie
                                        } else {
                                            if i < 748 {
                                                SpeciesDiscriminant::Toxapex
                                            } else {
                                                SpeciesDiscriminant::Mudbray
                                            }
                                        }
                                    }
                                } else {
                                    if i < 752 {
                                        if i < 750 {
                                            SpeciesDiscriminant::Mudsdale
                                        } else {
                                            if i < 751 {
                                                SpeciesDiscriminant::Dewpider
                                            } else {
                                                SpeciesDiscriminant::Araquanid
                                            }
                                        }
                                    } else {
                                        if i < 754 {
                                            if i < 753 {
                                                SpeciesDiscriminant::Fomantis
                                            } else {
                                                SpeciesDiscriminant::Lurantis
                                            }
                                        } else {
                                            if i < 755 {
                                                SpeciesDiscriminant::Morelull
                                            } else {
                                                SpeciesDiscriminant::Shiinotic
                                            }
                                        }
                                    }
                                }
                            }
                        }
                    } else {
                        if i < 781 {
                            if i < 768 {
                                if i < 762 {
                                    if i < 759 {
                                        if i < 757 {
                                            SpeciesDiscriminant::Salandit
                                        } else {
                                            if i < 758 {
                                                SpeciesDiscriminant::Salazzle
                                            } else {
                                                SpeciesDiscriminant::Stufful
                                            }
                                        }
                                    } else {
                                        if i < 760 {
                                            SpeciesDiscriminant::Bewear
                                        } else {
                                            if i < 761 {
                                                SpeciesDiscriminant::Bounsweet
                                            } else {
                                                SpeciesDiscriminant::Steenee
                                            }
                                        }
                                    }
                                } else {
                                    if i < 765 {
                                        if i < 763 {
                                            SpeciesDiscriminant::Tsareena
                                        } else {
                                            if i < 764 {
                                                SpeciesDiscriminant::Comfey
                                            } else {
                                                SpeciesDiscriminant::Oranguru
                                            }
                                        }
                                    } else {
                                        if i < 766 {
                                            SpeciesDiscriminant::Passimian
                                        } else {
                                            if i < 767 {
                                                SpeciesDiscriminant::Wimpod
                                            } else {
                                                SpeciesDiscriminant::Golisopod
                                            }
                                        }
                                    }
                                }
                            } else {
                                if i < 774 {
                                    if i < 771 {
                                        if i < 769 {
                                            SpeciesDiscriminant::Sandygast
                                        } else {
                                            if i < 770 {
                                                SpeciesDiscriminant::Palossand
                                            } else {
                                                SpeciesDiscriminant::Pyukumuku
                                            }
                                        }
                                    } else {
                                        if i < 772 {
                                            SpeciesDiscriminant::TypeNull
                                        } else {
                                            if i < 773 {
                                                SpeciesDiscriminant::Silvally
                                            } else {
                                                SpeciesDiscriminant::Minior
                                            }
                                        }
                                    }
                                } else {
                                    if i < 777 {
                                        if i < 775 {
                                            SpeciesDiscriminant::Komala
                                        } else {
                                            if i < 776 {
                                                SpeciesDiscriminant::Turtonator
                                            } else {
                                                SpeciesDiscriminant::Togedemaru
                                            }
                                        }
                                    } else {
                                        if i < 779 {
                                            if i < 778 {
                                                SpeciesDiscriminant::Mimikyu
                                            } else {
                                                SpeciesDiscriminant::Bruxish
                                            }
                                        } else {
                                            if i < 780 {
                                                SpeciesDiscriminant::Drampa
                                            } else {
                                                SpeciesDiscriminant::Dhelmise
                                            }
                                        }
                                    }
                                }
                            }
                        } else {
                            if i < 794 {
                                if i < 787 {
                                    if i < 784 {
                                        if i < 782 {
                                            SpeciesDiscriminant::JangmoO
                                        } else {
                                            if i < 783 {
                                                SpeciesDiscriminant::HakamoO
                                            } else {
                                                SpeciesDiscriminant::KommoO
                                            }
                                        }
                                    } else {
                                        if i < 785 {
                                            SpeciesDiscriminant::TapuKoko
                                        } else {
                                            if i < 786 {
                                                SpeciesDiscriminant::TapuLele
                                            } else {
                                                SpeciesDiscriminant::TapuBulu
                                            }
                                        }
                                    }
                                } else {
                                    if i < 790 {
                                        if i < 788 {
                                            SpeciesDiscriminant::TapuFini
                                        } else {
                                            if i < 789 {
                                                SpeciesDiscriminant::Cosmog
                                            } else {
                                                SpeciesDiscriminant::Cosmoem
                                            }
                                        }
                                    } else {
                                        if i < 792 {
                                            if i < 791 {
                                                SpeciesDiscriminant::Solgaleo
                                            } else {
                                                SpeciesDiscriminant::Lunala
                                            }
                                        } else {
                                            if i < 793 {
                                                SpeciesDiscriminant::Nihilego
                                            } else {
                                                SpeciesDiscriminant::Buzzwole
                                            }
                                        }
                                    }
                                }
                            } else {
                                if i < 800 {
                                    if i < 797 {
                                        if i < 795 {
                                            SpeciesDiscriminant::Pheromosa
                                        } else {
                                            if i < 796 {
                                                SpeciesDiscriminant::Xurkitree
                                            } else {
                                                SpeciesDiscriminant::Celesteela
                                            }
                                        }
                                    } else {
                                        if i < 798 {
                                            SpeciesDiscriminant::Kartana
                                        } else {
                                            if i < 799 {
                                                SpeciesDiscriminant::Guzzlord
                                            } else {
                                                SpeciesDiscriminant::Necrozma
                                            }
                                        }
                                    }
                                } else {
                                    if i < 803 {
                                        if i < 801 {
                                            SpeciesDiscriminant::Magearna
                                        } else {
                                            if i < 802 {
                                                SpeciesDiscriminant::Marshadow
                                            } else {
                                                SpeciesDiscriminant::Poipole
                                            }
                                        }
                                    } else {
                                        if i < 805 {
                                            if i < 804 {
                                                SpeciesDiscriminant::Naganadel
                                            } else {
                                                SpeciesDiscriminant::Stakataka
                                            }
                                        } else {
                                            if i < 806 {
                                                SpeciesDiscriminant::Blacephalon
                                            } else {
                                                SpeciesDiscriminant::Zeraora
                                            }
                                        }
                                    }
                                }
                            }
                        }
                    }
                }
            }
        }
    }

    /// Every species, in dex order.
    pub fn iter() -> (r: Vec<SpeciesDiscriminant>)
        ensures
            r@ == all_species_seq(),
    {
        let mut r: Vec<SpeciesDiscriminant> = Vec::new();
        let mut i: u16 = 0;
        while i < SPECIES_COUNT
            invariant
                i <= 807,
                r@ == all_species_seq().take(i as int),
            decreases 807 - i,
        {
            r.push(SpeciesDiscriminant::from_index(i));
            assert(all_species_seq().take(i + 1) =~= all_species_seq().take(i as int).push(
                species_at(i as int),
            ));
            i = i + 1;
        }
        assert(all_species_seq().take(807) =~= all_species_seq());
        r
    }

    /// The in-game name of this species, such as "Ho-Oh" or "Type: Null".
    pub fn name(self) -> (r: &'static str)
        ensures
            r@ == display_name(self),
    {
        match self {
            SpeciesDiscriminant::Bulbasaur
            | SpeciesDiscriminant::Ivysaur
            | SpeciesDiscriminant::Venusaur
            | SpeciesDiscriminant::Charmander
            | SpeciesDiscriminant::Charmeleon
            | SpeciesDiscriminant::Charizard
            | SpeciesDiscriminant::Squirtle
            | SpeciesDiscriminant::Wartortle
            | SpeciesDiscriminant::Blastoise
            | SpeciesDiscriminant::Caterpie
            | SpeciesDiscriminant::Metapod
            | SpeciesDiscriminant::Butterfree
            | SpeciesDiscriminant::Weedle
            | SpeciesDiscriminant::Kakuna
            | SpeciesDiscriminant::Beedrill
            | SpeciesDiscriminant::Pidgey
            | SpeciesDiscriminant::Pidgeotto
            | SpeciesDiscriminant::Pidgeot
            | SpeciesDiscriminant::Rattata
            | SpeciesDiscriminant::Raticate
            | SpeciesDiscriminant::Spearow
            | SpeciesDiscriminant::Fearow
            | SpeciesDiscriminant::Ekans
            | SpeciesDiscriminant::Arbok
            | SpeciesDiscriminant::Pikachu
            | SpeciesDiscriminant::Raichu
            | SpeciesDiscriminant::Sandshrew
            | SpeciesDiscriminant::Sandslash
            | SpeciesDiscriminant::NidoranF
            | SpeciesDiscriminant::Nidorina
            | SpeciesDiscriminant::Nidoqueen
            | SpeciesDiscriminant::NidoranM
            | SpeciesDiscriminant::Nidorino
            | SpeciesDiscriminant::Nidoking
            | SpeciesDiscriminant::Clefairy
            | SpeciesDiscriminant::Clefable
            | SpeciesDiscriminant::Vulpix
            | SpeciesDiscriminant::Ninetales
            | SpeciesDiscriminant::Jigglypuff
            | SpeciesDiscriminant::Wigglytuff
            | SpeciesDiscriminant::Zubat
            | SpeciesDiscriminant::Golbat
            | SpeciesDiscriminant::Oddish
            | SpeciesDiscriminant::Gloom
            | SpeciesDiscriminant::Vileplume
            | SpeciesDiscriminant::Paras
            | SpeciesDiscriminant::Parasect
            | SpeciesDiscriminant::Venonat
            | SpeciesDiscriminant::Venomoth
            | SpeciesDiscriminant::Diglett
            | SpeciesDiscriminant::Dugtrio
            | SpeciesDiscriminant::Meowth
            | SpeciesDiscriminant::Persian
            | SpeciesDiscriminant::Psyduck
            | SpeciesDiscriminant::Golduck
            | SpeciesDiscriminant::Mankey
            | SpeciesDiscriminant::Primeape
            | SpeciesDiscriminant::Growlithe
            | SpeciesDiscriminant::Arcanine
            | SpeciesDiscriminant::Poliwag
            | SpeciesDiscriminant::Poliwhirl
            | SpeciesDiscriminant::Poliwrath
            | SpeciesDiscriminant::Abra
            | SpeciesDiscriminant::Kadabra
            | SpeciesDiscriminant::Alakazam
            | SpeciesDiscriminant::Machop
            | SpeciesDiscriminant::Machoke
            | SpeciesDiscriminant::Machamp
            | SpeciesDiscriminant::Bellsprout
            | SpeciesDiscriminant::Weepinbell
            | SpeciesDiscriminant::Victreebel
            | SpeciesDiscriminant::Tentacool
            | SpeciesDiscriminant::Tentacruel
            | SpeciesDiscriminant::Geodude
            | SpeciesDiscriminant::Graveler
            | SpeciesDiscriminant::Golem
            | SpeciesDiscriminant::Ponyta
            | SpeciesDiscriminant::Rapidash
            | SpeciesDiscriminant::Slowpoke
            | SpeciesDiscriminant::Slowbro
            | SpeciesDiscriminant::Magnemite
            | SpeciesDiscriminant::Magneton
            | SpeciesDiscriminant::Farfetchd
            | SpeciesDiscriminant::Doduo
            | SpeciesDiscriminant::Dodrio
            | SpeciesDiscriminant::Seel
            | SpeciesDiscriminant::Dewgong
            | SpeciesDiscriminant::Grimer
            | SpeciesDiscriminant::Muk
            | SpeciesDiscriminant::Shellder
            | SpeciesDiscriminant::Cloyster
            | SpeciesDiscriminant::Gastly
            | SpeciesDiscriminant::Haunter
            | SpeciesDiscriminant::Gengar
            | SpeciesDiscriminant::Onix
            | SpeciesDiscriminant::Drowzee
            | SpeciesDiscriminant::Hypno
            | SpeciesDiscriminant::Krabby
            | SpeciesDiscriminant::Kingler
            | SpeciesDiscriminant::Voltorb
            | SpeciesDiscriminant::Electrode
            | SpeciesDiscriminant::Exeggcute
            | SpeciesDiscriminant::Exeggutor
            | SpeciesDiscriminant::Cubone
            | SpeciesDiscriminant::Marowak
            | SpeciesDiscriminant::Hitmonlee
            | SpeciesDiscriminant::Hitmonchan
            | SpeciesDiscriminant::Lickitung
            | SpeciesDiscriminant::Koffing
            | SpeciesDiscriminant::Weezing
            | SpeciesDiscriminant::Rhyhorn
            | SpeciesDiscriminant::Rhydon
            | SpeciesDiscriminant::Chansey
            | SpeciesDiscriminant::Tangela
            | SpeciesDiscriminant::Kangaskhan
            | SpeciesDiscriminant::Horsea
            | SpeciesDiscriminant::Seadra
            | SpeciesDiscriminant::Goldeen
            | SpeciesDiscriminant::Seaking
            | SpeciesDiscriminant::Staryu
            | SpeciesDiscriminant::Starmie
            | SpeciesDiscriminant::MrMime
            | SpeciesDiscriminant::Scyther
            | SpeciesDiscriminant::Jynx
            | SpeciesDiscriminant::Electabuzz
            | SpeciesDiscriminant::Magmar
            | SpeciesDiscriminant::Pinsir
            | SpeciesDiscriminant::Tauros
            | SpeciesDiscriminant::Magikarp
            | SpeciesDiscriminant::Gyarados
            | SpeciesDiscriminant::Lapras
            | SpeciesDiscriminant::Ditto
            | SpeciesDiscriminant::Eevee
            | SpeciesDiscriminant::Vaporeon
            | SpeciesDiscriminant::Jolteon
            | SpeciesDiscriminant::Flareon
            | SpeciesDiscriminant::Porygon
            | SpeciesDiscriminant::Omanyte
            | SpeciesDiscriminant::Omastar
            | SpeciesDiscriminant::Kabuto
            | SpeciesDiscriminant::Kabutops
            | SpeciesDiscriminant::Aerodactyl
            | SpeciesDiscriminant::Snorlax
            | SpeciesDiscriminant::Articuno
            | SpeciesDiscriminant::Zapdos
            | SpeciesDiscriminant::Moltres
            | SpeciesDiscriminant::Dratini
            | SpeciesDiscriminant::Dragonair
            | SpeciesDiscriminant::Dragonite
            | SpeciesDiscriminant::Mewtwo
            | SpeciesDiscriminant::Mew
            | SpeciesDiscriminant::Chikorita
            | SpeciesDiscriminant::Bayleef
            | SpeciesDiscriminant::Meganium
            | SpeciesDiscriminant::Cyndaquil
            | SpeciesDiscriminant::Quilava
            | SpeciesDiscriminant::Typhlosion
            | SpeciesDiscriminant::Totodile
            | SpeciesDiscriminant::Croconaw
            | SpeciesDiscriminant::Feraligatr
            | SpeciesDiscriminant::Sentret
            | SpeciesDiscriminant::Furret
            | SpeciesDiscriminant::Hoothoot
            | SpeciesDiscriminant::Noctowl
            | SpeciesDiscriminant::Ledyba
            | SpeciesDiscriminant::Ledian
            | SpeciesDiscriminant::Spinarak
            | SpeciesDiscriminant::Ariados
            | SpeciesDiscriminant::Crobat
            | SpeciesDiscriminant::Chinchou
            | SpeciesDiscriminant::Lanturn
            | SpeciesDiscriminant::Pichu
            | SpeciesDiscriminant::Cleffa
            | SpeciesDiscriminant::Igglybuff
            | SpeciesDiscriminant::Togepi
            | SpeciesDiscriminant::Togetic
            | SpeciesDiscriminant::Natu
            | SpeciesDiscriminant::Xatu
            | SpeciesDiscriminant::Mareep
            | SpeciesDiscriminant::Flaaffy
            | SpeciesDiscriminant::Ampharos
            | SpeciesDiscriminant::Bellossom
            | SpeciesDiscriminant::Marill
            | SpeciesDiscriminant::Azumarill
            | SpeciesDiscriminant::Sudowoodo
            | SpeciesDiscriminant::Politoed
            | SpeciesDiscriminant::Hoppip
            | SpeciesDiscriminant::Skiploom
            | SpeciesDiscriminant::Jumpluff
            | SpeciesDiscriminant::Aipom
            | SpeciesDiscriminant::Sunkern
            | SpeciesDiscriminant::Sunflora
            | SpeciesDiscriminant::Yanma
            | SpeciesDiscriminant::Wooper
            | SpeciesDiscriminant::Quagsire
            | SpeciesDiscriminant::Espeon
            | SpeciesDiscriminant::Umbreon
            | SpeciesDiscriminant::Murkrow
            | SpeciesDiscriminant::Slowking
            | SpeciesDiscriminant::Misdreavus
            | SpeciesDiscriminant::Unown
            | SpeciesDiscriminant::Wobbuffet
            | SpeciesDiscriminant::Girafarig
            | SpeciesDiscriminant::Pineco
            | SpeciesDiscriminant::Forretress
            | SpeciesDiscriminant::Dunsparce
            | SpeciesDiscriminant::Gligar
            | SpeciesDiscriminant::Steelix
            | SpeciesDiscriminant::Snubbull
            | SpeciesDiscriminant::Granbull
            | SpeciesDiscriminant::Qwilfish
            | SpeciesDiscriminant::Scizor
            | SpeciesDiscriminant::Shuckle
            | SpeciesDiscriminant::Heracross
            | SpeciesDiscriminant::Sneasel
            | SpeciesDiscriminant::Teddiursa
            | SpeciesDiscriminant::Ursaring
            | SpeciesDiscriminant::Slugma
            | SpeciesDiscriminant::Magcargo
            | SpeciesDiscriminant::Swinub
            | SpeciesDiscriminant::Piloswine
            | SpeciesDiscriminant::Corsola
            | SpeciesDiscriminant::Remoraid
            | SpeciesDiscriminant::Octillery
            | SpeciesDiscriminant::Delibird
            | SpeciesDiscriminant::Mantine
            | SpeciesDiscriminant::Skarmory
            | SpeciesDiscriminant::Houndour
            | SpeciesDiscriminant::Houndoom
            | SpeciesDiscriminant::Kingdra
            | SpeciesDiscriminant::Phanpy
            | SpeciesDiscriminant::Donphan
            | SpeciesDiscriminant::Porygon2
            | SpeciesDiscriminant::Stantler
            | SpeciesDiscriminant::Smeargle
            | SpeciesDiscriminant::Tyrogue
            | SpeciesDiscriminant::Hitmontop
            | SpeciesDiscriminant::Smoochum
            | SpeciesDiscriminant::Elekid
            | SpeciesDiscriminant::Magby
            | SpeciesDiscriminant::Miltank
            | SpeciesDiscriminant::Blissey
            | SpeciesDiscriminant::Raikou
            | SpeciesDiscriminant::Entei
            | SpeciesDiscriminant::Suicune
            | SpeciesDiscriminant::Larvitar
            | SpeciesDiscriminant::Pupitar
            | SpeciesDiscriminant::Tyranitar
            | SpeciesDiscriminant::Lugia
            | SpeciesDiscriminant::HoOh
            | SpeciesDiscriminant::Celebi
            | SpeciesDiscriminant::Treecko
            | SpeciesDiscriminant::Grovyle
            | SpeciesDiscriminant::Sceptile
            | SpeciesDiscriminant::Torchic
            | SpeciesDiscriminant::Combusken
            | SpeciesDiscriminant::Blaziken
            | SpeciesDiscriminant::Mudkip
            | SpeciesDiscriminant::Marshtomp
            | SpeciesDiscriminant::Swampert
            | SpeciesDiscriminant::Poochyena
            | SpeciesDiscriminant::Mightyena
            | SpeciesDiscriminant::Zigzagoon
            | SpeciesDiscriminant::Linoone
            | SpeciesDiscriminant::Wurmple
            | SpeciesDiscriminant::Silcoon
            | SpeciesDiscriminant::Beautifly
            | SpeciesDiscriminant::Cascoon
            | SpeciesDiscriminant::Dustox
            | SpeciesDiscriminant::Lotad
            | SpeciesDiscriminant::Lombre
            | SpeciesDiscriminant::Ludicolo
            | SpeciesDiscriminant::Seedot
            | SpeciesDiscriminant::Nuzleaf
            | SpeciesDiscriminant::Shiftry
            | SpeciesDiscriminant::Taillow
            | SpeciesDiscriminant::Swellow
            | SpeciesDiscriminant::Wingull
            | SpeciesDiscriminant::Pelipper
            | SpeciesDiscriminant::Ralts
            | SpeciesDiscriminant::Kirlia
            | SpeciesDiscriminant::Gardevoir
            | SpeciesDiscriminant::Surskit
            | SpeciesDiscriminant::Masquerain
            | SpeciesDiscriminant::Shroomish
            | SpeciesDiscriminant::Breloom
            | SpeciesDiscriminant::Slakoth
            | SpeciesDiscriminant::Vigoroth
            | SpeciesDiscriminant::Slaking
            | SpeciesDiscriminant::Nincada
            | SpeciesDiscriminant::Ninjask
            | SpeciesDiscriminant::Shedinja
            | SpeciesDiscriminant::Whismur
            | SpeciesDiscriminant::Loudred
            | SpeciesDiscriminant::Exploud
            | SpeciesDiscriminant::Makuhita
            | SpeciesDiscriminant::Hariyama
            | SpeciesDiscriminant::Azurill
            | SpeciesDiscriminant::Nosepass
            | SpeciesDiscriminant::Skitty
            | SpeciesDiscriminant::Delcatty
            | SpeciesDiscriminant::Sableye
            | SpeciesDiscriminant::Mawile
            | SpeciesDiscriminant::Aron
            | SpeciesDiscriminant::Lairon
            | SpeciesDiscriminant::Aggron
            | SpeciesDiscriminant::Meditite
            | SpeciesDiscriminant::Medicham
            | SpeciesDiscriminant::Electrike
            | SpeciesDiscriminant::Manectric
            | SpeciesDiscriminant::Plusle
            | SpeciesDiscriminant::Minun
            | SpeciesDiscriminant::Volbeat
            | SpeciesDiscriminant::Illumise
            | SpeciesDiscriminant::Roselia
            | SpeciesDiscriminant::Gulpin
            | SpeciesDiscriminant::Swalot
            | SpeciesDiscriminant::Carvanha
            | SpeciesDiscriminant::Sharpedo
            | SpeciesDiscriminant::Wailmer
            | SpeciesDiscriminant::Wailord
            | SpeciesDiscriminant::Numel
            | SpeciesDiscriminant::Camerupt
            | SpeciesDiscriminant::Torkoal
            | SpeciesDiscriminant::Spoink
            | SpeciesDiscriminant::Grumpig
            | SpeciesDiscriminant::Spinda
            | SpeciesDiscriminant::Trapinch
            | SpeciesDiscriminant::Vibrava
            | SpeciesDiscriminant::Flygon
            | SpeciesDiscriminant::Cacnea
            | SpeciesDiscriminant::Cacturne
            | SpeciesDiscriminant::Swablu
            | SpeciesDiscriminant::Altaria
            | SpeciesDiscriminant::Zangoose
            | SpeciesDiscriminant::Seviper
            | SpeciesDiscriminant::Lunatone
            | SpeciesDiscriminant::Solrock
            | SpeciesDiscriminant::Barboach
            | SpeciesDiscriminant::Whiscash
            | SpeciesDiscriminant::Corphish
            | SpeciesDiscriminant::Crawdaunt
            | SpeciesDiscriminant::Baltoy
            | SpeciesDiscriminant::Claydol
            | SpeciesDiscriminant::Lileep
            | SpeciesDiscriminant::Cradily
            | SpeciesDiscriminant::Anorith
            | SpeciesDiscriminant::Armaldo
            | SpeciesDiscriminant::Feebas
            | SpeciesDiscriminant::Milotic
            | SpeciesDiscriminant::Castform
            | SpeciesDiscriminant::Kecleon
            | SpeciesDiscriminant::Shuppet
            | SpeciesDiscriminant::Banette
            | SpeciesDiscriminant::Duskull
            | SpeciesDiscriminant::Dusclops
            | SpeciesDiscriminant::Tropius
            | SpeciesDiscriminant::Chimecho
            | SpeciesDiscriminant::Absol
            | SpeciesDiscriminant::Wynaut
            | SpeciesDiscriminant::Snorunt
            | SpeciesDiscriminant::Glalie
            | SpeciesDiscriminant::Spheal
            | SpeciesDiscriminant::Sealeo
            | SpeciesDiscriminant::Walrein
            | SpeciesDiscriminant::Clamperl
            | SpeciesDiscriminant::Huntail
            | SpeciesDiscriminant::Gorebyss
            | SpeciesDiscriminant::Relicanth
            | SpeciesDiscriminant::Luvdisc
            | SpeciesDiscriminant::Bagon
            | SpeciesDiscriminant::Shelgon
            | SpeciesDiscriminant::Salamence
            | SpeciesDiscriminant::Beldum
            | SpeciesDiscriminant::Metang
            | SpeciesDiscriminant::Metagross
            | SpeciesDiscriminant::Regirock
            | SpeciesDiscriminant::Regice
            | SpeciesDiscriminant::Registeel
            | SpeciesDiscriminant::Latias
            | SpeciesDiscriminant::Latios
            | SpeciesDiscriminant::Kyogre
            | SpeciesDiscriminant::Groudon
            | SpeciesDiscriminant::Rayquaza
            | SpeciesDiscriminant::Jirachi
            | SpeciesDiscriminant::Deoxys
            => self.name_early(),
            _ => self.name_late(),
        }
    }

    /// The in-game name of this species, where it is of the first three generations.
    fn name_early(self) -> (r: &'static str)
        ensures
            r@ == display_name_early(self),
    {
        match self {
            SpeciesDiscriminant::Bulbasaur => "Bulbasaur",
            SpeciesDiscriminant::Ivysaur => "Ivysaur",
            SpeciesDiscriminant::Venusaur => "Venusaur",
            SpeciesDiscriminant::Charmander => "Charmander",
            SpeciesDiscriminant::Charmeleon => "Charmeleon",
            SpeciesDiscriminant::Charizard => "Charizard",
            SpeciesDiscriminant::Squirtle => "Squirtle",
            SpeciesDiscriminant::Wartortle => "Wartortle",
            SpeciesDiscriminant::Blastoise => "Blastoise",
            SpeciesDiscriminant::Caterpie => "Caterpie",
            SpeciesDiscriminant::Metapod => "Metapod",
            SpeciesDiscriminant::Butterfree => "Butterfree",
            SpeciesDiscriminant::Weedle => "Weedle",
            SpeciesDiscriminant::Kakuna => "Kakuna",
            SpeciesDiscriminant::Beedrill => "Beedrill",
            SpeciesDiscriminant::Pidgey => "Pidgey",
            SpeciesDiscriminant::Pidgeotto => "Pidgeotto",
            SpeciesDiscriminant::Pidgeot => "Pidgeot",
            SpeciesDiscriminant::Rattata => "Rattata",
            SpeciesDiscriminant::Raticate => "Raticate",
            SpeciesDiscriminant::Spearow => "Spearow",
            SpeciesDiscriminant::Fearow => "Fearow",
            SpeciesDiscriminant::Ekans => "Ekans",
            SpeciesDiscriminant::Arbok => "Arbok",
            SpeciesDiscriminant::Pikachu => "Pikachu",
            SpeciesDiscriminant::Raichu => "Raichu",
            SpeciesDiscriminant::Sandshrew => "Sandshrew",
            SpeciesDiscriminant::Sandslash => "Sandslash",
            SpeciesDiscriminant::NidoranF => "Nidoran♀",
            SpeciesDiscriminant::Nidorina => "Nidorina",
            SpeciesDiscriminant::Nidoqueen => "Nidoqueen",
            SpeciesDiscriminant::NidoranM => "Nidoran♂",
            SpeciesDiscriminant::Nidorino => "Nidorino",
            SpeciesDiscriminant::Nidoking => "Nidoking",
            SpeciesDiscriminant::Clefairy => "Clefairy",
            SpeciesDiscriminant::Clefable => "Clefable",
            SpeciesDiscriminant::Vulpix => "Vulpix",
            SpeciesDiscriminant::Ninetales => "Ninetales",
            SpeciesDiscriminant::Jigglypuff => "Jigglypuff",
            SpeciesDiscriminant::Wigglytuff => "Wigglytuff",
            SpeciesDiscriminant::Zubat => "Zubat",
            SpeciesDiscriminant::Golbat => "Golbat",
            SpeciesDiscriminant::Oddish => "Oddish",
            SpeciesDiscriminant::Gloom => "Gloom",
            SpeciesDiscriminant::Vileplume => "Vileplume",
            SpeciesDiscriminant::Paras => "Paras",
            SpeciesDiscriminant::Parasect => "Parasect",
            SpeciesDiscriminant::Venonat => "Venonat",
            SpeciesDiscriminant::Venomoth => "Venomoth",
            SpeciesDiscriminant::Diglett => "Diglett",
            SpeciesDiscriminant::Dugtrio => "Dugtrio",
            SpeciesDiscriminant::Meowth => "Meowth",
            SpeciesDiscriminant::Persian => "Persian",
            SpeciesDiscriminant::Psyduck => "Psyduck",
            SpeciesDiscriminant::Golduck => "Golduck",
            SpeciesDiscriminant::Mankey => "Mankey",
            SpeciesDiscriminant::Primeape => "Primeape",
            SpeciesDiscriminant::Growlithe => "Growlithe",
            SpeciesDiscriminant::Arcanine => "Arcanine",
            SpeciesDiscriminant::Poliwag => "Poliwag",
            SpeciesDiscriminant::Poliwhirl => "Poliwhirl",
            SpeciesDiscriminant::Poliwrath => "Poliwrath",
            SpeciesDiscriminant::Abra => "Abra",
            SpeciesDiscriminant::Kadabra => "Kadabra",
            SpeciesDiscriminant::Alakazam => "Alakazam",
            SpeciesDiscriminant::Machop => "Machop",
            SpeciesDiscriminant::Machoke => "Machoke",
            SpeciesDiscriminant::Machamp => "Machamp",
            SpeciesDiscriminant::Bellsprout => "Bellsprout",
            SpeciesDiscriminant::Weepinbell => "Weepinbell",
            SpeciesDiscriminant::Victreebel => "Victreebel",
            SpeciesDiscriminant::Tentacool => "Tentacool",
            SpeciesDiscriminant::Tentacruel => "Tentacruel",
            SpeciesDiscriminant::Geodude => "Geodude",
            SpeciesDiscriminant::Graveler => "Graveler",
            SpeciesDiscriminant::Golem => "Golem",
            SpeciesDiscriminant::Ponyta => "Ponyta",
            SpeciesDiscriminant::Rapidash => "Rapidash",
            SpeciesDiscriminant::Slowpoke => "Slowpoke",
            SpeciesDiscriminant::Slowbro => "Slowbro",
            SpeciesDiscriminant::Magnemite => "Magnemite",
            SpeciesDiscriminant::Magneton => "Magneton",
            SpeciesDiscriminant::Farfetchd => "Farfetch'd",
            SpeciesDiscriminant::Doduo => "Doduo",
            SpeciesDiscriminant::Dodrio => "Dodrio",
            SpeciesDiscriminant::Seel => "Seel",
            SpeciesDiscriminant::Dewgong => "Dewgong",
            SpeciesDiscriminant::Grimer => "Grimer",
            SpeciesDiscriminant::Muk => "Muk",
            SpeciesDiscriminant::Shellder => "Shellder",
            SpeciesDiscriminant::Cloyster => "Cloyster",
            SpeciesDiscriminant::Gastly => "Gastly",
            SpeciesDiscriminant::Haunter => "Haunter",
            SpeciesDiscriminant::Gengar => "Gengar",
            SpeciesDiscriminant::Onix => "Onix",
            SpeciesDiscriminant::Drowzee => "Drowzee",
            SpeciesDiscriminant::Hypno => "Hypno",
            SpeciesDiscriminant::Krabby => "Krabby",
            SpeciesDiscriminant::Kingler => "Kingler",
            SpeciesDiscriminant::Voltorb => "Voltorb",
            SpeciesDiscriminant::Electrode => "Electrode",
            SpeciesDiscriminant::Exeggcute => "Exeggcute",
            SpeciesDiscriminant::Exeggutor => "Exeggutor",
            SpeciesDiscriminant::Cubone => "Cubone",
            SpeciesDiscriminant::Marowak => "Marowak",
            SpeciesDiscriminant::Hitmonlee => "Hitmonlee",
            SpeciesDiscriminant::Hitmonchan => "Hitmonchan",
            SpeciesDiscriminant::Lickitung => "Lickitung",
            SpeciesDiscriminant::Koffing => "Koffing",
            SpeciesDiscriminant::Weezing => "Weezing",
            SpeciesDiscriminant::Rhyhorn => "Rhyhorn",
            SpeciesDiscriminant::Rhydon => "Rhydon",
            SpeciesDiscriminant::Chansey => "Chansey",
            SpeciesDiscriminant::Tangela => "Tangela",
            SpeciesDiscriminant::Kangaskhan => "Kangaskhan",
            SpeciesDiscriminant::Horsea => "Horsea",
            SpeciesDiscriminant::Seadra => "Seadra",
            SpeciesDiscriminant::Goldeen => "Goldeen",
            SpeciesDiscriminant::Seaking => "Seaking",
            SpeciesDiscriminant::Staryu => "Staryu",
            SpeciesDiscriminant::Starmie => "Starmie",
            SpeciesDiscriminant::MrMime => "Mr. Mime",
            SpeciesDiscriminant::Scyther => "Scyther",
            SpeciesDiscriminant::Jynx => "Jynx",
            SpeciesDiscriminant::Electabuzz => "Electabuzz",
            SpeciesDiscriminant::Magmar => "Magmar",
            SpeciesDiscriminant::Pinsir => "Pinsir",
            SpeciesDiscriminant::Tauros => "Tauros",
            SpeciesDiscriminant::Magikarp => "Magikarp",
            SpeciesDiscriminant::Gyarados => "Gyarados",
            SpeciesDiscriminant::Lapras => "Lapras",
            SpeciesDiscriminant::Ditto => "Ditto",
            SpeciesDiscriminant::Eevee => "Eevee",
            SpeciesDiscriminant::Vaporeon => "Vaporeon",
            SpeciesDiscriminant::Jolteon => "Jolteon",
            SpeciesDiscriminant::Flareon => "Flareon",
            SpeciesDiscriminant::Porygon => "Porygon",
            SpeciesDiscriminant::Omanyte => "Omanyte",
            SpeciesDiscriminant::Omastar => "Omastar",
            SpeciesDiscriminant::Kabuto => "Kabuto",
            SpeciesDiscriminant::Kabutops => "Kabutops",
            SpeciesDiscriminant::Aerodactyl => "Aerodactyl",
            SpeciesDiscriminant::Snorlax => "Snorlax",
            SpeciesDiscriminant::Articuno => "Articuno",
            SpeciesDiscriminant::Zapdos => "Zapdos",
            SpeciesDiscriminant::Moltres => "Moltres",
            SpeciesDiscriminant::Dratini => "Dratini",
            SpeciesDiscriminant::Dragonair => "Dragonair",
            SpeciesDiscriminant::Dragonite => "Dragonite",
            SpeciesDiscriminant::Mewtwo => "Mewtwo",
            SpeciesDiscriminant::Mew => "Mew",
            SpeciesDiscriminant::Chikorita => "Chikorita",
            SpeciesDiscriminant::Bayleef => "Bayleef",
            SpeciesDiscriminant::Meganium => "Meganium",
            SpeciesDiscriminant::Cyndaquil => "Cyndaquil",
            SpeciesDiscriminant::Quilava => "Quilava",
            SpeciesDiscriminant::Typhlosion => "Typhlosion",
            SpeciesDiscriminant::Totodile => "Totodile",
            SpeciesDiscriminant::Croconaw => "Croconaw",
            SpeciesDiscriminant::Feraligatr => "Feraligatr",
            SpeciesDiscriminant::Sentret => "Sentret",
            SpeciesDiscriminant::Furret => "Furret",
            SpeciesDiscriminant::Hoothoot => "Hoothoot",
            SpeciesDiscriminant::Noctowl => "Noctowl",
            SpeciesDiscriminant::Ledyba => "Ledyba",
            SpeciesDiscriminant::Ledian => "Ledian",
            SpeciesDiscriminant::Spinarak => "Spinarak",
            SpeciesDiscriminant::Ariados => "Ariados",
            SpeciesDiscriminant::Crobat => "Crobat",
            SpeciesDiscriminant::Chinchou => "Chinchou",
            SpeciesDiscriminant::Lanturn => "Lanturn",
            SpeciesDiscriminant::Pichu => "Pichu",
            SpeciesDiscriminant::Cleffa => "Cleffa",
            SpeciesDiscriminant::Igglybuff => "Igglybuff",
            SpeciesDiscriminant::Togepi => "Togepi",
            SpeciesDiscriminant::Togetic => "Togetic",
            SpeciesDiscriminant::Natu => "Natu",
            SpeciesDiscriminant::Xatu => "Xatu",
            SpeciesDiscriminant::Mareep => "Mareep",
            SpeciesDiscriminant::Flaaffy => "Flaaffy",
            SpeciesDiscriminant::Ampharos => "Ampharos",
            SpeciesDiscriminant::Bellossom => "Bellossom",
            SpeciesDiscriminant::Marill => "Marill",
            SpeciesDiscriminant::Azumarill => "Azumarill",
            SpeciesDiscriminant::Sudowoodo => "Sudowoodo",
            SpeciesDiscriminant::Politoed => "Politoed",
            SpeciesDiscriminant::Hoppip => "Hoppip",
            SpeciesDiscriminant::Skiploom => "Skiploom",
            SpeciesDiscriminant::Jumpluff => "Jumpluff",
            SpeciesDiscriminant::Aipom => "Aipom",
            SpeciesDiscriminant::Sunkern => "Sunkern",
            SpeciesDiscriminant::Sunflora => "Sunflora",
            SpeciesDiscriminant::Yanma => "Yanma",
            SpeciesDiscriminant::Wooper => "Wooper",
            SpeciesDiscriminant::Quagsire => "Quagsire",
            SpeciesDiscriminant::Espeon => "Espeon",
            SpeciesDiscriminant::Umbreon => "Umbreon",
            SpeciesDiscriminant::Murkrow => "Murkrow",
            SpeciesDiscriminant::Slowking => "Slowking",
            SpeciesDiscriminant::Misdreavus => "Misdreavus",
            SpeciesDiscriminant::Unown => "Unown",
            SpeciesDiscriminant::Wobbuffet => "Wobbuffet",
            SpeciesDiscriminant::Girafarig => "Girafarig",
            SpeciesDiscriminant::Pineco => "Pineco",
            SpeciesDiscriminant::Forretress => "Forretress",
            SpeciesDiscriminant::Dunsparce => "Dunsparce",
            SpeciesDiscriminant::Gligar => "Gligar",
            SpeciesDiscriminant::Steelix => "Steelix",
            SpeciesDiscriminant::Snubbull => "Snubbull",
            SpeciesDiscriminant::Granbull => "Granbull",
            SpeciesDiscriminant::Qwilfish => "Qwilfish",
            SpeciesDiscriminant::Scizor => "Scizor",
            SpeciesDiscriminant::Shuckle => "Shuckle",
            SpeciesDiscriminant::Heracross => "Heracross",
            SpeciesDiscriminant::Sneasel => "Sneasel",
            SpeciesDiscriminant::Teddiursa => "Teddiursa",
            SpeciesDiscriminant::Ursaring => "Ursaring",
            SpeciesDiscriminant::Slugma => "Slugma",
            SpeciesDiscriminant::Magcargo => "Magcargo",
            SpeciesDiscriminant::Swinub => "Swinub",
            SpeciesDiscriminant::Piloswine => "Piloswine",
            SpeciesDiscriminant::Corsola => "Corsola",
            SpeciesDiscriminant::Remoraid => "Remoraid",
            SpeciesDiscriminant::Octillery => "Octillery",
            SpeciesDiscriminant::Delibird => "Delibird",
            SpeciesDiscriminant::Mantine => "Mantine",
            SpeciesDiscriminant::Skarmory => "Skarmory",
            SpeciesDiscriminant::Houndour => "Houndour",
            SpeciesDiscriminant::Houndoom => "Houndoom",
            SpeciesDiscriminant::Kingdra => "Kingdra",
            SpeciesDiscriminant::Phanpy => "Phanpy",
            SpeciesDiscriminant::Donphan => "Donphan",
            SpeciesDiscriminant::Porygon2 => "Porygon2",
            SpeciesDiscriminant::Stantler => "Stantler",
            SpeciesDiscriminant::Smeargle => "Smeargle",
            SpeciesDiscriminant::Tyrogue => "Tyrogue",
            SpeciesDiscriminant::Hitmontop => "Hitmontop",
            SpeciesDiscriminant::Smoochum => "Smoochum",
            SpeciesDiscriminant::Elekid => "Elekid",
            SpeciesDiscriminant::Magby => "Magby",
            SpeciesDiscriminant::Miltank => "Miltank",
            SpeciesDiscriminant::Blissey => "Blissey",
            SpeciesDiscriminant::Raikou => "Raikou",
            SpeciesDiscriminant::Entei => "Entei",
            SpeciesDiscriminant::Suicune => "Suicune",
            SpeciesDiscriminant::Larvitar => "Larvitar",
            SpeciesDiscriminant::Pupitar => "Pupitar",
            SpeciesDiscriminant::Tyranitar => "Tyranitar",
            SpeciesDiscriminant::Lugia => "Lugia",
            SpeciesDiscriminant::HoOh => "Ho-Oh",
            SpeciesDiscriminant::Celebi => "Celebi",
            SpeciesDiscriminant::Treecko => "Treecko",
            SpeciesDiscriminant::Grovyle => "Grovyle",
            SpeciesDiscriminant::Sceptile => "Sceptile",
            SpeciesDiscriminant::Torchic => "Torchic",
            SpeciesDiscriminant::Combusken => "Combusken",
            SpeciesDiscriminant::Blaziken => "Blaziken",
            SpeciesDiscriminant::Mudkip => "Mudkip",
            SpeciesDiscriminant::Marshtomp => "Marshtomp",
            SpeciesDiscriminant::Swampert => "Swampert",
            SpeciesDiscriminant::Poochyena => "Poochyena",
            SpeciesDiscriminant::Mightyena => "Mightyena",
            SpeciesDiscriminant::Zigzagoon => "Zigzagoon",
            SpeciesDiscriminant::Linoone => "Linoone",
            SpeciesDiscriminant::Wurmple => "Wurmple",
            SpeciesDiscriminant::Silcoon => "Silcoon",
            SpeciesDiscriminant::Beautifly => "Beautifly",
            SpeciesDiscriminant::Cascoon => "Cascoon",
            SpeciesDiscriminant::Dustox => "Dustox",
            SpeciesDiscriminant::Lotad => "Lotad",
            SpeciesDiscriminant::Lombre => "Lombre",
            SpeciesDiscriminant::Ludicolo => "Ludicolo",
            SpeciesDiscriminant::Seedot => "Seedot",
            SpeciesDiscriminant::Nuzleaf => "Nuzleaf",
            SpeciesDiscriminant::Shiftry => "Shiftry",
            SpeciesDiscriminant::Taillow => "Taillow",
            SpeciesDiscriminant::Swellow => "Swellow",
            SpeciesDiscriminant::Wingull => "Wingull",
            SpeciesDiscriminant::Pelipper => "Pelipper",
            SpeciesDiscriminant::Ralts => "Ralts",
            SpeciesDiscriminant::Kirlia => "Kirlia",
            SpeciesDiscriminant::Gardevoir => "Gardevoir",
            SpeciesDiscriminant::Surskit => "Surskit",
            SpeciesDiscriminant::Masquerain => "Masquerain",
            SpeciesDiscriminant::Shroomish => "Shroomish",
            SpeciesDiscriminant::Breloom => "Breloom",
            SpeciesDiscriminant::Slakoth => "Slakoth",
            SpeciesDiscriminant::Vigoroth => "Vigoroth",
            SpeciesDiscriminant::Slaking => "Slaking",
            SpeciesDiscriminant::Nincada => "Nincada",
            SpeciesDiscriminant::Ninjask => "Ninjask",
            SpeciesDiscriminant::Shedinja => "Shedinja",
            SpeciesDiscriminant::Whismur => "Whismur",
            SpeciesDiscriminant::Loudred => "Loudred",
            SpeciesDiscriminant::Exploud => "Exploud",
            SpeciesDiscriminant::Makuhita => "Makuhita",
            SpeciesDiscriminant::Hariyama => "Hariyama",
            SpeciesDiscriminant::Azurill => "Azurill",
            SpeciesDiscriminant::Nosepass => "Nosepass",
            SpeciesDiscriminant::Skitty => "Skitty",
            SpeciesDiscriminant::Delcatty => "Delcatty",
            SpeciesDiscriminant::Sableye => "Sableye",
            SpeciesDiscriminant::Mawile => "Mawile",
            SpeciesDiscriminant::Aron => "Aron",
            SpeciesDiscriminant::Lairon => "Lairon",
            SpeciesDiscriminant::Aggron => "Aggron",
            SpeciesDiscriminant::Meditite => "Meditite",
            SpeciesDiscriminant::Medicham => "Medicham",
            SpeciesDiscriminant::Electrike => "Electrike",
            SpeciesDiscriminant::Manectric => "Manectric",
            SpeciesDiscriminant::Plusle => "Plusle",
            SpeciesDiscriminant::Minun => "Minun",
            SpeciesDiscriminant::Volbeat => "Volbeat",
            SpeciesDiscriminant::Illumise => "Illumise",
            SpeciesDiscriminant::Roselia => "Roselia",
            SpeciesDiscriminant::Gulpin => "Gulpin",
            SpeciesDiscriminant::Swalot => "Swalot",
            SpeciesDiscriminant::Carvanha => "Carvanha",
            SpeciesDiscriminant::Sharpedo => "Sharpedo",
            SpeciesDiscriminant::Wailmer => "Wailmer",
            SpeciesDiscriminant::Wailord => "Wailord",
            SpeciesDiscriminant::Numel => "Numel",
            SpeciesDiscriminant::Camerupt => "Camerupt",
            SpeciesDiscriminant::Torkoal => "Torkoal",
            SpeciesDiscriminant::Spoink => "Spoink",
            SpeciesDiscriminant::Grumpig => "Grumpig",
            SpeciesDiscriminant::Spinda => "Spinda",
            SpeciesDiscriminant::Trapinch => "Trapinch",
            SpeciesDiscriminant::Vibrava => "Vibrava",
            SpeciesDiscriminant::Flygon => "Flygon",
            SpeciesDiscriminant::Cacnea => "Cacnea",
            SpeciesDiscriminant::Cacturne => "Cacturne",
            SpeciesDiscriminant::Swablu => "Swablu",
            SpeciesDiscriminant::Altaria => "Altaria",
            SpeciesDiscriminant::Zangoose => "Zangoose",
            SpeciesDiscriminant::Seviper => "Seviper",
            SpeciesDiscriminant::Lunatone => "Lunatone",
            SpeciesDiscriminant::Solrock => "Solrock",
            SpeciesDiscriminant::Barboach => "Barboach",
            SpeciesDiscriminant::Whiscash => "Whiscash",
            SpeciesDiscriminant::Corphish => "Corphish",
            SpeciesDiscriminant::Crawdaunt => "Crawdaunt",
            SpeciesDiscriminant::Baltoy => "Baltoy",
            SpeciesDiscriminant::Claydol => "Claydol",
            SpeciesDiscriminant::Lileep => "Lileep",
            SpeciesDiscriminant::Cradily => "Cradily",
            SpeciesDiscriminant::Anorith => "Anorith",
            SpeciesDiscriminant::Armaldo => "Armaldo",
            SpeciesDiscriminant::Feebas => "Feebas",
            SpeciesDiscriminant::Milotic => "Milotic",
            SpeciesDiscriminant::Castform => "Castform",
            SpeciesDiscriminant::Kecleon => "Kecleon",
            SpeciesDiscriminant::Shuppet => "Shuppet",
            SpeciesDiscriminant::Banette => "Banette",
            SpeciesDiscriminant::Duskull => "Duskull",
            SpeciesDiscriminant::Dusclops => "Dusclops",
            SpeciesDiscriminant::Tropius => "Tropius",
            SpeciesDiscriminant::Chimecho => "Chimecho",
            SpeciesDiscriminant::Absol => "Absol",
            SpeciesDiscriminant::Wynaut => "Wynaut",
            SpeciesDiscriminant::Snorunt => "Snorunt",
            SpeciesDiscriminant::Glalie => "Glalie",
            SpeciesDiscriminant::Spheal => "Spheal",
            SpeciesDiscriminant::Sealeo => "Sealeo",
            SpeciesDiscriminant::Walrein => "Walrein",
            SpeciesDiscriminant::Clamperl => "Clamperl",
            SpeciesDiscriminant::Huntail => "Huntail",
            SpeciesDiscriminant::Gorebyss => "Gorebyss",
            SpeciesDiscriminant::Relicanth => "Relicanth",
            SpeciesDiscriminant::Luvdisc => "Luvdisc",
            SpeciesDiscriminant::Bagon => "Bagon",
            SpeciesDiscriminant::Shelgon => "Shelgon",
            SpeciesDiscriminant::Salamence => "Salamence",
            SpeciesDiscriminant::Beldum => "Beldum",
            SpeciesDiscriminant::Metang => "Metang",
            SpeciesDiscriminant::Metagross => "Metagross",
            SpeciesDiscriminant::Regirock => "Regirock",
            SpeciesDiscriminant::Regice => "Regice",
            SpeciesDiscriminant::Registeel => "Registeel",
            SpeciesDiscriminant::Latias => "Latias",
            SpeciesDiscriminant::Latios => "Latios",
            SpeciesDiscriminant::Kyogre => "Kyogre",
            SpeciesDiscriminant::Groudon => "Groudon",
            SpeciesDiscriminant::Rayquaza => "Rayquaza",
            SpeciesDiscriminant::Jirachi => "Jirachi",
            SpeciesDiscriminant::Deoxys => "Deoxys",
            _ => "",
        }
    }

    /// The in-game name of this species, where it is of the fourth generation on.
    fn name_late(self) -> (r: &'static str)
        ensures
            r@ == display_name_late(self),
    {
        match self {
            SpeciesDiscriminant::Turtwig => "Turtwig",
            SpeciesDiscriminant::Grotle => "Grotle",
            SpeciesDiscriminant::Torterra => "Torterra",
            SpeciesDiscriminant::Chimchar => "Chimchar",
            SpeciesDiscriminant::Monferno => "Monferno",
            SpeciesDiscriminant::Infernape => "Infernape",
            SpeciesDiscriminant::Piplup => "Piplup",
            SpeciesDiscriminant::Prinplup => "Prinplup",
            SpeciesDiscriminant::Empoleon => "Empoleon",
            SpeciesDiscriminant::Starly => "Starly",
            SpeciesDiscriminant::Staravia => "Staravia",
            SpeciesDiscriminant::Staraptor => "Staraptor",
            SpeciesDiscriminant::Bidoof => "Bidoof",
            SpeciesDiscriminant::Bibarel => "Bibarel",
            SpeciesDiscriminant::Kricketot => "Kricketot",
            SpeciesDiscriminant::Kricketune => "Kricketune",
            SpeciesDiscriminant::Shinx => "Shinx",
            SpeciesDiscriminant::Luxio => "Luxio",
            SpeciesDiscriminant::Luxray => "Luxray",
            SpeciesDiscriminant::Budew => "Budew",
            SpeciesDiscriminant::Roserade => "Roserade",
            SpeciesDiscriminant::Cranidos => "Cranidos",
            SpeciesDiscriminant::Rampardos => "Rampardos",
            SpeciesDiscriminant::Shieldon => "Shieldon",
            SpeciesDiscriminant::Bastiodon => "Bastiodon",
            SpeciesDiscriminant::Burmy => "Burmy",
            SpeciesDiscriminant::Wormadam => "Wormadam",
            SpeciesDiscriminant::Mothim => "Mothim",
            SpeciesDiscriminant::Combee => "Combee",
            SpeciesDiscriminant::Vespiquen => "Vespiquen",
            SpeciesDiscriminant::Pachirisu => "Pachirisu",
            SpeciesDiscriminant::Buizel => "Buizel",
            SpeciesDiscriminant::Floatzel => "Floatzel",
            SpeciesDiscriminant::Cherubi => "Cherubi",
            SpeciesDiscriminant::Cherrim => "Cherrim",
            SpeciesDiscriminant::Shellos => "Shellos",
            SpeciesDiscriminant::Gastrodon => "Gastrodon",
            SpeciesDiscriminant::Ambipom => "Ambipom",
            SpeciesDiscriminant::Drifloon => "Drifloon",
            SpeciesDiscriminant::Drifblim => "Drifblim",
            SpeciesDiscriminant::Buneary => "Buneary",
            SpeciesDiscriminant::Lopunny => "Lopunny",
            SpeciesDiscriminant::Mismagius => "Mismagius",
            SpeciesDiscriminant::Honchkrow => "Honchkrow",
            SpeciesDiscriminant::Glameow => "Glameow",
            SpeciesDiscriminant::Purugly => "Purugly",
            SpeciesDiscriminant::Chingling => "Chingling",
            SpeciesDiscriminant::Stunky => "Stunky",
            SpeciesDiscriminant::Skuntank => "Skuntank",
            SpeciesDiscriminant::Bronzor => "Bronzor",
            SpeciesDiscriminant::Bronzong => "Bronzong",
            SpeciesDiscriminant::Bonsly => "Bonsly",
            SpeciesDiscriminant::MimeJr => "Mime Jr.",
            SpeciesDiscriminant::Happiny => "Happiny",
            SpeciesDiscriminant::Chatot => "Chatot",
            SpeciesDiscriminant::Spiritomb => "Spiritomb",
            SpeciesDiscriminant::Gible => "Gible",
            SpeciesDiscriminant::Gabite => "Gabite",
            SpeciesDiscriminant::Garchomp => "Garchomp",
            SpeciesDiscriminant::Munchlax => "Munchlax",
            SpeciesDiscriminant::Riolu => "Riolu",
            SpeciesDiscriminant::Lucario => "Lucario",
            SpeciesDiscriminant::Hippopotas => "Hippopotas",
            SpeciesDiscriminant::Hippowdon => "Hippowdon",
            SpeciesDiscriminant::Skorupi => "Skorupi",
            SpeciesDiscriminant::Drapion => "Drapion",
            SpeciesDiscriminant::Croagunk => "Croagunk",
            SpeciesDiscriminant::Toxicroak => "Toxicroak",
            SpeciesDiscriminant::Carnivine => "Carnivine",
            SpeciesDiscriminant::Finneon => "Finneon",
            SpeciesDiscriminant::Lumineon => "Lumineon",
            SpeciesDiscriminant::Mantyke => "Mantyke",
            SpeciesDiscriminant::Snover => "Snover",
            SpeciesDiscriminant::Abomasnow => "Abomasnow",
            SpeciesDiscriminant::Weavile => "Weavile",
            SpeciesDiscriminant::Magnezone => "Magnezone",
            SpeciesDiscriminant::Lickilicky => "Lickilicky",
            SpeciesDiscriminant::Rhyperior => "Rhyperior",
            SpeciesDiscriminant::Tangrowth => "Tangrowth",
            SpeciesDiscriminant::Electivire => "Electivire",
            SpeciesDiscriminant::Magmortar => "Magmortar",
            SpeciesDiscriminant::Togekiss => "Togekiss",
            SpeciesDiscriminant::Yanmega => "Yanmega",
            SpeciesDiscriminant::Leafeon => "Leafeon",
            SpeciesDiscriminant::Glaceon => "Glaceon",
            SpeciesDiscriminant::Gliscor => "Gliscor",
            SpeciesDiscriminant::Mamoswine => "Mamoswine",
            SpeciesDiscriminant::PorygonZ => "Porygon-Z",
            SpeciesDiscriminant::Gallade => "Gallade",
            SpeciesDiscriminant::Probopass => "Probopass",
            SpeciesDiscriminant::Dusknoir => "Dusknoir",
            SpeciesDiscriminant::Froslass => "Froslass",
            SpeciesDiscriminant::Rotom => "Rotom",
            SpeciesDiscriminant::Uxie => "Uxie",
            SpeciesDiscriminant::Mesprit => "Mesprit",
            SpeciesDiscriminant::Azelf => "Azelf",
            SpeciesDiscriminant::Dialga => "Dialga",
            SpeciesDiscriminant::Palkia => "Palkia",
            SpeciesDiscriminant::Heatran => "Heatran",
            SpeciesDiscriminant::Regigigas => "Regigigas",
            SpeciesDiscriminant::Giratina => "Giratina",
            SpeciesDiscriminant::Cresselia => "Cresselia",
            SpeciesDiscriminant::Phione => "Phione",
            SpeciesDiscriminant::Manaphy => "Manaphy",
            SpeciesDiscriminant::Darkrai => "Darkrai",
            SpeciesDiscriminant::Shaymin => "Shaymin",
            SpeciesDiscriminant::Arceus => "Arceus",
            SpeciesDiscriminant::Victini => "Victini",
            SpeciesDiscriminant::Snivy => "Snivy",
            SpeciesDiscriminant::Servine => "Servine",
            SpeciesDiscriminant::Serperior => "Serperior",
            SpeciesDiscriminant::Tepig => "Tepig",
            SpeciesDiscriminant::Pignite => "Pignite",
            SpeciesDiscriminant::Emboar => "Emboar",
            SpeciesDiscriminant::Oshawott => "Oshawott",
            SpeciesDiscriminant::Dewott => "Dewott",
            SpeciesDiscriminant::Samurott => "Samurott",
            SpeciesDiscriminant::Patrat => "Patrat",
            SpeciesDiscriminant::Watchog => "Watchog",
            SpeciesDiscriminant::Lillipup => "Lillipup",
            SpeciesDiscriminant::Herdier => "Herdier",
            SpeciesDiscriminant::Stoutland => "Stoutland",
            SpeciesDiscriminant::Purrloin => "Purrloin",
            SpeciesDiscriminant::Liepard => "Liepard",
            SpeciesDiscriminant::Pansage => "Pansage",
            SpeciesDiscriminant::Simisage => "Simisage",
            SpeciesDiscriminant::Pansear => "Pansear",
            SpeciesDiscriminant::Simisear => "Simisear",
            SpeciesDiscriminant::Panpour => "Panpour",
            SpeciesDiscriminant::Simipour => "Simipour",
            SpeciesDiscriminant::Munna => "Munna",
            SpeciesDiscriminant::Musharna => "Musharna",
            SpeciesDiscriminant::Pidove => "Pidove",
            SpeciesDiscriminant::Tranquill => "Tranquill",
            SpeciesDiscriminant::Unfezant => "Unfezant",
            SpeciesDiscriminant::Blitzle => "Blitzle",
            SpeciesDiscriminant::Zebstrika => "Zebstrika",
            SpeciesDiscriminant::Roggenrola => "Roggenrola",
            SpeciesDiscriminant::Boldore => "Boldore",
            SpeciesDiscriminant::Gigalith => "Gigalith",
            SpeciesDiscriminant::Woobat => "Woobat",
            SpeciesDiscriminant::Swoobat => "Swoobat",
            SpeciesDiscriminant::Drilbur => "Drilbur",
            SpeciesDiscriminant::Excadrill => "Excadrill",
            SpeciesDiscriminant::Audino => "Audino",
            SpeciesDiscriminant::Timburr => "Timburr",
            SpeciesDiscriminant::Gurdurr => "Gurdurr",
            SpeciesDiscriminant::Conkeldurr => "Conkeldurr",
            SpeciesDiscriminant::Tympole => "Tympole",
            SpeciesDiscriminant::Palpitoad => "Palpitoad",
            SpeciesDiscriminant::Seismitoad => "Seismitoad",
            SpeciesDiscriminant::Throh => "Throh",
            SpeciesDiscriminant::Sawk => "Sawk",
            SpeciesDiscriminant::Sewaddle => "Sewaddle",
            SpeciesDiscriminant::Swadloon => "Swadloon",
            SpeciesDiscriminant::Leavanny => "Leavanny",
            SpeciesDiscriminant::Venipede => "Venipede",
            SpeciesDiscriminant::Whirlipede => "Whirlipede",
            SpeciesDiscriminant::Scolipede => "Scolipede",
            SpeciesDiscriminant::Cottonee => "Cottonee",
            SpeciesDiscriminant::Whimsicott => "Whimsicott",
            SpeciesDiscriminant::Petilil => "Petilil",
            SpeciesDiscriminant::Lilligant => "Lilligant",
            SpeciesDiscriminant::Basculin => "Basculin",
            SpeciesDiscriminant::Sandile => "Sandile",
            SpeciesDiscriminant::Krokorok => "Krokorok",
            SpeciesDiscriminant::Krookodile => "Krookodile",
            SpeciesDiscriminant::Darumaka => "Darumaka",
            SpeciesDiscriminant::Darmanitan => "Darmanitan",
            SpeciesDiscriminant::Maractus => "Maractus",
            SpeciesDiscriminant::Dwebble => "Dwebble",
            SpeciesDiscriminant::Crustle => "Crustle",
            SpeciesDiscriminant::Scraggy => "Scraggy",
            SpeciesDiscriminant::Scrafty => "Scrafty",
            SpeciesDiscriminant::Sigilyph => "Sigilyph",
            SpeciesDiscriminant::Yamask => "Yamask",
            SpeciesDiscriminant::Cofagrigus => "Cofagrigus",
            SpeciesDiscriminant::Tirtouga => "Tirtouga",
            SpeciesDiscriminant::Carracosta => "Carracosta",
            SpeciesDiscriminant::Archen => "Archen",
            SpeciesDiscriminant::Archeops => "Archeops",
            SpeciesDiscriminant::Trubbish => "Trubbish",
            SpeciesDiscriminant::Garbodor => "Garbodor",
            SpeciesDiscriminant::Zorua => "Zorua",
            SpeciesDiscriminant::Zoroark => "Zoroark",
            SpeciesDiscriminant::Minccino => "Minccino",
            SpeciesDiscriminant::Cinccino => "Cinccino",
            SpeciesDiscriminant::Gothita => "Gothita",
            SpeciesDiscriminant::Gothorita => "Gothorita",
            SpeciesDiscriminant::Gothitelle => "Gothitelle",
            SpeciesDiscriminant::Solosis => "Solosis",
            SpeciesDiscriminant::Duosion => "Duosion",
            SpeciesDiscriminant::Reuniclus => "Reuniclus",
            SpeciesDiscriminant::Ducklett => "Ducklett",
            SpeciesDiscriminant::Swanna => "Swanna",
            SpeciesDiscriminant::Vanillite => "Vanillite",
            SpeciesDiscriminant::Vanillish => "Vanillish",
            SpeciesDiscriminant::Vanilluxe => "Vanilluxe",
            SpeciesDiscriminant::Deerling => "Deerling",
            SpeciesDiscriminant::Sawsbuck => "Sawsbuck",
            SpeciesDiscriminant::Emolga => "Emolga",
            SpeciesDiscriminant::Karrablast => "Karrablast",
            SpeciesDiscriminant::Escavalier => "Escavalier",
            SpeciesDiscriminant::Foongus => "Foongus",
            SpeciesDiscriminant::Amoonguss => "Amoonguss",
            SpeciesDiscriminant::Frillish => "Frillish",
            SpeciesDiscriminant::Jellicent => "Jellicent",
            SpeciesDiscriminant::Alomomola => "Alomomola",
            SpeciesDiscriminant::Joltik => "Joltik",
            SpeciesDiscriminant::Galvantula => "Galvantula",
            SpeciesDiscriminant::Ferroseed => "Ferroseed",
            SpeciesDiscriminant::Ferrothorn => "Ferrothorn",
            SpeciesDiscriminant::Klink => "Klink",
            SpeciesDiscriminant::Klang => "Klang",
            SpeciesDiscriminant::Klinklang => "Klinklang",
            SpeciesDiscriminant::Tynamo => "Tynamo",
            SpeciesDiscriminant::Eelektrik => "Eelektrik",
            SpeciesDiscriminant::Eelektross => "Eelektross",
            SpeciesDiscriminant::Elgyem => "Elgyem",
            SpeciesDiscriminant::Beheeyem => "Beheeyem",
            SpeciesDiscriminant::Litwick => "Litwick",
            SpeciesDiscriminant::Lampent => "Lampent",
            SpeciesDiscriminant::Chandelure => "Chandelure",
            SpeciesDiscriminant::Axew => "Axew",
            SpeciesDiscriminant::Fraxure => "Fraxure",
            SpeciesDiscriminant::Haxorus => "Haxorus",
            SpeciesDiscriminant::Cubchoo => "Cubchoo",
            SpeciesDiscriminant::Beartic => "Beartic",
            SpeciesDiscriminant::Cryogonal => "Cryogonal",
            SpeciesDiscriminant::Shelmet => "Shelmet",
            SpeciesDiscriminant::Accelgor => "Accelgor",
            SpeciesDiscriminant::Stunfisk => "Stunfisk",
            SpeciesDiscriminant::Mienfoo => "Mienfoo",
            SpeciesDiscriminant::Mienshao => "Mienshao",
            SpeciesDiscriminant::Druddigon => "Druddigon",
            SpeciesDiscriminant::Golett => "Golett",
            SpeciesDiscriminant::Golurk => "Golurk",
            SpeciesDiscriminant::Pawniard => "Pawniard",
            SpeciesDiscriminant::Bisharp => "Bisharp",
            SpeciesDiscriminant::Bouffalant => "Bouffalant",
            SpeciesDiscriminant::Rufflet => "Rufflet",
            SpeciesDiscriminant::Braviary => "Braviary",
            SpeciesDiscriminant::Vullaby => "Vullaby",
            SpeciesDiscriminant::Mandibuzz => "Mandibuzz",
            SpeciesDiscriminant::Heatmor => "Heatmor",
            SpeciesDiscriminant::Durant => "Durant",
            SpeciesDiscriminant::Deino => "Deino",
            SpeciesDiscriminant::Zweilous => "Zweilous",
            SpeciesDiscriminant::Hydreigon => "Hydreigon",
            SpeciesDiscriminant::Larvesta => "Larvesta",
            SpeciesDiscriminant::Volcarona => "Volcarona",
            SpeciesDiscriminant::Cobalion => "Cobalion",
            SpeciesDiscriminant::Terrakion => "Terrakion",
            SpeciesDiscriminant::Virizion => "Virizion",
            SpeciesDiscriminant::Tornadus => "Tornadus",
            SpeciesDiscriminant::Thundurus => "Thundurus",
            SpeciesDiscriminant::Reshiram => "Reshiram",
            SpeciesDiscriminant::Zekrom => "Zekrom",
            SpeciesDiscriminant::Landorus => "Landorus",
            SpeciesDiscriminant::Kyurem => "Kyurem",
            SpeciesDiscriminant::Keldeo => "Keldeo",
            SpeciesDiscriminant::Meloetta => "Meloetta",
            SpeciesDiscriminant::Genesect => "Genesect",
            SpeciesDiscriminant::Chespin => "Chespin",
            SpeciesDiscriminant::Quilladin => "Quilladin",
            SpeciesDiscriminant::Chesnaught => "Chesnaught",
            SpeciesDiscriminant::Fennekin => "Fennekin",
            SpeciesDiscriminant::Braixen => "Braixen",
            SpeciesDiscriminant::Delphox => "Delphox",
            SpeciesDiscriminant::Froakie => "Froakie",
            SpeciesDiscriminant::Frogadier => "Frogadier",
            SpeciesDiscriminant::Greninja => "Greninja",
            SpeciesDiscriminant::Bunnelby => "Bunnelby",
            SpeciesDiscriminant::Diggersby => "Diggersby",
            SpeciesDiscriminant::Fletchling => "Fletchling",
            SpeciesDiscriminant::Fletchinder => "Fletchinder",
            SpeciesDiscriminant::Talonflame => "Talonflame",
            SpeciesDiscriminant::Scatterbug => "Scatterbug",
            SpeciesDiscriminant::Spewpa => "Spewpa",
            SpeciesDiscriminant::Vivillon => "Vivillon",
            SpeciesDiscriminant::Litleo => "Litleo",
            SpeciesDiscriminant::Pyroar => "Pyroar",
            SpeciesDiscriminant::Flabebe => "Flabebe",
            SpeciesDiscriminant::Floette => "Floette",
            SpeciesDiscriminant::Florges => "Florges",
            SpeciesDiscriminant::Skiddo => "Skiddo",
            SpeciesDiscriminant::Gogoat => "Gogoat",
            SpeciesDiscriminant::Pancham => "Pancham",
            SpeciesDiscriminant::Pangoro => "Pangoro",
            SpeciesDiscriminant::Furfrou => "Furfrou",
            SpeciesDiscriminant::Espurr => "Espurr",
            SpeciesDiscriminant::Meowstic => "Meowstic",
            SpeciesDiscriminant::Honedge => "Honedge",
            SpeciesDiscriminant::Doublade => "Doublade",
            SpeciesDiscriminant::Aegislash => "Aegislash",
            SpeciesDiscriminant::Spritzee => "Spritzee",
            SpeciesDiscriminant::Aromatisse => "Aromatisse",
            SpeciesDiscriminant::Swirlix => "Swirlix",
            SpeciesDiscriminant::Slurpuff => "Slurpuff",
            SpeciesDiscriminant::Inkay => "Inkay",
            SpeciesDiscriminant::Malamar => "Malamar",
            SpeciesDiscriminant::Binacle => "Binacle",
            SpeciesDiscriminant::Barbaracle => "Barbaracle",
            SpeciesDiscriminant::Skrelp => "Skrelp",
            SpeciesDiscriminant::Dragalge => "Dragalge",
            SpeciesDiscriminant::Clauncher => "Clauncher",
            SpeciesDiscriminant::Clawitzer => "Clawitzer",
            SpeciesDiscriminant::Helioptile => "Helioptile",
            SpeciesDiscriminant::Heliolisk => "Heliolisk",
            SpeciesDiscriminant::Tyrunt => "Tyrunt",
            SpeciesDiscriminant::Tyrantrum => "Tyrantrum",
            SpeciesDiscriminant::Amaura => "Amaura",
            SpeciesDiscriminant::Aurorus => "Aurorus",
            SpeciesDiscriminant::Sylveon => "Sylveon",
            SpeciesDiscriminant::Hawlucha => "Hawlucha",
            SpeciesDiscriminant::Dedenne => "Dedenne",
            SpeciesDiscriminant::Carbink => "Carbink",
            SpeciesDiscriminant::Goomy => "Goomy",
            SpeciesDiscriminant::Sliggoo => "Sliggoo",
            SpeciesDiscriminant::Goodra => "Goodra",
            SpeciesDiscriminant::Klefki => "Klefki",
            SpeciesDiscriminant::Phantump => "Phantump",
            SpeciesDiscriminant::Trevenant => "Trevenant",
            SpeciesDiscriminant::Pumpkaboo => "Pumpkaboo",
            SpeciesDiscriminant::Gourgeist => "Gourgeist",
            SpeciesDiscriminant::Bergmite => "Bergmite",
            SpeciesDiscriminant::Avalugg => "Avalugg",
            SpeciesDiscriminant::Noibat => "Noibat",
            SpeciesDiscriminant::Noivern => "Noivern",
            SpeciesDiscriminant::Xerneas => "Xerneas",
            SpeciesDiscriminant::Yveltal => "Yveltal",
            SpeciesDiscriminant::Zygarde => "Zygarde",
            SpeciesDiscriminant::Diancie => "Diancie",
            SpeciesDiscriminant::Hoopa => "Hoopa",
            SpeciesDiscriminant::Volcanion => "Volcanion",
            SpeciesDiscriminant::Rowlet => "Rowlet",
            SpeciesDiscriminant::Dartrix => "Dartrix",
            SpeciesDiscriminant::Decidueye => "Decidueye",
            SpeciesDiscriminant::Litten => "Litten",
            SpeciesDiscriminant::Torracat => "Torracat",
            SpeciesDiscriminant::Incineroar => "Incineroar",
            SpeciesDiscriminant::Popplio => "Popplio",
            SpeciesDiscriminant::Brionne => "Brionne",
            SpeciesDiscriminant::Primarina => "Primarina",
            SpeciesDiscriminant::Pikipek => "Pikipek",
            SpeciesDiscriminant::Trumbeak => "Trumbeak",
            SpeciesDiscriminant::Toucannon => "Toucannon",
            SpeciesDiscriminant::Yungoos => "Yungoos",
            SpeciesDiscriminant::Gumshoos => "Gumshoos",
            SpeciesDiscriminant::Grubbin => "Grubbin",
            SpeciesDiscriminant::Charjabug => "Charjabug",
            SpeciesDiscriminant::Vikavolt => "Vikavolt",
            SpeciesDiscriminant::Crabrawler => "Crabrawler",
            SpeciesDiscriminant::Crabominable => "Crabominable",
            SpeciesDiscriminant::Oricorio => "Oricorio",
            SpeciesDiscriminant::Cutiefly => "Cutiefly",
            SpeciesDiscriminant::Ribombee => "Ribombee",
            SpeciesDiscriminant::Rockruff => "Rockruff",
            SpeciesDiscriminant::Lycanroc => "Lycanroc",
            SpeciesDiscriminant::Wishiwashi => "Wishiwashi",
            SpeciesDiscriminant::Mareanie => "Mareanie",
            SpeciesDiscriminant::Toxapex => "Toxapex",
            SpeciesDiscriminant::Mudbray => "Mudbray",
            SpeciesDiscriminant::Mudsdale => "Mudsdale",
            SpeciesDiscriminant::Dewpider => "Dewpider",
            SpeciesDiscriminant::Araquanid => "Araquanid",
            SpeciesDiscriminant::Fomantis => "Fomantis",
            SpeciesDiscriminant::Lurantis => "Lurantis",
            SpeciesDiscriminant::Morelull => "Morelull",
            SpeciesDiscriminant::Shiinotic => "Shiinotic",
            SpeciesDiscriminant::Salandit => "Salandit",
            SpeciesDiscriminant::Salazzle => "Salazzle",
            SpeciesDiscriminant::Stufful => "Stufful",
            SpeciesDiscriminant::Bewear => "Bewear",
            SpeciesDiscriminant::Bounsweet => "Bounsweet",
            SpeciesDiscriminant::Steenee => "Steenee",
            SpeciesDiscriminant::Tsareena => "Tsareena",
            SpeciesDiscriminant::Comfey => "Comfey",
            SpeciesDiscriminant::Oranguru => "Oranguru",
            SpeciesDiscriminant::Passimian => "Passimian",
            SpeciesDiscriminant::Wimpod => "Wimpod",
            SpeciesDiscriminant::Golisopod => "Golisopod",
            SpeciesDiscriminant::Sandygast => "Sandygast",
            SpeciesDiscriminant::Palossand => "Palossand",
            SpeciesDiscriminant::Pyukumuku => "Pyukumuku",
            SpeciesDiscriminant::TypeNull => "Type: Null",
            SpeciesDiscriminant::Silvally => "Silvally",
            SpeciesDiscriminant::Minior => "Minior",
            SpeciesDiscriminant::Komala => "Komala",
            SpeciesDiscriminant::Turtonator => "Turtonator",
            SpeciesDiscriminant::Togedemaru => "Togedemaru",
            SpeciesDiscriminant::Mimikyu => "Mimikyu",
            SpeciesDiscriminant::Bruxish => "Bruxish",
            SpeciesDiscriminant::Drampa => "Drampa",
            SpeciesDiscriminant::Dhelmise => "Dhelmise",
            SpeciesDiscriminant::JangmoO => "Jangmo-O",
            SpeciesDiscriminant::HakamoO => "Hakamo-O",
            SpeciesDiscriminant::KommoO => "Kommo-O",
            SpeciesDiscriminant::TapuKoko => "Tapu Koko",
            SpeciesDiscriminant::TapuLele => "Tapu Lele",
            SpeciesDiscriminant::TapuBulu => "Tapu Bulu",
            SpeciesDiscriminant::TapuFini => "Tapu Fini",
            SpeciesDiscriminant::Cosmog => "Cosmog",
            SpeciesDiscriminant::Cosmoem => "Cosmoem",
            SpeciesDiscriminant::Solgaleo => "Solgaleo",
            SpeciesDiscriminant::Lunala => "Lunala",
            SpeciesDiscriminant::Nihilego => "Nihilego",
            SpeciesDiscriminant::Buzzwole => "Buzzwole",
            SpeciesDiscriminant::Pheromosa => "Pheromosa",
            SpeciesDiscriminant::Xurkitree => "Xurkitree",
            SpeciesDiscriminant::Celesteela => "Celesteela",
            SpeciesDiscriminant::Kartana => "Kartana",
            SpeciesDiscriminant::Guzzlord => "Guzzlord",
            SpeciesDiscriminant::Necrozma => "Necrozma",
            SpeciesDiscriminant::Magearna => "Magearna",
            SpeciesDiscriminant::Marshadow => "Marshadow",
            SpeciesDiscriminant::Poipole => "Poipole",
            SpeciesDiscriminant::Naganadel => "Naganadel",
            SpeciesDiscriminant::Stakataka => "Stakataka",
            SpeciesDiscriminant::Blacephalon => "Blacephalon",
            SpeciesDiscriminant::Zeraora => "Zeraora",
            _ => "",
        }
    }

    /// The name of the variant of this species, such as "HoOh" or "TypeNull".
    fn variant_name(self) -> (r: &'static str)
        ensures
            r@ == variant_name(self),
    {
        match self {
            SpeciesDiscriminant::NidoranF => "NidoranF",
            SpeciesDiscriminant::NidoranM => "NidoranM",
            SpeciesDiscriminant::Farfetchd => "Farfetchd",
            SpeciesDiscriminant::MrMime => "MrMime",
            SpeciesDiscriminant::HoOh => "HoOh",
            SpeciesDiscriminant::MimeJr => "MimeJr",
            SpeciesDiscriminant::PorygonZ => "PorygonZ",
            SpeciesDiscriminant::TypeNull => "TypeNull",
            SpeciesDiscriminant::JangmoO => "JangmoO",
            SpeciesDiscriminant::HakamoO => "HakamoO",
            SpeciesDiscriminant::KommoO => "KommoO",
            SpeciesDiscriminant::TapuKoko => "TapuKoko",
            SpeciesDiscriminant::TapuLele => "TapuLele",
            SpeciesDiscriminant::TapuBulu => "TapuBulu",
            SpeciesDiscriminant::TapuFini => "TapuFini",
            _ => self.name(),
        }
    }

    /// The species named by `text`, which is either its in-game name or the name of its
    /// variant; the first in dex order if several are.
    pub fn from_str(text: &str) -> (r: Result<SpeciesDiscriminant, ParseSpeciesError>)
        ensures
            r matches Ok(k) ==> names_species(k, text@),
            r is Err <==> forall|k: SpeciesDiscriminant| !names_species(k, text@),
    {
        let mut i: u16 = 0;
        while i < SPECIES_COUNT
            invariant
                i <= 807,
                forall|j: int| 0 <= j < i ==> !names_species(#[trigger] species_at(j), text@),
            decreases 807 - i,
        {
            let k = SpeciesDiscriminant::from_index(i);
            if same_text(text, k.name()) || same_text(text, k.variant_name()) {
                return Ok(k);
            }
            i = i + 1;
        }
        assert forall|k: SpeciesDiscriminant| !names_species(k, text@) by {
            lemma_dex_index_round_trip(k);
        }
        Err(ParseSpeciesError {})
    }
}

/// Species and positions in dex order correspond one to one.
pub proof fn lemma_dex_index_round_trip(k: SpeciesDiscriminant)
    ensures
        0 <= dex_index(k) < 807,
        species_at(dex_index(k)) == k,
        all_species_seq()[dex_index(k)] == k,
{
}

} // verus!
