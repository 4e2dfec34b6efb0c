//! The summons that the picker forces and the equip bonuses they can roll.
//!
//! Every id is the hexadecimal text of a hash that `summon_lot.tbl` stores as a `u32`.
use vstd::prelude::*;

use crate::hexid::{all_hex_digits, hex_value, lemma_hex_value_8};

verus! {

/// One Infinity-boss summon: its skill pool, its own equip pool, and its skills
/// (display name, skill id), the signature skill first where it has one.
pub struct Summon {
    pub name: &'static str,
    pub quest: &'static str,
    pub astral: bool,
    pub skill_pool: &'static str,
    pub equip_pool: &'static str,
    pub skills: &'static [(&'static str, &'static str)],
}

/// One equip bonus, with its base-param id and displayed maximum for each value tier.
pub struct Bonus {
    pub key: &'static str,
    pub name: &'static str,
    pub normal_id: &'static str,
    pub normal_max: &'static str,
    pub astral_id: &'static str,
    pub astral_max: &'static str,
}

/// A summon as text.
pub struct SummonView {
    pub name: Seq<char>,
    pub quest: Seq<char>,
    pub astral: bool,
    pub skill_pool: Seq<char>,
    pub equip_pool: Seq<char>,
    pub skills: Seq<(Seq<char>, Seq<char>)>,
}

/// A bonus as text.
pub struct BonusView {
    pub key: Seq<char>,
    pub name: Seq<char>,
    pub normal_id: Seq<char>,
    pub normal_max: Seq<char>,
    pub astral_id: Seq<char>,
    pub astral_max: Seq<char>,
}

impl View for Summon {
    type V = SummonView;

    open spec fn view(&self) -> SummonView {
        SummonView {
            name: self.name@,
            quest: self.quest@,
            astral: self.astral,
            skill_pool: self.skill_pool@,
            equip_pool: self.equip_pool@,
            skills: self.skills@.map_values(|p: (&'static str, &'static str)| (p.0@, p.1@)),
        }
    }
}

impl View for Bonus {
    type V = BonusView;

    open spec fn view(&self) -> BonusView {
        BonusView {
            key: self.key@,
            name: self.name@,
            normal_id: self.normal_id@,
            normal_max: self.normal_max@,
            astral_id: self.astral_id@,
            astral_max: self.astral_max@,
        }
    }
}

/// The base-param id a summon of the given tier rolls for bonus `b`.
pub open spec fn bonus_id(b: BonusView, astral: bool) -> Seq<char> {
    if astral {
        b.astral_id
    } else {
        b.normal_id
    }
}

/// The maximum shown for bonus `b`: the astral maximum only for an astral summon
/// that is not capped at half.
pub open spec fn bonus_max(b: BonusView, astral: bool, half: bool) -> Seq<char> {
    if astral && !half {
        b.astral_max
    } else {
        b.normal_max
    }
}

impl Bonus {
    /// The base-param id that a summon of this tier rolls for the bonus.
    pub fn id(&self, astral: bool) -> (r: &'static str)
        ensures
            r@ == bonus_id(self@, astral),
    {
        if astral {
            self.astral_id
        } else {
            self.normal_id
        }
    }

    /// The maximum value the bonus reaches, as shown to the player.
    pub fn max(&self, astral: bool, half: bool) -> (r: &'static str)
        ensures
            r@ == bonus_max(self@, astral, half),
    {
        if astral && !half {
            self.astral_max
        } else {
            self.normal_max
        }
    }
}

/// The astral equip curve at level 9: the astral maximum (100% caps).
pub const ASTRAL_CURVE_MAX: &'static str = "4E547493";

/// The astral equip curve at level 6: exactly the normal-tier values (50% caps).
pub const ASTRAL_CURVE_HALF: &'static str = "5A370B86";

/// The eleven equip bonuses.
#[verifier::opaque]
pub open spec fn bonus_catalog() -> Seq<BonusView> {
    seq![
        BonusView {
            key: "normatkcap"@,
            name: "Normal Attack Damage Cap Up"@,
            normal_id: "A66241C9"@,
            normal_max: "50%"@,
            astral_id: "9245DFA4"@,
            astral_max: "100%"@,
        },
        BonusView {
            key: "skilldmgcap"@,
            name: "Skill Damage Cap Up"@,
            normal_id: "2FFB509F"@,
            normal_max: "50%"@,
            astral_id: "CE70C58A"@,
            astral_max: "100%"@,
        },
        BonusView {
            key: "skyartcap"@,
            name: "Skybound Art Damage Cap Up"@,
            normal_id: "A3539FBB"@,
            normal_max: "50%"@,
            astral_id: "5A1D2C89"@,
            astral_max: "100%"@,
        },
        BonusView {
            key: "healcap"@,
            name: "Healing Cap Up"@,
            normal_id: "2270BC40"@,
            normal_max: "50%"@,
            astral_id: "2EA9CA80"@,
            astral_max: "75%"@,
        },
        BonusView {
            key: "stun"@,
            name: "Stun Power Up"@,
            normal_id: "F7B0316F"@,
            normal_max: "15"@,
            astral_id: "F0F77BC1"@,
            astral_max: "20"@,
        },
        BonusView {
            key: "atk"@,
            name: "Attack Power Up"@,
            normal_id: "A8900C80"@,
            normal_max: "+2000"@,
            astral_id: "A3E537B1"@,
            astral_max: "+3000"@,
        },
        BonusView {
            key: "hp"@,
            name: "Health Up"@,
            normal_id: "BC4E92CB"@,
            normal_max: "+2000"@,
            astral_id: "F2256E44"@,
            astral_max: "+5000"@,
        },
        BonusView {
            key: "crit"@,
            name: "Critical Hit Rate Up"@,
            normal_id: "00D171E0"@,
            normal_max: "20%"@,
            astral_id: "A074A967"@,
            astral_max: "30%"@,
        },
        BonusView {
            key: "skilldmg"@,
            name: "Skill Damage Up"@,
            normal_id: "664E8E32"@,
            normal_max: "20%"@,
            astral_id: "AF39A3FB"@,
            astral_max: "30%"@,
        },
        BonusView {
            key: "skyart"@,
            name: "Skybound Art Damage Up"@,
            normal_id: "75138D21"@,
            normal_max: "20%"@,
            astral_id: "33C0D50C"@,
            astral_max: "30%"@,
        },
        BonusView {
            key: "chainburst"@,
            name: "Chain Burst Damage Up"@,
            normal_id: "5A39D81B"@,
            normal_max: "50%"@,
            astral_id: "54B09A37"@,
            astral_max: "100%"@,
        }
    ]
}

/// The eight summons, each with its own equip pool.
#[verifier::opaque]
pub open spec fn summon_catalog() -> Seq<SummonView> {
    seq![
        SummonView {
            name: "Behemoth III"@,
            quest: "The Myths Are Real"@,
            astral: false,
            skill_pool: "DF902143"@,
            equip_pool: "393EF1D8"@,
            skills: seq![("Stout Heart"@, "A1A8E39D"@), ("Supplementary DMG"@, "57AB5B10"@), ("Uplift"@, "B5FF9FD3"@), ("Celestial Ventus"@, "73220725"@), ("Less Is More"@, "82CE278D"@), ("Critical Hit Rate"@, "8D78A19B"@)],
        },
        SummonView {
            name: "Wee Pincer III"@,
            quest: "On the Threshold of Provenance"@,
            astral: false,
            skill_pool: "2340DCED"@,
            equip_pool: "C39F7144"@,
            skills: seq![("Crabvestment Returns"@, "1B0D9897"@), ("DMG Cap"@, "DC584F60"@), ("Cascade"@, "05F2ECDC"@), ("Steel Nerves"@, "1470F860"@)],
        },
        SummonView {
            name: "Albacore III"@,
            quest: "Strifes way: Bizzare (Conflux)"@,
            astral: false,
            skill_pool: "1250EFD2"@,
            equip_pool: "E31F7BAD"@,
            skills: seq![("Natural Defenses"@, "0EAD65E0"@), ("Path to Mastery"@, "5E422AE5"@), ("Rupie Tycoon"@, "C86F3082"@), ("Fast Learner"@, "F687C5EF"@)],
        },
        SummonView {
            name: "Furycane Nihilla"@,
            quest: "The Eternal Grind"@,
            astral: false,
            skill_pool: "384C3333"@,
            equip_pool: "FD5DACF0"@,
            skills: seq![("Celestial Aqua"@, "A898E283"@), ("Fatebreaker"@, "D029FE08"@), ("Potion Hoarder"@, "24883AF3"@), ("Guts"@, "E69A4694"@), ("Blight Resistance"@, "9702860F"@)],
        },
        SummonView {
            name: "Lucilius"@,
            quest: "On the Threshold of Finality"@,
            astral: true,
            skill_pool: "CC0B0EF1"@,
            equip_pool: "F63793E4"@,
            skills: seq![("Alpha"@, "DBE1D775"@), ("Beta"@, "8D2ADB6E"@), ("Gamma"@, "5C862E13"@), ("Berserker Echo"@, "EE85CD1F"@), ("Tyranny"@, "71F11A9B"@), ("Celestial Terra"@, "9232DC17"@)],
        },
        SummonView {
            name: "Beelzebub"@,
            quest: "On the Threshold of Chaos"@,
            astral: true,
            skill_pool: "BD452CC9"@,
            equip_pool: "B7D9379B"@,
            skills: seq![("Spartan Echo"@, "3D8153A1"@), ("Supplementary DMG"@, "57AB5B10"@), ("DMG Cap"@, "DC584F60"@), ("Drain"@, "7CCFF74F"@), ("Celestial Lumen"@, "A7726190"@), ("Improved Guard"@, "0AA20846"@)],
        },
        SummonView {
            name: "Rolan"@,
            quest: "On the Threshold of The World"@,
            astral: true,
            skill_pool: "26428274"@,
            equip_pool: "A35D7A5C"@,
            skills: seq![("War Elemental"@, "4C588C27"@), ("Uplift"@, "B5FF9FD3"@), ("Autorevive"@, "95F3FA86"@), ("Quick Cooldown"@, "318D12E9"@), ("Drain"@, "7CCFF74F"@), ("Aegis"@, "E0ABFDFE"@)],
        },
        SummonView {
            name: "Lilith"@,
            quest: "On the Threshold of Destruction"@,
            astral: true,
            skill_pool: "05205336"@,
            equip_pool: "DCB2B22B"@,
            skills: seq![("War Elemental"@, "4C588C27"@), ("Uplift"@, "B5FF9FD3"@), ("Potion Hoarder"@, "24883AF3"@), ("Tyranny"@, "71F11A9B"@), ("Linked Together"@, "3FEC5F80"@), ("Improved Healing"@, "9389CC06"@)],
        }
    ]
}

/// The equip bonuses, in the order the picker offers them.
pub fn bonuses() -> (s: &'static [Bonus])
    ensures
        s@.map_values(|b: Bonus| b@) == bonus_catalog(),
{
    reveal(bonus_catalog);
    let s: &'static [Bonus] = &[
        Bonus {
            key: "normatkcap",
            name: "Normal Attack Damage Cap Up",
            normal_id: "A66241C9",
            normal_max: "50%",
            astral_id: "9245DFA4",
            astral_max: "100%",
        },
        Bonus {
            key: "skilldmgcap",
            name: "Skill Damage Cap Up",
            normal_id: "2FFB509F",
            normal_max: "50%",
            astral_id: "CE70C58A",
            astral_max: "100%",
        },
        Bonus {
            key: "skyartcap",
            name: "Skybound Art Damage Cap Up",
            normal_id: "A3539FBB",
            normal_max: "50%",
            astral_id: "5A1D2C89",
            astral_max: "100%",
        },
        Bonus {
            key: "healcap",
            name: "Healing Cap Up",
            normal_id: "2270BC40",
            normal_max: "50%",
            astral_id: "2EA9CA80",
            astral_max: "75%",
        },
        Bonus {
            key: "stun",
            name: "Stun Power Up",
            normal_id: "F7B0316F",
            normal_max: "15",
            astral_id: "F0F77BC1",
            astral_max: "20",
        },
        Bonus {
            key: "atk",
            name: "Attack Power Up",
            normal_id: "A8900C80",
            normal_max: "+2000",
            astral_id: "A3E537B1",
            astral_max: "+3000",
        },
        Bonus {
            key: "hp",
            name: "Health Up",
            normal_id: "BC4E92CB",
            normal_max: "+2000",
            astral_id: "F2256E44",
            astral_max: "+5000",
        },
        Bonus {
            key: "crit",
            name: "Critical Hit Rate Up",
            normal_id: "00D171E0",
            normal_max: "20%",
            astral_id: "A074A967",
            astral_max: "30%",
        },
        Bonus {
            key: "skilldmg",
            name: "Skill Damage Up",
            normal_id: "664E8E32",
            normal_max: "20%",
            astral_id: "AF39A3FB",
            astral_max: "30%",
        },
        Bonus {
            key: "skyart",
            name: "Skybound Art Damage Up",
            normal_id: "75138D21",
            normal_max: "20%",
            astral_id: "33C0D50C",
            astral_max: "30%",
        },
        Bonus {
            key: "chainburst",
            name: "Chain Burst Damage Up",
            normal_id: "5A39D81B",
            normal_max: "50%",
            astral_id: "54B09A37",
            astral_max: "100%",
        }
    ];
    assert(s@.map_values(|b: Bonus| b@) =~= bonus_catalog());
    s
}

/// The summons, in the order the picker shows them.
pub fn summons() -> (s: &'static [Summon])
    ensures
        s@.map_values(|x: Summon| x@) == summon_catalog(),
{
    reveal(summon_catalog);
    let s: &'static [Summon] = &[
        Summon {
            name: "Behemoth III",
            quest: "The Myths Are Real",
            astral: false,
            skill_pool: "DF902143",
            equip_pool: "393EF1D8",
            skills: &[("Stout Heart", "A1A8E39D"), ("Supplementary DMG", "57AB5B10"), ("Uplift", "B5FF9FD3"), ("Celestial Ventus", "73220725"), ("Less Is More", "82CE278D"), ("Critical Hit Rate", "8D78A19B")],
        },
        Summon {
            name: "Wee Pincer III",
            quest: "On the Threshold of Provenance",
            astral: false,
            skill_pool: "2340DCED",
            equip_pool: "C39F7144",
            skills: &[("Crabvestment Returns", "1B0D9897"), ("DMG Cap", "DC584F60"), ("Cascade", "05F2ECDC"), ("Steel Nerves", "1470F860")],
        },
        Summon {
            name: "Albacore III",
            quest: "Strifes way: Bizzare (Conflux)",
            astral: false,
            skill_pool: "1250EFD2",
            equip_pool: "E31F7BAD",
            skills: &[("Natural Defenses", "0EAD65E0"), ("Path to Mastery", "5E422AE5"), ("Rupie Tycoon", "C86F3082"), ("Fast Learner", "F687C5EF")],
        },
        Summon {
            name: "Furycane Nihilla",
            quest: "The Eternal Grind",
            astral: false,
            skill_pool: "384C3333",
            equip_pool: "FD5DACF0",
            skills: &[("Celestial Aqua", "A898E283"), ("Fatebreaker", "D029FE08"), ("Potion Hoarder", "24883AF3"), ("Guts", "E69A4694"), ("Blight Resistance", "9702860F")],
        },
        Summon {
            name: "Lucilius",
            quest: "On the Threshold of Finality",
            astral: true,
            skill_pool: "CC0B0EF1",
            equip_pool: "F63793E4",
            skills: &[("Alpha", "DBE1D775"), ("Beta", "8D2ADB6E"), ("Gamma", "5C862E13"), ("Berserker Echo", "EE85CD1F"), ("Tyranny", "71F11A9B"), ("Celestial Terra", "9232DC17")],
        },
        Summon {
            name: "Beelzebub",
            quest: "On the Threshold of Chaos",
            astral: true,
            skill_pool: "BD452CC9",
            equip_pool: "B7D9379B",
            skills: &[("Spartan Echo", "3D8153A1"), ("Supplementary DMG", "57AB5B10"), ("DMG Cap", "DC584F60"), ("Drain", "7CCFF74F"), ("Celestial Lumen", "A7726190"), ("Improved Guard", "0AA20846")],
        },
        Summon {
            name: "Rolan",
            quest: "On the Threshold of The World",
            astral: true,
            skill_pool: "26428274",
            equip_pool: "A35D7A5C",
            skills: &[("War Elemental", "4C588C27"), ("Uplift", "B5FF9FD3"), ("Autorevive", "95F3FA86"), ("Quick Cooldown", "318D12E9"), ("Drain", "7CCFF74F"), ("Aegis", "E0ABFDFE")],
        },
        Summon {
            name: "Lilith",
            quest: "On the Threshold of Destruction",
            astral: true,
            skill_pool: "05205336",
            equip_pool: "DCB2B22B",
            skills: &[("War Elemental", "4C588C27"), ("Uplift", "B5FF9FD3"), ("Potion Hoarder", "24883AF3"), ("Tyranny", "71F11A9B"), ("Linked Together", "3FEC5F80"), ("Improved Healing", "9389CC06")],
        }
    ];
    assert(s@[0]@ == summon_catalog()[0]) by {
        assert(s@[0].skills@.map_values(|p: (&'static str, &'static str)| (p.0@, p.1@)) =~= summon_catalog()[0].skills);
    }
    assert(s@[1]@ == summon_catalog()[1]) by {
        assert(s@[1].skills@.map_values(|p: (&'static str, &'static str)| (p.0@, p.1@)) =~= summon_catalog()[1].skills);
    }
    assert(s@[2]@ == summon_catalog()[2]) by {
        assert(s@[2].skills@.map_values(|p: (&'static str, &'static str)| (p.0@, p.1@)) =~= summon_catalog()[2].skills);
    }
    assert(s@[3]@ == summon_catalog()[3]) by {
        assert(s@[3].skills@.map_values(|p: (&'static str, &'static str)| (p.0@, p.1@)) =~= summon_catalog()[3].skills);
    }
    assert(s@[4]@ == summon_catalog()[4]) by {
        assert(s@[4].skills@.map_values(|p: (&'static str, &'static str)| (p.0@, p.1@)) =~= summon_catalog()[4].skills);
    }
    assert(s@[5]@ == summon_catalog()[5]) by {
        assert(s@[5].skills@.map_values(|p: (&'static str, &'static str)| (p.0@, p.1@)) =~= summon_catalog()[5].skills);
    }
    assert(s@[6]@ == summon_catalog()[6]) by {
        assert(s@[6].skills@.map_values(|p: (&'static str, &'static str)| (p.0@, p.1@)) =~= summon_catalog()[6].skills);
    }
    assert(s@[7]@ == summon_catalog()[7]) by {
        assert(s@[7].skills@.map_values(|p: (&'static str, &'static str)| (p.0@, p.1@)) =~= summon_catalog()[7].skills);
    }
    assert(s@.map_values(|x: Summon| x@) =~= summon_catalog());
    s
}

/// The summons' names, in catalogue order.
pub open spec fn summon_names() -> Seq<Seq<char>> {
    summon_catalog().map_values(|s: SummonView| s.name)
}

/// A summon's skill names, in order.
pub open spec fn skill_names(s: SummonView) -> Seq<Seq<char>> {
    s.skills.map_values(|p: (Seq<char>, Seq<char>)| p.0)
}

/// The bonuses' keys, in order.
pub open spec fn bonus_keys() -> Seq<Seq<char>> {
    bonus_catalog().map_values(|b: BonusView| b.key)
}

/// Distinct positions of `names` hold distinct names.
pub open spec fn unique_names(names: Seq<Seq<char>>) -> bool {
    forall|i: int, j: int| 0 <= i < j < names.len() ==> names[i] != names[j]
}

/// Summon names, each summon's skill names and bonus keys are unique, so a name
/// identifies its entry.
pub proof fn lemma_catalog_names_unique()
    ensures
        unique_names(summon_names()),
        unique_names(bonus_keys()),
        forall|i: int| 0 <= i < summon_catalog().len() ==> unique_names(#[trigger] skill_names(summon_catalog()[i])),
{
    reveal(summon_catalog);
    reveal(bonus_catalog);
    reveal_strlit("Behemoth III");
    reveal_strlit("Wee Pincer III");
    reveal_strlit("Albacore III");
    reveal_strlit("Furycane Nihilla");
    reveal_strlit("Lucilius");
    reveal_strlit("Beelzebub");
    reveal_strlit("Rolan");
    reveal_strlit("Lilith");
    reveal_strlit("Stout Heart");
    reveal_strlit("Supplementary DMG");
    reveal_strlit("Uplift");
    reveal_strlit("Celestial Ventus");
    reveal_strlit("Less Is More");
    reveal_strlit("Critical Hit Rate");
    reveal_strlit("Crabvestment Returns");
    reveal_strlit("DMG Cap");
    reveal_strlit("Cascade");
    reveal_strlit("Steel Nerves");
    reveal_strlit("Natural Defenses");
    reveal_strlit("Path to Mastery");
    reveal_strlit("Rupie Tycoon");
    reveal_strlit("Fast Learner");
    reveal_strlit("Celestial Aqua");
    reveal_strlit("Fatebreaker");
    reveal_strlit("Potion Hoarder");
    reveal_strlit("Guts");
    reveal_strlit("Blight Resistance");
    reveal_strlit("Alpha");
    reveal_strlit("Beta");
    reveal_strlit("Gamma");
    reveal_strlit("Berserker Echo");
    reveal_strlit("Tyranny");
    reveal_strlit("Celestial Terra");
    reveal_strlit("Spartan Echo");
    reveal_strlit("Drain");
    reveal_strlit("Celestial Lumen");
    reveal_strlit("Improved Guard");
    reveal_strlit("War Elemental");
    reveal_strlit("Autorevive");
    reveal_strlit("Quick Cooldown");
    reveal_strlit("Aegis");
    reveal_strlit("Linked Together");
    reveal_strlit("Improved Healing");
    reveal_strlit("normatkcap");
    reveal_strlit("skilldmgcap");
    reveal_strlit("skyartcap");
    reveal_strlit("healcap");
    reveal_strlit("stun");
    reveal_strlit("atk");
    reveal_strlit("hp");
    reveal_strlit("crit");
    reveal_strlit("skilldmg");
    reveal_strlit("skyart");
    reveal_strlit("chainburst");
    assert("Behemoth III"@.len() != "Wee Pincer III"@.len());
    assert("Behemoth III"@[0] != "Albacore III"@[0]);
    assert("Behemoth III"@.len() != "Furycane Nihilla"@.len());
    assert("Behemoth III"@.len() != "Lucilius"@.len());
    assert("Behemoth III"@.len() != "Beelzebub"@.len());
    assert("Behemoth III"@.len() != "Rolan"@.len());
    assert("Behemoth III"@.len() != "Lilith"@.len());
    assert("Wee Pincer III"@.len() != "Albacore III"@.len());
    assert("Wee Pincer III"@.len() != "Furycane Nihilla"@.len());
    assert("Wee Pincer III"@.len() != "Lucilius"@.len());
    assert("Wee Pincer III"@.len() != "Beelzebub"@.len());
    assert("Wee Pincer III"@.len() != "Rolan"@.len());
    assert("Wee Pincer III"@.len() != "Lilith"@.len());
    assert("Albacore III"@.len() != "Furycane Nihilla"@.len());
    assert("Albacore III"@.len() != "Lucilius"@.len());
    assert("Albacore III"@.len() != "Beelzebub"@.len());
    assert("Albacore III"@.len() != "Rolan"@.len());
    assert("Albacore III"@.len() != "Lilith"@.len());
    assert("Furycane Nihilla"@.len() != "Lucilius"@.len());
    assert("Furycane Nihilla"@.len() != "Beelzebub"@.len());
    assert("Furycane Nihilla"@.len() != "Rolan"@.len());
    assert("Furycane Nihilla"@.len() != "Lilith"@.len());
    assert("Lucilius"@.len() != "Beelzebub"@.len());
    assert("Lucilius"@.len() != "Rolan"@.len());
    assert("Lucilius"@.len() != "Lilith"@.len());
    assert("Beelzebub"@.len() != "Rolan"@.len());
    assert("Beelzebub"@.len() != "Lilith"@.len());
    assert("Rolan"@.len() != "Lilith"@.len());
    assert(summon_names() =~= seq!["Behemoth III"@, "Wee Pincer III"@, "Albacore III"@, "Furycane Nihilla"@, "Lucilius"@, "Beelzebub"@, "Rolan"@, "Lilith"@]);
    assert("normatkcap"@.len() != "skilldmgcap"@.len());
    assert("normatkcap"@.len() != "skyartcap"@.len());
    assert("normatkcap"@.len() != "healcap"@.len());
    assert("normatkcap"@.len() != "stun"@.len());
    assert("normatkcap"@.len() != "atk"@.len());
    assert("normatkcap"@.len() != "hp"@.len());
    assert("normatkcap"@.len() != "crit"@.len());
    assert("normatkcap"@.len() != "skilldmg"@.len());
    assert("normatkcap"@.len() != "skyart"@.len());
    assert("normatkcap"@[0] != "chainburst"@[0]);
    assert("skilldmgcap"@.len() != "skyartcap"@.len());
    assert("skilldmgcap"@.len() != "healcap"@.len());
    assert("skilldmgcap"@.len() != "stun"@.len());
    assert("skilldmgcap"@.len() != "atk"@.len());
    assert("skilldmgcap"@.len() != "hp"@.len());
    assert("skilldmgcap"@.len() != "crit"@.len());
    assert("skilldmgcap"@.len() != "skilldmg"@.len());
    assert("skilldmgcap"@.len() != "skyart"@.len());
    assert("skilldmgcap"@.len() != "chainburst"@.len());
    assert("skyartcap"@.len() != "healcap"@.len());
    assert("skyartcap"@.len() != "stun"@.len());
    assert("skyartcap"@.len() != "atk"@.len());
    assert("skyartcap"@.len() != "hp"@.len());
    assert("skyartcap"@.len() != "crit"@.len());
    assert("skyartcap"@.len() != "skilldmg"@.len());
    assert("skyartcap"@.len() != "skyart"@.len());
    assert("skyartcap"@.len() != "chainburst"@.len());
    assert("healcap"@.len() != "stun"@.len());
    assert("healcap"@.len() != "atk"@.len());
    assert("healcap"@.len() != "hp"@.len());
    assert("healcap"@.len() != "crit"@.len());
    assert("healcap"@.len() != "skilldmg"@.len());
    assert("healcap"@.len() != "skyart"@.len());
    assert("healcap"@.len() != "chainburst"@.len());
    assert("stun"@.len() != "atk"@.len());
    assert("stun"@.len() != "hp"@.len());
    assert("stun"@[0] != "crit"@[0]);
    assert("stun"@.len() != "skilldmg"@.len());
    assert("stun"@.len() != "skyart"@.len());
    assert("stun"@.len() != "chainburst"@.len());
    assert("atk"@.len() != "hp"@.len());
    assert("atk"@.len() != "crit"@.len());
    assert("atk"@.len() != "skilldmg"@.len());
    assert("atk"@.len() != "skyart"@.len());
    assert("atk"@.len() != "chainburst"@.len());
    assert("hp"@.len() != "crit"@.len());
    assert("hp"@.len() != "skilldmg"@.len());
    assert("hp"@.len() != "skyart"@.len());
    assert("hp"@.len() != "chainburst"@.len());
    assert("crit"@.len() != "skilldmg"@.len());
    assert("crit"@.len() != "skyart"@.len());
    assert("crit"@.len() != "chainburst"@.len());
    assert("skilldmg"@.len() != "skyart"@.len());
    assert("skilldmg"@.len() != "chainburst"@.len());
    assert("skyart"@.len() != "chainburst"@.len());
    assert(bonus_keys() =~= seq!["normatkcap"@, "skilldmgcap"@, "skyartcap"@, "healcap"@, "stun"@, "atk"@, "hp"@, "crit"@, "skilldmg"@, "skyart"@, "chainburst"@]);
    assert("Stout Heart"@.len() != "Supplementary DMG"@.len());
    assert("Stout Heart"@.len() != "Uplift"@.len());
    assert("Stout Heart"@.len() != "Celestial Ventus"@.len());
    assert("Stout Heart"@.len() != "Less Is More"@.len());
    assert("Stout Heart"@.len() != "Critical Hit Rate"@.len());
    assert("Supplementary DMG"@.len() != "Uplift"@.len());
    assert("Supplementary DMG"@.len() != "Celestial Ventus"@.len());
    assert("Supplementary DMG"@.len() != "Less Is More"@.len());
    assert("Supplementary DMG"@[0] != "Critical Hit Rate"@[0]);
    assert("Uplift"@.len() != "Celestial Ventus"@.len());
    assert("Uplift"@.len() != "Less Is More"@.len());
    assert("Uplift"@.len() != "Critical Hit Rate"@.len());
    assert("Celestial Ventus"@.len() != "Less Is More"@.len());
    assert("Celestial Ventus"@.len() != "Critical Hit Rate"@.len());
    assert("Less Is More"@.len() != "Critical Hit Rate"@.len());
    assert(skill_names(summon_catalog()[0]) =~= seq!["Stout Heart"@, "Supplementary DMG"@, "Uplift"@, "Celestial Ventus"@, "Less Is More"@, "Critical Hit Rate"@]);
    assert("Crabvestment Returns"@.len() != "DMG Cap"@.len());
    assert("Crabvestment Returns"@.len() != "Cascade"@.len());
    assert("Crabvestment Returns"@.len() != "Steel Nerves"@.len());
    assert("DMG Cap"@[0] != "Cascade"@[0]);
    assert("DMG Cap"@.len() != "Steel Nerves"@.len());
    assert("Cascade"@.len() != "Steel Nerves"@.len());
    assert(skill_names(summon_catalog()[1]) =~= seq!["Crabvestment Returns"@, "DMG Cap"@, "Cascade"@, "Steel Nerves"@]);
    assert("Natural Defenses"@.len() != "Path to Mastery"@.len());
    assert("Natural Defenses"@.len() != "Rupie Tycoon"@.len());
    assert("Natural Defenses"@.len() != "Fast Learner"@.len());
    assert("Path to Mastery"@.len() != "Rupie Tycoon"@.len());
    assert("Path to Mastery"@.len() != "Fast Learner"@.len());
    assert("Rupie Tycoon"@[0] != "Fast Learner"@[0]);
    assert(skill_names(summon_catalog()[2]) =~= seq!["Natural Defenses"@, "Path to Mastery"@, "Rupie Tycoon"@, "Fast Learner"@]);
    assert("Celestial Aqua"@.len() != "Fatebreaker"@.len());
    assert("Celestial Aqua"@[0] != "Potion Hoarder"@[0]);
    assert("Celestial Aqua"@.len() != "Guts"@.len());
    assert("Celestial Aqua"@.len() != "Blight Resistance"@.len());
    assert("Fatebreaker"@.len() != "Potion Hoarder"@.len());
    assert("Fatebreaker"@.len() != "Guts"@.len());
    assert("Fatebreaker"@.len() != "Blight Resistance"@.len());
    assert("Potion Hoarder"@.len() != "Guts"@.len());
    assert("Potion Hoarder"@.len() != "Blight Resistance"@.len());
    assert("Guts"@.len() != "Blight Resistance"@.len());
    assert(skill_names(summon_catalog()[3]) =~= seq!["Celestial Aqua"@, "Fatebreaker"@, "Potion Hoarder"@, "Guts"@, "Blight Resistance"@]);
    assert("Alpha"@.len() != "Beta"@.len());
    assert("Alpha"@[0] != "Gamma"@[0]);
    assert("Alpha"@.len() != "Berserker Echo"@.len());
    assert("Alpha"@.len() != "Tyranny"@.len());
    assert("Alpha"@.len() != "Celestial Terra"@.len());
    assert("Beta"@.len() != "Gamma"@.len());
    assert("Beta"@.len() != "Berserker Echo"@.len());
    assert("Beta"@.len() != "Tyranny"@.len());
    assert("Beta"@.len() != "Celestial Terra"@.len());
    assert("Gamma"@.len() != "Berserker Echo"@.len());
    assert("Gamma"@.len() != "Tyranny"@.len());
    assert("Gamma"@.len() != "Celestial Terra"@.len());
    assert("Berserker Echo"@.len() != "Tyranny"@.len());
    assert("Berserker Echo"@.len() != "Celestial Terra"@.len());
    assert("Tyranny"@.len() != "Celestial Terra"@.len());
    assert(skill_names(summon_catalog()[4]) =~= seq!["Alpha"@, "Beta"@, "Gamma"@, "Berserker Echo"@, "Tyranny"@, "Celestial Terra"@]);
    assert("Spartan Echo"@.len() != "Supplementary DMG"@.len());
    assert("Spartan Echo"@.len() != "DMG Cap"@.len());
    assert("Spartan Echo"@.len() != "Drain"@.len());
    assert("Spartan Echo"@.len() != "Celestial Lumen"@.len());
    assert("Spartan Echo"@.len() != "Improved Guard"@.len());
    assert("Supplementary DMG"@.len() != "DMG Cap"@.len());
    assert("Supplementary DMG"@.len() != "Drain"@.len());
    assert("Supplementary DMG"@.len() != "Celestial Lumen"@.len());
    assert("Supplementary DMG"@.len() != "Improved Guard"@.len());
    assert("DMG Cap"@.len() != "Drain"@.len());
    assert("DMG Cap"@.len() != "Celestial Lumen"@.len());
    assert("DMG Cap"@.len() != "Improved Guard"@.len());
    assert("Drain"@.len() != "Celestial Lumen"@.len());
    assert("Drain"@.len() != "Improved Guard"@.len());
    assert("Celestial Lumen"@.len() != "Improved Guard"@.len());
    assert(skill_names(summon_catalog()[5]) =~= seq!["Spartan Echo"@, "Supplementary DMG"@, "DMG Cap"@, "Drain"@, "Celestial Lumen"@, "Improved Guard"@]);
    assert("War Elemental"@.len() != "Uplift"@.len());
    assert("War Elemental"@.len() != "Autorevive"@.len());
    assert("War Elemental"@.len() != "Quick Cooldown"@.len());
    assert("War Elemental"@.len() != "Drain"@.len());
    assert("War Elemental"@.len() != "Aegis"@.len());
    assert("Uplift"@.len() != "Autorevive"@.len());
    assert("Uplift"@.len() != "Quick Cooldown"@.len());
    assert("Uplift"@.len() != "Drain"@.len());
    assert("Uplift"@.len() != "Aegis"@.len());
    assert("Autorevive"@.len() != "Quick Cooldown"@.len());
    assert("Autorevive"@.len() != "Drain"@.len());
    assert("Autorevive"@.len() != "Aegis"@.len());
    assert("Quick Cooldown"@.len() != "Drain"@.len());
    assert("Quick Cooldown"@.len() != "Aegis"@.len());
    assert("Drain"@[0] != "Aegis"@[0]);
    assert(skill_names(summon_catalog()[6]) =~= seq!["War Elemental"@, "Uplift"@, "Autorevive"@, "Quick Cooldown"@, "Drain"@, "Aegis"@]);
    assert("War Elemental"@.len() != "Uplift"@.len());
    assert("War Elemental"@.len() != "Potion Hoarder"@.len());
    assert("War Elemental"@.len() != "Tyranny"@.len());
    assert("War Elemental"@.len() != "Linked Together"@.len());
    assert("War Elemental"@.len() != "Improved Healing"@.len());
    assert("Uplift"@.len() != "Potion Hoarder"@.len());
    assert("Uplift"@.len() != "Tyranny"@.len());
    assert("Uplift"@.len() != "Linked Together"@.len());
    assert("Uplift"@.len() != "Improved Healing"@.len());
    assert("Potion Hoarder"@.len() != "Tyranny"@.len());
    assert("Potion Hoarder"@.len() != "Linked Together"@.len());
    assert("Potion Hoarder"@.len() != "Improved Healing"@.len());
    assert("Tyranny"@.len() != "Linked Together"@.len());
    assert("Tyranny"@.len() != "Improved Healing"@.len());
    assert("Linked Together"@.len() != "Improved Healing"@.len());
    assert(skill_names(summon_catalog()[7]) =~= seq!["War Elemental"@, "Uplift"@, "Potion Hoarder"@, "Tyranny"@, "Linked Together"@, "Improved Healing"@]);
}

/// Summons 0 to 3 of the catalogue: their names, value tiers, and each skill's name
/// with the game's hash for it, in the order the picker offers them.
#[verifier::rlimit(50)]
pub proof fn lemma_catalog_skill_ids_0()
    ensures
        summon_catalog().len() == 8,
        summon_catalog()[0].name == "Behemoth III"@,
        summon_catalog()[0].astral == false,
        summon_catalog()[0].skills.len() == 6,
        summon_catalog()[0].skills[0].0 == "Stout Heart"@,
        hex_value(summon_catalog()[0].skills[0].1) == 0xA1A8E39D,
        summon_catalog()[0].skills[1].0 == "Supplementary DMG"@,
        hex_value(summon_catalog()[0].skills[1].1) == 0x57AB5B10,
        summon_catalog()[0].skills[2].0 == "Uplift"@,
        hex_value(summon_catalog()[0].skills[2].1) == 0xB5FF9FD3,
        summon_catalog()[0].skills[3].0 == "Celestial Ventus"@,
        hex_value(summon_catalog()[0].skills[3].1) == 0x73220725,
        summon_catalog()[0].skills[4].0 == "Less Is More"@,
        hex_value(summon_catalog()[0].skills[4].1) == 0x82CE278D,
        summon_catalog()[0].skills[5].0 == "Critical Hit Rate"@,
        hex_value(summon_catalog()[0].skills[5].1) == 0x8D78A19B,
        summon_catalog()[1].name == "Wee Pincer III"@,
        summon_catalog()[1].astral == false,
        summon_catalog()[1].skills.len() == 4,
        summon_catalog()[1].skills[0].0 == "Crabvestment Returns"@,
        hex_value(summon_catalog()[1].skills[0].1) == 0x1B0D9897,
        summon_catalog()[1].skills[1].0 == "DMG Cap"@,
        hex_value(summon_catalog()[1].skills[1].1) == 0xDC584F60,
        summon_catalog()[1].skills[2].0 == "Cascade"@,
        hex_value(summon_catalog()[1].skills[2].1) == 0x05F2ECDC,
        summon_catalog()[1].skills[3].0 == "Steel Nerves"@,
        hex_value(summon_catalog()[1].skills[3].1) == 0x1470F860,
        summon_catalog()[2].name == "Albacore III"@,
        summon_catalog()[2].astral == false,
        summon_catalog()[2].skills.len() == 4,
        summon_catalog()[2].skills[0].0 == "Natural Defenses"@,
        hex_value(summon_catalog()[2].skills[0].1) == 0x0EAD65E0,
        summon_catalog()[2].skills[1].0 == "Path to Mastery"@,
        hex_value(summon_catalog()[2].skills[1].1) == 0x5E422AE5,
        summon_catalog()[2].skills[2].0 == "Rupie Tycoon"@,
        hex_value(summon_catalog()[2].skills[2].1) == 0xC86F3082,
        summon_catalog()[2].skills[3].0 == "Fast Learner"@,
        hex_value(summon_catalog()[2].skills[3].1) == 0xF687C5EF,
        summon_catalog()[3].name == "Furycane Nihilla"@,
        summon_catalog()[3].astral == false,
        summon_catalog()[3].skills.len() == 5,
        summon_catalog()[3].skills[0].0 == "Celestial Aqua"@,
        hex_value(summon_catalog()[3].skills[0].1) == 0xA898E283,
        summon_catalog()[3].skills[1].0 == "Fatebreaker"@,
        hex_value(summon_catalog()[3].skills[1].1) == 0xD029FE08,
        summon_catalog()[3].skills[2].0 == "Potion Hoarder"@,
        hex_value(summon_catalog()[3].skills[2].1) == 0x24883AF3,
        summon_catalog()[3].skills[3].0 == "Guts"@,
        hex_value(summon_catalog()[3].skills[3].1) == 0xE69A4694,
        summon_catalog()[3].skills[4].0 == "Blight Resistance"@,
        hex_value(summon_catalog()[3].skills[4].1) == 0x9702860F,
{
    reveal(summon_catalog);
    reveal_strlit("A1A8E39D");
    assert(all_hex_digits("A1A8E39D"@));
    lemma_hex_value_8("A1A8E39D"@);
    reveal_strlit("57AB5B10");
    assert(all_hex_digits("57AB5B10"@));
    lemma_hex_value_8("57AB5B10"@);
    reveal_strlit("B5FF9FD3");
    assert(all_hex_digits("B5FF9FD3"@));
    lemma_hex_value_8("B5FF9FD3"@);
    reveal_strlit("73220725");
    assert(all_hex_digits("73220725"@));
    lemma_hex_value_8("73220725"@);
    reveal_strlit("82CE278D");
    assert(all_hex_digits("82CE278D"@));
    lemma_hex_value_8("82CE278D"@);
    reveal_strlit("8D78A19B");
    assert(all_hex_digits("8D78A19B"@));
    lemma_hex_value_8("8D78A19B"@);
    reveal_strlit("1B0D9897");
    assert(all_hex_digits("1B0D9897"@));
    lemma_hex_value_8("1B0D9897"@);
    reveal_strlit("DC584F60");
    assert(all_hex_digits("DC584F60"@));
    lemma_hex_value_8("DC584F60"@);
    reveal_strlit("05F2ECDC");
    assert(all_hex_digits("05F2ECDC"@));
    lemma_hex_value_8("05F2ECDC"@);
    reveal_strlit("1470F860");
    assert(all_hex_digits("1470F860"@));
    lemma_hex_value_8("1470F860"@);
    reveal_strlit("0EAD65E0");
    assert(all_hex_digits("0EAD65E0"@));
    lemma_hex_value_8("0EAD65E0"@);
    reveal_strlit("5E422AE5");
    assert(all_hex_digits("5E422AE5"@));
    lemma_hex_value_8("5E422AE5"@);
    reveal_strlit("C86F3082");
    assert(all_hex_digits("C86F3082"@));
    lemma_hex_value_8("C86F3082"@);
    reveal_strlit("F687C5EF");
    assert(all_hex_digits("F687C5EF"@));
    lemma_hex_value_8("F687C5EF"@);
    reveal_strlit("A898E283");
    assert(all_hex_digits("A898E283"@));
    lemma_hex_value_8("A898E283"@);
    reveal_strlit("D029FE08");
    assert(all_hex_digits("D029FE08"@));
    lemma_hex_value_8("D029FE08"@);
    reveal_strlit("24883AF3");
    assert(all_hex_digits("24883AF3"@));
    lemma_hex_value_8("24883AF3"@);
    reveal_strlit("E69A4694");
    assert(all_hex_digits("E69A4694"@));
    lemma_hex_value_8("E69A4694"@);
    reveal_strlit("9702860F");
    assert(all_hex_digits("9702860F"@));
    lemma_hex_value_8("9702860F"@);
}

/// Summons 4 to 7 of the catalogue: their names, value tiers, and each skill's name
/// with the game's hash for it, in the order the picker offers them.
#[verifier::rlimit(50)]
pub proof fn lemma_catalog_skill_ids_1()
    ensures
        summon_catalog().len() == 8,
        summon_catalog()[4].name == "Lucilius"@,
        summon_catalog()[4].astral == true,
        summon_catalog()[4].skills.len() == 6,
        summon_catalog()[4].skills[0].0 == "Alpha"@,
        hex_value(summon_catalog()[4].skills[0].1) == 0xDBE1D775,
        summon_catalog()[4].skills[1].0 == "Beta"@,
        hex_value(summon_catalog()[4].skills[1].1) == 0x8D2ADB6E,
        summon_catalog()[4].skills[2].0 == "Gamma"@,
        hex_value(summon_catalog()[4].skills[2].1) == 0x5C862E13,
        summon_catalog()[4].skills[3].0 == "Berserker Echo"@,
        hex_value(summon_catalog()[4].skills[3].1) == 0xEE85CD1F,
        summon_catalog()[4].skills[4].0 == "Tyranny"@,
        hex_value(summon_catalog()[4].skills[4].1) == 0x71F11A9B,
        summon_catalog()[4].skills[5].0 == "Celestial Terra"@,
        hex_value(summon_catalog()[4].skills[5].1) == 0x9232DC17,
        summon_catalog()[5].name == "Beelzebub"@,
        summon_catalog()[5].astral == true,
        summon_catalog()[5].skills.len() == 6,
        summon_catalog()[5].skills[0].0 == "Spartan Echo"@,
        hex_value(summon_catalog()[5].skills[0].1) == 0x3D8153A1,
        summon_catalog()[5].skills[1].0 == "Supplementary DMG"@,
        hex_value(summon_catalog()[5].skills[1].1) == 0x57AB5B10,
        summon_catalog()[5].skills[2].0 == "DMG Cap"@,
        hex_value(summon_catalog()[5].skills[2].1) == 0xDC584F60,
        summon_catalog()[5].skills[3].0 == "Drain"@,
        hex_value(summon_catalog()[5].skills[3].1) == 0x7CCFF74F,
        summon_catalog()[5].skills[4].0 == "Celestial Lumen"@,
        hex_value(summon_catalog()[5].skills[4].1) == 0xA7726190,
        summon_catalog()[5].skills[5].0 == "Improved Guard"@,
        hex_value(summon_catalog()[5].skills[5].1) == 0x0AA20846,
        summon_catalog()[6].name == "Rolan"@,
        summon_catalog()[6].astral == true,
        summon_catalog()[6].skills.len() == 6,
        summon_catalog()[6].skills[0].0 == "War Elemental"@,
        hex_value(summon_catalog()[6].skills[0].1) == 0x4C588C27,
        summon_catalog()[6].skills[1].0 == "Uplift"@,
        hex_value(summon_catalog()[6].skills[1].1) == 0xB5FF9FD3,
        summon_catalog()[6].skills[2].0 == "Autorevive"@,
        hex_value(summon_catalog()[6].skills[2].1) == 0x95F3FA86,
        summon_catalog()[6].skills[3].0 == "Quick Cooldown"@,
        hex_value(summon_catalog()[6].skills[3].1) == 0x318D12E9,
        summon_catalog()[6].skills[4].0 == "Drain"@,
        hex_value(summon_catalog()[6].skills[4].1) == 0x7CCFF74F,
        summon_catalog()[6].skills[5].0 == "Aegis"@,
        hex_value(summon_catalog()[6].skills[5].1) == 0xE0ABFDFE,
        summon_catalog()[7].name == "Lilith"@,
        summon_catalog()[7].astral == true,
        summon_catalog()[7].skills.len() == 6,
        summon_catalog()[7].skills[0].0 == "War Elemental"@,
        hex_value(summon_catalog()[7].skills[0].1) == 0x4C588C27,
        summon_catalog()[7].skills[1].0 == "Uplift"@,
        hex_value(summon_catalog()[7].skills[1].1) == 0xB5FF9FD3,
        summon_catalog()[7].skills[2].0 == "Potion Hoarder"@,
        hex_value(summon_catalog()[7].skills[2].1) == 0x24883AF3,
        summon_catalog()[7].skills[3].0 == "Tyranny"@,
        hex_value(summon_catalog()[7].skills[3].1) == 0x71F11A9B,
        summon_catalog()[7].skills[4].0 == "Linked Together"@,
        hex_value(summon_catalog()[7].skills[4].1) == 0x3FEC5F80,
        summon_catalog()[7].skills[5].0 == "Improved Healing"@,
        hex_value(summon_catalog()[7].skills[5].1) == 0x9389CC06,
{
    reveal(summon_catalog);
    reveal_strlit("DBE1D775");
    assert(all_hex_digits("DBE1D775"@));
    lemma_hex_value_8("DBE1D775"@);
    reveal_strlit("8D2ADB6E");
    assert(all_hex_digits("8D2ADB6E"@));
    lemma_hex_value_8("8D2ADB6E"@);
    reveal_strlit("5C862E13");
    assert(all_hex_digits("5C862E13"@));
    lemma_hex_value_8("5C862E13"@);
    reveal_strlit("EE85CD1F");
    assert(all_hex_digits("EE85CD1F"@));
    lemma_hex_value_8("EE85CD1F"@);
    reveal_strlit("71F11A9B");
    assert(all_hex_digits("71F11A9B"@));
    lemma_hex_value_8("71F11A9B"@);
    reveal_strlit("9232DC17");
    assert(all_hex_digits("9232DC17"@));
    lemma_hex_value_8("9232DC17"@);
    reveal_strlit("3D8153A1");
    assert(all_hex_digits("3D8153A1"@));
    lemma_hex_value_8("3D8153A1"@);
    reveal_strlit("57AB5B10");
    assert(all_hex_digits("57AB5B10"@));
    lemma_hex_value_8("57AB5B10"@);
    reveal_strlit("DC584F60");
    assert(all_hex_digits("DC584F60"@));
    lemma_hex_value_8("DC584F60"@);
    reveal_strlit("7CCFF74F");
    assert(all_hex_digits("7CCFF74F"@));
    lemma_hex_value_8("7CCFF74F"@);
    reveal_strlit("A7726190");
    assert(all_hex_digits("A7726190"@));
    lemma_hex_value_8("A7726190"@);
    reveal_strlit("0AA20846");
    assert(all_hex_digits("0AA20846"@));
    lemma_hex_value_8("0AA20846"@);
    reveal_strlit("4C588C27");
    assert(all_hex_digits("4C588C27"@));
    lemma_hex_value_8("4C588C27"@);
    reveal_strlit("B5FF9FD3");
    assert(all_hex_digits("B5FF9FD3"@));
    lemma_hex_value_8("B5FF9FD3"@);
    reveal_strlit("95F3FA86");
    assert(all_hex_digits("95F3FA86"@));
    lemma_hex_value_8("95F3FA86"@);
    reveal_strlit("318D12E9");
    assert(all_hex_digits("318D12E9"@));
    lemma_hex_value_8("318D12E9"@);
    reveal_strlit("E0ABFDFE");
    assert(all_hex_digits("E0ABFDFE"@));
    lemma_hex_value_8("E0ABFDFE"@);
    reveal_strlit("24883AF3");
    assert(all_hex_digits("24883AF3"@));
    lemma_hex_value_8("24883AF3"@);
    reveal_strlit("3FEC5F80");
    assert(all_hex_digits("3FEC5F80"@));
    lemma_hex_value_8("3FEC5F80"@);
    reveal_strlit("9389CC06");
    assert(all_hex_digits("9389CC06"@));
    lemma_hex_value_8("9389CC06"@);
}

/// The bonuses of the catalogue: each one's key and name with the game's base-param hash
/// for the normal and the astral tier and the maxima shown, and the two astral curves'
/// hashes.
#[verifier::rlimit(50)]
pub proof fn lemma_catalog_bonus_ids()
    ensures
        bonus_catalog().len() == 11,
        bonus_catalog()[0].key == "normatkcap"@,
        bonus_catalog()[0].name == "Normal Attack Damage Cap Up"@,
        hex_value(bonus_catalog()[0].normal_id) == 0xA66241C9,
        bonus_catalog()[0].normal_max == "50%"@,
        hex_value(bonus_catalog()[0].astral_id) == 0x9245DFA4,
        bonus_catalog()[0].astral_max == "100%"@,
        bonus_catalog()[1].key == "skilldmgcap"@,
        bonus_catalog()[1].name == "Skill Damage Cap Up"@,
        hex_value(bonus_catalog()[1].normal_id) == 0x2FFB509F,
        bonus_catalog()[1].normal_max == "50%"@,
        hex_value(bonus_catalog()[1].astral_id) == 0xCE70C58A,
        bonus_catalog()[1].astral_max == "100%"@,
        bonus_catalog()[2].key == "skyartcap"@,
        bonus_catalog()[2].name == "Skybound Art Damage Cap Up"@,
        hex_value(bonus_catalog()[2].normal_id) == 0xA3539FBB,
        bonus_catalog()[2].normal_max == "50%"@,
        hex_value(bonus_catalog()[2].astral_id) == 0x5A1D2C89,
        bonus_catalog()[2].astral_max == "100%"@,
        bonus_catalog()[3].key == "healcap"@,
        bonus_catalog()[3].name == "Healing Cap Up"@,
        hex_value(bonus_catalog()[3].normal_id) == 0x2270BC40,
        bonus_catalog()[3].normal_max == "50%"@,
        hex_value(bonus_catalog()[3].astral_id) == 0x2EA9CA80,
        bonus_catalog()[3].astral_max == "75%"@,
        bonus_catalog()[4].key == "stun"@,
        bonus_catalog()[4].name == "Stun Power Up"@,
        hex_value(bonus_catalog()[4].normal_id) == 0xF7B0316F,
        bonus_catalog()[4].normal_max == "15"@,
        hex_value(bonus_catalog()[4].astral_id) == 0xF0F77BC1,
        bonus_catalog()[4].astral_max == "20"@,
        bonus_catalog()[5].key == "atk"@,
        bonus_catalog()[5].name == "Attack Power Up"@,
        hex_value(bonus_catalog()[5].normal_id) == 0xA8900C80,
        bonus_catalog()[5].normal_max == "+2000"@,
        hex_value(bonus_catalog()[5].astral_id) == 0xA3E537B1,
        bonus_catalog()[5].astral_max == "+3000"@,
        bonus_catalog()[6].key == "hp"@,
        bonus_catalog()[6].name == "Health Up"@,
        hex_value(bonus_catalog()[6].normal_id) == 0xBC4E92CB,
        bonus_catalog()[6].normal_max == "+2000"@,
        hex_value(bonus_catalog()[6].astral_id) == 0xF2256E44,
        bonus_catalog()[6].astral_max == "+5000"@,
        bonus_catalog()[7].key == "crit"@,
        bonus_catalog()[7].name == "Critical Hit Rate Up"@,
        hex_value(bonus_catalog()[7].normal_id) == 0x00D171E0,
        bonus_catalog()[7].normal_max == "20%"@,
        hex_value(bonus_catalog()[7].astral_id) == 0xA074A967,
        bonus_catalog()[7].astral_max == "30%"@,
        bonus_catalog()[8].key == "skilldmg"@,
        bonus_catalog()[8].name == "Skill Damage Up"@,
        hex_value(bonus_catalog()[8].normal_id) == 0x664E8E32,
        bonus_catalog()[8].normal_max == "20%"@,
        hex_value(bonus_catalog()[8].astral_id) == 0xAF39A3FB,
        bonus_catalog()[8].astral_max == "30%"@,
        bonus_catalog()[9].key == "skyart"@,
        bonus_catalog()[9].name == "Skybound Art Damage Up"@,
        hex_value(bonus_catalog()[9].normal_id) == 0x75138D21,
        bonus_catalog()[9].normal_max == "20%"@,
        hex_value(bonus_catalog()[9].astral_id) == 0x33C0D50C,
        bonus_catalog()[9].astral_max == "30%"@,
        bonus_catalog()[10].key == "chainburst"@,
        bonus_catalog()[10].name == "Chain Burst Damage Up"@,
        hex_value(bonus_catalog()[10].normal_id) == 0x5A39D81B,
        bonus_catalog()[10].normal_max == "50%"@,
        hex_value(bonus_catalog()[10].astral_id) == 0x54B09A37,
        bonus_catalog()[10].astral_max == "100%"@,
        hex_value(ASTRAL_CURVE_MAX@) == 0x4E547493,
        hex_value(ASTRAL_CURVE_HALF@) == 0x5A370B86,
{
    reveal(bonus_catalog);
    reveal_strlit("A66241C9");
    assert(all_hex_digits("A66241C9"@));
    lemma_hex_value_8("A66241C9"@);
    reveal_strlit("9245DFA4");
    assert(all_hex_digits("9245DFA4"@));
    lemma_hex_value_8("9245DFA4"@);
    reveal_strlit("2FFB509F");
    assert(all_hex_digits("2FFB509F"@));
    lemma_hex_value_8("2FFB509F"@);
    reveal_strlit("CE70C58A");
    assert(all_hex_digits("CE70C58A"@));
    lemma_hex_value_8("CE70C58A"@);
    reveal_strlit("A3539FBB");
    assert(all_hex_digits("A3539FBB"@));
    lemma_hex_value_8("A3539FBB"@);
    reveal_strlit("5A1D2C89");
    assert(all_hex_digits("5A1D2C89"@));
    lemma_hex_value_8("5A1D2C89"@);
    reveal_strlit("2270BC40");
    assert(all_hex_digits("2270BC40"@));
    lemma_hex_value_8("2270BC40"@);
    reveal_strlit("2EA9CA80");
    assert(all_hex_digits("2EA9CA80"@));
    lemma_hex_value_8("2EA9CA80"@);
    reveal_strlit("F7B0316F");
    assert(all_hex_digits("F7B0316F"@));
    lemma_hex_value_8("F7B0316F"@);
    reveal_strlit("F0F77BC1");
    assert(all_hex_digits("F0F77BC1"@));
    lemma_hex_value_8("F0F77BC1"@);
    reveal_strlit("A8900C80");
    assert(all_hex_digits("A8900C80"@));
    lemma_hex_value_8("A8900C80"@);
    reveal_strlit("A3E537B1");
    assert(all_hex_digits("A3E537B1"@));
    lemma_hex_value_8("A3E537B1"@);
    reveal_strlit("BC4E92CB");
    assert(all_hex_digits("BC4E92CB"@));
    lemma_hex_value_8("BC4E92CB"@);
    reveal_strlit("F2256E44");
    assert(all_hex_digits("F2256E44"@));
    lemma_hex_value_8("F2256E44"@);
    reveal_strlit("00D171E0");
    assert(all_hex_digits("00D171E0"@));
    lemma_hex_value_8("00D171E0"@);
    reveal_strlit("A074A967");
    assert(all_hex_digits("A074A967"@));
    lemma_hex_value_8("A074A967"@);
    reveal_strlit("664E8E32");
    assert(all_hex_digits("664E8E32"@));
    lemma_hex_value_8("664E8E32"@);
    reveal_strlit("AF39A3FB");
    assert(all_hex_digits("AF39A3FB"@));
    lemma_hex_value_8("AF39A3FB"@);
    reveal_strlit("75138D21");
    assert(all_hex_digits("75138D21"@));
    lemma_hex_value_8("75138D21"@);
    reveal_strlit("33C0D50C");
    assert(all_hex_digits("33C0D50C"@));
    lemma_hex_value_8("33C0D50C"@);
    reveal_strlit("5A39D81B");
    assert(all_hex_digits("5A39D81B"@));
    lemma_hex_value_8("5A39D81B"@);
    reveal_strlit("54B09A37");
    assert(all_hex_digits("54B09A37"@));
    lemma_hex_value_8("54B09A37"@);
    reveal_strlit("4E547493");
    assert(all_hex_digits("4E547493"@));
    lemma_hex_value_8("4E547493"@);
    reveal_strlit("5A370B86");
    assert(all_hex_digits("5A370B86"@));
    lemma_hex_value_8("5A370B86"@);
}

/// The catalogue holds eight summons and eleven bonuses.
pub proof fn lemma_catalog_sizes()
    ensures
        summon_catalog().len() == 8,
        bonus_catalog().len() == 11,
{
    reveal(summon_catalog);
    reveal(bonus_catalog);
}

/// The pool ids of the catalogue's summons.
pub proof fn lemma_catalog_pool_ids()
    ensures
        summon_catalog().len() == 8,
        hex_value(summon_catalog()[0].skill_pool) == 0xDF902143,
        hex_value(summon_catalog()[0].equip_pool) == 0x393EF1D8,
        hex_value(summon_catalog()[1].skill_pool) == 0x2340DCED,
        hex_value(summon_catalog()[1].equip_pool) == 0xC39F7144,
        hex_value(summon_catalog()[2].skill_pool) == 0x1250EFD2,
        hex_value(summon_catalog()[2].equip_pool) == 0xE31F7BAD,
        hex_value(summon_catalog()[3].skill_pool) == 0x384C3333,
        hex_value(summon_catalog()[3].equip_pool) == 0xFD5DACF0,
        hex_value(summon_catalog()[4].skill_pool) == 0xCC0B0EF1,
        hex_value(summon_catalog()[4].equip_pool) == 0xF63793E4,
        hex_value(summon_catalog()[5].skill_pool) == 0xBD452CC9,
        hex_value(summon_catalog()[5].equip_pool) == 0xB7D9379B,
        hex_value(summon_catalog()[6].skill_pool) == 0x26428274,
        hex_value(summon_catalog()[6].equip_pool) == 0xA35D7A5C,
        hex_value(summon_catalog()[7].skill_pool) == 0x05205336,
        hex_value(summon_catalog()[7].equip_pool) == 0xDCB2B22B,
{
    reveal(summon_catalog);
    reveal_strlit("DF902143");
    assert(all_hex_digits("DF902143"@));
    lemma_hex_value_8("DF902143"@);
    reveal_strlit("393EF1D8");
    assert(all_hex_digits("393EF1D8"@));
    lemma_hex_value_8("393EF1D8"@);
    reveal_strlit("2340DCED");
    assert(all_hex_digits("2340DCED"@));
    lemma_hex_value_8("2340DCED"@);
    reveal_strlit("C39F7144");
    assert(all_hex_digits("C39F7144"@));
    lemma_hex_value_8("C39F7144"@);
    reveal_strlit("1250EFD2");
    assert(all_hex_digits("1250EFD2"@));
    lemma_hex_value_8("1250EFD2"@);
    reveal_strlit("E31F7BAD");
    assert(all_hex_digits("E31F7BAD"@));
    lemma_hex_value_8("E31F7BAD"@);
    reveal_strlit("384C3333");
    assert(all_hex_digits("384C3333"@));
    lemma_hex_value_8("384C3333"@);
    reveal_strlit("FD5DACF0");
    assert(all_hex_digits("FD5DACF0"@));
    lemma_hex_value_8("FD5DACF0"@);
    reveal_strlit("CC0B0EF1");
    assert(all_hex_digits("CC0B0EF1"@));
    lemma_hex_value_8("CC0B0EF1"@);
    reveal_strlit("F63793E4");
    assert(all_hex_digits("F63793E4"@));
    lemma_hex_value_8("F63793E4"@);
    reveal_strlit("BD452CC9");
    assert(all_hex_digits("BD452CC9"@));
    lemma_hex_value_8("BD452CC9"@);
    reveal_strlit("B7D9379B");
    assert(all_hex_digits("B7D9379B"@));
    lemma_hex_value_8("B7D9379B"@);
    reveal_strlit("26428274");
    assert(all_hex_digits("26428274"@));
    lemma_hex_value_8("26428274"@);
    reveal_strlit("A35D7A5C");
    assert(all_hex_digits("A35D7A5C"@));
    lemma_hex_value_8("A35D7A5C"@);
    reveal_strlit("05205336");
    assert(all_hex_digits("05205336"@));
    lemma_hex_value_8("05205336"@);
    reveal_strlit("DCB2B22B");
    assert(all_hex_digits("DCB2B22B"@));
    lemma_hex_value_8("DCB2B22B"@);
}

} // verus!
