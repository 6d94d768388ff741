//! The items that an object of the host can be, and the kinds of weapon
//! among them.

use vstd::prelude::*;

verus! {

/// An item, named after the number by which the host knows it.
#[derive(Debug, Clone, Copy, PartialEq, Eq, Structural)]
pub enum WeaponId {
    Unknown,
    Deagle,
    Elite,
    Fiveseven,
    Glock,
    Ak47,
    Aug,
    Awp,
    Famas,
    G3SG1,
    GalilAr,
    M249,
    M4A1,
    Mac10,
    P90,
    ZoneRepulsor,
    Mp5sd,
    Ump45,
    Xm1014,
    Bizon,
    Mag7,
    Negev,
    Sawedoff,
    Tec9,
    Taser,
    Hkp2000,
    Mp7,
    Mp9,
    Nova,
    P250,
    Shield,
    Scar20,
    Sg553,
    Ssg08,
    GoldenKnife,
    Knife,
    Flashbang,
    HeGrenade,
    SmokeGrenade,
    Molotov,
    Decoy,
    IncGrenade,
    C4,
    Healthshot,
    KnifeT,
    M4a1S,
    UspS,
    Cz75a,
    Revolver,
    TaGrenade,
    Axe,
    Hammer,
    Spanner,
    GhostKnife,
    Firebomb,
    Diversion,
    FragGrenade,
    Snowball,
    BumpMine,
    Bayonet,
    ClassicKnife,
    Flip,
    Gut,
    Karambit,
    M9Bayonet,
    Huntsman,
    Falchion,
    Bowie,
    Butterfly,
    Daggers,
    Paracord,
    SurvivalKnife,
    Ursus,
    Navaja,
    NomadKnife,
    Stiletto,
    Talon,
    SkeletonKnife,
    NameTag,
    Sticker,
    MusicKit,
    SealedGraffiti,
    Graffiti,
    OperationHydraPass,
    BronzeOperationHydraCoin,
    Patch,
    GloveStuddedBrokenfang,
    GloveStuddedBloodhound,
    GloveT,
    GloveCT,
    GloveSporty,
    GloveSlick,
    GloveLeatherWrap,
    GloveMotorcycle,
    GloveSpecialist,
    GloveHydra,
}

/// The kind of a weapon.
#[derive(Debug, Clone, Copy, PartialEq, Eq, Structural)]
pub enum WeaponType {
    AutoSniper,
    Sniper,
    Pistol,
    AssaultRifle,
    MachineGun,
    MachinePistol,
    Shotgun,
    Melee,
    Grenade,
    Unknown,
}

impl WeaponId {
    /// The number by which the host knows this item.
    pub open spec fn spec_id(&self) -> i16 {
        match self {
            WeaponId::Unknown => 0,
            WeaponId::Deagle => 1,
            WeaponId::Elite => 2,
            WeaponId::Fiveseven => 3,
            WeaponId::Glock => 4,
            WeaponId::Ak47 => 7,
            WeaponId::Aug => 8,
            WeaponId::Awp => 9,
            WeaponId::Famas => 10,
            WeaponId::G3SG1 => 11,
            WeaponId::GalilAr => 13,
            WeaponId::M249 => 14,
            WeaponId::M4A1 => 16,
            WeaponId::Mac10 => 17,
            WeaponId::P90 => 19,
            WeaponId::ZoneRepulsor => 20,
            WeaponId::Mp5sd => 23,
            WeaponId::Ump45 => 24,
            WeaponId::Xm1014 => 25,
            WeaponId::Bizon => 26,
            WeaponId::Mag7 => 27,
            WeaponId::Negev => 28,
            WeaponId::Sawedoff => 29,
            WeaponId::Tec9 => 30,
            WeaponId::Taser => 31,
            WeaponId::Hkp2000 => 32,
            WeaponId::Mp7 => 33,
            WeaponId::Mp9 => 34,
            WeaponId::Nova => 35,
            WeaponId::P250 => 36,
            WeaponId::Shield => 37,
            WeaponId::Scar20 => 38,
            WeaponId::Sg553 => 39,
            WeaponId::Ssg08 => 40,
            WeaponId::GoldenKnife => 41,
            WeaponId::Knife => 42,
            WeaponId::Flashbang => 43,
            WeaponId::HeGrenade => 44,
            WeaponId::SmokeGrenade => 45,
            WeaponId::Molotov => 46,
            WeaponId::Decoy => 47,
            WeaponId::IncGrenade => 48,
            WeaponId::C4 => 49,
            WeaponId::Healthshot => 57,
            WeaponId::KnifeT => 59,
            WeaponId::M4a1S => 60,
            WeaponId::UspS => 61,
            WeaponId::Cz75a => 63,
            WeaponId::Revolver => 64,
            WeaponId::TaGrenade => 68,
            WeaponId::Axe => 75,
            WeaponId::Hammer => 76,
            WeaponId::Spanner => 78,
            WeaponId::GhostKnife => 80,
            WeaponId::Firebomb => 81,
            WeaponId::Diversion => 82,
            WeaponId::FragGrenade => 83,
            WeaponId::Snowball => 84,
            WeaponId::BumpMine => 85,
            WeaponId::Bayonet => 500,
            WeaponId::ClassicKnife => 503,
            WeaponId::Flip => 505,
            WeaponId::Gut => 506,
            WeaponId::Karambit => 507,
            WeaponId::M9Bayonet => 508,
            WeaponId::Huntsman => 509,
            WeaponId::Falchion => 512,
            WeaponId::Bowie => 514,
            WeaponId::Butterfly => 515,
            WeaponId::Daggers => 516,
            WeaponId::Paracord => 517,
            WeaponId::SurvivalKnife => 518,
            WeaponId::Ursus => 519,
            WeaponId::Navaja => 520,
            WeaponId::NomadKnife => 521,
            WeaponId::Stiletto => 522,
            WeaponId::Talon => 523,
            WeaponId::SkeletonKnife => 525,
            WeaponId::NameTag => 1200,
            WeaponId::Sticker => 1209,
            WeaponId::MusicKit => 1314,
            WeaponId::SealedGraffiti => 1348,
            WeaponId::Graffiti => 1349,
            WeaponId::OperationHydraPass => 1352,
            WeaponId::BronzeOperationHydraCoin => 4353,
            WeaponId::Patch => 4609,
            WeaponId::GloveStuddedBrokenfang => 4725,
            WeaponId::GloveStuddedBloodhound => 5027,
            WeaponId::GloveT => 5028,
            WeaponId::GloveCT => 5029,
            WeaponId::GloveSporty => 5030,
            WeaponId::GloveSlick => 5031,
            WeaponId::GloveLeatherWrap => 5032,
            WeaponId::GloveMotorcycle => 5033,
            WeaponId::GloveSpecialist => 5034,
            WeaponId::GloveHydra => 5035,
        }
    }

    /// The number by which the host knows this item.
    #[verifier::when_used_as_spec(spec_id)]
    pub fn id(&self) -> (id: i16)
        ensures
            id == self.spec_id(),
    {
        match self {
            WeaponId::Unknown => 0,
            WeaponId::Deagle => 1,
            WeaponId::Elite => 2,
            WeaponId::Fiveseven => 3,
            WeaponId::Glock => 4,
            WeaponId::Ak47 => 7,
            WeaponId::Aug => 8,
            WeaponId::Awp => 9,
            WeaponId::Famas => 10,
            WeaponId::G3SG1 => 11,
            WeaponId::GalilAr => 13,
            WeaponId::M249 => 14,
            WeaponId::M4A1 => 16,
            WeaponId::Mac10 => 17,
            WeaponId::P90 => 19,
            WeaponId::ZoneRepulsor => 20,
            WeaponId::Mp5sd => 23,
            WeaponId::Ump45 => 24,
            WeaponId::Xm1014 => 25,
            WeaponId::Bizon => 26,
            WeaponId::Mag7 => 27,
            WeaponId::Negev => 28,
            WeaponId::Sawedoff => 29,
            WeaponId::Tec9 => 30,
            WeaponId::Taser => 31,
            WeaponId::Hkp2000 => 32,
            WeaponId::Mp7 => 33,
            WeaponId::Mp9 => 34,
            WeaponId::Nova => 35,
            WeaponId::P250 => 36,
            WeaponId::Shield => 37,
            WeaponId::Scar20 => 38,
            WeaponId::Sg553 => 39,
            WeaponId::Ssg08 => 40,
            WeaponId::GoldenKnife => 41,
            WeaponId::Knife => 42,
            WeaponId::Flashbang => 43,
            WeaponId::HeGrenade => 44,
            WeaponId::SmokeGrenade => 45,
            WeaponId::Molotov => 46,
            WeaponId::Decoy => 47,
            WeaponId::IncGrenade => 48,
            WeaponId::C4 => 49,
            WeaponId::Healthshot => 57,
            WeaponId::KnifeT => 59,
            WeaponId::M4a1S => 60,
            WeaponId::UspS => 61,
            WeaponId::Cz75a => 63,
            WeaponId::Revolver => 64,
            WeaponId::TaGrenade => 68,
            WeaponId::Axe => 75,
            WeaponId::Hammer => 76,
            WeaponId::Spanner => 78,
            WeaponId::GhostKnife => 80,
            WeaponId::Firebomb => 81,
            WeaponId::Diversion => 82,
            WeaponId::FragGrenade => 83,
            WeaponId::Snowball => 84,
            WeaponId::BumpMine => 85,
            WeaponId::Bayonet => 500,
            WeaponId::ClassicKnife => 503,
            WeaponId::Flip => 505,
            WeaponId::Gut => 506,
            WeaponId::Karambit => 507,
            WeaponId::M9Bayonet => 508,
            WeaponId::Huntsman => 509,
            WeaponId::Falchion => 512,
            WeaponId::Bowie => 514,
            WeaponId::Butterfly => 515,
            WeaponId::Daggers => 516,
            WeaponId::Paracord => 517,
            WeaponId::SurvivalKnife => 518,
            WeaponId::Ursus => 519,
            WeaponId::Navaja => 520,
            WeaponId::NomadKnife => 521,
            WeaponId::Stiletto => 522,
            WeaponId::Talon => 523,
            WeaponId::SkeletonKnife => 525,
            WeaponId::NameTag => 1200,
            WeaponId::Sticker => 1209,
            WeaponId::MusicKit => 1314,
            WeaponId::SealedGraffiti => 1348,
            WeaponId::Graffiti => 1349,
            WeaponId::OperationHydraPass => 1352,
            WeaponId::BronzeOperationHydraCoin => 4353,
            WeaponId::Patch => 4609,
            WeaponId::GloveStuddedBrokenfang => 4725,
            WeaponId::GloveStuddedBloodhound => 5027,
            WeaponId::GloveT => 5028,
            WeaponId::GloveCT => 5029,
            WeaponId::GloveSporty => 5030,
            WeaponId::GloveSlick => 5031,
            WeaponId::GloveLeatherWrap => 5032,
            WeaponId::GloveMotorcycle => 5033,
            WeaponId::GloveSpecialist => 5034,
            WeaponId::GloveHydra => 5035,
        }
    }

    /// The item that the host knows by the number `id`, if there is one.
    pub fn from_i16(id: i16) -> (item: Option<WeaponId>)
        ensures
            match item {
                Some(found) => found.spec_id() == id,
                None => forall|any: WeaponId| any.spec_id() != id,
            },
    {
        match id {
            0 => Some(WeaponId::Unknown),
            1 => Some(WeaponId::Deagle),
            2 => Some(WeaponId::Elite),
            3 => Some(WeaponId::Fiveseven),
            4 => Some(WeaponId::Glock),
            7 => Some(WeaponId::Ak47),
            8 => Some(WeaponId::Aug),
            9 => Some(WeaponId::Awp),
            10 => Some(WeaponId::Famas),
            11 => Some(WeaponId::G3SG1),
            13 => Some(WeaponId::GalilAr),
            14 => Some(WeaponId::M249),
            16 => Some(WeaponId::M4A1),
            17 => Some(WeaponId::Mac10),
            19 => Some(WeaponId::P90),
            20 => Some(WeaponId::ZoneRepulsor),
            23 => Some(WeaponId::Mp5sd),
            24 => Some(WeaponId::Ump45),
            25 => Some(WeaponId::Xm1014),
            26 => Some(WeaponId::Bizon),
            27 => Some(WeaponId::Mag7),
            28 => Some(WeaponId::Negev),
            29 => Some(WeaponId::Sawedoff),
            30 => Some(WeaponId::Tec9),
            31 => Some(WeaponId::Taser),
            32 => Some(WeaponId::Hkp2000),
            33 => Some(WeaponId::Mp7),
            34 => Some(WeaponId::Mp9),
            35 => Some(WeaponId::Nova),
            36 => Some(WeaponId::P250),
            37 => Some(WeaponId::Shield),
            38 => Some(WeaponId::Scar20),
            39 => Some(WeaponId::Sg553),
            40 => Some(WeaponId::Ssg08),
            41 => Some(WeaponId::GoldenKnife),
            42 => Some(WeaponId::Knife),
            43 => Some(WeaponId::Flashbang),
            44 => Some(WeaponId::HeGrenade),
            45 => Some(WeaponId::SmokeGrenade),
            46 => Some(WeaponId::Molotov),
            47 => Some(WeaponId::Decoy),
            48 => Some(WeaponId::IncGrenade),
            49 => Some(WeaponId::C4),
            57 => Some(WeaponId::Healthshot),
            59 => Some(WeaponId::KnifeT),
            60 => Some(WeaponId::M4a1S),
            61 => Some(WeaponId::UspS),
            63 => Some(WeaponId::Cz75a),
            64 => Some(WeaponId::Revolver),
            68 => Some(WeaponId::TaGrenade),
            75 => Some(WeaponId::Axe),
            76 => Some(WeaponId::Hammer),
            78 => Some(WeaponId::Spanner),
            80 => Some(WeaponId::GhostKnife),
            81 => Some(WeaponId::Firebomb),
            82 => Some(WeaponId::Diversion),
            83 => Some(WeaponId::FragGrenade),
            84 => Some(WeaponId::Snowball),
            85 => Some(WeaponId::BumpMine),
            500 => Some(WeaponId::Bayonet),
            503 => Some(WeaponId::ClassicKnife),
            505 => Some(WeaponId::Flip),
            506 => Some(WeaponId::Gut),
            507 => Some(WeaponId::Karambit),
            508 => Some(WeaponId::M9Bayonet),
            509 => Some(WeaponId::Huntsman),
            512 => Some(WeaponId::Falchion),
            514 => Some(WeaponId::Bowie),
            515 => Some(WeaponId::Butterfly),
            516 => Some(WeaponId::Daggers),
            517 => Some(WeaponId::Paracord),
            518 => Some(WeaponId::SurvivalKnife),
            519 => Some(WeaponId::Ursus),
            520 => Some(WeaponId::Navaja),
            521 => Some(WeaponId::NomadKnife),
            522 => Some(WeaponId::Stiletto),
            523 => Some(WeaponId::Talon),
            525 => Some(WeaponId::SkeletonKnife),
            1200 => Some(WeaponId::NameTag),
            1209 => Some(WeaponId::Sticker),
            1314 => Some(WeaponId::MusicKit),
            1348 => Some(WeaponId::SealedGraffiti),
            1349 => Some(WeaponId::Graffiti),
            1352 => Some(WeaponId::OperationHydraPass),
            4353 => Some(WeaponId::BronzeOperationHydraCoin),
            4609 => Some(WeaponId::Patch),
            4725 => Some(WeaponId::GloveStuddedBrokenfang),
            5027 => Some(WeaponId::GloveStuddedBloodhound),
            5028 => Some(WeaponId::GloveT),
            5029 => Some(WeaponId::GloveCT),
            5030 => Some(WeaponId::GloveSporty),
            5031 => Some(WeaponId::GloveSlick),
            5032 => Some(WeaponId::GloveLeatherWrap),
            5033 => Some(WeaponId::GloveMotorcycle),
            5034 => Some(WeaponId::GloveSpecialist),
            5035 => Some(WeaponId::GloveHydra),
            _ => None,
        }
    }

    /// The item that the host knows by the low 16 bits of `num`, if there is
    /// one.
    pub fn from_i32(num: i32) -> (item: Option<WeaponId>)
        ensures
            match item {
                Some(found) => found.spec_id() == num as i16,
                None => forall|any: WeaponId| any.spec_id() != num as i16,
            },
    {
        WeaponId::from_i16(#[verifier::truncate] (num as i16))
    }
}

/// No two items share a number.
pub proof fn lemma_ids_are_distinct(a: WeaponId, b: WeaponId)
    requires
        a.spec_id() == b.spec_id(),
    ensures
        a == b,
{
}

/// The kind of the weapon that the host knows by the number `id`. What is
/// no weapon, or is not known, is of the kind [`WeaponType::Unknown`].
pub open spec fn type_of_id(id: int) -> WeaponType {
    if id == 1 || id == 2 || id == 3 || id == 4 || id == 20 || id == 32 || id == 36 || id == 61
        || id == 64 {
        WeaponType::Pistol
    } else if id == 7 || id == 10 || id == 13 || id == 16 || id == 60 {
        WeaponType::AssaultRifle
    } else if id == 14 || id == 28 {
        WeaponType::MachineGun
    } else if id == 17 || id == 19 || id == 24 || id == 26 || id == 33 {
        WeaponType::MachinePistol
    } else if id == 25 || id == 27 || id == 29 {
        WeaponType::Shotgun
    } else if id == 9 || id == 40 {
        WeaponType::Sniper
    } else if id == 11 || id == 38 {
        WeaponType::AutoSniper
    } else if id == 41 || id == 42 || id == 59 || id == 75 || id == 80 || id == 500 || id == 503
        || id == 505 || id == 506 || id == 507 || id == 508 || id == 509 || id == 512
        || id == 514 || id == 515 || id == 516 || id == 517 || id == 518 || id == 519
        || id == 520 || id == 521 || id == 522 || id == 523 || id == 525 {
        WeaponType::Melee
    } else if id == 43 || id == 44 || id == 45 || id == 46 || id == 47 || id == 48 {
        WeaponType::Grenade
    } else {
        WeaponType::Unknown
    }
}

/// The kind of the weapon that the host knows by the number `id`.
pub fn get_type(id: i16) -> (kind: WeaponType)
    ensures
        kind == type_of_id(id as int),
{
    assert(id as i32 as i16 == id) by (bit_vector);
    let item = match WeaponId::from_i32(id as i32) {
        Some(item) => item,
        None => {
            proof {
                assert(WeaponId::Deagle.spec_id() == 1);
                assert(WeaponId::Elite.spec_id() == 2);
                assert(WeaponId::Fiveseven.spec_id() == 3);
                assert(WeaponId::Glock.spec_id() == 4);
                assert(WeaponId::Ak47.spec_id() == 7);
                assert(WeaponId::Awp.spec_id() == 9);
                assert(WeaponId::Famas.spec_id() == 10);
                assert(WeaponId::G3SG1.spec_id() == 11);
                assert(WeaponId::GalilAr.spec_id() == 13);
                assert(WeaponId::M249.spec_id() == 14);
                assert(WeaponId::M4A1.spec_id() == 16);
                assert(WeaponId::Mac10.spec_id() == 17);
                assert(WeaponId::P90.spec_id() == 19);
                assert(WeaponId::ZoneRepulsor.spec_id() == 20);
                assert(WeaponId::Ump45.spec_id() == 24);
                assert(WeaponId::Xm1014.spec_id() == 25);
                assert(WeaponId::Bizon.spec_id() == 26);
                assert(WeaponId::Mag7.spec_id() == 27);
                assert(WeaponId::Negev.spec_id() == 28);
                assert(WeaponId::Sawedoff.spec_id() == 29);
                assert(WeaponId::Hkp2000.spec_id() == 32);
                assert(WeaponId::Mp7.spec_id() == 33);
                assert(WeaponId::P250.spec_id() == 36);
                assert(WeaponId::Scar20.spec_id() == 38);
                assert(WeaponId::Ssg08.spec_id() == 40);
                assert(WeaponId::GoldenKnife.spec_id() == 41);
                assert(WeaponId::Knife.spec_id() == 42);
                assert(WeaponId::Flashbang.spec_id() == 43);
                assert(WeaponId::HeGrenade.spec_id() == 44);
                assert(WeaponId::SmokeGrenade.spec_id() == 45);
                assert(WeaponId::Molotov.spec_id() == 46);
                assert(WeaponId::Decoy.spec_id() == 47);
                assert(WeaponId::IncGrenade.spec_id() == 48);
                assert(WeaponId::KnifeT.spec_id() == 59);
                assert(WeaponId::M4a1S.spec_id() == 60);
                assert(WeaponId::UspS.spec_id() == 61);
                assert(WeaponId::Revolver.spec_id() == 64);
                assert(WeaponId::Axe.spec_id() == 75);
                assert(WeaponId::GhostKnife.spec_id() == 80);
                assert(WeaponId::Bayonet.spec_id() == 500);
                assert(WeaponId::ClassicKnife.spec_id() == 503);
                assert(WeaponId::Flip.spec_id() == 505);
                assert(WeaponId::Gut.spec_id() == 506);
                assert(WeaponId::Karambit.spec_id() == 507);
                assert(WeaponId::M9Bayonet.spec_id() == 508);
                assert(WeaponId::Huntsman.spec_id() == 509);
                assert(WeaponId::Falchion.spec_id() == 512);
                assert(WeaponId::Bowie.spec_id() == 514);
                assert(WeaponId::Butterfly.spec_id() == 515);
                assert(WeaponId::Daggers.spec_id() == 516);
                assert(WeaponId::Paracord.spec_id() == 517);
                assert(WeaponId::SurvivalKnife.spec_id() == 518);
                assert(WeaponId::Ursus.spec_id() == 519);
                assert(WeaponId::Navaja.spec_id() == 520);
                assert(WeaponId::NomadKnife.spec_id() == 521);
                assert(WeaponId::Stiletto.spec_id() == 522);
                assert(WeaponId::Talon.spec_id() == 523);
                assert(WeaponId::SkeletonKnife.spec_id() == 525);
            }
            return WeaponType::Unknown;
        },
    };
    match item {
        WeaponId::Deagle | WeaponId::Elite | WeaponId::Fiveseven | WeaponId::Glock
        | WeaponId::ZoneRepulsor | WeaponId::Hkp2000 | WeaponId::P250 | WeaponId::UspS
        | WeaponId::Revolver => WeaponType::Pistol,
        WeaponId::Ak47 | WeaponId::Famas | WeaponId::GalilAr | WeaponId::M4A1 | WeaponId::M4a1S => {
            WeaponType::AssaultRifle
        },
        WeaponId::M249 | WeaponId::Negev => WeaponType::MachineGun,
        WeaponId::Mac10 | WeaponId::P90 | WeaponId::Ump45 | WeaponId::Bizon | WeaponId::Mp7 => {
            WeaponType::MachinePistol
        },
        WeaponId::Xm1014 | WeaponId::Mag7 | WeaponId::Sawedoff => WeaponType::Shotgun,
        WeaponId::Awp | WeaponId::Ssg08 => WeaponType::Sniper,
        WeaponId::G3SG1 | WeaponId::Scar20 => WeaponType::AutoSniper,
        WeaponId::GoldenKnife | WeaponId::Knife | WeaponId::KnifeT | WeaponId::Axe
        | WeaponId::GhostKnife | WeaponId::Bayonet | WeaponId::ClassicKnife | WeaponId::Flip
        | WeaponId::Gut | WeaponId::Karambit | WeaponId::M9Bayonet | WeaponId::Huntsman
        | WeaponId::Falchion | WeaponId::Bowie | WeaponId::Butterfly | WeaponId::Daggers
        | WeaponId::Paracord | WeaponId::SurvivalKnife | WeaponId::Ursus | WeaponId::Navaja
        | WeaponId::NomadKnife | WeaponId::Stiletto | WeaponId::Talon
        | WeaponId::SkeletonKnife => WeaponType::Melee,
        WeaponId::Flashbang | WeaponId::HeGrenade | WeaponId::SmokeGrenade | WeaponId::Molotov
        | WeaponId::Decoy | WeaponId::IncGrenade => WeaponType::Grenade,
        _ => WeaponType::Unknown,
    }
}

} // verus!
