use vstd::prelude::*;

verus! {

/// Number of categories in the closed catalog.
pub const CATALOG_SIZE: usize = 138;

/// One member of the closed catalog of domain categories.
///
/// The catalog is fixed: every category is listed here, each carrying a
/// stable name and a stable offset in `[0, CATALOG_SIZE)`. The offsets
/// mirror the external encoding the application speaks to the engine in,
/// so they are not free to change; the configured anchor `CoalMaking`
/// stands at offset 28 in that encoding. There is no free-form category
/// input, so no error path exists for selecting one.
#[derive(Clone, Copy, PartialEq, Eq, Structural, Debug)]
pub enum Category {
    AggressiveFighting,
    Alchemy,
    AnimalHusbandry,
    AnimalTaming,
    Archaeology,
    Archery,
    ArmourSmithing,
    Axes,
    Baking,
    Ballistae,
    Beverages,
    Blacksmithing,
    BladesSmithing,
    Body,
    BodyControl,
    BodyStamina,
    BodyStrength,
    Botanizing,
    Bowyery,
    Butchering,
    ButcheringKnife,
    Carpentry,
    CarvingKnife,
    Catapults,
    ChainArmourSmithing,
    Channeling,
    Climbing,
    ClothTailoring,
    CoalMaking,
    Clubs,
    Cooking,
    DairyFoodMaking,
    DefensiveFighting,
    Digging,
    Exorcism,
    Farming,
    Fighting,
    FineCarpentry,
    Firemaking,
    FirstAid,
    Fishing,
    Fletching,
    Foraging,
    Forestry,
    Gardening,
    Halberd,
    Hammer,
    Hammers,
    Hatchet,
    Healing,
    HotFoodCooking,
    HugeAxe,
    HugeClub,
    JewelrySmithing,
    Knives,
    LargeAxe,
    LargeMaul,
    LargeMetalShield,
    LargeWoodenShield,
    Leatherworking,
    LockPicking,
    Locksmithing,
    LongBow,
    LongSpear,
    Longsword,
    Masonry,
    Mauls,
    Meditating,
    MediumBow,
    MediumMaul,
    MediumMetalShield,
    MediumWoodenShield,
    Metallurgy,
    Milking,
    Milling,
    Mind,
    MindLogic,
    MindSpeed,
    Mining,
    MiscItems,
    NaturalSubstances,
    Nature,
    NormalFighting,
    Papyrusmaking,
    Paving,
    Pickaxe,
    PlateArmourSmithing,
    Polearms,
    Pottery,
    Praying,
    Preaching,
    Prospecting,
    Puppeteering,
    Rake,
    Religion,
    Repairing,
    Restoration,
    Ropemaking,
    Saw,
    Scythe,
    ShieldBashing,
    ShieldSmithing,
    Shields,
    ShipBuilding,
    ShortBow,
    Shortsword,
    Shovel,
    Sickle,
    SmallAxe,
    SmallMaul,
    SmallMetalShield,
    SmallWoodenShield,
    Smithing,
    Soul,
    SoulDepth,
    SoulStrength,
    Staff,
    Stealing,
    StoneChisel,
    StoneCutting,
    Swords,
    Tailoring,
    Taunting,
    Thatching,
    Thievery,
    ToyMaking,
    Toys,
    Tracking,
    Traps,
    Trebuchets,
    TwoHandedSword,
    WarMachines,
    Warhammer,
    WeaponHeadsSmithing,
    WeaponSmithing,
    WeaponlessFighting,
    Woodcutting,
    Yoyo,
}

impl Category {
    /// The category's stable position in the canonical `[0, CATALOG_SIZE)` encoding.
    pub open spec fn offset_spec(self) -> int {
        match self {
            Category::AggressiveFighting => 0,
            Category::Alchemy => 1,
            Category::AnimalHusbandry => 2,
            Category::AnimalTaming => 3,
            Category::Archaeology => 4,
            Category::Archery => 5,
            Category::ArmourSmithing => 6,
            Category::Axes => 7,
            Category::Baking => 8,
            Category::Ballistae => 9,
            Category::Beverages => 10,
            Category::Blacksmithing => 11,
            Category::BladesSmithing => 12,
            Category::Body => 13,
            Category::BodyControl => 14,
            Category::BodyStamina => 15,
            Category::BodyStrength => 16,
            Category::Botanizing => 17,
            Category::Bowyery => 18,
            Category::Butchering => 19,
            Category::ButcheringKnife => 20,
            Category::Carpentry => 21,
            Category::CarvingKnife => 22,
            Category::Catapults => 23,
            Category::ChainArmourSmithing => 24,
            Category::Channeling => 25,
            Category::Climbing => 26,
            Category::ClothTailoring => 27,
            Category::CoalMaking => 28,
            Category::Clubs => 29,
            Category::Cooking => 30,
            Category::DairyFoodMaking => 31,
            Category::DefensiveFighting => 32,
            Category::Digging => 33,
            Category::Exorcism => 34,
            Category::Farming => 35,
            Category::Fighting => 36,
            Category::FineCarpentry => 37,
            Category::Firemaking => 38,
            Category::FirstAid => 39,
            Category::Fishing => 40,
            Category::Fletching => 41,
            Category::Foraging => 42,
            Category::Forestry => 43,
            Category::Gardening => 44,
            Category::Halberd => 45,
            Category::Hammer => 46,
            Category::Hammers => 47,
            Category::Hatchet => 48,
            Category::Healing => 49,
            Category::HotFoodCooking => 50,
            Category::HugeAxe => 51,
            Category::HugeClub => 52,
            Category::JewelrySmithing => 53,
            Category::Knives => 54,
            Category::LargeAxe => 55,
            Category::LargeMaul => 56,
            Category::LargeMetalShield => 57,
            Category::LargeWoodenShield => 58,
            Category::Leatherworking => 59,
            Category::LockPicking => 60,
            Category::Locksmithing => 61,
            Category::LongBow => 62,
            Category::LongSpear => 63,
            Category::Longsword => 64,
            Category::Masonry => 65,
            Category::Mauls => 66,
            Category::Meditating => 67,
            Category::MediumBow => 68,
            Category::MediumMaul => 69,
            Category::MediumMetalShield => 70,
            Category::MediumWoodenShield => 71,
            Category::Metallurgy => 72,
            Category::Milking => 73,
            Category::Milling => 74,
            Category::Mind => 75,
            Category::MindLogic => 76,
            Category::MindSpeed => 77,
            Category::Mining => 78,
            Category::MiscItems => 79,
            Category::NaturalSubstances => 80,
            Category::Nature => 81,
            Category::NormalFighting => 82,
            Category::Papyrusmaking => 83,
            Category::Paving => 84,
            Category::Pickaxe => 85,
            Category::PlateArmourSmithing => 86,
            Category::Polearms => 87,
            Category::Pottery => 88,
            Category::Praying => 89,
            Category::Preaching => 90,
            Category::Prospecting => 91,
            Category::Puppeteering => 92,
            Category::Rake => 93,
            Category::Religion => 94,
            Category::Repairing => 95,
            Category::Restoration => 96,
            Category::Ropemaking => 97,
            Category::Saw => 98,
            Category::Scythe => 99,
            Category::ShieldBashing => 100,
            Category::ShieldSmithing => 101,
            Category::Shields => 102,
            Category::ShipBuilding => 103,
            Category::ShortBow => 104,
            Category::Shortsword => 105,
            Category::Shovel => 106,
            Category::Sickle => 107,
            Category::SmallAxe => 108,
            Category::SmallMaul => 109,
            Category::SmallMetalShield => 110,
            Category::SmallWoodenShield => 111,
            Category::Smithing => 112,
            Category::Soul => 113,
            Category::SoulDepth => 114,
            Category::SoulStrength => 115,
            Category::Staff => 116,
            Category::Stealing => 117,
            Category::StoneChisel => 118,
            Category::StoneCutting => 119,
            Category::Swords => 120,
            Category::Tailoring => 121,
            Category::Taunting => 122,
            Category::Thatching => 123,
            Category::Thievery => 124,
            Category::ToyMaking => 125,
            Category::Toys => 126,
            Category::Tracking => 127,
            Category::Traps => 128,
            Category::Trebuchets => 129,
            Category::TwoHandedSword => 130,
            Category::WarMachines => 131,
            Category::Warhammer => 132,
            Category::WeaponHeadsSmithing => 133,
            Category::WeaponSmithing => 134,
            Category::WeaponlessFighting => 135,
            Category::Woodcutting => 136,
            Category::Yoyo => 137,
        }
    }

    /// Returns this category's offset; the encoding is a bijection onto
    /// `[0, CATALOG_SIZE)` (see `lemma_offset_bijective`).
    pub fn offset(self) -> (r: usize)
        ensures
            r == self.offset_spec(),
            r < CATALOG_SIZE,
    {
        match self {
            Category::AggressiveFighting => 0,
            Category::Alchemy => 1,
            Category::AnimalHusbandry => 2,
            Category::AnimalTaming => 3,
            Category::Archaeology => 4,
            Category::Archery => 5,
            Category::ArmourSmithing => 6,
            Category::Axes => 7,
            Category::Baking => 8,
            Category::Ballistae => 9,
            Category::Beverages => 10,
            Category::Blacksmithing => 11,
            Category::BladesSmithing => 12,
            Category::Body => 13,
            Category::BodyControl => 14,
            Category::BodyStamina => 15,
            Category::BodyStrength => 16,
            Category::Botanizing => 17,
            Category::Bowyery => 18,
            Category::Butchering => 19,
            Category::ButcheringKnife => 20,
            Category::Carpentry => 21,
            Category::CarvingKnife => 22,
            Category::Catapults => 23,
            Category::ChainArmourSmithing => 24,
            Category::Channeling => 25,
            Category::Climbing => 26,
            Category::ClothTailoring => 27,
            Category::CoalMaking => 28,
            Category::Clubs => 29,
            Category::Cooking => 30,
            Category::DairyFoodMaking => 31,
            Category::DefensiveFighting => 32,
            Category::Digging => 33,
            Category::Exorcism => 34,
            Category::Farming => 35,
            Category::Fighting => 36,
            Category::FineCarpentry => 37,
            Category::Firemaking => 38,
            Category::FirstAid => 39,
            Category::Fishing => 40,
            Category::Fletching => 41,
            Category::Foraging => 42,
            Category::Forestry => 43,
            Category::Gardening => 44,
            Category::Halberd => 45,
            Category::Hammer => 46,
            Category::Hammers => 47,
            Category::Hatchet => 48,
            Category::Healing => 49,
            Category::HotFoodCooking => 50,
            Category::HugeAxe => 51,
            Category::HugeClub => 52,
            Category::JewelrySmithing => 53,
            Category::Knives => 54,
            Category::LargeAxe => 55,
            Category::LargeMaul => 56,
            Category::LargeMetalShield => 57,
            Category::LargeWoodenShield => 58,
            Category::Leatherworking => 59,
            Category::LockPicking => 60,
            Category::Locksmithing => 61,
            Category::LongBow => 62,
            Category::LongSpear => 63,
            Category::Longsword => 64,
            Category::Masonry => 65,
            Category::Mauls => 66,
            Category::Meditating => 67,
            Category::MediumBow => 68,
            Category::MediumMaul => 69,
            Category::MediumMetalShield => 70,
            Category::MediumWoodenShield => 71,
            Category::Metallurgy => 72,
            Category::Milking => 73,
            Category::Milling => 74,
            Category::Mind => 75,
            Category::MindLogic => 76,
            Category::MindSpeed => 77,
            Category::Mining => 78,
            Category::MiscItems => 79,
            Category::NaturalSubstances => 80,
            Category::Nature => 81,
            Category::NormalFighting => 82,
            Category::Papyrusmaking => 83,
            Category::Paving => 84,
            Category::Pickaxe => 85,
            Category::PlateArmourSmithing => 86,
            Category::Polearms => 87,
            Category::Pottery => 88,
            Category::Praying => 89,
            Category::Preaching => 90,
            Category::Prospecting => 91,
            Category::Puppeteering => 92,
            Category::Rake => 93,
            Category::Religion => 94,
            Category::Repairing => 95,
            Category::Restoration => 96,
            Category::Ropemaking => 97,
            Category::Saw => 98,
            Category::Scythe => 99,
            Category::ShieldBashing => 100,
            Category::ShieldSmithing => 101,
            Category::Shields => 102,
            Category::ShipBuilding => 103,
            Category::ShortBow => 104,
            Category::Shortsword => 105,
            Category::Shovel => 106,
            Category::Sickle => 107,
            Category::SmallAxe => 108,
            Category::SmallMaul => 109,
            Category::SmallMetalShield => 110,
            Category::SmallWoodenShield => 111,
            Category::Smithing => 112,
            Category::Soul => 113,
            Category::SoulDepth => 114,
            Category::SoulStrength => 115,
            Category::Staff => 116,
            Category::Stealing => 117,
            Category::StoneChisel => 118,
            Category::StoneCutting => 119,
            Category::Swords => 120,
            Category::Tailoring => 121,
            Category::Taunting => 122,
            Category::Thatching => 123,
            Category::Thievery => 124,
            Category::ToyMaking => 125,
            Category::Toys => 126,
            Category::Tracking => 127,
            Category::Traps => 128,
            Category::Trebuchets => 129,
            Category::TwoHandedSword => 130,
            Category::WarMachines => 131,
            Category::Warhammer => 132,
            Category::WeaponHeadsSmithing => 133,
            Category::WeaponSmithing => 134,
            Category::WeaponlessFighting => 135,
            Category::Woodcutting => 136,
            Category::Yoyo => 137,
        }
    }

    /// The category's stable display name.
    pub open spec fn name_spec(self) -> Seq<char> {
        match self {
            Category::AggressiveFighting => "AggressiveFighting"@,
            Category::Alchemy => "Alchemy"@,
            Category::AnimalHusbandry => "AnimalHusbandry"@,
            Category::AnimalTaming => "AnimalTaming"@,
            Category::Archaeology => "Archaeology"@,
            Category::Archery => "Archery"@,
            Category::ArmourSmithing => "ArmourSmithing"@,
            Category::Axes => "Axes"@,
            Category::Baking => "Baking"@,
            Category::Ballistae => "Ballistae"@,
            Category::Beverages => "Beverages"@,
            Category::Blacksmithing => "Blacksmithing"@,
            Category::BladesSmithing => "BladesSmithing"@,
            Category::Body => "Body"@,
            Category::BodyControl => "BodyControl"@,
            Category::BodyStamina => "BodyStamina"@,
            Category::BodyStrength => "BodyStrength"@,
            Category::Botanizing => "Botanizing"@,
            Category::Bowyery => "Bowyery"@,
            Category::Butchering => "Butchering"@,
            Category::ButcheringKnife => "ButcheringKnife"@,
            Category::Carpentry => "Carpentry"@,
            Category::CarvingKnife => "CarvingKnife"@,
            Category::Catapults => "Catapults"@,
            Category::ChainArmourSmithing => "ChainArmourSmithing"@,
            Category::Channeling => "Channeling"@,
            Category::Climbing => "Climbing"@,
            Category::ClothTailoring => "ClothTailoring"@,
            Category::CoalMaking => "CoalMaking"@,
            Category::Clubs => "Clubs"@,
            Category::Cooking => "Cooking"@,
            Category::DairyFoodMaking => "DairyFoodMaking"@,
            Category::DefensiveFighting => "DefensiveFighting"@,
            Category::Digging => "Digging"@,
            Category::Exorcism => "Exorcism"@,
            Category::Farming => "Farming"@,
            Category::Fighting => "Fighting"@,
            Category::FineCarpentry => "FineCarpentry"@,
            Category::Firemaking => "Firemaking"@,
            Category::FirstAid => "FirstAid"@,
            Category::Fishing => "Fishing"@,
            Category::Fletching => "Fletching"@,
            Category::Foraging => "Foraging"@,
            Category::Forestry => "Forestry"@,
            Category::Gardening => "Gardening"@,
            Category::Halberd => "Halberd"@,
            Category::Hammer => "Hammer"@,
            Category::Hammers => "Hammers"@,
            Category::Hatchet => "Hatchet"@,
            Category::Healing => "Healing"@,
            Category::HotFoodCooking => "HotFoodCooking"@,
            Category::HugeAxe => "HugeAxe"@,
            Category::HugeClub => "HugeClub"@,
            Category::JewelrySmithing => "JewelrySmithing"@,
            Category::Knives => "Knives"@,
            Category::LargeAxe => "LargeAxe"@,
            Category::LargeMaul => "LargeMaul"@,
            Category::LargeMetalShield => "LargeMetalShield"@,
            Category::LargeWoodenShield => "LargeWoodenShield"@,
            Category::Leatherworking => "Leatherworking"@,
            Category::LockPicking => "LockPicking"@,
            Category::Locksmithing => "Locksmithing"@,
            Category::LongBow => "LongBow"@,
            Category::LongSpear => "LongSpear"@,
            Category::Longsword => "Longsword"@,
            Category::Masonry => "Masonry"@,
            Category::Mauls => "Mauls"@,
            Category::Meditating => "Meditating"@,
            Category::MediumBow => "MediumBow"@,
            Category::MediumMaul => "MediumMaul"@,
            Category::MediumMetalShield => "MediumMetalShield"@,
            Category::MediumWoodenShield => "MediumWoodenShield"@,
            Category::Metallurgy => "Metallurgy"@,
            Category::Milking => "Milking"@,
            Category::Milling => "Milling"@,
            Category::Mind => "Mind"@,
            Category::MindLogic => "MindLogic"@,
            Category::MindSpeed => "MindSpeed"@,
            Category::Mining => "Mining"@,
            Category::MiscItems => "MiscItems"@,
            Category::NaturalSubstances => "NaturalSubstances"@,
            Category::Nature => "Nature"@,
            Category::NormalFighting => "NormalFighting"@,
            Category::Papyrusmaking => "Papyrusmaking"@,
            Category::Paving => "Paving"@,
            Category::Pickaxe => "Pickaxe"@,
            Category::PlateArmourSmithing => "PlateArmourSmithing"@,
            Category::Polearms => "Polearms"@,
            Category::Pottery => "Pottery"@,
            Category::Praying => "Praying"@,
            Category::Preaching => "Preaching"@,
            Category::Prospecting => "Prospecting"@,
            Category::Puppeteering => "Puppeteering"@,
            Category::Rake => "Rake"@,
            Category::Religion => "Religion"@,
            Category::Repairing => "Repairing"@,
            Category::Restoration => "Restoration"@,
            Category::Ropemaking => "Ropemaking"@,
            Category::Saw => "Saw"@,
            Category::Scythe => "Scythe"@,
            Category::ShieldBashing => "ShieldBashing"@,
            Category::ShieldSmithing => "ShieldSmithing"@,
            Category::Shields => "Shields"@,
            Category::ShipBuilding => "ShipBuilding"@,
            Category::ShortBow => "ShortBow"@,
            Category::Shortsword => "Shortsword"@,
            Category::Shovel => "Shovel"@,
            Category::Sickle => "Sickle"@,
            Category::SmallAxe => "SmallAxe"@,
            Category::SmallMaul => "SmallMaul"@,
            Category::SmallMetalShield => "SmallMetalShield"@,
            Category::SmallWoodenShield => "SmallWoodenShield"@,
            Category::Smithing => "Smithing"@,
            Category::Soul => "Soul"@,
            Category::SoulDepth => "SoulDepth"@,
            Category::SoulStrength => "SoulStrength"@,
            Category::Staff => "Staff"@,
            Category::Stealing => "Stealing"@,
            Category::StoneChisel => "StoneChisel"@,
            Category::StoneCutting => "StoneCutting"@,
            Category::Swords => "Swords"@,
            Category::Tailoring => "Tailoring"@,
            Category::Taunting => "Taunting"@,
            Category::Thatching => "Thatching"@,
            Category::Thievery => "Thievery"@,
            Category::ToyMaking => "ToyMaking"@,
            Category::Toys => "Toys"@,
            Category::Tracking => "Tracking"@,
            Category::Traps => "Traps"@,
            Category::Trebuchets => "Trebuchets"@,
            Category::TwoHandedSword => "TwoHandedSword"@,
            Category::WarMachines => "WarMachines"@,
            Category::Warhammer => "Warhammer"@,
            Category::WeaponHeadsSmithing => "WeaponHeadsSmithing"@,
            Category::WeaponSmithing => "WeaponSmithing"@,
            Category::WeaponlessFighting => "WeaponlessFighting"@,
            Category::Woodcutting => "Woodcutting"@,
            Category::Yoyo => "Yoyo"@,
        }
    }

    /// Returns the category's stable display name.
    pub fn name(self) -> (s: &'static str)
        ensures
            s@ == self.name_spec(),
    {
        match self {
            Category::AggressiveFighting => "AggressiveFighting",
            Category::Alchemy => "Alchemy",
            Category::AnimalHusbandry => "AnimalHusbandry",
            Category::AnimalTaming => "AnimalTaming",
            Category::Archaeology => "Archaeology",
            Category::Archery => "Archery",
            Category::ArmourSmithing => "ArmourSmithing",
            Category::Axes => "Axes",
            Category::Baking => "Baking",
            Category::Ballistae => "Ballistae",
            Category::Beverages => "Beverages",
            Category::Blacksmithing => "Blacksmithing",
            Category::BladesSmithing => "BladesSmithing",
            Category::Body => "Body",
            Category::BodyControl => "BodyControl",
            Category::BodyStamina => "BodyStamina",
            Category::BodyStrength => "BodyStrength",
            Category::Botanizing => "Botanizing",
            Category::Bowyery => "Bowyery",
            Category::Butchering => "Butchering",
            Category::ButcheringKnife => "ButcheringKnife",
            Category::Carpentry => "Carpentry",
            Category::CarvingKnife => "CarvingKnife",
            Category::Catapults => "Catapults",
            Category::ChainArmourSmithing => "ChainArmourSmithing",
            Category::Channeling => "Channeling",
            Category::Climbing => "Climbing",
            Category::ClothTailoring => "ClothTailoring",
            Category::CoalMaking => "CoalMaking",
            Category::Clubs => "Clubs",
            Category::Cooking => "Cooking",
            Category::DairyFoodMaking => "DairyFoodMaking",
            Category::DefensiveFighting => "DefensiveFighting",
            Category::Digging => "Digging",
            Category::Exorcism => "Exorcism",
            Category::Farming => "Farming",
            Category::Fighting => "Fighting",
            Category::FineCarpentry => "FineCarpentry",
            Category::Firemaking => "Firemaking",
            Category::FirstAid => "FirstAid",
            Category::Fishing => "Fishing",
            Category::Fletching => "Fletching",
            Category::Foraging => "Foraging",
            Category::Forestry => "Forestry",
            Category::Gardening => "Gardening",
            Category::Halberd => "Halberd",
            Category::Hammer => "Hammer",
            Category::Hammers => "Hammers",
            Category::Hatchet => "Hatchet",
            Category::Healing => "Healing",
            Category::HotFoodCooking => "HotFoodCooking",
            Category::HugeAxe => "HugeAxe",
            Category::HugeClub => "HugeClub",
            Category::JewelrySmithing => "JewelrySmithing",
            Category::Knives => "Knives",
            Category::LargeAxe => "LargeAxe",
            Category::LargeMaul => "LargeMaul",
            Category::LargeMetalShield => "LargeMetalShield",
            Category::LargeWoodenShield => "LargeWoodenShield",
            Category::Leatherworking => "Leatherworking",
            Category::LockPicking => "LockPicking",
            Category::Locksmithing => "Locksmithing",
            Category::LongBow => "LongBow",
            Category::LongSpear => "LongSpear",
            Category::Longsword => "Longsword",
            Category::Masonry => "Masonry",
            Category::Mauls => "Mauls",
            Category::Meditating => "Meditating",
            Category::MediumBow => "MediumBow",
            Category::MediumMaul => "MediumMaul",
            Category::MediumMetalShield => "MediumMetalShield",
            Category::MediumWoodenShield => "MediumWoodenShield",
            Category::Metallurgy => "Metallurgy",
            Category::Milking => "Milking",
            Category::Milling => "Milling",
            Category::Mind => "Mind",
            Category::MindLogic => "MindLogic",
            Category::MindSpeed => "MindSpeed",
            Category::Mining => "Mining",
            Category::MiscItems => "MiscItems",
            Category::NaturalSubstances => "NaturalSubstances",
            Category::Nature => "Nature",
            Category::NormalFighting => "NormalFighting",
            Category::Papyrusmaking => "Papyrusmaking",
            Category::Paving => "Paving",
            Category::Pickaxe => "Pickaxe",
            Category::PlateArmourSmithing => "PlateArmourSmithing",
            Category::Polearms => "Polearms",
            Category::Pottery => "Pottery",
            Category::Praying => "Praying",
            Category::Preaching => "Preaching",
            Category::Prospecting => "Prospecting",
            Category::Puppeteering => "Puppeteering",
            Category::Rake => "Rake",
            Category::Religion => "Religion",
            Category::Repairing => "Repairing",
            Category::Restoration => "Restoration",
            Category::Ropemaking => "Ropemaking",
            Category::Saw => "Saw",
            Category::Scythe => "Scythe",
            Category::ShieldBashing => "ShieldBashing",
            Category::ShieldSmithing => "ShieldSmithing",
            Category::Shields => "Shields",
            Category::ShipBuilding => "ShipBuilding",
            Category::ShortBow => "ShortBow",
            Category::Shortsword => "Shortsword",
            Category::Shovel => "Shovel",
            Category::Sickle => "Sickle",
            Category::SmallAxe => "SmallAxe",
            Category::SmallMaul => "SmallMaul",
            Category::SmallMetalShield => "SmallMetalShield",
            Category::SmallWoodenShield => "SmallWoodenShield",
            Category::Smithing => "Smithing",
            Category::Soul => "Soul",
            Category::SoulDepth => "SoulDepth",
            Category::SoulStrength => "SoulStrength",
            Category::Staff => "Staff",
            Category::Stealing => "Stealing",
            Category::StoneChisel => "StoneChisel",
            Category::StoneCutting => "StoneCutting",
            Category::Swords => "Swords",
            Category::Tailoring => "Tailoring",
            Category::Taunting => "Taunting",
            Category::Thatching => "Thatching",
            Category::Thievery => "Thievery",
            Category::ToyMaking => "ToyMaking",
            Category::Toys => "Toys",
            Category::Tracking => "Tracking",
            Category::Traps => "Traps",
            Category::Trebuchets => "Trebuchets",
            Category::TwoHandedSword => "TwoHandedSword",
            Category::WarMachines => "WarMachines",
            Category::Warhammer => "Warhammer",
            Category::WeaponHeadsSmithing => "WeaponHeadsSmithing",
            Category::WeaponSmithing => "WeaponSmithing",
            Category::WeaponlessFighting => "WeaponlessFighting",
            Category::Woodcutting => "Woodcutting",
            Category::Yoyo => "Yoyo",
        }
    }
}

/// The category standing at a given offset: the inverse of `offset_spec`
/// on `[0, CATALOG_SIZE)`.
pub open spec fn category_at(i: int) -> Category {
    if i == 0 {
        Category::AggressiveFighting
    } else if i == 1 {
        Category::Alchemy
    } else if i == 2 {
        Category::AnimalHusbandry
    } else if i == 3 {
        Category::AnimalTaming
    } else if i == 4 {
        Category::Archaeology
    } else if i == 5 {
        Category::Archery
    } else if i == 6 {
        Category::ArmourSmithing
    } else if i == 7 {
        Category::Axes
    } else if i == 8 {
        Category::Baking
    } else if i == 9 {
        Category::Ballistae
    } else if i == 10 {
        Category::Beverages
    } else if i == 11 {
        Category::Blacksmithing
    } else if i == 12 {
        Category::BladesSmithing
    } else if i == 13 {
        Category::Body
    } else if i == 14 {
        Category::BodyControl
    } else if i == 15 {
        Category::BodyStamina
    } else if i == 16 {
        Category::BodyStrength
    } else if i == 17 {
        Category::Botanizing
    } else if i == 18 {
        Category::Bowyery
    } else if i == 19 {
        Category::Butchering
    } else if i == 20 {
        Category::ButcheringKnife
    } else if i == 21 {
        Category::Carpentry
    } else if i == 22 {
        Category::CarvingKnife
    } else if i == 23 {
        Category::Catapults
    } else if i == 24 {
        Category::ChainArmourSmithing
    } else if i == 25 {
        Category::Channeling
    } else if i == 26 {
        Category::Climbing
    } else if i == 27 {
        Category::ClothTailoring
    } else if i == 28 {
        Category::CoalMaking
    } else if i == 29 {
        Category::Clubs
    } else if i == 30 {
        Category::Cooking
    } else if i == 31 {
        Category::DairyFoodMaking
    } else if i == 32 {
        Category::DefensiveFighting
    } else if i == 33 {
        Category::Digging
    } else if i == 34 {
        Category::Exorcism
    } else if i == 35 {
        Category::Farming
    } else if i == 36 {
        Category::Fighting
    } else if i == 37 {
        Category::FineCarpentry
    } else if i == 38 {
        Category::Firemaking
    } else if i == 39 {
        Category::FirstAid
    } else if i == 40 {
        Category::Fishing
    } else if i == 41 {
        Category::Fletching
    } else if i == 42 {
        Category::Foraging
    } else if i == 43 {
        Category::Forestry
    } else if i == 44 {
        Category::Gardening
    } else if i == 45 {
        Category::Halberd
    } else if i == 46 {
        Category::Hammer
    } else if i == 47 {
        Category::Hammers
    } else if i == 48 {
        Category::Hatchet
    } else if i == 49 {
        Category::Healing
    } else if i == 50 {
        Category::HotFoodCooking
    } else if i == 51 {
        Category::HugeAxe
    } else if i == 52 {
        Category::HugeClub
    } else if i == 53 {
        Category::JewelrySmithing
    } else if i == 54 {
        Category::Knives
    } else if i == 55 {
        Category::LargeAxe
    } else if i == 56 {
        Category::LargeMaul
    } else if i == 57 {
        Category::LargeMetalShield
    } else if i == 58 {
        Category::LargeWoodenShield
    } else if i == 59 {
        Category::Leatherworking
    } else if i == 60 {
        Category::LockPicking
    } else if i == 61 {
        Category::Locksmithing
    } else if i == 62 {
        Category::LongBow
    } else if i == 63 {
        Category::LongSpear
    } else if i == 64 {
        Category::Longsword
    } else if i == 65 {
        Category::Masonry
    } else if i == 66 {
        Category::Mauls
    } else if i == 67 {
        Category::Meditating
    } else if i == 68 {
        Category::MediumBow
    } else if i == 69 {
        Category::MediumMaul
    } else if i == 70 {
        Category::MediumMetalShield
    } else if i == 71 {
        Category::MediumWoodenShield
    } else if i == 72 {
        Category::Metallurgy
    } else if i == 73 {
        Category::Milking
    } else if i == 74 {
        Category::Milling
    } else if i == 75 {
        Category::Mind
    } else if i == 76 {
        Category::MindLogic
    } else if i == 77 {
        Category::MindSpeed
    } else if i == 78 {
        Category::Mining
    } else if i == 79 {
        Category::MiscItems
    } else if i == 80 {
        Category::NaturalSubstances
    } else if i == 81 {
        Category::Nature
    } else if i == 82 {
        Category::NormalFighting
    } else if i == 83 {
        Category::Papyrusmaking
    } else if i == 84 {
        Category::Paving
    } else if i == 85 {
        Category::Pickaxe
    } else if i == 86 {
        Category::PlateArmourSmithing
    } else if i == 87 {
        Category::Polearms
    } else if i == 88 {
        Category::Pottery
    } else if i == 89 {
        Category::Praying
    } else if i == 90 {
        Category::Preaching
    } else if i == 91 {
        Category::Prospecting
    } else if i == 92 {
        Category::Puppeteering
    } else if i == 93 {
        Category::Rake
    } else if i == 94 {
        Category::Religion
    } else if i == 95 {
        Category::Repairing
    } else if i == 96 {
        Category::Restoration
    } else if i == 97 {
        Category::Ropemaking
    } else if i == 98 {
        Category::Saw
    } else if i == 99 {
        Category::Scythe
    } else if i == 100 {
        Category::ShieldBashing
    } else if i == 101 {
        Category::ShieldSmithing
    } else if i == 102 {
        Category::Shields
    } else if i == 103 {
        Category::ShipBuilding
    } else if i == 104 {
        Category::ShortBow
    } else if i == 105 {
        Category::Shortsword
    } else if i == 106 {
        Category::Shovel
    } else if i == 107 {
        Category::Sickle
    } else if i == 108 {
        Category::SmallAxe
    } else if i == 109 {
        Category::SmallMaul
    } else if i == 110 {
        Category::SmallMetalShield
    } else if i == 111 {
        Category::SmallWoodenShield
    } else if i == 112 {
        Category::Smithing
    } else if i == 113 {
        Category::Soul
    } else if i == 114 {
        Category::SoulDepth
    } else if i == 115 {
        Category::SoulStrength
    } else if i == 116 {
        Category::Staff
    } else if i == 117 {
        Category::Stealing
    } else if i == 118 {
        Category::StoneChisel
    } else if i == 119 {
        Category::StoneCutting
    } else if i == 120 {
        Category::Swords
    } else if i == 121 {
        Category::Tailoring
    } else if i == 122 {
        Category::Taunting
    } else if i == 123 {
        Category::Thatching
    } else if i == 124 {
        Category::Thievery
    } else if i == 125 {
        Category::ToyMaking
    } else if i == 126 {
        Category::Toys
    } else if i == 127 {
        Category::Tracking
    } else if i == 128 {
        Category::Traps
    } else if i == 129 {
        Category::Trebuchets
    } else if i == 130 {
        Category::TwoHandedSword
    } else if i == 131 {
        Category::WarMachines
    } else if i == 132 {
        Category::Warhammer
    } else if i == 133 {
        Category::WeaponHeadsSmithing
    } else if i == 134 {
        Category::WeaponSmithing
    } else if i == 135 {
        Category::WeaponlessFighting
    } else if i == 136 {
        Category::Woodcutting
    } else {
        Category::Yoyo
    }
}

/// Returns the category standing at offset `i`.
pub fn category_from_offset(i: usize) -> (c: Category)
    requires
        i < CATALOG_SIZE,
    ensures
        c == category_at(i as int),
        c.offset_spec() == i,
{
    match i {
        0 => Category::AggressiveFighting,
        1 => Category::Alchemy,
        2 => Category::AnimalHusbandry,
        3 => Category::AnimalTaming,
        4 => Category::Archaeology,
        5 => Category::Archery,
        6 => Category::ArmourSmithing,
        7 => Category::Axes,
        8 => Category::Baking,
        9 => Category::Ballistae,
        10 => Category::Beverages,
        11 => Category::Blacksmithing,
        12 => Category::BladesSmithing,
        13 => Category::Body,
        14 => Category::BodyControl,
        15 => Category::BodyStamina,
        16 => Category::BodyStrength,
        17 => Category::Botanizing,
        18 => Category::Bowyery,
        19 => Category::Butchering,
        20 => Category::ButcheringKnife,
        21 => Category::Carpentry,
        22 => Category::CarvingKnife,
        23 => Category::Catapults,
        24 => Category::ChainArmourSmithing,
        25 => Category::Channeling,
        26 => Category::Climbing,
        27 => Category::ClothTailoring,
        28 => Category::CoalMaking,
        29 => Category::Clubs,
        30 => Category::Cooking,
        31 => Category::DairyFoodMaking,
        32 => Category::DefensiveFighting,
        33 => Category::Digging,
        34 => Category::Exorcism,
        35 => Category::Farming,
        36 => Category::Fighting,
        37 => Category::FineCarpentry,
        38 => Category::Firemaking,
        39 => Category::FirstAid,
        40 => Category::Fishing,
        41 => Category::Fletching,
        42 => Category::Foraging,
        43 => Category::Forestry,
        44 => Category::Gardening,
        45 => Category::Halberd,
        46 => Category::Hammer,
        47 => Category::Hammers,
        48 => Category::Hatchet,
        49 => Category::Healing,
        50 => Category::HotFoodCooking,
        51 => Category::HugeAxe,
        52 => Category::HugeClub,
        53 => Category::JewelrySmithing,
        54 => Category::Knives,
        55 => Category::LargeAxe,
        56 => Category::LargeMaul,
        57 => Category::LargeMetalShield,
        58 => Category::LargeWoodenShield,
        59 => Category::Leatherworking,
        60 => Category::LockPicking,
        61 => Category::Locksmithing,
        62 => Category::LongBow,
        63 => Category::LongSpear,
        64 => Category::Longsword,
        65 => Category::Masonry,
        66 => Category::Mauls,
        67 => Category::Meditating,
        68 => Category::MediumBow,
        69 => Category::MediumMaul,
        70 => Category::MediumMetalShield,
        71 => Category::MediumWoodenShield,
        72 => Category::Metallurgy,
        73 => Category::Milking,
        74 => Category::Milling,
        75 => Category::Mind,
        76 => Category::MindLogic,
        77 => Category::MindSpeed,
        78 => Category::Mining,
        79 => Category::MiscItems,
        80 => Category::NaturalSubstances,
        81 => Category::Nature,
        82 => Category::NormalFighting,
        83 => Category::Papyrusmaking,
        84 => Category::Paving,
        85 => Category::Pickaxe,
        86 => Category::PlateArmourSmithing,
        87 => Category::Polearms,
        88 => Category::Pottery,
        89 => Category::Praying,
        90 => Category::Preaching,
        91 => Category::Prospecting,
        92 => Category::Puppeteering,
        93 => Category::Rake,
        94 => Category::Religion,
        95 => Category::Repairing,
        96 => Category::Restoration,
        97 => Category::Ropemaking,
        98 => Category::Saw,
        99 => Category::Scythe,
        100 => Category::ShieldBashing,
        101 => Category::ShieldSmithing,
        102 => Category::Shields,
        103 => Category::ShipBuilding,
        104 => Category::ShortBow,
        105 => Category::Shortsword,
        106 => Category::Shovel,
        107 => Category::Sickle,
        108 => Category::SmallAxe,
        109 => Category::SmallMaul,
        110 => Category::SmallMetalShield,
        111 => Category::SmallWoodenShield,
        112 => Category::Smithing,
        113 => Category::Soul,
        114 => Category::SoulDepth,
        115 => Category::SoulStrength,
        116 => Category::Staff,
        117 => Category::Stealing,
        118 => Category::StoneChisel,
        119 => Category::StoneCutting,
        120 => Category::Swords,
        121 => Category::Tailoring,
        122 => Category::Taunting,
        123 => Category::Thatching,
        124 => Category::Thievery,
        125 => Category::ToyMaking,
        126 => Category::Toys,
        127 => Category::Tracking,
        128 => Category::Traps,
        129 => Category::Trebuchets,
        130 => Category::TwoHandedSword,
        131 => Category::WarMachines,
        132 => Category::Warhammer,
        133 => Category::WeaponHeadsSmithing,
        134 => Category::WeaponSmithing,
        135 => Category::WeaponlessFighting,
        136 => Category::Woodcutting,
        _ => Category::Yoyo,
    }
}

/// Every category is recovered from its own offset: `category_at` inverts
/// `offset_spec`, and the offset lies inside `[0, CATALOG_SIZE)`.
proof fn lemma_category_roundtrip(c: Category)
    ensures
        category_at(c.offset_spec()) == c,
        0 <= c.offset_spec() < CATALOG_SIZE as int,
{
    match c {
        Category::AggressiveFighting => assert(category_at(0) == Category::AggressiveFighting),
        Category::Alchemy => assert(category_at(1) == Category::Alchemy),
        Category::AnimalHusbandry => assert(category_at(2) == Category::AnimalHusbandry),
        Category::AnimalTaming => assert(category_at(3) == Category::AnimalTaming),
        Category::Archaeology => assert(category_at(4) == Category::Archaeology),
        Category::Archery => assert(category_at(5) == Category::Archery),
        Category::ArmourSmithing => assert(category_at(6) == Category::ArmourSmithing),
        Category::Axes => assert(category_at(7) == Category::Axes),
        Category::Baking => assert(category_at(8) == Category::Baking),
        Category::Ballistae => assert(category_at(9) == Category::Ballistae),
        Category::Beverages => assert(category_at(10) == Category::Beverages),
        Category::Blacksmithing => assert(category_at(11) == Category::Blacksmithing),
        Category::BladesSmithing => assert(category_at(12) == Category::BladesSmithing),
        Category::Body => assert(category_at(13) == Category::Body),
        Category::BodyControl => assert(category_at(14) == Category::BodyControl),
        Category::BodyStamina => assert(category_at(15) == Category::BodyStamina),
        Category::BodyStrength => assert(category_at(16) == Category::BodyStrength),
        Category::Botanizing => assert(category_at(17) == Category::Botanizing),
        Category::Bowyery => assert(category_at(18) == Category::Bowyery),
        Category::Butchering => assert(category_at(19) == Category::Butchering),
        Category::ButcheringKnife => assert(category_at(20) == Category::ButcheringKnife),
        Category::Carpentry => assert(category_at(21) == Category::Carpentry),
        Category::CarvingKnife => assert(category_at(22) == Category::CarvingKnife),
        Category::Catapults => assert(category_at(23) == Category::Catapults),
        Category::ChainArmourSmithing => assert(category_at(24) == Category::ChainArmourSmithing),
        Category::Channeling => assert(category_at(25) == Category::Channeling),
        Category::Climbing => assert(category_at(26) == Category::Climbing),
        Category::ClothTailoring => assert(category_at(27) == Category::ClothTailoring),
        Category::CoalMaking => assert(category_at(28) == Category::CoalMaking),
        Category::Clubs => assert(category_at(29) == Category::Clubs),
        Category::Cooking => assert(category_at(30) == Category::Cooking),
        Category::DairyFoodMaking => assert(category_at(31) == Category::DairyFoodMaking),
        Category::DefensiveFighting => assert(category_at(32) == Category::DefensiveFighting),
        Category::Digging => assert(category_at(33) == Category::Digging),
        Category::Exorcism => assert(category_at(34) == Category::Exorcism),
        Category::Farming => assert(category_at(35) == Category::Farming),
        Category::Fighting => assert(category_at(36) == Category::Fighting),
        Category::FineCarpentry => assert(category_at(37) == Category::FineCarpentry),
        Category::Firemaking => assert(category_at(38) == Category::Firemaking),
        Category::FirstAid => assert(category_at(39) == Category::FirstAid),
        Category::Fishing => assert(category_at(40) == Category::Fishing),
        Category::Fletching => assert(category_at(41) == Category::Fletching),
        Category::Foraging => assert(category_at(42) == Category::Foraging),
        Category::Forestry => assert(category_at(43) == Category::Forestry),
        Category::Gardening => assert(category_at(44) == Category::Gardening),
        Category::Halberd => assert(category_at(45) == Category::Halberd),
        Category::Hammer => assert(category_at(46) == Category::Hammer),
        Category::Hammers => assert(category_at(47) == Category::Hammers),
        Category::Hatchet => assert(category_at(48) == Category::Hatchet),
        Category::Healing => assert(category_at(49) == Category::Healing),
        Category::HotFoodCooking => assert(category_at(50) == Category::HotFoodCooking),
        Category::HugeAxe => assert(category_at(51) == Category::HugeAxe),
        Category::HugeClub => assert(category_at(52) == Category::HugeClub),
        Category::JewelrySmithing => assert(category_at(53) == Category::JewelrySmithing),
        Category::Knives => assert(category_at(54) == Category::Knives),
        Category::LargeAxe => assert(category_at(55) == Category::LargeAxe),
        Category::LargeMaul => assert(category_at(56) == Category::LargeMaul),
        Category::LargeMetalShield => assert(category_at(57) == Category::LargeMetalShield),
        Category::LargeWoodenShield => assert(category_at(58) == Category::LargeWoodenShield),
        Category::Leatherworking => assert(category_at(59) == Category::Leatherworking),
        Category::LockPicking => assert(category_at(60) == Category::LockPicking),
        Category::Locksmithing => assert(category_at(61) == Category::Locksmithing),
        Category::LongBow => assert(category_at(62) == Category::LongBow),
        Category::LongSpear => assert(category_at(63) == Category::LongSpear),
        Category::Longsword => assert(category_at(64) == Category::Longsword),
        Category::Masonry => assert(category_at(65) == Category::Masonry),
        Category::Mauls => assert(category_at(66) == Category::Mauls),
        Category::Meditating => assert(category_at(67) == Category::Meditating),
        Category::MediumBow => assert(category_at(68) == Category::MediumBow),
        Category::MediumMaul => assert(category_at(69) == Category::MediumMaul),
        Category::MediumMetalShield => assert(category_at(70) == Category::MediumMetalShield),
        Category::MediumWoodenShield => assert(category_at(71) == Category::MediumWoodenShield),
        Category::Metallurgy => assert(category_at(72) == Category::Metallurgy),
        Category::Milking => assert(category_at(73) == Category::Milking),
        Category::Milling => assert(category_at(74) == Category::Milling),
        Category::Mind => assert(category_at(75) == Category::Mind),
        Category::MindLogic => assert(category_at(76) == Category::MindLogic),
        Category::MindSpeed => assert(category_at(77) == Category::MindSpeed),
        Category::Mining => assert(category_at(78) == Category::Mining),
        Category::MiscItems => assert(category_at(79) == Category::MiscItems),
        Category::NaturalSubstances => assert(category_at(80) == Category::NaturalSubstances),
        Category::Nature => assert(category_at(81) == Category::Nature),
        Category::NormalFighting => assert(category_at(82) == Category::NormalFighting),
        Category::Papyrusmaking => assert(category_at(83) == Category::Papyrusmaking),
        Category::Paving => assert(category_at(84) == Category::Paving),
        Category::Pickaxe => assert(category_at(85) == Category::Pickaxe),
        Category::PlateArmourSmithing => assert(category_at(86) == Category::PlateArmourSmithing),
        Category::Polearms => assert(category_at(87) == Category::Polearms),
        Category::Pottery => assert(category_at(88) == Category::Pottery),
        Category::Praying => assert(category_at(89) == Category::Praying),
        Category::Preaching => assert(category_at(90) == Category::Preaching),
        Category::Prospecting => assert(category_at(91) == Category::Prospecting),
        Category::Puppeteering => assert(category_at(92) == Category::Puppeteering),
        Category::Rake => assert(category_at(93) == Category::Rake),
        Category::Religion => assert(category_at(94) == Category::Religion),
        Category::Repairing => assert(category_at(95) == Category::Repairing),
        Category::Restoration => assert(category_at(96) == Category::Restoration),
        Category::Ropemaking => assert(category_at(97) == Category::Ropemaking),
        Category::Saw => assert(category_at(98) == Category::Saw),
        Category::Scythe => assert(category_at(99) == Category::Scythe),
        Category::ShieldBashing => assert(category_at(100) == Category::ShieldBashing),
        Category::ShieldSmithing => assert(category_at(101) == Category::ShieldSmithing),
        Category::Shields => assert(category_at(102) == Category::Shields),
        Category::ShipBuilding => assert(category_at(103) == Category::ShipBuilding),
        Category::ShortBow => assert(category_at(104) == Category::ShortBow),
        Category::Shortsword => assert(category_at(105) == Category::Shortsword),
        Category::Shovel => assert(category_at(106) == Category::Shovel),
        Category::Sickle => assert(category_at(107) == Category::Sickle),
        Category::SmallAxe => assert(category_at(108) == Category::SmallAxe),
        Category::SmallMaul => assert(category_at(109) == Category::SmallMaul),
        Category::SmallMetalShield => assert(category_at(110) == Category::SmallMetalShield),
        Category::SmallWoodenShield => assert(category_at(111) == Category::SmallWoodenShield),
        Category::Smithing => assert(category_at(112) == Category::Smithing),
        Category::Soul => assert(category_at(113) == Category::Soul),
        Category::SoulDepth => assert(category_at(114) == Category::SoulDepth),
        Category::SoulStrength => assert(category_at(115) == Category::SoulStrength),
        Category::Staff => assert(category_at(116) == Category::Staff),
        Category::Stealing => assert(category_at(117) == Category::Stealing),
        Category::StoneChisel => assert(category_at(118) == Category::StoneChisel),
        Category::StoneCutting => assert(category_at(119) == Category::StoneCutting),
        Category::Swords => assert(category_at(120) == Category::Swords),
        Category::Tailoring => assert(category_at(121) == Category::Tailoring),
        Category::Taunting => assert(category_at(122) == Category::Taunting),
        Category::Thatching => assert(category_at(123) == Category::Thatching),
        Category::Thievery => assert(category_at(124) == Category::Thievery),
        Category::ToyMaking => assert(category_at(125) == Category::ToyMaking),
        Category::Toys => assert(category_at(126) == Category::Toys),
        Category::Tracking => assert(category_at(127) == Category::Tracking),
        Category::Traps => assert(category_at(128) == Category::Traps),
        Category::Trebuchets => assert(category_at(129) == Category::Trebuchets),
        Category::TwoHandedSword => assert(category_at(130) == Category::TwoHandedSword),
        Category::WarMachines => assert(category_at(131) == Category::WarMachines),
        Category::Warhammer => assert(category_at(132) == Category::Warhammer),
        Category::WeaponHeadsSmithing => assert(category_at(133) == Category::WeaponHeadsSmithing),
        Category::WeaponSmithing => assert(category_at(134) == Category::WeaponSmithing),
        Category::WeaponlessFighting => assert(category_at(135) == Category::WeaponlessFighting),
        Category::Woodcutting => assert(category_at(136) == Category::Woodcutting),
        Category::Yoyo => assert(category_at(137) == Category::Yoyo),
    }
}

/// The category standing at offset `i` has offset `i`.
#[verifier::rlimit(100)]
#[verifier::spinoff_prover]
proof fn lemma_at_offset(i: int)
    requires
        0 <= i < CATALOG_SIZE as int,
    ensures
        category_at(i).offset_spec() == i,
{
    if i == 0 {
        assert(category_at(0) == Category::AggressiveFighting);
    } else if i == 1 {
        assert(category_at(1) == Category::Alchemy);
    } else if i == 2 {
        assert(category_at(2) == Category::AnimalHusbandry);
    } else if i == 3 {
        assert(category_at(3) == Category::AnimalTaming);
    } else if i == 4 {
        assert(category_at(4) == Category::Archaeology);
    } else if i == 5 {
        assert(category_at(5) == Category::Archery);
    } else if i == 6 {
        assert(category_at(6) == Category::ArmourSmithing);
    } else if i == 7 {
        assert(category_at(7) == Category::Axes);
    } else if i == 8 {
        assert(category_at(8) == Category::Baking);
    } else if i == 9 {
        assert(category_at(9) == Category::Ballistae);
    } else if i == 10 {
        assert(category_at(10) == Category::Beverages);
    } else if i == 11 {
        assert(category_at(11) == Category::Blacksmithing);
    } else if i == 12 {
        assert(category_at(12) == Category::BladesSmithing);
    } else if i == 13 {
        assert(category_at(13) == Category::Body);
    } else if i == 14 {
        assert(category_at(14) == Category::BodyControl);
    } else if i == 15 {
        assert(category_at(15) == Category::BodyStamina);
    } else if i == 16 {
        assert(category_at(16) == Category::BodyStrength);
    } else if i == 17 {
        assert(category_at(17) == Category::Botanizing);
    } else if i == 18 {
        assert(category_at(18) == Category::Bowyery);
    } else if i == 19 {
        assert(category_at(19) == Category::Butchering);
    } else if i == 20 {
        assert(category_at(20) == Category::ButcheringKnife);
    } else if i == 21 {
        assert(category_at(21) == Category::Carpentry);
    } else if i == 22 {
        assert(category_at(22) == Category::CarvingKnife);
    } else if i == 23 {
        assert(category_at(23) == Category::Catapults);
    } else if i == 24 {
        assert(category_at(24) == Category::ChainArmourSmithing);
    } else if i == 25 {
        assert(category_at(25) == Category::Channeling);
    } else if i == 26 {
        assert(category_at(26) == Category::Climbing);
    } else if i == 27 {
        assert(category_at(27) == Category::ClothTailoring);
    } else if i == 28 {
        assert(category_at(28) == Category::CoalMaking);
    } else if i == 29 {
        assert(category_at(29) == Category::Clubs);
    } else if i == 30 {
        assert(category_at(30) == Category::Cooking);
    } else if i == 31 {
        assert(category_at(31) == Category::DairyFoodMaking);
    } else if i == 32 {
        assert(category_at(32) == Category::DefensiveFighting);
    } else if i == 33 {
        assert(category_at(33) == Category::Digging);
    } else if i == 34 {
        assert(category_at(34) == Category::Exorcism);
    } else if i == 35 {
        assert(category_at(35) == Category::Farming);
    } else if i == 36 {
        assert(category_at(36) == Category::Fighting);
    } else if i == 37 {
        assert(category_at(37) == Category::FineCarpentry);
    } else if i == 38 {
        assert(category_at(38) == Category::Firemaking);
    } else if i == 39 {
        assert(category_at(39) == Category::FirstAid);
    } else if i == 40 {
        assert(category_at(40) == Category::Fishing);
    } else if i == 41 {
        assert(category_at(41) == Category::Fletching);
    } else if i == 42 {
        assert(category_at(42) == Category::Foraging);
    } else if i == 43 {
        assert(category_at(43) == Category::Forestry);
    } else if i == 44 {
        assert(category_at(44) == Category::Gardening);
    } else if i == 45 {
        assert(category_at(45) == Category::Halberd);
    } else if i == 46 {
        assert(category_at(46) == Category::Hammer);
    } else if i == 47 {
        assert(category_at(47) == Category::Hammers);
    } else if i == 48 {
        assert(category_at(48) == Category::Hatchet);
    } else if i == 49 {
        assert(category_at(49) == Category::Healing);
    } else if i == 50 {
        assert(category_at(50) == Category::HotFoodCooking);
    } else if i == 51 {
        assert(category_at(51) == Category::HugeAxe);
    } else if i == 52 {
        assert(category_at(52) == Category::HugeClub);
    } else if i == 53 {
        assert(category_at(53) == Category::JewelrySmithing);
    } else if i == 54 {
        assert(category_at(54) == Category::Knives);
    } else if i == 55 {
        assert(category_at(55) == Category::LargeAxe);
    } else if i == 56 {
        assert(category_at(56) == Category::LargeMaul);
    } else if i == 57 {
        assert(category_at(57) == Category::LargeMetalShield);
    } else if i == 58 {
        assert(category_at(58) == Category::LargeWoodenShield);
    } else if i == 59 {
        assert(category_at(59) == Category::Leatherworking);
    } else if i == 60 {
        assert(category_at(60) == Category::LockPicking);
    } else if i == 61 {
        assert(category_at(61) == Category::Locksmithing);
    } else if i == 62 {
        assert(category_at(62) == Category::LongBow);
    } else if i == 63 {
        assert(category_at(63) == Category::LongSpear);
    } else if i == 64 {
        assert(category_at(64) == Category::Longsword);
    } else if i == 65 {
        assert(category_at(65) == Category::Masonry);
    } else if i == 66 {
        assert(category_at(66) == Category::Mauls);
    } else if i == 67 {
        assert(category_at(67) == Category::Meditating);
    } else if i == 68 {
        assert(category_at(68) == Category::MediumBow);
    } else if i == 69 {
        assert(category_at(69) == Category::MediumMaul);
    } else if i == 70 {
        assert(category_at(70) == Category::MediumMetalShield);
    } else if i == 71 {
        assert(category_at(71) == Category::MediumWoodenShield);
    } else if i == 72 {
        assert(category_at(72) == Category::Metallurgy);
    } else if i == 73 {
        assert(category_at(73) == Category::Milking);
    } else if i == 74 {
        assert(category_at(74) == Category::Milling);
    } else if i == 75 {
        assert(category_at(75) == Category::Mind);
    } else if i == 76 {
        assert(category_at(76) == Category::MindLogic);
    } else if i == 77 {
        assert(category_at(77) == Category::MindSpeed);
    } else if i == 78 {
        assert(category_at(78) == Category::Mining);
    } else if i == 79 {
        assert(category_at(79) == Category::MiscItems);
    } else if i == 80 {
        assert(category_at(80) == Category::NaturalSubstances);
    } else if i == 81 {
        assert(category_at(81) == Category::Nature);
    } else if i == 82 {
        assert(category_at(82) == Category::NormalFighting);
    } else if i == 83 {
        assert(category_at(83) == Category::Papyrusmaking);
    } else if i == 84 {
        assert(category_at(84) == Category::Paving);
    } else if i == 85 {
        assert(category_at(85) == Category::Pickaxe);
    } else if i == 86 {
        assert(category_at(86) == Category::PlateArmourSmithing);
    } else if i == 87 {
        assert(category_at(87) == Category::Polearms);
    } else if i == 88 {
        assert(category_at(88) == Category::Pottery);
    } else if i == 89 {
        assert(category_at(89) == Category::Praying);
    } else if i == 90 {
        assert(category_at(90) == Category::Preaching);
    } else if i == 91 {
        assert(category_at(91) == Category::Prospecting);
    } else if i == 92 {
        assert(category_at(92) == Category::Puppeteering);
    } else if i == 93 {
        assert(category_at(93) == Category::Rake);
    } else if i == 94 {
        assert(category_at(94) == Category::Religion);
    } else if i == 95 {
        assert(category_at(95) == Category::Repairing);
    } else if i == 96 {
        assert(category_at(96) == Category::Restoration);
    } else if i == 97 {
        assert(category_at(97) == Category::Ropemaking);
    } else if i == 98 {
        assert(category_at(98) == Category::Saw);
    } else if i == 99 {
        assert(category_at(99) == Category::Scythe);
    } else if i == 100 {
        assert(category_at(100) == Category::ShieldBashing);
    } else if i == 101 {
        assert(category_at(101) == Category::ShieldSmithing);
    } else if i == 102 {
        assert(category_at(102) == Category::Shields);
    } else if i == 103 {
        assert(category_at(103) == Category::ShipBuilding);
    } else if i == 104 {
        assert(category_at(104) == Category::ShortBow);
    } else if i == 105 {
        assert(category_at(105) == Category::Shortsword);
    } else if i == 106 {
        assert(category_at(106) == Category::Shovel);
    } else if i == 107 {
        assert(category_at(107) == Category::Sickle);
    } else if i == 108 {
        assert(category_at(108) == Category::SmallAxe);
    } else if i == 109 {
        assert(category_at(109) == Category::SmallMaul);
    } else if i == 110 {
        assert(category_at(110) == Category::SmallMetalShield);
    } else if i == 111 {
        assert(category_at(111) == Category::SmallWoodenShield);
    } else if i == 112 {
        assert(category_at(112) == Category::Smithing);
    } else if i == 113 {
        assert(category_at(113) == Category::Soul);
    } else if i == 114 {
        assert(category_at(114) == Category::SoulDepth);
    } else if i == 115 {
        assert(category_at(115) == Category::SoulStrength);
    } else if i == 116 {
        assert(category_at(116) == Category::Staff);
    } else if i == 117 {
        assert(category_at(117) == Category::Stealing);
    } else if i == 118 {
        assert(category_at(118) == Category::StoneChisel);
    } else if i == 119 {
        assert(category_at(119) == Category::StoneCutting);
    } else if i == 120 {
        assert(category_at(120) == Category::Swords);
    } else if i == 121 {
        assert(category_at(121) == Category::Tailoring);
    } else if i == 122 {
        assert(category_at(122) == Category::Taunting);
    } else if i == 123 {
        assert(category_at(123) == Category::Thatching);
    } else if i == 124 {
        assert(category_at(124) == Category::Thievery);
    } else if i == 125 {
        assert(category_at(125) == Category::ToyMaking);
    } else if i == 126 {
        assert(category_at(126) == Category::Toys);
    } else if i == 127 {
        assert(category_at(127) == Category::Tracking);
    } else if i == 128 {
        assert(category_at(128) == Category::Traps);
    } else if i == 129 {
        assert(category_at(129) == Category::Trebuchets);
    } else if i == 130 {
        assert(category_at(130) == Category::TwoHandedSword);
    } else if i == 131 {
        assert(category_at(131) == Category::WarMachines);
    } else if i == 132 {
        assert(category_at(132) == Category::Warhammer);
    } else if i == 133 {
        assert(category_at(133) == Category::WeaponHeadsSmithing);
    } else if i == 134 {
        assert(category_at(134) == Category::WeaponSmithing);
    } else if i == 135 {
        assert(category_at(135) == Category::WeaponlessFighting);
    } else if i == 136 {
        assert(category_at(136) == Category::Woodcutting);
    } else {
        assert(category_at(i) == Category::Yoyo);
    }
}

/// Law: `offset_spec` is a total bijection between the catalog and
/// `[0, CATALOG_SIZE)` -- every offset lies in range, no two categories
/// share an offset, and every value in range is some category's offset.
pub proof fn lemma_offset_bijective()
    ensures
        forall|c: Category| 0 <= #[trigger] c.offset_spec() < CATALOG_SIZE as int,
        forall|c1: Category, c2: Category|
            c1.offset_spec() == c2.offset_spec() ==> c1 == c2,
        forall|i: int|
            0 <= i < CATALOG_SIZE as int ==> #[trigger] category_at(i).offset_spec() == i,
{
    assert forall|c: Category| 0 <= #[trigger] c.offset_spec() < CATALOG_SIZE as int by {
        lemma_category_roundtrip(c);
    }
    assert forall|c1: Category, c2: Category|
        c1.offset_spec() == c2.offset_spec() implies c1 == c2 by {
        lemma_category_roundtrip(c1);
        lemma_category_roundtrip(c2);
    }
    assert forall|i: int|
        0 <= i < CATALOG_SIZE as int implies #[trigger] category_at(i).offset_spec() == i by {
        lemma_at_offset(i);
    }
}

/// Returns the whole catalog, ordered by offset: entry `i` is the category
/// whose offset is `i`.
pub fn all_categories() -> (v: Vec<Category>)
    ensures
        v.len() == CATALOG_SIZE,
        forall|i: int| 0 <= i < v.len() ==> #[trigger] v[i] == category_at(i),
        forall|i: int| 0 <= i < v.len() ==> #[trigger] v[i].offset_spec() == i,
{
    let mut v: Vec<Category> = Vec::new();
    let mut i: usize = 0;
    while i < CATALOG_SIZE
        invariant
            i <= CATALOG_SIZE,
            v.len() == i,
            forall|j: int| 0 <= j < i ==> #[trigger] v[j] == category_at(j),
            forall|j: int| 0 <= j < i ==> #[trigger] v[j].offset_spec() == j,
        decreases CATALOG_SIZE - i,
    {
        let c = category_from_offset(i);
        v.push(c);
        i = i + 1;
    }
    v
}

} // verus!
