use vstd::prelude::*;

verus! {

/// Every distinct item identity the game can hand out, including the
/// synthetic pseudo-items that stand for one-time events such as opening a
/// gate. The names double as the wire tokens of the registry.
#[derive(Clone, Copy, Debug, PartialEq, Eq, Structural)]
pub enum Item {
    Bow01,
    Bow02,
    Boomerang01,
    Boomerang02,
    Hookshot01,
    Hookshot02,
    Bombs01,
    Bombs02,
    FireRod01,
    FireRod02,
    IceRod01,
    IceRod02,
    Hammer01,
    Hammer02,
    SandRod01,
    SandRod02,
    TornadoRod01,
    TornadoRod02,
    Bell,
    StaminaScroll,
    BowOfLight,
    PegasusBoots,
    Flippers,
    RaviosBracelet01,
    RaviosBracelet02,
    HylianShield,
    SmoothGem,
    LetterInABottle,
    PremiumMilk,
    Pouch,
    BeeBadge,
    HintGlasses,
    RupeeGreen,
    RupeeBlue,
    RupeeRed,
    RupeePurple01,
    RupeePurple02,
    RupeePurple03,
    RupeePurple04,
    RupeePurple05,
    RupeePurple06,
    RupeePurple07,
    RupeePurple08,
    RupeePurple09,
    RupeePurple10,
    RupeePurple11,
    RupeePurple12,
    RupeePurple13,
    RupeePurple14,
    RupeePurple15,
    RupeePurple16,
    RupeePurple17,
    RupeePurple18,
    RupeeSilver01,
    RupeeSilver02,
    RupeeSilver03,
    RupeeSilver04,
    RupeeSilver05,
    RupeeSilver06,
    RupeeSilver07,
    RupeeSilver08,
    RupeeSilver09,
    RupeeSilver10,
    RupeeSilver11,
    RupeeSilver12,
    RupeeSilver13,
    RupeeSilver14,
    RupeeSilver15,
    RupeeSilver16,
    RupeeSilver17,
    RupeeSilver18,
    RupeeSilver19,
    RupeeSilver20,
    RupeeSilver21,
    RupeeSilver22,
    RupeeSilver23,
    RupeeSilver24,
    RupeeSilver25,
    RupeeSilver26,
    RupeeSilver27,
    RupeeSilver28,
    RupeeSilver29,
    RupeeSilver30,
    RupeeSilver31,
    RupeeSilver32,
    RupeeSilver33,
    RupeeSilver34,
    RupeeSilver35,
    RupeeSilver36,
    RupeeSilver37,
    RupeeSilver38,
    RupeeGold01,
    RupeeGold02,
    RupeeGold03,
    RupeeGold04,
    RupeeGold05,
    RupeeGold06,
    RupeeGold07,
    RupeeGold08,
    MonsterGuts,
    MonsterHorn,
    MonsterTail,
    HeartPiece01,
    HeartPiece02,
    HeartPiece03,
    HeartPiece04,
    HeartPiece05,
    HeartPiece06,
    HeartPiece07,
    HeartPiece08,
    HeartPiece09,
    HeartPiece10,
    HeartPiece11,
    HeartPiece12,
    HeartPiece13,
    HeartPiece14,
    HeartPiece15,
    HeartPiece16,
    HeartPiece17,
    HeartPiece18,
    HeartPiece19,
    HeartPiece20,
    HeartPiece21,
    HeartPiece22,
    HeartPiece23,
    HeartPiece24,
    HeartPiece25,
    HeartPiece26,
    HeartPiece27,
    HeartContainer01,
    HeartContainer02,
    HeartContainer03,
    HeartContainer04,
    HeartContainer05,
    HeartContainer06,
    HeartContainer07,
    HeartContainer08,
    HeartContainer09,
    HeartContainer10,
    Bottle01,
    Bottle02,
    Bottle03,
    Bottle04,
    Bottle05,
    Lamp01,
    Lamp02,
    Sword01,
    Sword02,
    Sword03,
    Sword04,
    Glove01,
    Glove02,
    Net01,
    Net02,
    Mail01,
    Mail02,
    OreYellow,
    OreGreen,
    OreBlue,
    OreRed,
    HyruleSanctuaryKey,
    LoruleSanctuaryKey,
    EasternCompass,
    EasternKeyBig,
    EasternKeySmall01,
    EasternKeySmall02,
    GalesCompass,
    GalesKeyBig,
    GalesKeySmall01,
    GalesKeySmall02,
    GalesKeySmall03,
    GalesKeySmall04,
    HeraCompass,
    HeraKeyBig,
    HeraKeySmall01,
    HeraKeySmall02,
    DarkCompass,
    DarkKeyBig,
    DarkKeySmall01,
    DarkKeySmall02,
    DarkKeySmall03,
    DarkKeySmall04,
    SwampCompass,
    SwampKeyBig,
    SwampKeySmall01,
    SwampKeySmall02,
    SwampKeySmall03,
    SwampKeySmall04,
    SkullCompass,
    SkullKeyBig,
    SkullKeySmall01,
    SkullKeySmall02,
    SkullKeySmall03,
    ThievesCompass,
    ThievesKeyBig,
    ThievesKeySmall,
    IceCompass,
    IceKeyBig,
    IceKeySmall01,
    IceKeySmall02,
    IceKeySmall03,
    DesertCompass,
    DesertKeyBig,
    DesertKeySmall01,
    DesertKeySmall02,
    DesertKeySmall03,
    DesertKeySmall04,
    DesertKeySmall05,
    TurtleCompass,
    TurtleKeyBig,
    TurtleKeySmall01,
    TurtleKeySmall02,
    TurtleKeySmall03,
    LoruleCastleCompass,
    LoruleCastleKeySmall01,
    LoruleCastleKeySmall02,
    LoruleCastleKeySmall03,
    LoruleCastleKeySmall04,
    LoruleCastleKeySmall05,
    PendantOfCourage,
    PendantOfWisdom,
    PendantOfPower,
    SageGulley,
    SageOren,
    SageSeres,
    SageOsfala,
    SageRosso,
    SageIrene,
    SageImpa,
    ScootFruit,
    FoulFruit,
    Shield,
    GoldBee,
    OpenSanctuaryDoors,
    BigBombFlower,
    StylishWomansHouseOpen,
    SkullEyeRight,
    SkullEyeLeft,
    AccessPotionShop,
    AccessMilkBar,
    AccessHyruleBlacksmith,
    AccessLoruleCastleField,
    Triforce,
}

/// The wire token of an item: the registry maps every identity to this
/// unique name and back.
pub open spec fn item_token(i: Item) -> Seq<char> {
    match i {
        Item::Bow01 => "Bow01"@,
        Item::Bow02 => "Bow02"@,
        Item::Boomerang01 => "Boomerang01"@,
        Item::Boomerang02 => "Boomerang02"@,
        Item::Hookshot01 => "Hookshot01"@,
        Item::Hookshot02 => "Hookshot02"@,
        Item::Bombs01 => "Bombs01"@,
        Item::Bombs02 => "Bombs02"@,
        Item::FireRod01 => "FireRod01"@,
        Item::FireRod02 => "FireRod02"@,
        Item::IceRod01 => "IceRod01"@,
        Item::IceRod02 => "IceRod02"@,
        Item::Hammer01 => "Hammer01"@,
        Item::Hammer02 => "Hammer02"@,
        Item::SandRod01 => "SandRod01"@,
        Item::SandRod02 => "SandRod02"@,
        Item::TornadoRod01 => "TornadoRod01"@,
        Item::TornadoRod02 => "TornadoRod02"@,
        Item::Bell => "Bell"@,
        Item::StaminaScroll => "StaminaScroll"@,
        Item::BowOfLight => "BowOfLight"@,
        Item::PegasusBoots => "PegasusBoots"@,
        Item::Flippers => "Flippers"@,
        Item::RaviosBracelet01 => "RaviosBracelet01"@,
        Item::RaviosBracelet02 => "RaviosBracelet02"@,
        Item::HylianShield => "HylianShield"@,
        Item::SmoothGem => "SmoothGem"@,
        Item::LetterInABottle => "LetterInABottle"@,
        Item::PremiumMilk => "PremiumMilk"@,
        Item::Pouch => "Pouch"@,
        Item::BeeBadge => "BeeBadge"@,
        Item::HintGlasses => "HintGlasses"@,
        Item::RupeeGreen => "RupeeGreen"@,
        Item::RupeeBlue => "RupeeBlue"@,
        Item::RupeeRed => "RupeeRed"@,
        Item::RupeePurple01 => "RupeePurple01"@,
        Item::RupeePurple02 => "RupeePurple02"@,
        Item::RupeePurple03 => "RupeePurple03"@,
        Item::RupeePurple04 => "RupeePurple04"@,
        Item::RupeePurple05 => "RupeePurple05"@,
        Item::RupeePurple06 => "RupeePurple06"@,
        Item::RupeePurple07 => "RupeePurple07"@,
        Item::RupeePurple08 => "RupeePurple08"@,
        Item::RupeePurple09 => "RupeePurple09"@,
        Item::RupeePurple10 => "RupeePurple10"@,
        Item::RupeePurple11 => "RupeePurple11"@,
        Item::RupeePurple12 => "RupeePurple12"@,
        Item::RupeePurple13 => "RupeePurple13"@,
        Item::RupeePurple14 => "RupeePurple14"@,
        Item::RupeePurple15 => "RupeePurple15"@,
        Item::RupeePurple16 => "RupeePurple16"@,
        Item::RupeePurple17 => "RupeePurple17"@,
        Item::RupeePurple18 => "RupeePurple18"@,
        Item::RupeeSilver01 => "RupeeSilver01"@,
        Item::RupeeSilver02 => "RupeeSilver02"@,
        Item::RupeeSilver03 => "RupeeSilver03"@,
        Item::RupeeSilver04 => "RupeeSilver04"@,
        Item::RupeeSilver05 => "RupeeSilver05"@,
        Item::RupeeSilver06 => "RupeeSilver06"@,
        Item::RupeeSilver07 => "RupeeSilver07"@,
        Item::RupeeSilver08 => "RupeeSilver08"@,
        Item::RupeeSilver09 => "RupeeSilver09"@,
        Item::RupeeSilver10 => "RupeeSilver10"@,
        Item::RupeeSilver11 => "RupeeSilver11"@,
        Item::RupeeSilver12 => "RupeeSilver12"@,
        Item::RupeeSilver13 => "RupeeSilver13"@,
        Item::RupeeSilver14 => "RupeeSilver14"@,
        Item::RupeeSilver15 => "RupeeSilver15"@,
        Item::RupeeSilver16 => "RupeeSilver16"@,
        Item::RupeeSilver17 => "RupeeSilver17"@,
        Item::RupeeSilver18 => "RupeeSilver18"@,
        Item::RupeeSilver19 => "RupeeSilver19"@,
        Item::RupeeSilver20 => "RupeeSilver20"@,
        Item::RupeeSilver21 => "RupeeSilver21"@,
        Item::RupeeSilver22 => "RupeeSilver22"@,
        Item::RupeeSilver23 => "RupeeSilver23"@,
        Item::RupeeSilver24 => "RupeeSilver24"@,
        Item::RupeeSilver25 => "RupeeSilver25"@,
        Item::RupeeSilver26 => "RupeeSilver26"@,
        Item::RupeeSilver27 => "RupeeSilver27"@,
        Item::RupeeSilver28 => "RupeeSilver28"@,
        Item::RupeeSilver29 => "RupeeSilver29"@,
        Item::RupeeSilver30 => "RupeeSilver30"@,
        Item::RupeeSilver31 => "RupeeSilver31"@,
        Item::RupeeSilver32 => "RupeeSilver32"@,
        Item::RupeeSilver33 => "RupeeSilver33"@,
        Item::RupeeSilver34 => "RupeeSilver34"@,
        Item::RupeeSilver35 => "RupeeSilver35"@,
        Item::RupeeSilver36 => "RupeeSilver36"@,
        Item::RupeeSilver37 => "RupeeSilver37"@,
        Item::RupeeSilver38 => "RupeeSilver38"@,
        Item::RupeeGold01 => "RupeeGold01"@,
        Item::RupeeGold02 => "RupeeGold02"@,
        Item::RupeeGold03 => "RupeeGold03"@,
        Item::RupeeGold04 => "RupeeGold04"@,
        Item::RupeeGold05 => "RupeeGold05"@,
        Item::RupeeGold06 => "RupeeGold06"@,
        Item::RupeeGold07 => "RupeeGold07"@,
        Item::RupeeGold08 => "RupeeGold08"@,
        Item::MonsterGuts => "MonsterGuts"@,
        Item::MonsterHorn => "MonsterHorn"@,
        Item::MonsterTail => "MonsterTail"@,
        Item::HeartPiece01 => "HeartPiece01"@,
        Item::HeartPiece02 => "HeartPiece02"@,
        Item::HeartPiece03 => "HeartPiece03"@,
        Item::HeartPiece04 => "HeartPiece04"@,
        Item::HeartPiece05 => "HeartPiece05"@,
        Item::HeartPiece06 => "HeartPiece06"@,
        Item::HeartPiece07 => "HeartPiece07"@,
        Item::HeartPiece08 => "HeartPiece08"@,
        Item::HeartPiece09 => "HeartPiece09"@,
        Item::HeartPiece10 => "HeartPiece10"@,
        Item::HeartPiece11 => "HeartPiece11"@,
        Item::HeartPiece12 => "HeartPiece12"@,
        Item::HeartPiece13 => "HeartPiece13"@,
        Item::HeartPiece14 => "HeartPiece14"@,
        Item::HeartPiece15 => "HeartPiece15"@,
        Item::HeartPiece16 => "HeartPiece16"@,
        Item::HeartPiece17 => "HeartPiece17"@,
        Item::HeartPiece18 => "HeartPiece18"@,
        Item::HeartPiece19 => "HeartPiece19"@,
        Item::HeartPiece20 => "HeartPiece20"@,
        Item::HeartPiece21 => "HeartPiece21"@,
        Item::HeartPiece22 => "HeartPiece22"@,
        Item::HeartPiece23 => "HeartPiece23"@,
        Item::HeartPiece24 => "HeartPiece24"@,
        Item::HeartPiece25 => "HeartPiece25"@,
        Item::HeartPiece26 => "HeartPiece26"@,
        Item::HeartPiece27 => "HeartPiece27"@,
        Item::HeartContainer01 => "HeartContainer01"@,
        Item::HeartContainer02 => "HeartContainer02"@,
        Item::HeartContainer03 => "HeartContainer03"@,
        Item::HeartContainer04 => "HeartContainer04"@,
        Item::HeartContainer05 => "HeartContainer05"@,
        Item::HeartContainer06 => "HeartContainer06"@,
        Item::HeartContainer07 => "HeartContainer07"@,
        Item::HeartContainer08 => "HeartContainer08"@,
        Item::HeartContainer09 => "HeartContainer09"@,
        Item::HeartContainer10 => "HeartContainer10"@,
        Item::Bottle01 => "Bottle01"@,
        Item::Bottle02 => "Bottle02"@,
        Item::Bottle03 => "Bottle03"@,
        Item::Bottle04 => "Bottle04"@,
        Item::Bottle05 => "Bottle05"@,
        Item::Lamp01 => "Lamp01"@,
        Item::Lamp02 => "Lamp02"@,
        Item::Sword01 => "Sword01"@,
        Item::Sword02 => "Sword02"@,
        Item::Sword03 => "Sword03"@,
        Item::Sword04 => "Sword04"@,
        Item::Glove01 => "Glove01"@,
        Item::Glove02 => "Glove02"@,
        Item::Net01 => "Net01"@,
        Item::Net02 => "Net02"@,
        Item::Mail01 => "Mail01"@,
        Item::Mail02 => "Mail02"@,
        Item::OreYellow => "OreYellow"@,
        Item::OreGreen => "OreGreen"@,
        Item::OreBlue => "OreBlue"@,
        Item::OreRed => "OreRed"@,
        Item::HyruleSanctuaryKey => "HyruleSanctuaryKey"@,
        Item::LoruleSanctuaryKey => "LoruleSanctuaryKey"@,
        Item::EasternCompass => "EasternCompass"@,
        Item::EasternKeyBig => "EasternKeyBig"@,
        Item::EasternKeySmall01 => "EasternKeySmall01"@,
        Item::EasternKeySmall02 => "EasternKeySmall02"@,
        Item::GalesCompass => "GalesCompass"@,
        Item::GalesKeyBig => "GalesKeyBig"@,
        Item::GalesKeySmall01 => "GalesKeySmall01"@,
        Item::GalesKeySmall02 => "GalesKeySmall02"@,
        Item::GalesKeySmall03 => "GalesKeySmall03"@,
        Item::GalesKeySmall04 => "GalesKeySmall04"@,
        Item::HeraCompass => "HeraCompass"@,
        Item::HeraKeyBig => "HeraKeyBig"@,
        Item::HeraKeySmall01 => "HeraKeySmall01"@,
        Item::HeraKeySmall02 => "HeraKeySmall02"@,
        Item::DarkCompass => "DarkCompass"@,
        Item::DarkKeyBig => "DarkKeyBig"@,
        Item::DarkKeySmall01 => "DarkKeySmall01"@,
        Item::DarkKeySmall02 => "DarkKeySmall02"@,
        Item::DarkKeySmall03 => "DarkKeySmall03"@,
        Item::DarkKeySmall04 => "DarkKeySmall04"@,
        Item::SwampCompass => "SwampCompass"@,
        Item::SwampKeyBig => "SwampKeyBig"@,
        Item::SwampKeySmall01 => "SwampKeySmall01"@,
        Item::SwampKeySmall02 => "SwampKeySmall02"@,
        Item::SwampKeySmall03 => "SwampKeySmall03"@,
        Item::SwampKeySmall04 => "SwampKeySmall04"@,
        Item::SkullCompass => "SkullCompass"@,
        Item::SkullKeyBig => "SkullKeyBig"@,
        Item::SkullKeySmall01 => "SkullKeySmall01"@,
        Item::SkullKeySmall02 => "SkullKeySmall02"@,
        Item::SkullKeySmall03 => "SkullKeySmall03"@,
        Item::ThievesCompass => "ThievesCompass"@,
        Item::ThievesKeyBig => "ThievesKeyBig"@,
        Item::ThievesKeySmall => "ThievesKeySmall"@,
        Item::IceCompass => "IceCompass"@,
        Item::IceKeyBig => "IceKeyBig"@,
        Item::IceKeySmall01 => "IceKeySmall01"@,
        Item::IceKeySmall02 => "IceKeySmall02"@,
        Item::IceKeySmall03 => "IceKeySmall03"@,
        Item::DesertCompass => "DesertCompass"@,
        Item::DesertKeyBig => "DesertKeyBig"@,
        Item::DesertKeySmall01 => "DesertKeySmall01"@,
        Item::DesertKeySmall02 => "DesertKeySmall02"@,
        Item::DesertKeySmall03 => "DesertKeySmall03"@,
        Item::DesertKeySmall04 => "DesertKeySmall04"@,
        Item::DesertKeySmall05 => "DesertKeySmall05"@,
        Item::TurtleCompass => "TurtleCompass"@,
        Item::TurtleKeyBig => "TurtleKeyBig"@,
        Item::TurtleKeySmall01 => "TurtleKeySmall01"@,
        Item::TurtleKeySmall02 => "TurtleKeySmall02"@,
        Item::TurtleKeySmall03 => "TurtleKeySmall03"@,
        Item::LoruleCastleCompass => "LoruleCastleCompass"@,
        Item::LoruleCastleKeySmall01 => "LoruleCastleKeySmall01"@,
        Item::LoruleCastleKeySmall02 => "LoruleCastleKeySmall02"@,
        Item::LoruleCastleKeySmall03 => "LoruleCastleKeySmall03"@,
        Item::LoruleCastleKeySmall04 => "LoruleCastleKeySmall04"@,
        Item::LoruleCastleKeySmall05 => "LoruleCastleKeySmall05"@,
        Item::PendantOfCourage => "PendantOfCourage"@,
        Item::PendantOfWisdom => "PendantOfWisdom"@,
        Item::PendantOfPower => "PendantOfPower"@,
        Item::SageGulley => "SageGulley"@,
        Item::SageOren => "SageOren"@,
        Item::SageSeres => "SageSeres"@,
        Item::SageOsfala => "SageOsfala"@,
        Item::SageRosso => "SageRosso"@,
        Item::SageIrene => "SageIrene"@,
        Item::SageImpa => "SageImpa"@,
        Item::ScootFruit => "ScootFruit"@,
        Item::FoulFruit => "FoulFruit"@,
        Item::Shield => "Shield"@,
        Item::GoldBee => "GoldBee"@,
        Item::OpenSanctuaryDoors => "OpenSanctuaryDoors"@,
        Item::BigBombFlower => "BigBombFlower"@,
        Item::StylishWomansHouseOpen => "StylishWomansHouseOpen"@,
        Item::SkullEyeRight => "SkullEyeRight"@,
        Item::SkullEyeLeft => "SkullEyeLeft"@,
        Item::AccessPotionShop => "AccessPotionShop"@,
        Item::AccessMilkBar => "AccessMilkBar"@,
        Item::AccessHyruleBlacksmith => "AccessHyruleBlacksmith"@,
        Item::AccessLoruleCastleField => "AccessLoruleCastleField"@,
        Item::Triforce => "Triforce"@,
    }
}

/// Forward direction of the token registry.
pub fn filler_item_to_string(i: Item) -> (r: String)
    ensures
        r@ == item_token(i),
{
    match i {
        Item::Bow01 => "Bow01".to_owned(),
        Item::Bow02 => "Bow02".to_owned(),
        Item::Boomerang01 => "Boomerang01".to_owned(),
        Item::Boomerang02 => "Boomerang02".to_owned(),
        Item::Hookshot01 => "Hookshot01".to_owned(),
        Item::Hookshot02 => "Hookshot02".to_owned(),
        Item::Bombs01 => "Bombs01".to_owned(),
        Item::Bombs02 => "Bombs02".to_owned(),
        Item::FireRod01 => "FireRod01".to_owned(),
        Item::FireRod02 => "FireRod02".to_owned(),
        Item::IceRod01 => "IceRod01".to_owned(),
        Item::IceRod02 => "IceRod02".to_owned(),
        Item::Hammer01 => "Hammer01".to_owned(),
        Item::Hammer02 => "Hammer02".to_owned(),
        Item::SandRod01 => "SandRod01".to_owned(),
        Item::SandRod02 => "SandRod02".to_owned(),
        Item::TornadoRod01 => "TornadoRod01".to_owned(),
        Item::TornadoRod02 => "TornadoRod02".to_owned(),
        Item::Bell => "Bell".to_owned(),
        Item::StaminaScroll => "StaminaScroll".to_owned(),
        Item::BowOfLight => "BowOfLight".to_owned(),
        Item::PegasusBoots => "PegasusBoots".to_owned(),
        Item::Flippers => "Flippers".to_owned(),
        Item::RaviosBracelet01 => "RaviosBracelet01".to_owned(),
        Item::RaviosBracelet02 => "RaviosBracelet02".to_owned(),
        Item::HylianShield => "HylianShield".to_owned(),
        Item::SmoothGem => "SmoothGem".to_owned(),
        Item::LetterInABottle => "LetterInABottle".to_owned(),
        Item::PremiumMilk => "PremiumMilk".to_owned(),
        Item::Pouch => "Pouch".to_owned(),
        Item::BeeBadge => "BeeBadge".to_owned(),
        Item::HintGlasses => "HintGlasses".to_owned(),
        Item::RupeeGreen => "RupeeGreen".to_owned(),
        Item::RupeeBlue => "RupeeBlue".to_owned(),
        Item::RupeeRed => "RupeeRed".to_owned(),
        Item::RupeePurple01 => "RupeePurple01".to_owned(),
        Item::RupeePurple02 => "RupeePurple02".to_owned(),
        Item::RupeePurple03 => "RupeePurple03".to_owned(),
        Item::RupeePurple04 => "RupeePurple04".to_owned(),
        Item::RupeePurple05 => "RupeePurple05".to_owned(),
        Item::RupeePurple06 => "RupeePurple06".to_owned(),
        Item::RupeePurple07 => "RupeePurple07".to_owned(),
        Item::RupeePurple08 => "RupeePurple08".to_owned(),
        Item::RupeePurple09 => "RupeePurple09".to_owned(),
        Item::RupeePurple10 => "RupeePurple10".to_owned(),
        Item::RupeePurple11 => "RupeePurple11".to_owned(),
        Item::RupeePurple12 => "RupeePurple12".to_owned(),
        Item::RupeePurple13 => "RupeePurple13".to_owned(),
        Item::RupeePurple14 => "RupeePurple14".to_owned(),
        Item::RupeePurple15 => "RupeePurple15".to_owned(),
        Item::RupeePurple16 => "RupeePurple16".to_owned(),
        Item::RupeePurple17 => "RupeePurple17".to_owned(),
        Item::RupeePurple18 => "RupeePurple18".to_owned(),
        Item::RupeeSilver01 => "RupeeSilver01".to_owned(),
        Item::RupeeSilver02 => "RupeeSilver02".to_owned(),
        Item::RupeeSilver03 => "RupeeSilver03".to_owned(),
        Item::RupeeSilver04 => "RupeeSilver04".to_owned(),
        Item::RupeeSilver05 => "RupeeSilver05".to_owned(),
        Item::RupeeSilver06 => "RupeeSilver06".to_owned(),
        Item::RupeeSilver07 => "RupeeSilver07".to_owned(),
        Item::RupeeSilver08 => "RupeeSilver08".to_owned(),
        Item::RupeeSilver09 => "RupeeSilver09".to_owned(),
        Item::RupeeSilver10 => "RupeeSilver10".to_owned(),
        Item::RupeeSilver11 => "RupeeSilver11".to_owned(),
        Item::RupeeSilver12 => "RupeeSilver12".to_owned(),
        Item::RupeeSilver13 => "RupeeSilver13".to_owned(),
        Item::RupeeSilver14 => "RupeeSilver14".to_owned(),
        Item::RupeeSilver15 => "RupeeSilver15".to_owned(),
        Item::RupeeSilver16 => "RupeeSilver16".to_owned(),
        Item::RupeeSilver17 => "RupeeSilver17".to_owned(),
        Item::RupeeSilver18 => "RupeeSilver18".to_owned(),
        Item::RupeeSilver19 => "RupeeSilver19".to_owned(),
        Item::RupeeSilver20 => "RupeeSilver20".to_owned(),
        Item::RupeeSilver21 => "RupeeSilver21".to_owned(),
        Item::RupeeSilver22 => "RupeeSilver22".to_owned(),
        Item::RupeeSilver23 => "RupeeSilver23".to_owned(),
        Item::RupeeSilver24 => "RupeeSilver24".to_owned(),
        Item::RupeeSilver25 => "RupeeSilver25".to_owned(),
        Item::RupeeSilver26 => "RupeeSilver26".to_owned(),
        Item::RupeeSilver27 => "RupeeSilver27".to_owned(),
        Item::RupeeSilver28 => "RupeeSilver28".to_owned(),
        Item::RupeeSilver29 => "RupeeSilver29".to_owned(),
        Item::RupeeSilver30 => "RupeeSilver30".to_owned(),
        Item::RupeeSilver31 => "RupeeSilver31".to_owned(),
        Item::RupeeSilver32 => "RupeeSilver32".to_owned(),
        Item::RupeeSilver33 => "RupeeSilver33".to_owned(),
        Item::RupeeSilver34 => "RupeeSilver34".to_owned(),
        Item::RupeeSilver35 => "RupeeSilver35".to_owned(),
        Item::RupeeSilver36 => "RupeeSilver36".to_owned(),
        Item::RupeeSilver37 => "RupeeSilver37".to_owned(),
        Item::RupeeSilver38 => "RupeeSilver38".to_owned(),
        Item::RupeeGold01 => "RupeeGold01".to_owned(),
        Item::RupeeGold02 => "RupeeGold02".to_owned(),
        Item::RupeeGold03 => "RupeeGold03".to_owned(),
        Item::RupeeGold04 => "RupeeGold04".to_owned(),
        Item::RupeeGold05 => "RupeeGold05".to_owned(),
        Item::RupeeGold06 => "RupeeGold06".to_owned(),
        Item::RupeeGold07 => "RupeeGold07".to_owned(),
        Item::RupeeGold08 => "RupeeGold08".to_owned(),
        Item::MonsterGuts => "MonsterGuts".to_owned(),
        Item::MonsterHorn => "MonsterHorn".to_owned(),
        Item::MonsterTail => "MonsterTail".to_owned(),
        Item::HeartPiece01 => "HeartPiece01".to_owned(),
        Item::HeartPiece02 => "HeartPiece02".to_owned(),
        Item::HeartPiece03 => "HeartPiece03".to_owned(),
        Item::HeartPiece04 => "HeartPiece04".to_owned(),
        Item::HeartPiece05 => "HeartPiece05".to_owned(),
        Item::HeartPiece06 => "HeartPiece06".to_owned(),
        Item::HeartPiece07 => "HeartPiece07".to_owned(),
        Item::HeartPiece08 => "HeartPiece08".to_owned(),
        Item::HeartPiece09 => "HeartPiece09".to_owned(),
        Item::HeartPiece10 => "HeartPiece10".to_owned(),
        Item::HeartPiece11 => "HeartPiece11".to_owned(),
        Item::HeartPiece12 => "HeartPiece12".to_owned(),
        Item::HeartPiece13 => "HeartPiece13".to_owned(),
        Item::HeartPiece14 => "HeartPiece14".to_owned(),
        Item::HeartPiece15 => "HeartPiece15".to_owned(),
        Item::HeartPiece16 => "HeartPiece16".to_owned(),
        Item::HeartPiece17 => "HeartPiece17".to_owned(),
        Item::HeartPiece18 => "HeartPiece18".to_owned(),
        Item::HeartPiece19 => "HeartPiece19".to_owned(),
        Item::HeartPiece20 => "HeartPiece20".to_owned(),
        Item::HeartPiece21 => "HeartPiece21".to_owned(),
        Item::HeartPiece22 => "HeartPiece22".to_owned(),
        Item::HeartPiece23 => "HeartPiece23".to_owned(),
        Item::HeartPiece24 => "HeartPiece24".to_owned(),
        Item::HeartPiece25 => "HeartPiece25".to_owned(),
        Item::HeartPiece26 => "HeartPiece26".to_owned(),
        Item::HeartPiece27 => "HeartPiece27".to_owned(),
        Item::HeartContainer01 => "HeartContainer01".to_owned(),
        Item::HeartContainer02 => "HeartContainer02".to_owned(),
        Item::HeartContainer03 => "HeartContainer03".to_owned(),
        Item::HeartContainer04 => "HeartContainer04".to_owned(),
        Item::HeartContainer05 => "HeartContainer05".to_owned(),
        Item::HeartContainer06 => "HeartContainer06".to_owned(),
        Item::HeartContainer07 => "HeartContainer07".to_owned(),
        Item::HeartContainer08 => "HeartContainer08".to_owned(),
        Item::HeartContainer09 => "HeartContainer09".to_owned(),
        Item::HeartContainer10 => "HeartContainer10".to_owned(),
        Item::Bottle01 => "Bottle01".to_owned(),
        Item::Bottle02 => "Bottle02".to_owned(),
        Item::Bottle03 => "Bottle03".to_owned(),
        Item::Bottle04 => "Bottle04".to_owned(),
        Item::Bottle05 => "Bottle05".to_owned(),
        Item::Lamp01 => "Lamp01".to_owned(),
        Item::Lamp02 => "Lamp02".to_owned(),
        Item::Sword01 => "Sword01".to_owned(),
        Item::Sword02 => "Sword02".to_owned(),
        Item::Sword03 => "Sword03".to_owned(),
        Item::Sword04 => "Sword04".to_owned(),
        Item::Glove01 => "Glove01".to_owned(),
        Item::Glove02 => "Glove02".to_owned(),
        Item::Net01 => "Net01".to_owned(),
        Item::Net02 => "Net02".to_owned(),
        Item::Mail01 => "Mail01".to_owned(),
        Item::Mail02 => "Mail02".to_owned(),
        Item::OreYellow => "OreYellow".to_owned(),
        Item::OreGreen => "OreGreen".to_owned(),
        Item::OreBlue => "OreBlue".to_owned(),
        Item::OreRed => "OreRed".to_owned(),
        Item::HyruleSanctuaryKey => "HyruleSanctuaryKey".to_owned(),
        Item::LoruleSanctuaryKey => "LoruleSanctuaryKey".to_owned(),
        Item::EasternCompass => "EasternCompass".to_owned(),
        Item::EasternKeyBig => "EasternKeyBig".to_owned(),
        Item::EasternKeySmall01 => "EasternKeySmall01".to_owned(),
        Item::EasternKeySmall02 => "EasternKeySmall02".to_owned(),
        Item::GalesCompass => "GalesCompass".to_owned(),
        Item::GalesKeyBig => "GalesKeyBig".to_owned(),
        Item::GalesKeySmall01 => "GalesKeySmall01".to_owned(),
        Item::GalesKeySmall02 => "GalesKeySmall02".to_owned(),
        Item::GalesKeySmall03 => "GalesKeySmall03".to_owned(),
        Item::GalesKeySmall04 => "GalesKeySmall04".to_owned(),
        Item::HeraCompass => "HeraCompass".to_owned(),
        Item::HeraKeyBig => "HeraKeyBig".to_owned(),
        Item::HeraKeySmall01 => "HeraKeySmall01".to_owned(),
        Item::HeraKeySmall02 => "HeraKeySmall02".to_owned(),
        Item::DarkCompass => "DarkCompass".to_owned(),
        Item::DarkKeyBig => "DarkKeyBig".to_owned(),
        Item::DarkKeySmall01 => "DarkKeySmall01".to_owned(),
        Item::DarkKeySmall02 => "DarkKeySmall02".to_owned(),
        Item::DarkKeySmall03 => "DarkKeySmall03".to_owned(),
        Item::DarkKeySmall04 => "DarkKeySmall04".to_owned(),
        Item::SwampCompass => "SwampCompass".to_owned(),
        Item::SwampKeyBig => "SwampKeyBig".to_owned(),
        Item::SwampKeySmall01 => "SwampKeySmall01".to_owned(),
        Item::SwampKeySmall02 => "SwampKeySmall02".to_owned(),
        Item::SwampKeySmall03 => "SwampKeySmall03".to_owned(),
        Item::SwampKeySmall04 => "SwampKeySmall04".to_owned(),
        Item::SkullCompass => "SkullCompass".to_owned(),
        Item::SkullKeyBig => "SkullKeyBig".to_owned(),
        Item::SkullKeySmall01 => "SkullKeySmall01".to_owned(),
        Item::SkullKeySmall02 => "SkullKeySmall02".to_owned(),
        Item::SkullKeySmall03 => "SkullKeySmall03".to_owned(),
        Item::ThievesCompass => "ThievesCompass".to_owned(),
        Item::ThievesKeyBig => "ThievesKeyBig".to_owned(),
        Item::ThievesKeySmall => "ThievesKeySmall".to_owned(),
        Item::IceCompass => "IceCompass".to_owned(),
        Item::IceKeyBig => "IceKeyBig".to_owned(),
        Item::IceKeySmall01 => "IceKeySmall01".to_owned(),
        Item::IceKeySmall02 => "IceKeySmall02".to_owned(),
        Item::IceKeySmall03 => "IceKeySmall03".to_owned(),
        Item::DesertCompass => "DesertCompass".to_owned(),
        Item::DesertKeyBig => "DesertKeyBig".to_owned(),
        Item::DesertKeySmall01 => "DesertKeySmall01".to_owned(),
        Item::DesertKeySmall02 => "DesertKeySmall02".to_owned(),
        Item::DesertKeySmall03 => "DesertKeySmall03".to_owned(),
        Item::DesertKeySmall04 => "DesertKeySmall04".to_owned(),
        Item::DesertKeySmall05 => "DesertKeySmall05".to_owned(),
        Item::TurtleCompass => "TurtleCompass".to_owned(),
        Item::TurtleKeyBig => "TurtleKeyBig".to_owned(),
        Item::TurtleKeySmall01 => "TurtleKeySmall01".to_owned(),
        Item::TurtleKeySmall02 => "TurtleKeySmall02".to_owned(),
        Item::TurtleKeySmall03 => "TurtleKeySmall03".to_owned(),
        Item::LoruleCastleCompass => "LoruleCastleCompass".to_owned(),
        Item::LoruleCastleKeySmall01 => "LoruleCastleKeySmall01".to_owned(),
        Item::LoruleCastleKeySmall02 => "LoruleCastleKeySmall02".to_owned(),
        Item::LoruleCastleKeySmall03 => "LoruleCastleKeySmall03".to_owned(),
        Item::LoruleCastleKeySmall04 => "LoruleCastleKeySmall04".to_owned(),
        Item::LoruleCastleKeySmall05 => "LoruleCastleKeySmall05".to_owned(),
        Item::PendantOfCourage => "PendantOfCourage".to_owned(),
        Item::PendantOfWisdom => "PendantOfWisdom".to_owned(),
        Item::PendantOfPower => "PendantOfPower".to_owned(),
        Item::SageGulley => "SageGulley".to_owned(),
        Item::SageOren => "SageOren".to_owned(),
        Item::SageSeres => "SageSeres".to_owned(),
        Item::SageOsfala => "SageOsfala".to_owned(),
        Item::SageRosso => "SageRosso".to_owned(),
        Item::SageIrene => "SageIrene".to_owned(),
        Item::SageImpa => "SageImpa".to_owned(),
        Item::ScootFruit => "ScootFruit".to_owned(),
        Item::FoulFruit => "FoulFruit".to_owned(),
        Item::Shield => "Shield".to_owned(),
        Item::GoldBee => "GoldBee".to_owned(),
        Item::OpenSanctuaryDoors => "OpenSanctuaryDoors".to_owned(),
        Item::BigBombFlower => "BigBombFlower".to_owned(),
        Item::StylishWomansHouseOpen => "StylishWomansHouseOpen".to_owned(),
        Item::SkullEyeRight => "SkullEyeRight".to_owned(),
        Item::SkullEyeLeft => "SkullEyeLeft".to_owned(),
        Item::AccessPotionShop => "AccessPotionShop".to_owned(),
        Item::AccessMilkBar => "AccessMilkBar".to_owned(),
        Item::AccessHyruleBlacksmith => "AccessHyruleBlacksmith".to_owned(),
        Item::AccessLoruleCastleField => "AccessLoruleCastleField".to_owned(),
        Item::Triforce => "Triforce".to_owned(),
    }
}

/// Reverse direction of the token registry, derived mechanically from the
/// forward table: the item whose token is `s`, if any.
pub open spec fn spec_token_to_item(s: Seq<char>) -> Option<Item> {
    if exists|i: Item| item_token(i) == s {
        Some(choose|i: Item| item_token(i) == s)
    } else {
        None
    }
}

/// Pseudo-items: non-physical unlock flags granted by designated event checks, never drawn from the shuffled pools.
pub open spec fn is_event_item(i: Item) -> bool {
    i == Item::OpenSanctuaryDoors || i == Item::BigBombFlower || i == Item::StylishWomansHouseOpen
    || i == Item::SkullEyeRight || i == Item::SkullEyeLeft || i == Item::AccessPotionShop
    || i == Item::AccessMilkBar || i == Item::AccessHyruleBlacksmith || i == Item::AccessLoruleCastleField
    || i == Item::Triforce
}

/// Optional `super` variants that are progression-capable only when the matching settings flag includes them in the pool.
pub open spec fn is_super_item(i: Item) -> bool {
    i == Item::Lamp02 || i == Item::Net02
}

/// Items that are inherently progression-capable: their possession can be a precondition for unlocking further checks.
pub open spec fn is_progression_base(i: Item) -> bool {
    i == Item::Bow01 || i == Item::Bow02 || i == Item::Boomerang01
    || i == Item::Boomerang02 || i == Item::Hookshot01 || i == Item::Hookshot02
    || i == Item::Bombs01 || i == Item::Bombs02 || i == Item::FireRod01
    || i == Item::FireRod02 || i == Item::IceRod01 || i == Item::IceRod02
    || i == Item::Hammer01 || i == Item::Hammer02 || i == Item::SandRod01
    || i == Item::SandRod02 || i == Item::TornadoRod01 || i == Item::TornadoRod02
    || i == Item::Bell || i == Item::StaminaScroll || i == Item::BowOfLight
    || i == Item::PegasusBoots || i == Item::Flippers || i == Item::RaviosBracelet01
    || i == Item::RaviosBracelet02 || i == Item::HylianShield || i == Item::SmoothGem
    || i == Item::LetterInABottle || i == Item::PremiumMilk || i == Item::Bottle01
    || i == Item::Bottle02 || i == Item::Bottle03 || i == Item::Bottle04
    || i == Item::Bottle05 || i == Item::Lamp01 || i == Item::Sword01
    || i == Item::Sword02 || i == Item::Sword03 || i == Item::Sword04
    || i == Item::Glove01 || i == Item::Glove02 || i == Item::Net01
    || i == Item::Mail01 || i == Item::Mail02 || i == Item::OreYellow
    || i == Item::OreGreen || i == Item::OreBlue || i == Item::OreRed
    || i == Item::HyruleSanctuaryKey || i == Item::LoruleSanctuaryKey || i == Item::EasternKeyBig
    || i == Item::EasternKeySmall01 || i == Item::EasternKeySmall02 || i == Item::GalesKeyBig
    || i == Item::GalesKeySmall01 || i == Item::GalesKeySmall02 || i == Item::GalesKeySmall03
    || i == Item::GalesKeySmall04 || i == Item::HeraKeyBig || i == Item::HeraKeySmall01
    || i == Item::HeraKeySmall02 || i == Item::DarkKeyBig || i == Item::DarkKeySmall01
    || i == Item::DarkKeySmall02 || i == Item::DarkKeySmall03 || i == Item::DarkKeySmall04
    || i == Item::SwampKeyBig || i == Item::SwampKeySmall01 || i == Item::SwampKeySmall02
    || i == Item::SwampKeySmall03 || i == Item::SwampKeySmall04 || i == Item::SkullKeyBig
    || i == Item::SkullKeySmall01 || i == Item::SkullKeySmall02 || i == Item::SkullKeySmall03
    || i == Item::ThievesKeyBig || i == Item::ThievesKeySmall || i == Item::IceKeyBig
    || i == Item::IceKeySmall01 || i == Item::IceKeySmall02 || i == Item::IceKeySmall03
    || i == Item::DesertKeyBig || i == Item::DesertKeySmall01 || i == Item::DesertKeySmall02
    || i == Item::DesertKeySmall03 || i == Item::DesertKeySmall04 || i == Item::DesertKeySmall05
    || i == Item::TurtleKeyBig || i == Item::TurtleKeySmall01 || i == Item::TurtleKeySmall02
    || i == Item::TurtleKeySmall03 || i == Item::LoruleCastleKeySmall01 || i == Item::LoruleCastleKeySmall02
    || i == Item::LoruleCastleKeySmall03 || i == Item::LoruleCastleKeySmall04 || i == Item::LoruleCastleKeySmall05
    || i == Item::PendantOfCourage || i == Item::PendantOfWisdom || i == Item::PendantOfPower
    || i == Item::SageGulley || i == Item::SageOren || i == Item::SageSeres
    || i == Item::SageOsfala || i == Item::SageRosso || i == Item::SageIrene
    || i == Item::SageImpa || i == Item::GoldBee
}

/// Carried gear and trade goods.
pub open spec fn gear_seq() -> Seq<Item> {
    seq![
        Item::Bow01,
        Item::Bow02,
        Item::Boomerang01,
        Item::Boomerang02,
        Item::Hookshot01,
        Item::Hookshot02,
        Item::Bombs01,
        Item::Bombs02,
        Item::FireRod01,
        Item::FireRod02,
        Item::IceRod01,
        Item::IceRod02,
        Item::Hammer01,
        Item::Hammer02,
        Item::SandRod01,
        Item::SandRod02,
        Item::TornadoRod01,
        Item::TornadoRod02,
        Item::Bell,
        Item::StaminaScroll,
        Item::BowOfLight,
        Item::PegasusBoots,
        Item::Flippers,
        Item::RaviosBracelet01,
        Item::RaviosBracelet02,
        Item::HylianShield,
        Item::SmoothGem,
        Item::LetterInABottle,
        Item::PremiumMilk,
        Item::Pouch,
        Item::BeeBadge,
        Item::HintGlasses,
    ]
}

/// Rupees of every denomination.
pub open spec fn rupee_seq() -> Seq<Item> {
    seq![
        Item::RupeeGreen,
        Item::RupeeBlue,
        Item::RupeeRed,
        Item::RupeePurple01,
        Item::RupeePurple02,
        Item::RupeePurple03,
        Item::RupeePurple04,
        Item::RupeePurple05,
        Item::RupeePurple06,
        Item::RupeePurple07,
        Item::RupeePurple08,
        Item::RupeePurple09,
        Item::RupeePurple10,
        Item::RupeePurple11,
        Item::RupeePurple12,
        Item::RupeePurple13,
        Item::RupeePurple14,
        Item::RupeePurple15,
        Item::RupeePurple16,
        Item::RupeePurple17,
        Item::RupeePurple18,
        Item::RupeeSilver01,
        Item::RupeeSilver02,
        Item::RupeeSilver03,
        Item::RupeeSilver04,
        Item::RupeeSilver05,
        Item::RupeeSilver06,
        Item::RupeeSilver07,
        Item::RupeeSilver08,
        Item::RupeeSilver09,
        Item::RupeeSilver10,
        Item::RupeeSilver11,
        Item::RupeeSilver12,
        Item::RupeeSilver13,
        Item::RupeeSilver14,
        Item::RupeeSilver15,
        Item::RupeeSilver16,
        Item::RupeeSilver17,
        Item::RupeeSilver18,
        Item::RupeeSilver19,
        Item::RupeeSilver20,
        Item::RupeeSilver21,
        Item::RupeeSilver22,
        Item::RupeeSilver23,
        Item::RupeeSilver24,
        Item::RupeeSilver25,
        Item::RupeeSilver26,
        Item::RupeeSilver27,
        Item::RupeeSilver28,
        Item::RupeeSilver29,
        Item::RupeeSilver30,
        Item::RupeeSilver31,
        Item::RupeeSilver32,
        Item::RupeeSilver33,
        Item::RupeeSilver34,
        Item::RupeeSilver35,
        Item::RupeeSilver36,
        Item::RupeeSilver37,
        Item::RupeeSilver38,
        Item::RupeeGold01,
        Item::RupeeGold02,
        Item::RupeeGold03,
        Item::RupeeGold04,
        Item::RupeeGold05,
        Item::RupeeGold06,
        Item::RupeeGold07,
        Item::RupeeGold08,
    ]
}

/// Monster parts.
pub open spec fn monster_seq() -> Seq<Item> {
    seq![
        Item::MonsterGuts,
        Item::MonsterHorn,
        Item::MonsterTail,
    ]
}

/// Heart pieces and heart containers.
pub open spec fn heart_seq() -> Seq<Item> {
    seq![
        Item::HeartPiece01,
        Item::HeartPiece02,
        Item::HeartPiece03,
        Item::HeartPiece04,
        Item::HeartPiece05,
        Item::HeartPiece06,
        Item::HeartPiece07,
        Item::HeartPiece08,
        Item::HeartPiece09,
        Item::HeartPiece10,
        Item::HeartPiece11,
        Item::HeartPiece12,
        Item::HeartPiece13,
        Item::HeartPiece14,
        Item::HeartPiece15,
        Item::HeartPiece16,
        Item::HeartPiece17,
        Item::HeartPiece18,
        Item::HeartPiece19,
        Item::HeartPiece20,
        Item::HeartPiece21,
        Item::HeartPiece22,
        Item::HeartPiece23,
        Item::HeartPiece24,
        Item::HeartPiece25,
        Item::HeartPiece26,
        Item::HeartPiece27,
        Item::HeartContainer01,
        Item::HeartContainer02,
        Item::HeartContainer03,
        Item::HeartContainer04,
        Item::HeartContainer05,
        Item::HeartContainer06,
        Item::HeartContainer07,
        Item::HeartContainer08,
        Item::HeartContainer09,
        Item::HeartContainer10,
    ]
}

/// Empty bottles.
pub open spec fn bottle_seq() -> Seq<Item> {
    seq![
        Item::Bottle01,
        Item::Bottle02,
        Item::Bottle03,
        Item::Bottle04,
        Item::Bottle05,
    ]
}

/// Worn equipment, swords and ores.
pub open spec fn equipment_seq() -> Seq<Item> {
    seq![
        Item::Lamp01,
        Item::Lamp02,
        Item::Sword01,
        Item::Sword02,
        Item::Sword03,
        Item::Sword04,
        Item::Glove01,
        Item::Glove02,
        Item::Net01,
        Item::Net02,
        Item::Mail01,
        Item::Mail02,
        Item::OreYellow,
        Item::OreGreen,
        Item::OreBlue,
        Item::OreRed,
    ]
}

/// Dungeon keys and compasses.
pub open spec fn key_seq() -> Seq<Item> {
    seq![
        Item::HyruleSanctuaryKey,
        Item::LoruleSanctuaryKey,
        Item::EasternCompass,
        Item::EasternKeyBig,
        Item::EasternKeySmall01,
        Item::EasternKeySmall02,
        Item::GalesCompass,
        Item::GalesKeyBig,
        Item::GalesKeySmall01,
        Item::GalesKeySmall02,
        Item::GalesKeySmall03,
        Item::GalesKeySmall04,
        Item::HeraCompass,
        Item::HeraKeyBig,
        Item::HeraKeySmall01,
        Item::HeraKeySmall02,
        Item::DarkCompass,
        Item::DarkKeyBig,
        Item::DarkKeySmall01,
        Item::DarkKeySmall02,
        Item::DarkKeySmall03,
        Item::DarkKeySmall04,
        Item::SwampCompass,
        Item::SwampKeyBig,
        Item::SwampKeySmall01,
        Item::SwampKeySmall02,
        Item::SwampKeySmall03,
        Item::SwampKeySmall04,
        Item::SkullCompass,
        Item::SkullKeyBig,
        Item::SkullKeySmall01,
        Item::SkullKeySmall02,
        Item::SkullKeySmall03,
        Item::ThievesCompass,
        Item::ThievesKeyBig,
        Item::ThievesKeySmall,
        Item::IceCompass,
        Item::IceKeyBig,
        Item::IceKeySmall01,
        Item::IceKeySmall02,
        Item::IceKeySmall03,
        Item::DesertCompass,
        Item::DesertKeyBig,
        Item::DesertKeySmall01,
        Item::DesertKeySmall02,
        Item::DesertKeySmall03,
        Item::DesertKeySmall04,
        Item::DesertKeySmall05,
        Item::TurtleCompass,
        Item::TurtleKeyBig,
        Item::TurtleKeySmall01,
        Item::TurtleKeySmall02,
        Item::TurtleKeySmall03,
        Item::LoruleCastleCompass,
        Item::LoruleCastleKeySmall01,
        Item::LoruleCastleKeySmall02,
        Item::LoruleCastleKeySmall03,
        Item::LoruleCastleKeySmall04,
        Item::LoruleCastleKeySmall05,
    ]
}

/// Pendants and sages.
pub open spec fn quest_seq() -> Seq<Item> {
    seq![
        Item::PendantOfCourage,
        Item::PendantOfWisdom,
        Item::PendantOfPower,
        Item::SageGulley,
        Item::SageOren,
        Item::SageSeres,
        Item::SageOsfala,
        Item::SageRosso,
        Item::SageIrene,
        Item::SageImpa,
    ]
}

/// Odds and ends.
pub open spec fn misc_seq() -> Seq<Item> {
    seq![
        Item::ScootFruit,
        Item::FoulFruit,
        Item::Shield,
        Item::GoldBee,
    ]
}

/// Event pseudo-items.
pub open spec fn event_seq() -> Seq<Item> {
    seq![
        Item::OpenSanctuaryDoors,
        Item::BigBombFlower,
        Item::StylishWomansHouseOpen,
        Item::SkullEyeRight,
        Item::SkullEyeLeft,
        Item::AccessPotionShop,
        Item::AccessMilkBar,
        Item::AccessHyruleBlacksmith,
        Item::AccessLoruleCastleField,
        Item::Triforce,
    ]
}

fn push_gear_items(v: &mut Vec<Item>)
    ensures
        final(v)@ == old(v)@ + gear_seq(),
{
    v.push(Item::Bow01);
    v.push(Item::Bow02);
    v.push(Item::Boomerang01);
    v.push(Item::Boomerang02);
    v.push(Item::Hookshot01);
    v.push(Item::Hookshot02);
    v.push(Item::Bombs01);
    v.push(Item::Bombs02);
    v.push(Item::FireRod01);
    v.push(Item::FireRod02);
    v.push(Item::IceRod01);
    v.push(Item::IceRod02);
    v.push(Item::Hammer01);
    v.push(Item::Hammer02);
    v.push(Item::SandRod01);
    v.push(Item::SandRod02);
    v.push(Item::TornadoRod01);
    v.push(Item::TornadoRod02);
    v.push(Item::Bell);
    v.push(Item::StaminaScroll);
    v.push(Item::BowOfLight);
    v.push(Item::PegasusBoots);
    v.push(Item::Flippers);
    v.push(Item::RaviosBracelet01);
    v.push(Item::RaviosBracelet02);
    v.push(Item::HylianShield);
    v.push(Item::SmoothGem);
    v.push(Item::LetterInABottle);
    v.push(Item::PremiumMilk);
    v.push(Item::Pouch);
    v.push(Item::BeeBadge);
    v.push(Item::HintGlasses);
    assert(v@ =~= old(v)@ + gear_seq());
}

#[verifier::rlimit(100)]
fn push_rupee_items(v: &mut Vec<Item>)
    ensures
        final(v)@ == old(v)@ + rupee_seq(),
{
    v.push(Item::RupeeGreen);
    v.push(Item::RupeeBlue);
    v.push(Item::RupeeRed);
    v.push(Item::RupeePurple01);
    v.push(Item::RupeePurple02);
    v.push(Item::RupeePurple03);
    v.push(Item::RupeePurple04);
    v.push(Item::RupeePurple05);
    v.push(Item::RupeePurple06);
    v.push(Item::RupeePurple07);
    v.push(Item::RupeePurple08);
    v.push(Item::RupeePurple09);
    v.push(Item::RupeePurple10);
    v.push(Item::RupeePurple11);
    v.push(Item::RupeePurple12);
    v.push(Item::RupeePurple13);
    v.push(Item::RupeePurple14);
    v.push(Item::RupeePurple15);
    v.push(Item::RupeePurple16);
    v.push(Item::RupeePurple17);
    v.push(Item::RupeePurple18);
    v.push(Item::RupeeSilver01);
    v.push(Item::RupeeSilver02);
    v.push(Item::RupeeSilver03);
    v.push(Item::RupeeSilver04);
    v.push(Item::RupeeSilver05);
    v.push(Item::RupeeSilver06);
    v.push(Item::RupeeSilver07);
    v.push(Item::RupeeSilver08);
    v.push(Item::RupeeSilver09);
    v.push(Item::RupeeSilver10);
    v.push(Item::RupeeSilver11);
    v.push(Item::RupeeSilver12);
    v.push(Item::RupeeSilver13);
    v.push(Item::RupeeSilver14);
    v.push(Item::RupeeSilver15);
    v.push(Item::RupeeSilver16);
    v.push(Item::RupeeSilver17);
    v.push(Item::RupeeSilver18);
    v.push(Item::RupeeSilver19);
    v.push(Item::RupeeSilver20);
    v.push(Item::RupeeSilver21);
    v.push(Item::RupeeSilver22);
    v.push(Item::RupeeSilver23);
    v.push(Item::RupeeSilver24);
    v.push(Item::RupeeSilver25);
    v.push(Item::RupeeSilver26);
    v.push(Item::RupeeSilver27);
    v.push(Item::RupeeSilver28);
    v.push(Item::RupeeSilver29);
    v.push(Item::RupeeSilver30);
    v.push(Item::RupeeSilver31);
    v.push(Item::RupeeSilver32);
    v.push(Item::RupeeSilver33);
    v.push(Item::RupeeSilver34);
    v.push(Item::RupeeSilver35);
    v.push(Item::RupeeSilver36);
    v.push(Item::RupeeSilver37);
    v.push(Item::RupeeSilver38);
    v.push(Item::RupeeGold01);
    v.push(Item::RupeeGold02);
    v.push(Item::RupeeGold03);
    v.push(Item::RupeeGold04);
    v.push(Item::RupeeGold05);
    v.push(Item::RupeeGold06);
    v.push(Item::RupeeGold07);
    v.push(Item::RupeeGold08);
    assert(v@ =~= old(v)@ + rupee_seq());
}

fn push_monster_items(v: &mut Vec<Item>)
    ensures
        final(v)@ == old(v)@ + monster_seq(),
{
    v.push(Item::MonsterGuts);
    v.push(Item::MonsterHorn);
    v.push(Item::MonsterTail);
    assert(v@ =~= old(v)@ + monster_seq());
}

fn push_heart_items(v: &mut Vec<Item>)
    ensures
        final(v)@ == old(v)@ + heart_seq(),
{
    v.push(Item::HeartPiece01);
    v.push(Item::HeartPiece02);
    v.push(Item::HeartPiece03);
    v.push(Item::HeartPiece04);
    v.push(Item::HeartPiece05);
    v.push(Item::HeartPiece06);
    v.push(Item::HeartPiece07);
    v.push(Item::HeartPiece08);
    v.push(Item::HeartPiece09);
    v.push(Item::HeartPiece10);
    v.push(Item::HeartPiece11);
    v.push(Item::HeartPiece12);
    v.push(Item::HeartPiece13);
    v.push(Item::HeartPiece14);
    v.push(Item::HeartPiece15);
    v.push(Item::HeartPiece16);
    v.push(Item::HeartPiece17);
    v.push(Item::HeartPiece18);
    v.push(Item::HeartPiece19);
    v.push(Item::HeartPiece20);
    v.push(Item::HeartPiece21);
    v.push(Item::HeartPiece22);
    v.push(Item::HeartPiece23);
    v.push(Item::HeartPiece24);
    v.push(Item::HeartPiece25);
    v.push(Item::HeartPiece26);
    v.push(Item::HeartPiece27);
    v.push(Item::HeartContainer01);
    v.push(Item::HeartContainer02);
    v.push(Item::HeartContainer03);
    v.push(Item::HeartContainer04);
    v.push(Item::HeartContainer05);
    v.push(Item::HeartContainer06);
    v.push(Item::HeartContainer07);
    v.push(Item::HeartContainer08);
    v.push(Item::HeartContainer09);
    v.push(Item::HeartContainer10);
    assert(v@ =~= old(v)@ + heart_seq());
}

fn push_bottle_items(v: &mut Vec<Item>)
    ensures
        final(v)@ == old(v)@ + bottle_seq(),
{
    v.push(Item::Bottle01);
    v.push(Item::Bottle02);
    v.push(Item::Bottle03);
    v.push(Item::Bottle04);
    v.push(Item::Bottle05);
    assert(v@ =~= old(v)@ + bottle_seq());
}

fn push_equipment_items(v: &mut Vec<Item>)
    ensures
        final(v)@ == old(v)@ + equipment_seq(),
{
    v.push(Item::Lamp01);
    v.push(Item::Lamp02);
    v.push(Item::Sword01);
    v.push(Item::Sword02);
    v.push(Item::Sword03);
    v.push(Item::Sword04);
    v.push(Item::Glove01);
    v.push(Item::Glove02);
    v.push(Item::Net01);
    v.push(Item::Net02);
    v.push(Item::Mail01);
    v.push(Item::Mail02);
    v.push(Item::OreYellow);
    v.push(Item::OreGreen);
    v.push(Item::OreBlue);
    v.push(Item::OreRed);
    assert(v@ =~= old(v)@ + equipment_seq());
}

#[verifier::rlimit(100)]
fn push_key_items(v: &mut Vec<Item>)
    ensures
        final(v)@ == old(v)@ + key_seq(),
{
    v.push(Item::HyruleSanctuaryKey);
    v.push(Item::LoruleSanctuaryKey);
    v.push(Item::EasternCompass);
    v.push(Item::EasternKeyBig);
    v.push(Item::EasternKeySmall01);
    v.push(Item::EasternKeySmall02);
    v.push(Item::GalesCompass);
    v.push(Item::GalesKeyBig);
    v.push(Item::GalesKeySmall01);
    v.push(Item::GalesKeySmall02);
    v.push(Item::GalesKeySmall03);
    v.push(Item::GalesKeySmall04);
    v.push(Item::HeraCompass);
    v.push(Item::HeraKeyBig);
    v.push(Item::HeraKeySmall01);
    v.push(Item::HeraKeySmall02);
    v.push(Item::DarkCompass);
    v.push(Item::DarkKeyBig);
    v.push(Item::DarkKeySmall01);
    v.push(Item::DarkKeySmall02);
    v.push(Item::DarkKeySmall03);
    v.push(Item::DarkKeySmall04);
    v.push(Item::SwampCompass);
    v.push(Item::SwampKeyBig);
    v.push(Item::SwampKeySmall01);
    v.push(Item::SwampKeySmall02);
    v.push(Item::SwampKeySmall03);
    v.push(Item::SwampKeySmall04);
    v.push(Item::SkullCompass);
    v.push(Item::SkullKeyBig);
    v.push(Item::SkullKeySmall01);
    v.push(Item::SkullKeySmall02);
    v.push(Item::SkullKeySmall03);
    v.push(Item::ThievesCompass);
    v.push(Item::ThievesKeyBig);
    v.push(Item::ThievesKeySmall);
    v.push(Item::IceCompass);
    v.push(Item::IceKeyBig);
    v.push(Item::IceKeySmall01);
    v.push(Item::IceKeySmall02);
    v.push(Item::IceKeySmall03);
    v.push(Item::DesertCompass);
    v.push(Item::DesertKeyBig);
    v.push(Item::DesertKeySmall01);
    v.push(Item::DesertKeySmall02);
    v.push(Item::DesertKeySmall03);
    v.push(Item::DesertKeySmall04);
    v.push(Item::DesertKeySmall05);
    v.push(Item::TurtleCompass);
    v.push(Item::TurtleKeyBig);
    v.push(Item::TurtleKeySmall01);
    v.push(Item::TurtleKeySmall02);
    v.push(Item::TurtleKeySmall03);
    v.push(Item::LoruleCastleCompass);
    v.push(Item::LoruleCastleKeySmall01);
    v.push(Item::LoruleCastleKeySmall02);
    v.push(Item::LoruleCastleKeySmall03);
    v.push(Item::LoruleCastleKeySmall04);
    v.push(Item::LoruleCastleKeySmall05);
    assert(v@ =~= old(v)@ + key_seq());
}

fn push_quest_items(v: &mut Vec<Item>)
    ensures
        final(v)@ == old(v)@ + quest_seq(),
{
    v.push(Item::PendantOfCourage);
    v.push(Item::PendantOfWisdom);
    v.push(Item::PendantOfPower);
    v.push(Item::SageGulley);
    v.push(Item::SageOren);
    v.push(Item::SageSeres);
    v.push(Item::SageOsfala);
    v.push(Item::SageRosso);
    v.push(Item::SageIrene);
    v.push(Item::SageImpa);
    assert(v@ =~= old(v)@ + quest_seq());
}

fn push_misc_items(v: &mut Vec<Item>)
    ensures
        final(v)@ == old(v)@ + misc_seq(),
{
    v.push(Item::ScootFruit);
    v.push(Item::FoulFruit);
    v.push(Item::Shield);
    v.push(Item::GoldBee);
    assert(v@ =~= old(v)@ + misc_seq());
}

fn push_event_items(v: &mut Vec<Item>)
    ensures
        final(v)@ == old(v)@ + event_seq(),
{
    v.push(Item::OpenSanctuaryDoors);
    v.push(Item::BigBombFlower);
    v.push(Item::StylishWomansHouseOpen);
    v.push(Item::SkullEyeRight);
    v.push(Item::SkullEyeLeft);
    v.push(Item::AccessPotionShop);
    v.push(Item::AccessMilkBar);
    v.push(Item::AccessHyruleBlacksmith);
    v.push(Item::AccessLoruleCastleField);
    v.push(Item::Triforce);
    assert(v@ =~= old(v)@ + event_seq());
}

/// The full item catalog, in its canonical order.
pub open spec fn catalog_seq() -> Seq<Item> {
    gear_seq() + rupee_seq() + monster_seq() + heart_seq() + bottle_seq() + equipment_seq() + key_seq() + quest_seq() + misc_seq() + event_seq()
}

/// Enumerates the full item catalog.
pub fn catalog() -> (r: Vec<Item>)
    ensures
        r@ == catalog_seq(),
{
    let mut v: Vec<Item> = Vec::new();
    push_gear_items(&mut v);
    push_rupee_items(&mut v);
    push_monster_items(&mut v);
    push_heart_items(&mut v);
    push_bottle_items(&mut v);
    push_equipment_items(&mut v);
    push_key_items(&mut v);
    push_quest_items(&mut v);
    push_misc_items(&mut v);
    push_event_items(&mut v);
    assert(v@ =~= catalog_seq());
    v
}

/// Scans the token table for a match.
#[verifier::rlimit(100)]
fn token_scan(s: &str) -> (r: Option<Item>)
    ensures
        r is Some ==> item_token(r->Some_0) == s@,
        r is None ==> forall|i: Item| item_token(i) != s@,
{
    let owned = s.to_owned();
    if owned.eq(&"Bow01".to_owned()) {
        Some(Item::Bow01)
    } else if owned.eq(&"Bow02".to_owned()) {
        Some(Item::Bow02)
    } else if owned.eq(&"Boomerang01".to_owned()) {
        Some(Item::Boomerang01)
    } else if owned.eq(&"Boomerang02".to_owned()) {
        Some(Item::Boomerang02)
    } else if owned.eq(&"Hookshot01".to_owned()) {
        Some(Item::Hookshot01)
    } else if owned.eq(&"Hookshot02".to_owned()) {
        Some(Item::Hookshot02)
    } else if owned.eq(&"Bombs01".to_owned()) {
        Some(Item::Bombs01)
    } else if owned.eq(&"Bombs02".to_owned()) {
        Some(Item::Bombs02)
    } else if owned.eq(&"FireRod01".to_owned()) {
        Some(Item::FireRod01)
    } else if owned.eq(&"FireRod02".to_owned()) {
        Some(Item::FireRod02)
    } else if owned.eq(&"IceRod01".to_owned()) {
        Some(Item::IceRod01)
    } else if owned.eq(&"IceRod02".to_owned()) {
        Some(Item::IceRod02)
    } else if owned.eq(&"Hammer01".to_owned()) {
        Some(Item::Hammer01)
    } else if owned.eq(&"Hammer02".to_owned()) {
        Some(Item::Hammer02)
    } else if owned.eq(&"SandRod01".to_owned()) {
        Some(Item::SandRod01)
    } else if owned.eq(&"SandRod02".to_owned()) {
        Some(Item::SandRod02)
    } else if owned.eq(&"TornadoRod01".to_owned()) {
        Some(Item::TornadoRod01)
    } else if owned.eq(&"TornadoRod02".to_owned()) {
        Some(Item::TornadoRod02)
    } else if owned.eq(&"Bell".to_owned()) {
        Some(Item::Bell)
    } else if owned.eq(&"StaminaScroll".to_owned()) {
        Some(Item::StaminaScroll)
    } else if owned.eq(&"BowOfLight".to_owned()) {
        Some(Item::BowOfLight)
    } else if owned.eq(&"PegasusBoots".to_owned()) {
        Some(Item::PegasusBoots)
    } else if owned.eq(&"Flippers".to_owned()) {
        Some(Item::Flippers)
    } else if owned.eq(&"RaviosBracelet01".to_owned()) {
        Some(Item::RaviosBracelet01)
    } else if owned.eq(&"RaviosBracelet02".to_owned()) {
        Some(Item::RaviosBracelet02)
    } else if owned.eq(&"HylianShield".to_owned()) {
        Some(Item::HylianShield)
    } else if owned.eq(&"SmoothGem".to_owned()) {
        Some(Item::SmoothGem)
    } else if owned.eq(&"LetterInABottle".to_owned()) {
        Some(Item::LetterInABottle)
    } else if owned.eq(&"PremiumMilk".to_owned()) {
        Some(Item::PremiumMilk)
    } else if owned.eq(&"Pouch".to_owned()) {
        Some(Item::Pouch)
    } else if owned.eq(&"BeeBadge".to_owned()) {
        Some(Item::BeeBadge)
    } else if owned.eq(&"HintGlasses".to_owned()) {
        Some(Item::HintGlasses)
    } else if owned.eq(&"RupeeGreen".to_owned()) {
        Some(Item::RupeeGreen)
    } else if owned.eq(&"RupeeBlue".to_owned()) {
        Some(Item::RupeeBlue)
    } else if owned.eq(&"RupeeRed".to_owned()) {
        Some(Item::RupeeRed)
    } else if owned.eq(&"RupeePurple01".to_owned()) {
        Some(Item::RupeePurple01)
    } else if owned.eq(&"RupeePurple02".to_owned()) {
        Some(Item::RupeePurple02)
    } else if owned.eq(&"RupeePurple03".to_owned()) {
        Some(Item::RupeePurple03)
    } else if owned.eq(&"RupeePurple04".to_owned()) {
        Some(Item::RupeePurple04)
    } else if owned.eq(&"RupeePurple05".to_owned()) {
        Some(Item::RupeePurple05)
    } else if owned.eq(&"RupeePurple06".to_owned()) {
        Some(Item::RupeePurple06)
    } else if owned.eq(&"RupeePurple07".to_owned()) {
        Some(Item::RupeePurple07)
    } else if owned.eq(&"RupeePurple08".to_owned()) {
        Some(Item::RupeePurple08)
    } else if owned.eq(&"RupeePurple09".to_owned()) {
        Some(Item::RupeePurple09)
    } else if owned.eq(&"RupeePurple10".to_owned()) {
        Some(Item::RupeePurple10)
    } else if owned.eq(&"RupeePurple11".to_owned()) {
        Some(Item::RupeePurple11)
    } else if owned.eq(&"RupeePurple12".to_owned()) {
        Some(Item::RupeePurple12)
    } else if owned.eq(&"RupeePurple13".to_owned()) {
        Some(Item::RupeePurple13)
    } else if owned.eq(&"RupeePurple14".to_owned()) {
        Some(Item::RupeePurple14)
    } else if owned.eq(&"RupeePurple15".to_owned()) {
        Some(Item::RupeePurple15)
    } else if owned.eq(&"RupeePurple16".to_owned()) {
        Some(Item::RupeePurple16)
    } else if owned.eq(&"RupeePurple17".to_owned()) {
        Some(Item::RupeePurple17)
    } else if owned.eq(&"RupeePurple18".to_owned()) {
        Some(Item::RupeePurple18)
    } else if owned.eq(&"RupeeSilver01".to_owned()) {
        Some(Item::RupeeSilver01)
    } else if owned.eq(&"RupeeSilver02".to_owned()) {
        Some(Item::RupeeSilver02)
    } else if owned.eq(&"RupeeSilver03".to_owned()) {
        Some(Item::RupeeSilver03)
    } else if owned.eq(&"RupeeSilver04".to_owned()) {
        Some(Item::RupeeSilver04)
    } else if owned.eq(&"RupeeSilver05".to_owned()) {
        Some(Item::RupeeSilver05)
    } else if owned.eq(&"RupeeSilver06".to_owned()) {
        Some(Item::RupeeSilver06)
    } else if owned.eq(&"RupeeSilver07".to_owned()) {
        Some(Item::RupeeSilver07)
    } else if owned.eq(&"RupeeSilver08".to_owned()) {
        Some(Item::RupeeSilver08)
    } else if owned.eq(&"RupeeSilver09".to_owned()) {
        Some(Item::RupeeSilver09)
    } else if owned.eq(&"RupeeSilver10".to_owned()) {
        Some(Item::RupeeSilver10)
    } else if owned.eq(&"RupeeSilver11".to_owned()) {
        Some(Item::RupeeSilver11)
    } else if owned.eq(&"RupeeSilver12".to_owned()) {
        Some(Item::RupeeSilver12)
    } else if owned.eq(&"RupeeSilver13".to_owned()) {
        Some(Item::RupeeSilver13)
    } else if owned.eq(&"RupeeSilver14".to_owned()) {
        Some(Item::RupeeSilver14)
    } else if owned.eq(&"RupeeSilver15".to_owned()) {
        Some(Item::RupeeSilver15)
    } else if owned.eq(&"RupeeSilver16".to_owned()) {
        Some(Item::RupeeSilver16)
    } else if owned.eq(&"RupeeSilver17".to_owned()) {
        Some(Item::RupeeSilver17)
    } else if owned.eq(&"RupeeSilver18".to_owned()) {
        Some(Item::RupeeSilver18)
    } else if owned.eq(&"RupeeSilver19".to_owned()) {
        Some(Item::RupeeSilver19)
    } else if owned.eq(&"RupeeSilver20".to_owned()) {
        Some(Item::RupeeSilver20)
    } else if owned.eq(&"RupeeSilver21".to_owned()) {
        Some(Item::RupeeSilver21)
    } else if owned.eq(&"RupeeSilver22".to_owned()) {
        Some(Item::RupeeSilver22)
    } else if owned.eq(&"RupeeSilver23".to_owned()) {
        Some(Item::RupeeSilver23)
    } else if owned.eq(&"RupeeSilver24".to_owned()) {
        Some(Item::RupeeSilver24)
    } else if owned.eq(&"RupeeSilver25".to_owned()) {
        Some(Item::RupeeSilver25)
    } else if owned.eq(&"RupeeSilver26".to_owned()) {
        Some(Item::RupeeSilver26)
    } else if owned.eq(&"RupeeSilver27".to_owned()) {
        Some(Item::RupeeSilver27)
    } else if owned.eq(&"RupeeSilver28".to_owned()) {
        Some(Item::RupeeSilver28)
    } else if owned.eq(&"RupeeSilver29".to_owned()) {
        Some(Item::RupeeSilver29)
    } else if owned.eq(&"RupeeSilver30".to_owned()) {
        Some(Item::RupeeSilver30)
    } else if owned.eq(&"RupeeSilver31".to_owned()) {
        Some(Item::RupeeSilver31)
    } else if owned.eq(&"RupeeSilver32".to_owned()) {
        Some(Item::RupeeSilver32)
    } else if owned.eq(&"RupeeSilver33".to_owned()) {
        Some(Item::RupeeSilver33)
    } else if owned.eq(&"RupeeSilver34".to_owned()) {
        Some(Item::RupeeSilver34)
    } else if owned.eq(&"RupeeSilver35".to_owned()) {
        Some(Item::RupeeSilver35)
    } else if owned.eq(&"RupeeSilver36".to_owned()) {
        Some(Item::RupeeSilver36)
    } else if owned.eq(&"RupeeSilver37".to_owned()) {
        Some(Item::RupeeSilver37)
    } else if owned.eq(&"RupeeSilver38".to_owned()) {
        Some(Item::RupeeSilver38)
    } else if owned.eq(&"RupeeGold01".to_owned()) {
        Some(Item::RupeeGold01)
    } else if owned.eq(&"RupeeGold02".to_owned()) {
        Some(Item::RupeeGold02)
    } else if owned.eq(&"RupeeGold03".to_owned()) {
        Some(Item::RupeeGold03)
    } else if owned.eq(&"RupeeGold04".to_owned()) {
        Some(Item::RupeeGold04)
    } else if owned.eq(&"RupeeGold05".to_owned()) {
        Some(Item::RupeeGold05)
    } else if owned.eq(&"RupeeGold06".to_owned()) {
        Some(Item::RupeeGold06)
    } else if owned.eq(&"RupeeGold07".to_owned()) {
        Some(Item::RupeeGold07)
    } else if owned.eq(&"RupeeGold08".to_owned()) {
        Some(Item::RupeeGold08)
    } else if owned.eq(&"MonsterGuts".to_owned()) {
        Some(Item::MonsterGuts)
    } else if owned.eq(&"MonsterHorn".to_owned()) {
        Some(Item::MonsterHorn)
    } else if owned.eq(&"MonsterTail".to_owned()) {
        Some(Item::MonsterTail)
    } else if owned.eq(&"HeartPiece01".to_owned()) {
        Some(Item::HeartPiece01)
    } else if owned.eq(&"HeartPiece02".to_owned()) {
        Some(Item::HeartPiece02)
    } else if owned.eq(&"HeartPiece03".to_owned()) {
        Some(Item::HeartPiece03)
    } else if owned.eq(&"HeartPiece04".to_owned()) {
        Some(Item::HeartPiece04)
    } else if owned.eq(&"HeartPiece05".to_owned()) {
        Some(Item::HeartPiece05)
    } else if owned.eq(&"HeartPiece06".to_owned()) {
        Some(Item::HeartPiece06)
    } else if owned.eq(&"HeartPiece07".to_owned()) {
        Some(Item::HeartPiece07)
    } else if owned.eq(&"HeartPiece08".to_owned()) {
        Some(Item::HeartPiece08)
    } else if owned.eq(&"HeartPiece09".to_owned()) {
        Some(Item::HeartPiece09)
    } else if owned.eq(&"HeartPiece10".to_owned()) {
        Some(Item::HeartPiece10)
    } else if owned.eq(&"HeartPiece11".to_owned()) {
        Some(Item::HeartPiece11)
    } else if owned.eq(&"HeartPiece12".to_owned()) {
        Some(Item::HeartPiece12)
    } else if owned.eq(&"HeartPiece13".to_owned()) {
        Some(Item::HeartPiece13)
    } else if owned.eq(&"HeartPiece14".to_owned()) {
        Some(Item::HeartPiece14)
    } else if owned.eq(&"HeartPiece15".to_owned()) {
        Some(Item::HeartPiece15)
    } else if owned.eq(&"HeartPiece16".to_owned()) {
        Some(Item::HeartPiece16)
    } else if owned.eq(&"HeartPiece17".to_owned()) {
        Some(Item::HeartPiece17)
    } else if owned.eq(&"HeartPiece18".to_owned()) {
        Some(Item::HeartPiece18)
    } else if owned.eq(&"HeartPiece19".to_owned()) {
        Some(Item::HeartPiece19)
    } else if owned.eq(&"HeartPiece20".to_owned()) {
        Some(Item::HeartPiece20)
    } else if owned.eq(&"HeartPiece21".to_owned()) {
        Some(Item::HeartPiece21)
    } else if owned.eq(&"HeartPiece22".to_owned()) {
        Some(Item::HeartPiece22)
    } else if owned.eq(&"HeartPiece23".to_owned()) {
        Some(Item::HeartPiece23)
    } else if owned.eq(&"HeartPiece24".to_owned()) {
        Some(Item::HeartPiece24)
    } else if owned.eq(&"HeartPiece25".to_owned()) {
        Some(Item::HeartPiece25)
    } else if owned.eq(&"HeartPiece26".to_owned()) {
        Some(Item::HeartPiece26)
    } else if owned.eq(&"HeartPiece27".to_owned()) {
        Some(Item::HeartPiece27)
    } else if owned.eq(&"HeartContainer01".to_owned()) {
        Some(Item::HeartContainer01)
    } else if owned.eq(&"HeartContainer02".to_owned()) {
        Some(Item::HeartContainer02)
    } else if owned.eq(&"HeartContainer03".to_owned()) {
        Some(Item::HeartContainer03)
    } else if owned.eq(&"HeartContainer04".to_owned()) {
        Some(Item::HeartContainer04)
    } else if owned.eq(&"HeartContainer05".to_owned()) {
        Some(Item::HeartContainer05)
    } else if owned.eq(&"HeartContainer06".to_owned()) {
        Some(Item::HeartContainer06)
    } else if owned.eq(&"HeartContainer07".to_owned()) {
        Some(Item::HeartContainer07)
    } else if owned.eq(&"HeartContainer08".to_owned()) {
        Some(Item::HeartContainer08)
    } else if owned.eq(&"HeartContainer09".to_owned()) {
        Some(Item::HeartContainer09)
    } else if owned.eq(&"HeartContainer10".to_owned()) {
        Some(Item::HeartContainer10)
    } else if owned.eq(&"Bottle01".to_owned()) {
        Some(Item::Bottle01)
    } else if owned.eq(&"Bottle02".to_owned()) {
        Some(Item::Bottle02)
    } else if owned.eq(&"Bottle03".to_owned()) {
        Some(Item::Bottle03)
    } else if owned.eq(&"Bottle04".to_owned()) {
        Some(Item::Bottle04)
    } else if owned.eq(&"Bottle05".to_owned()) {
        Some(Item::Bottle05)
    } else if owned.eq(&"Lamp01".to_owned()) {
        Some(Item::Lamp01)
    } else if owned.eq(&"Lamp02".to_owned()) {
        Some(Item::Lamp02)
    } else if owned.eq(&"Sword01".to_owned()) {
        Some(Item::Sword01)
    } else if owned.eq(&"Sword02".to_owned()) {
        Some(Item::Sword02)
    } else if owned.eq(&"Sword03".to_owned()) {
        Some(Item::Sword03)
    } else if owned.eq(&"Sword04".to_owned()) {
        Some(Item::Sword04)
    } else if owned.eq(&"Glove01".to_owned()) {
        Some(Item::Glove01)
    } else if owned.eq(&"Glove02".to_owned()) {
        Some(Item::Glove02)
    } else if owned.eq(&"Net01".to_owned()) {
        Some(Item::Net01)
    } else if owned.eq(&"Net02".to_owned()) {
        Some(Item::Net02)
    } else if owned.eq(&"Mail01".to_owned()) {
        Some(Item::Mail01)
    } else if owned.eq(&"Mail02".to_owned()) {
        Some(Item::Mail02)
    } else if owned.eq(&"OreYellow".to_owned()) {
        Some(Item::OreYellow)
    } else if owned.eq(&"OreGreen".to_owned()) {
        Some(Item::OreGreen)
    } else if owned.eq(&"OreBlue".to_owned()) {
        Some(Item::OreBlue)
    } else if owned.eq(&"OreRed".to_owned()) {
        Some(Item::OreRed)
    } else if owned.eq(&"HyruleSanctuaryKey".to_owned()) {
        Some(Item::HyruleSanctuaryKey)
    } else if owned.eq(&"LoruleSanctuaryKey".to_owned()) {
        Some(Item::LoruleSanctuaryKey)
    } else if owned.eq(&"EasternCompass".to_owned()) {
        Some(Item::EasternCompass)
    } else if owned.eq(&"EasternKeyBig".to_owned()) {
        Some(Item::EasternKeyBig)
    } else if owned.eq(&"EasternKeySmall01".to_owned()) {
        Some(Item::EasternKeySmall01)
    } else if owned.eq(&"EasternKeySmall02".to_owned()) {
        Some(Item::EasternKeySmall02)
    } else if owned.eq(&"GalesCompass".to_owned()) {
        Some(Item::GalesCompass)
    } else if owned.eq(&"GalesKeyBig".to_owned()) {
        Some(Item::GalesKeyBig)
    } else if owned.eq(&"GalesKeySmall01".to_owned()) {
        Some(Item::GalesKeySmall01)
    } else if owned.eq(&"GalesKeySmall02".to_owned()) {
        Some(Item::GalesKeySmall02)
    } else if owned.eq(&"GalesKeySmall03".to_owned()) {
        Some(Item::GalesKeySmall03)
    } else if owned.eq(&"GalesKeySmall04".to_owned()) {
        Some(Item::GalesKeySmall04)
    } else if owned.eq(&"HeraCompass".to_owned()) {
        Some(Item::HeraCompass)
    } else if owned.eq(&"HeraKeyBig".to_owned()) {
        Some(Item::HeraKeyBig)
    } else if owned.eq(&"HeraKeySmall01".to_owned()) {
        Some(Item::HeraKeySmall01)
    } else if owned.eq(&"HeraKeySmall02".to_owned()) {
        Some(Item::HeraKeySmall02)
    } else if owned.eq(&"DarkCompass".to_owned()) {
        Some(Item::DarkCompass)
    } else if owned.eq(&"DarkKeyBig".to_owned()) {
        Some(Item::DarkKeyBig)
    } else if owned.eq(&"DarkKeySmall01".to_owned()) {
        Some(Item::DarkKeySmall01)
    } else if owned.eq(&"DarkKeySmall02".to_owned()) {
        Some(Item::DarkKeySmall02)
    } else if owned.eq(&"DarkKeySmall03".to_owned()) {
        Some(Item::DarkKeySmall03)
    } else if owned.eq(&"DarkKeySmall04".to_owned()) {
        Some(Item::DarkKeySmall04)
    } else if owned.eq(&"SwampCompass".to_owned()) {
        Some(Item::SwampCompass)
    } else if owned.eq(&"SwampKeyBig".to_owned()) {
        Some(Item::SwampKeyBig)
    } else if owned.eq(&"SwampKeySmall01".to_owned()) {
        Some(Item::SwampKeySmall01)
    } else if owned.eq(&"SwampKeySmall02".to_owned()) {
        Some(Item::SwampKeySmall02)
    } else if owned.eq(&"SwampKeySmall03".to_owned()) {
        Some(Item::SwampKeySmall03)
    } else if owned.eq(&"SwampKeySmall04".to_owned()) {
        Some(Item::SwampKeySmall04)
    } else if owned.eq(&"SkullCompass".to_owned()) {
        Some(Item::SkullCompass)
    } else if owned.eq(&"SkullKeyBig".to_owned()) {
        Some(Item::SkullKeyBig)
    } else if owned.eq(&"SkullKeySmall01".to_owned()) {
        Some(Item::SkullKeySmall01)
    } else if owned.eq(&"SkullKeySmall02".to_owned()) {
        Some(Item::SkullKeySmall02)
    } else if owned.eq(&"SkullKeySmall03".to_owned()) {
        Some(Item::SkullKeySmall03)
    } else if owned.eq(&"ThievesCompass".to_owned()) {
        Some(Item::ThievesCompass)
    } else if owned.eq(&"ThievesKeyBig".to_owned()) {
        Some(Item::ThievesKeyBig)
    } else if owned.eq(&"ThievesKeySmall".to_owned()) {
        Some(Item::ThievesKeySmall)
    } else if owned.eq(&"IceCompass".to_owned()) {
        Some(Item::IceCompass)
    } else if owned.eq(&"IceKeyBig".to_owned()) {
        Some(Item::IceKeyBig)
    } else if owned.eq(&"IceKeySmall01".to_owned()) {
        Some(Item::IceKeySmall01)
    } else if owned.eq(&"IceKeySmall02".to_owned()) {
        Some(Item::IceKeySmall02)
    } else if owned.eq(&"IceKeySmall03".to_owned()) {
        Some(Item::IceKeySmall03)
    } else if owned.eq(&"DesertCompass".to_owned()) {
        Some(Item::DesertCompass)
    } else if owned.eq(&"DesertKeyBig".to_owned()) {
        Some(Item::DesertKeyBig)
    } else if owned.eq(&"DesertKeySmall01".to_owned()) {
        Some(Item::DesertKeySmall01)
    } else if owned.eq(&"DesertKeySmall02".to_owned()) {
        Some(Item::DesertKeySmall02)
    } else if owned.eq(&"DesertKeySmall03".to_owned()) {
        Some(Item::DesertKeySmall03)
    } else if owned.eq(&"DesertKeySmall04".to_owned()) {
        Some(Item::DesertKeySmall04)
    } else if owned.eq(&"DesertKeySmall05".to_owned()) {
        Some(Item::DesertKeySmall05)
    } else if owned.eq(&"TurtleCompass".to_owned()) {
        Some(Item::TurtleCompass)
    } else if owned.eq(&"TurtleKeyBig".to_owned()) {
        Some(Item::TurtleKeyBig)
    } else if owned.eq(&"TurtleKeySmall01".to_owned()) {
        Some(Item::TurtleKeySmall01)
    } else if owned.eq(&"TurtleKeySmall02".to_owned()) {
        Some(Item::TurtleKeySmall02)
    } else if owned.eq(&"TurtleKeySmall03".to_owned()) {
        Some(Item::TurtleKeySmall03)
    } else if owned.eq(&"LoruleCastleCompass".to_owned()) {
        Some(Item::LoruleCastleCompass)
    } else if owned.eq(&"LoruleCastleKeySmall01".to_owned()) {
        Some(Item::LoruleCastleKeySmall01)
    } else if owned.eq(&"LoruleCastleKeySmall02".to_owned()) {
        Some(Item::LoruleCastleKeySmall02)
    } else if owned.eq(&"LoruleCastleKeySmall03".to_owned()) {
        Some(Item::LoruleCastleKeySmall03)
    } else if owned.eq(&"LoruleCastleKeySmall04".to_owned()) {
        Some(Item::LoruleCastleKeySmall04)
    } else if owned.eq(&"LoruleCastleKeySmall05".to_owned()) {
        Some(Item::LoruleCastleKeySmall05)
    } else if owned.eq(&"PendantOfCourage".to_owned()) {
        Some(Item::PendantOfCourage)
    } else if owned.eq(&"PendantOfWisdom".to_owned()) {
        Some(Item::PendantOfWisdom)
    } else if owned.eq(&"PendantOfPower".to_owned()) {
        Some(Item::PendantOfPower)
    } else if owned.eq(&"SageGulley".to_owned()) {
        Some(Item::SageGulley)
    } else if owned.eq(&"SageOren".to_owned()) {
        Some(Item::SageOren)
    } else if owned.eq(&"SageSeres".to_owned()) {
        Some(Item::SageSeres)
    } else if owned.eq(&"SageOsfala".to_owned()) {
        Some(Item::SageOsfala)
    } else if owned.eq(&"SageRosso".to_owned()) {
        Some(Item::SageRosso)
    } else if owned.eq(&"SageIrene".to_owned()) {
        Some(Item::SageIrene)
    } else if owned.eq(&"SageImpa".to_owned()) {
        Some(Item::SageImpa)
    } else if owned.eq(&"ScootFruit".to_owned()) {
        Some(Item::ScootFruit)
    } else if owned.eq(&"FoulFruit".to_owned()) {
        Some(Item::FoulFruit)
    } else if owned.eq(&"Shield".to_owned()) {
        Some(Item::Shield)
    } else if owned.eq(&"GoldBee".to_owned()) {
        Some(Item::GoldBee)
    } else if owned.eq(&"OpenSanctuaryDoors".to_owned()) {
        Some(Item::OpenSanctuaryDoors)
    } else if owned.eq(&"BigBombFlower".to_owned()) {
        Some(Item::BigBombFlower)
    } else if owned.eq(&"StylishWomansHouseOpen".to_owned()) {
        Some(Item::StylishWomansHouseOpen)
    } else if owned.eq(&"SkullEyeRight".to_owned()) {
        Some(Item::SkullEyeRight)
    } else if owned.eq(&"SkullEyeLeft".to_owned()) {
        Some(Item::SkullEyeLeft)
    } else if owned.eq(&"AccessPotionShop".to_owned()) {
        Some(Item::AccessPotionShop)
    } else if owned.eq(&"AccessMilkBar".to_owned()) {
        Some(Item::AccessMilkBar)
    } else if owned.eq(&"AccessHyruleBlacksmith".to_owned()) {
        Some(Item::AccessHyruleBlacksmith)
    } else if owned.eq(&"AccessLoruleCastleField".to_owned()) {
        Some(Item::AccessLoruleCastleField)
    } else if owned.eq(&"Triforce".to_owned()) {
        Some(Item::Triforce)
    } else {
        None
    }
}

/// A lookup that returns a matching item, or none where no token matches,
/// is exactly the derived reverse registry: the forward table is
/// injective, so the match is unique.
pub proof fn lemma_token_lookup_characterization(s: Seq<char>, r: Option<Item>)
    requires
        r is Some ==> item_token(r->Some_0) == s,
        r is None ==> forall|i: Item| item_token(i) != s,
    ensures
        r == spec_token_to_item(s),
{
    lemma_token_injective();
    if r is Some {
        assert(item_token(r->Some_0) == s);
        let j = choose|i: Item| item_token(i) == s;
        assert(item_token(j) == item_token(r->Some_0));
    }
}

/// Reverse registry lookup as executable code.
pub fn token_to_item(s: &str) -> (r: Option<Item>)
    ensures
        r == spec_token_to_item(s@),
{
    let r = token_scan(s);
    proof {
        lemma_token_lookup_characterization(s@, r);
    }
    r
}

/// Resolves a wire token that is known to the registry; an unknown token
/// is a fatal host/engine catalog mismatch and is ruled out up front.
pub fn string_to_filler_item(s: &String) -> (r: Item)
    requires
        spec_token_to_item(s@) is Some,
    ensures
        spec_token_to_item(s@) == Some(r),
{
    token_to_item(s.as_str()).unwrap()
}

/// Tests whether an item is an event pseudo-item.
pub fn is_event(i: Item) -> (b: bool)
    ensures
        b == is_event_item(i),
{
    match i {
        Item::OpenSanctuaryDoors | Item::BigBombFlower | Item::StylishWomansHouseOpen
        | Item::SkullEyeRight | Item::SkullEyeLeft | Item::AccessPotionShop
        | Item::AccessMilkBar | Item::AccessHyruleBlacksmith | Item::AccessLoruleCastleField
        | Item::Triforce => true,
        _ => false,
    }
}

/// Tests whether an item is an optional super variant.
pub fn is_super(i: Item) -> (b: bool)
    ensures
        b == is_super_item(i),
{
    match i {
        Item::Lamp02 | Item::Net02 => true,
        _ => false,
    }
}

/// Tests whether an item is inherently progression-capable.
pub fn is_progression(i: Item) -> (b: bool)
    ensures
        b == is_progression_base(i),
{
    match i {
        Item::Bow01 | Item::Bow02 | Item::Boomerang01
        | Item::Boomerang02 | Item::Hookshot01 | Item::Hookshot02
        | Item::Bombs01 | Item::Bombs02 | Item::FireRod01
        | Item::FireRod02 | Item::IceRod01 | Item::IceRod02
        | Item::Hammer01 | Item::Hammer02 | Item::SandRod01
        | Item::SandRod02 | Item::TornadoRod01 | Item::TornadoRod02
        | Item::Bell | Item::StaminaScroll | Item::BowOfLight
        | Item::PegasusBoots | Item::Flippers | Item::RaviosBracelet01
        | Item::RaviosBracelet02 | Item::HylianShield | Item::SmoothGem
        | Item::LetterInABottle | Item::PremiumMilk | Item::Bottle01
        | Item::Bottle02 | Item::Bottle03 | Item::Bottle04
        | Item::Bottle05 | Item::Lamp01 | Item::Sword01
        | Item::Sword02 | Item::Sword03 | Item::Sword04
        | Item::Glove01 | Item::Glove02 | Item::Net01
        | Item::Mail01 | Item::Mail02 | Item::OreYellow
        | Item::OreGreen | Item::OreBlue | Item::OreRed
        | Item::HyruleSanctuaryKey | Item::LoruleSanctuaryKey | Item::EasternKeyBig
        | Item::EasternKeySmall01 | Item::EasternKeySmall02 | Item::GalesKeyBig
        | Item::GalesKeySmall01 | Item::GalesKeySmall02 | Item::GalesKeySmall03
        | Item::GalesKeySmall04 | Item::HeraKeyBig | Item::HeraKeySmall01
        | Item::HeraKeySmall02 | Item::DarkKeyBig | Item::DarkKeySmall01
        | Item::DarkKeySmall02 | Item::DarkKeySmall03 | Item::DarkKeySmall04
        | Item::SwampKeyBig | Item::SwampKeySmall01 | Item::SwampKeySmall02
        | Item::SwampKeySmall03 | Item::SwampKeySmall04 | Item::SkullKeyBig
        | Item::SkullKeySmall01 | Item::SkullKeySmall02 | Item::SkullKeySmall03
        | Item::ThievesKeyBig | Item::ThievesKeySmall | Item::IceKeyBig
        | Item::IceKeySmall01 | Item::IceKeySmall02 | Item::IceKeySmall03
        | Item::DesertKeyBig | Item::DesertKeySmall01 | Item::DesertKeySmall02
        | Item::DesertKeySmall03 | Item::DesertKeySmall04 | Item::DesertKeySmall05
        | Item::TurtleKeyBig | Item::TurtleKeySmall01 | Item::TurtleKeySmall02
        | Item::TurtleKeySmall03 | Item::LoruleCastleKeySmall01 | Item::LoruleCastleKeySmall02
        | Item::LoruleCastleKeySmall03 | Item::LoruleCastleKeySmall04 | Item::LoruleCastleKeySmall05
        | Item::PendantOfCourage | Item::PendantOfWisdom | Item::PendantOfPower
        | Item::SageGulley | Item::SageOren | Item::SageSeres
        | Item::SageOsfala | Item::SageRosso | Item::SageIrene
        | Item::SageImpa | Item::GoldBee => true,
        _ => false,
    }
}

/// The catalog offers the core gear that the built-in world's gates name.
pub proof fn lemma_catalog_contains_core_gear()
    ensures
        catalog_seq().contains(Item::Bow01),
        catalog_seq().contains(Item::Flippers),
        catalog_seq().contains(Item::Lamp01),
        catalog_seq().contains(Item::Sword01),
        catalog_seq().contains(Item::Sword02),
        catalog_seq().contains(Item::Glove01),
{
    broadcast use vstd::seq_lib::lemma_seq_concat_contains_all_elements;

    assert(gear_seq()[0] == Item::Bow01);
    assert(gear_seq().contains(Item::Bow01));
    assert(gear_seq()[22] == Item::Flippers);
    assert(gear_seq().contains(Item::Flippers));
    assert(equipment_seq()[0] == Item::Lamp01);
    assert(equipment_seq().contains(Item::Lamp01));
    assert(equipment_seq()[2] == Item::Sword01);
    assert(equipment_seq().contains(Item::Sword01));
    assert(equipment_seq()[3] == Item::Sword02);
    assert(equipment_seq().contains(Item::Sword02));
    assert(equipment_seq()[6] == Item::Glove01);
    assert(equipment_seq().contains(Item::Glove01));
}






/// The length of every wire token.
pub open spec fn token_len(i: Item) -> int {
    match i {
        Item::Bow01 => 5,
        Item::Bow02 => 5,
        Item::Boomerang01 => 11,
        Item::Boomerang02 => 11,
        Item::Hookshot01 => 10,
        Item::Hookshot02 => 10,
        Item::Bombs01 => 7,
        Item::Bombs02 => 7,
        Item::FireRod01 => 9,
        Item::FireRod02 => 9,
        Item::IceRod01 => 8,
        Item::IceRod02 => 8,
        Item::Hammer01 => 8,
        Item::Hammer02 => 8,
        Item::SandRod01 => 9,
        Item::SandRod02 => 9,
        Item::TornadoRod01 => 12,
        Item::TornadoRod02 => 12,
        Item::Bell => 4,
        Item::StaminaScroll => 13,
        Item::BowOfLight => 10,
        Item::PegasusBoots => 12,
        Item::Flippers => 8,
        Item::RaviosBracelet01 => 16,
        Item::RaviosBracelet02 => 16,
        Item::HylianShield => 12,
        Item::SmoothGem => 9,
        Item::LetterInABottle => 15,
        Item::PremiumMilk => 11,
        Item::Pouch => 5,
        Item::BeeBadge => 8,
        Item::HintGlasses => 11,
        Item::RupeeGreen => 10,
        Item::RupeeBlue => 9,
        Item::RupeeRed => 8,
        Item::RupeePurple01 => 13,
        Item::RupeePurple02 => 13,
        Item::RupeePurple03 => 13,
        Item::RupeePurple04 => 13,
        Item::RupeePurple05 => 13,
        Item::RupeePurple06 => 13,
        Item::RupeePurple07 => 13,
        Item::RupeePurple08 => 13,
        Item::RupeePurple09 => 13,
        Item::RupeePurple10 => 13,
        Item::RupeePurple11 => 13,
        Item::RupeePurple12 => 13,
        Item::RupeePurple13 => 13,
        Item::RupeePurple14 => 13,
        Item::RupeePurple15 => 13,
        Item::RupeePurple16 => 13,
        Item::RupeePurple17 => 13,
        Item::RupeePurple18 => 13,
        Item::RupeeSilver01 => 13,
        Item::RupeeSilver02 => 13,
        Item::RupeeSilver03 => 13,
        Item::RupeeSilver04 => 13,
        Item::RupeeSilver05 => 13,
        Item::RupeeSilver06 => 13,
        Item::RupeeSilver07 => 13,
        Item::RupeeSilver08 => 13,
        Item::RupeeSilver09 => 13,
        Item::RupeeSilver10 => 13,
        Item::RupeeSilver11 => 13,
        Item::RupeeSilver12 => 13,
        Item::RupeeSilver13 => 13,
        Item::RupeeSilver14 => 13,
        Item::RupeeSilver15 => 13,
        Item::RupeeSilver16 => 13,
        Item::RupeeSilver17 => 13,
        Item::RupeeSilver18 => 13,
        Item::RupeeSilver19 => 13,
        Item::RupeeSilver20 => 13,
        Item::RupeeSilver21 => 13,
        Item::RupeeSilver22 => 13,
        Item::RupeeSilver23 => 13,
        Item::RupeeSilver24 => 13,
        Item::RupeeSilver25 => 13,
        Item::RupeeSilver26 => 13,
        Item::RupeeSilver27 => 13,
        Item::RupeeSilver28 => 13,
        Item::RupeeSilver29 => 13,
        Item::RupeeSilver30 => 13,
        Item::RupeeSilver31 => 13,
        Item::RupeeSilver32 => 13,
        Item::RupeeSilver33 => 13,
        Item::RupeeSilver34 => 13,
        Item::RupeeSilver35 => 13,
        Item::RupeeSilver36 => 13,
        Item::RupeeSilver37 => 13,
        Item::RupeeSilver38 => 13,
        Item::RupeeGold01 => 11,
        Item::RupeeGold02 => 11,
        Item::RupeeGold03 => 11,
        Item::RupeeGold04 => 11,
        Item::RupeeGold05 => 11,
        Item::RupeeGold06 => 11,
        Item::RupeeGold07 => 11,
        Item::RupeeGold08 => 11,
        Item::MonsterGuts => 11,
        Item::MonsterHorn => 11,
        Item::MonsterTail => 11,
        Item::HeartPiece01 => 12,
        Item::HeartPiece02 => 12,
        Item::HeartPiece03 => 12,
        Item::HeartPiece04 => 12,
        Item::HeartPiece05 => 12,
        Item::HeartPiece06 => 12,
        Item::HeartPiece07 => 12,
        Item::HeartPiece08 => 12,
        Item::HeartPiece09 => 12,
        Item::HeartPiece10 => 12,
        Item::HeartPiece11 => 12,
        Item::HeartPiece12 => 12,
        Item::HeartPiece13 => 12,
        Item::HeartPiece14 => 12,
        Item::HeartPiece15 => 12,
        Item::HeartPiece16 => 12,
        Item::HeartPiece17 => 12,
        Item::HeartPiece18 => 12,
        Item::HeartPiece19 => 12,
        Item::HeartPiece20 => 12,
        Item::HeartPiece21 => 12,
        Item::HeartPiece22 => 12,
        Item::HeartPiece23 => 12,
        Item::HeartPiece24 => 12,
        Item::HeartPiece25 => 12,
        Item::HeartPiece26 => 12,
        Item::HeartPiece27 => 12,
        Item::HeartContainer01 => 16,
        Item::HeartContainer02 => 16,
        Item::HeartContainer03 => 16,
        Item::HeartContainer04 => 16,
        Item::HeartContainer05 => 16,
        Item::HeartContainer06 => 16,
        Item::HeartContainer07 => 16,
        Item::HeartContainer08 => 16,
        Item::HeartContainer09 => 16,
        Item::HeartContainer10 => 16,
        Item::Bottle01 => 8,
        Item::Bottle02 => 8,
        Item::Bottle03 => 8,
        Item::Bottle04 => 8,
        Item::Bottle05 => 8,
        Item::Lamp01 => 6,
        Item::Lamp02 => 6,
        Item::Sword01 => 7,
        Item::Sword02 => 7,
        Item::Sword03 => 7,
        Item::Sword04 => 7,
        Item::Glove01 => 7,
        Item::Glove02 => 7,
        Item::Net01 => 5,
        Item::Net02 => 5,
        Item::Mail01 => 6,
        Item::Mail02 => 6,
        Item::OreYellow => 9,
        Item::OreGreen => 8,
        Item::OreBlue => 7,
        Item::OreRed => 6,
        Item::HyruleSanctuaryKey => 18,
        Item::LoruleSanctuaryKey => 18,
        Item::EasternCompass => 14,
        Item::EasternKeyBig => 13,
        Item::EasternKeySmall01 => 17,
        Item::EasternKeySmall02 => 17,
        Item::GalesCompass => 12,
        Item::GalesKeyBig => 11,
        Item::GalesKeySmall01 => 15,
        Item::GalesKeySmall02 => 15,
        Item::GalesKeySmall03 => 15,
        Item::GalesKeySmall04 => 15,
        Item::HeraCompass => 11,
        Item::HeraKeyBig => 10,
        Item::HeraKeySmall01 => 14,
        Item::HeraKeySmall02 => 14,
        Item::DarkCompass => 11,
        Item::DarkKeyBig => 10,
        Item::DarkKeySmall01 => 14,
        Item::DarkKeySmall02 => 14,
        Item::DarkKeySmall03 => 14,
        Item::DarkKeySmall04 => 14,
        Item::SwampCompass => 12,
        Item::SwampKeyBig => 11,
        Item::SwampKeySmall01 => 15,
        Item::SwampKeySmall02 => 15,
        Item::SwampKeySmall03 => 15,
        Item::SwampKeySmall04 => 15,
        Item::SkullCompass => 12,
        Item::SkullKeyBig => 11,
        Item::SkullKeySmall01 => 15,
        Item::SkullKeySmall02 => 15,
        Item::SkullKeySmall03 => 15,
        Item::ThievesCompass => 14,
        Item::ThievesKeyBig => 13,
        Item::ThievesKeySmall => 15,
        Item::IceCompass => 10,
        Item::IceKeyBig => 9,
        Item::IceKeySmall01 => 13,
        Item::IceKeySmall02 => 13,
        Item::IceKeySmall03 => 13,
        Item::DesertCompass => 13,
        Item::DesertKeyBig => 12,
        Item::DesertKeySmall01 => 16,
        Item::DesertKeySmall02 => 16,
        Item::DesertKeySmall03 => 16,
        Item::DesertKeySmall04 => 16,
        Item::DesertKeySmall05 => 16,
        Item::TurtleCompass => 13,
        Item::TurtleKeyBig => 12,
        Item::TurtleKeySmall01 => 16,
        Item::TurtleKeySmall02 => 16,
        Item::TurtleKeySmall03 => 16,
        Item::LoruleCastleCompass => 19,
        Item::LoruleCastleKeySmall01 => 22,
        Item::LoruleCastleKeySmall02 => 22,
        Item::LoruleCastleKeySmall03 => 22,
        Item::LoruleCastleKeySmall04 => 22,
        Item::LoruleCastleKeySmall05 => 22,
        Item::PendantOfCourage => 16,
        Item::PendantOfWisdom => 15,
        Item::PendantOfPower => 14,
        Item::SageGulley => 10,
        Item::SageOren => 8,
        Item::SageSeres => 9,
        Item::SageOsfala => 10,
        Item::SageRosso => 9,
        Item::SageIrene => 9,
        Item::SageImpa => 8,
        Item::ScootFruit => 10,
        Item::FoulFruit => 9,
        Item::Shield => 6,
        Item::GoldBee => 7,
        Item::OpenSanctuaryDoors => 18,
        Item::BigBombFlower => 13,
        Item::StylishWomansHouseOpen => 22,
        Item::SkullEyeRight => 13,
        Item::SkullEyeLeft => 12,
        Item::AccessPotionShop => 16,
        Item::AccessMilkBar => 13,
        Item::AccessHyruleBlacksmith => 22,
        Item::AccessLoruleCastleField => 23,
        Item::Triforce => 8,
    }
}

/// Every wire token has the length the table gives it, read off the
/// revealed literals.
#[verifier::rlimit(100)]
proof fn lemma_token_lens()
    ensures
        forall|i: Item| (#[trigger] item_token(i)).len() == token_len(i),
{
    reveal_strlit("Bow01");
    reveal_strlit("Bow02");
    reveal_strlit("Boomerang01");
    reveal_strlit("Boomerang02");
    reveal_strlit("Hookshot01");
    reveal_strlit("Hookshot02");
    reveal_strlit("Bombs01");
    reveal_strlit("Bombs02");
    reveal_strlit("FireRod01");
    reveal_strlit("FireRod02");
    reveal_strlit("IceRod01");
    reveal_strlit("IceRod02");
    reveal_strlit("Hammer01");
    reveal_strlit("Hammer02");
    reveal_strlit("SandRod01");
    reveal_strlit("SandRod02");
    reveal_strlit("TornadoRod01");
    reveal_strlit("TornadoRod02");
    reveal_strlit("Bell");
    reveal_strlit("StaminaScroll");
    reveal_strlit("BowOfLight");
    reveal_strlit("PegasusBoots");
    reveal_strlit("Flippers");
    reveal_strlit("RaviosBracelet01");
    reveal_strlit("RaviosBracelet02");
    reveal_strlit("HylianShield");
    reveal_strlit("SmoothGem");
    reveal_strlit("LetterInABottle");
    reveal_strlit("PremiumMilk");
    reveal_strlit("Pouch");
    reveal_strlit("BeeBadge");
    reveal_strlit("HintGlasses");
    reveal_strlit("RupeeGreen");
    reveal_strlit("RupeeBlue");
    reveal_strlit("RupeeRed");
    reveal_strlit("RupeePurple01");
    reveal_strlit("RupeePurple02");
    reveal_strlit("RupeePurple03");
    reveal_strlit("RupeePurple04");
    reveal_strlit("RupeePurple05");
    reveal_strlit("RupeePurple06");
    reveal_strlit("RupeePurple07");
    reveal_strlit("RupeePurple08");
    reveal_strlit("RupeePurple09");
    reveal_strlit("RupeePurple10");
    reveal_strlit("RupeePurple11");
    reveal_strlit("RupeePurple12");
    reveal_strlit("RupeePurple13");
    reveal_strlit("RupeePurple14");
    reveal_strlit("RupeePurple15");
    reveal_strlit("RupeePurple16");
    reveal_strlit("RupeePurple17");
    reveal_strlit("RupeePurple18");
    reveal_strlit("RupeeSilver01");
    reveal_strlit("RupeeSilver02");
    reveal_strlit("RupeeSilver03");
    reveal_strlit("RupeeSilver04");
    reveal_strlit("RupeeSilver05");
    reveal_strlit("RupeeSilver06");
    reveal_strlit("RupeeSilver07");
    reveal_strlit("RupeeSilver08");
    reveal_strlit("RupeeSilver09");
    reveal_strlit("RupeeSilver10");
    reveal_strlit("RupeeSilver11");
    reveal_strlit("RupeeSilver12");
    reveal_strlit("RupeeSilver13");
    reveal_strlit("RupeeSilver14");
    reveal_strlit("RupeeSilver15");
    reveal_strlit("RupeeSilver16");
    reveal_strlit("RupeeSilver17");
    reveal_strlit("RupeeSilver18");
    reveal_strlit("RupeeSilver19");
    reveal_strlit("RupeeSilver20");
    reveal_strlit("RupeeSilver21");
    reveal_strlit("RupeeSilver22");
    reveal_strlit("RupeeSilver23");
    reveal_strlit("RupeeSilver24");
    reveal_strlit("RupeeSilver25");
    reveal_strlit("RupeeSilver26");
    reveal_strlit("RupeeSilver27");
    reveal_strlit("RupeeSilver28");
    reveal_strlit("RupeeSilver29");
    reveal_strlit("RupeeSilver30");
    reveal_strlit("RupeeSilver31");
    reveal_strlit("RupeeSilver32");
    reveal_strlit("RupeeSilver33");
    reveal_strlit("RupeeSilver34");
    reveal_strlit("RupeeSilver35");
    reveal_strlit("RupeeSilver36");
    reveal_strlit("RupeeSilver37");
    reveal_strlit("RupeeSilver38");
    reveal_strlit("RupeeGold01");
    reveal_strlit("RupeeGold02");
    reveal_strlit("RupeeGold03");
    reveal_strlit("RupeeGold04");
    reveal_strlit("RupeeGold05");
    reveal_strlit("RupeeGold06");
    reveal_strlit("RupeeGold07");
    reveal_strlit("RupeeGold08");
    reveal_strlit("MonsterGuts");
    reveal_strlit("MonsterHorn");
    reveal_strlit("MonsterTail");
    reveal_strlit("HeartPiece01");
    reveal_strlit("HeartPiece02");
    reveal_strlit("HeartPiece03");
    reveal_strlit("HeartPiece04");
    reveal_strlit("HeartPiece05");
    reveal_strlit("HeartPiece06");
    reveal_strlit("HeartPiece07");
    reveal_strlit("HeartPiece08");
    reveal_strlit("HeartPiece09");
    reveal_strlit("HeartPiece10");
    reveal_strlit("HeartPiece11");
    reveal_strlit("HeartPiece12");
    reveal_strlit("HeartPiece13");
    reveal_strlit("HeartPiece14");
    reveal_strlit("HeartPiece15");
    reveal_strlit("HeartPiece16");
    reveal_strlit("HeartPiece17");
    reveal_strlit("HeartPiece18");
    reveal_strlit("HeartPiece19");
    reveal_strlit("HeartPiece20");
    reveal_strlit("HeartPiece21");
    reveal_strlit("HeartPiece22");
    reveal_strlit("HeartPiece23");
    reveal_strlit("HeartPiece24");
    reveal_strlit("HeartPiece25");
    reveal_strlit("HeartPiece26");
    reveal_strlit("HeartPiece27");
    reveal_strlit("HeartContainer01");
    reveal_strlit("HeartContainer02");
    reveal_strlit("HeartContainer03");
    reveal_strlit("HeartContainer04");
    reveal_strlit("HeartContainer05");
    reveal_strlit("HeartContainer06");
    reveal_strlit("HeartContainer07");
    reveal_strlit("HeartContainer08");
    reveal_strlit("HeartContainer09");
    reveal_strlit("HeartContainer10");
    reveal_strlit("Bottle01");
    reveal_strlit("Bottle02");
    reveal_strlit("Bottle03");
    reveal_strlit("Bottle04");
    reveal_strlit("Bottle05");
    reveal_strlit("Lamp01");
    reveal_strlit("Lamp02");
    reveal_strlit("Sword01");
    reveal_strlit("Sword02");
    reveal_strlit("Sword03");
    reveal_strlit("Sword04");
    reveal_strlit("Glove01");
    reveal_strlit("Glove02");
    reveal_strlit("Net01");
    reveal_strlit("Net02");
    reveal_strlit("Mail01");
    reveal_strlit("Mail02");
    reveal_strlit("OreYellow");
    reveal_strlit("OreGreen");
    reveal_strlit("OreBlue");
    reveal_strlit("OreRed");
    reveal_strlit("HyruleSanctuaryKey");
    reveal_strlit("LoruleSanctuaryKey");
    reveal_strlit("EasternCompass");
    reveal_strlit("EasternKeyBig");
    reveal_strlit("EasternKeySmall01");
    reveal_strlit("EasternKeySmall02");
    reveal_strlit("GalesCompass");
    reveal_strlit("GalesKeyBig");
    reveal_strlit("GalesKeySmall01");
    reveal_strlit("GalesKeySmall02");
    reveal_strlit("GalesKeySmall03");
    reveal_strlit("GalesKeySmall04");
    reveal_strlit("HeraCompass");
    reveal_strlit("HeraKeyBig");
    reveal_strlit("HeraKeySmall01");
    reveal_strlit("HeraKeySmall02");
    reveal_strlit("DarkCompass");
    reveal_strlit("DarkKeyBig");
    reveal_strlit("DarkKeySmall01");
    reveal_strlit("DarkKeySmall02");
    reveal_strlit("DarkKeySmall03");
    reveal_strlit("DarkKeySmall04");
    reveal_strlit("SwampCompass");
    reveal_strlit("SwampKeyBig");
    reveal_strlit("SwampKeySmall01");
    reveal_strlit("SwampKeySmall02");
    reveal_strlit("SwampKeySmall03");
    reveal_strlit("SwampKeySmall04");
    reveal_strlit("SkullCompass");
    reveal_strlit("SkullKeyBig");
    reveal_strlit("SkullKeySmall01");
    reveal_strlit("SkullKeySmall02");
    reveal_strlit("SkullKeySmall03");
    reveal_strlit("ThievesCompass");
    reveal_strlit("ThievesKeyBig");
    reveal_strlit("ThievesKeySmall");
    reveal_strlit("IceCompass");
    reveal_strlit("IceKeyBig");
    reveal_strlit("IceKeySmall01");
    reveal_strlit("IceKeySmall02");
    reveal_strlit("IceKeySmall03");
    reveal_strlit("DesertCompass");
    reveal_strlit("DesertKeyBig");
    reveal_strlit("DesertKeySmall01");
    reveal_strlit("DesertKeySmall02");
    reveal_strlit("DesertKeySmall03");
    reveal_strlit("DesertKeySmall04");
    reveal_strlit("DesertKeySmall05");
    reveal_strlit("TurtleCompass");
    reveal_strlit("TurtleKeyBig");
    reveal_strlit("TurtleKeySmall01");
    reveal_strlit("TurtleKeySmall02");
    reveal_strlit("TurtleKeySmall03");
    reveal_strlit("LoruleCastleCompass");
    reveal_strlit("LoruleCastleKeySmall01");
    reveal_strlit("LoruleCastleKeySmall02");
    reveal_strlit("LoruleCastleKeySmall03");
    reveal_strlit("LoruleCastleKeySmall04");
    reveal_strlit("LoruleCastleKeySmall05");
    reveal_strlit("PendantOfCourage");
    reveal_strlit("PendantOfWisdom");
    reveal_strlit("PendantOfPower");
    reveal_strlit("SageGulley");
    reveal_strlit("SageOren");
    reveal_strlit("SageSeres");
    reveal_strlit("SageOsfala");
    reveal_strlit("SageRosso");
    reveal_strlit("SageIrene");
    reveal_strlit("SageImpa");
    reveal_strlit("ScootFruit");
    reveal_strlit("FoulFruit");
    reveal_strlit("Shield");
    reveal_strlit("GoldBee");
    reveal_strlit("OpenSanctuaryDoors");
    reveal_strlit("BigBombFlower");
    reveal_strlit("StylishWomansHouseOpen");
    reveal_strlit("SkullEyeRight");
    reveal_strlit("SkullEyeLeft");
    reveal_strlit("AccessPotionShop");
    reveal_strlit("AccessMilkBar");
    reveal_strlit("AccessHyruleBlacksmith");
    reveal_strlit("AccessLoruleCastleField");
    reveal_strlit("Triforce");
    assert forall|i: Item| (#[trigger] item_token(i)).len() == token_len(i) by {
        match i {
            Item::Bow01 => { assert("Bow01"@.len() == 5); },
            Item::Bow02 => { assert("Bow02"@.len() == 5); },
            Item::Boomerang01 => { assert("Boomerang01"@.len() == 11); },
            Item::Boomerang02 => { assert("Boomerang02"@.len() == 11); },
            Item::Hookshot01 => { assert("Hookshot01"@.len() == 10); },
            Item::Hookshot02 => { assert("Hookshot02"@.len() == 10); },
            Item::Bombs01 => { assert("Bombs01"@.len() == 7); },
            Item::Bombs02 => { assert("Bombs02"@.len() == 7); },
            Item::FireRod01 => { assert("FireRod01"@.len() == 9); },
            Item::FireRod02 => { assert("FireRod02"@.len() == 9); },
            Item::IceRod01 => { assert("IceRod01"@.len() == 8); },
            Item::IceRod02 => { assert("IceRod02"@.len() == 8); },
            Item::Hammer01 => { assert("Hammer01"@.len() == 8); },
            Item::Hammer02 => { assert("Hammer02"@.len() == 8); },
            Item::SandRod01 => { assert("SandRod01"@.len() == 9); },
            Item::SandRod02 => { assert("SandRod02"@.len() == 9); },
            Item::TornadoRod01 => { assert("TornadoRod01"@.len() == 12); },
            Item::TornadoRod02 => { assert("TornadoRod02"@.len() == 12); },
            Item::Bell => { assert("Bell"@.len() == 4); },
            Item::StaminaScroll => { assert("StaminaScroll"@.len() == 13); },
            Item::BowOfLight => { assert("BowOfLight"@.len() == 10); },
            Item::PegasusBoots => { assert("PegasusBoots"@.len() == 12); },
            Item::Flippers => { assert("Flippers"@.len() == 8); },
            Item::RaviosBracelet01 => { assert("RaviosBracelet01"@.len() == 16); },
            Item::RaviosBracelet02 => { assert("RaviosBracelet02"@.len() == 16); },
            Item::HylianShield => { assert("HylianShield"@.len() == 12); },
            Item::SmoothGem => { assert("SmoothGem"@.len() == 9); },
            Item::LetterInABottle => { assert("LetterInABottle"@.len() == 15); },
            Item::PremiumMilk => { assert("PremiumMilk"@.len() == 11); },
            Item::Pouch => { assert("Pouch"@.len() == 5); },
            Item::BeeBadge => { assert("BeeBadge"@.len() == 8); },
            Item::HintGlasses => { assert("HintGlasses"@.len() == 11); },
            Item::RupeeGreen => { assert("RupeeGreen"@.len() == 10); },
            Item::RupeeBlue => { assert("RupeeBlue"@.len() == 9); },
            Item::RupeeRed => { assert("RupeeRed"@.len() == 8); },
            Item::RupeePurple01 => { assert("RupeePurple01"@.len() == 13); },
            Item::RupeePurple02 => { assert("RupeePurple02"@.len() == 13); },
            Item::RupeePurple03 => { assert("RupeePurple03"@.len() == 13); },
            Item::RupeePurple04 => { assert("RupeePurple04"@.len() == 13); },
            Item::RupeePurple05 => { assert("RupeePurple05"@.len() == 13); },
            Item::RupeePurple06 => { assert("RupeePurple06"@.len() == 13); },
            Item::RupeePurple07 => { assert("RupeePurple07"@.len() == 13); },
            Item::RupeePurple08 => { assert("RupeePurple08"@.len() == 13); },
            Item::RupeePurple09 => { assert("RupeePurple09"@.len() == 13); },
            Item::RupeePurple10 => { assert("RupeePurple10"@.len() == 13); },
            Item::RupeePurple11 => { assert("RupeePurple11"@.len() == 13); },
            Item::RupeePurple12 => { assert("RupeePurple12"@.len() == 13); },
            Item::RupeePurple13 => { assert("RupeePurple13"@.len() == 13); },
            Item::RupeePurple14 => { assert("RupeePurple14"@.len() == 13); },
            Item::RupeePurple15 => { assert("RupeePurple15"@.len() == 13); },
            Item::RupeePurple16 => { assert("RupeePurple16"@.len() == 13); },
            Item::RupeePurple17 => { assert("RupeePurple17"@.len() == 13); },
            Item::RupeePurple18 => { assert("RupeePurple18"@.len() == 13); },
            Item::RupeeSilver01 => { assert("RupeeSilver01"@.len() == 13); },
            Item::RupeeSilver02 => { assert("RupeeSilver02"@.len() == 13); },
            Item::RupeeSilver03 => { assert("RupeeSilver03"@.len() == 13); },
            Item::RupeeSilver04 => { assert("RupeeSilver04"@.len() == 13); },
            Item::RupeeSilver05 => { assert("RupeeSilver05"@.len() == 13); },
            Item::RupeeSilver06 => { assert("RupeeSilver06"@.len() == 13); },
            Item::RupeeSilver07 => { assert("RupeeSilver07"@.len() == 13); },
            Item::RupeeSilver08 => { assert("RupeeSilver08"@.len() == 13); },
            Item::RupeeSilver09 => { assert("RupeeSilver09"@.len() == 13); },
            Item::RupeeSilver10 => { assert("RupeeSilver10"@.len() == 13); },
            Item::RupeeSilver11 => { assert("RupeeSilver11"@.len() == 13); },
            Item::RupeeSilver12 => { assert("RupeeSilver12"@.len() == 13); },
            Item::RupeeSilver13 => { assert("RupeeSilver13"@.len() == 13); },
            Item::RupeeSilver14 => { assert("RupeeSilver14"@.len() == 13); },
            Item::RupeeSilver15 => { assert("RupeeSilver15"@.len() == 13); },
            Item::RupeeSilver16 => { assert("RupeeSilver16"@.len() == 13); },
            Item::RupeeSilver17 => { assert("RupeeSilver17"@.len() == 13); },
            Item::RupeeSilver18 => { assert("RupeeSilver18"@.len() == 13); },
            Item::RupeeSilver19 => { assert("RupeeSilver19"@.len() == 13); },
            Item::RupeeSilver20 => { assert("RupeeSilver20"@.len() == 13); },
            Item::RupeeSilver21 => { assert("RupeeSilver21"@.len() == 13); },
            Item::RupeeSilver22 => { assert("RupeeSilver22"@.len() == 13); },
            Item::RupeeSilver23 => { assert("RupeeSilver23"@.len() == 13); },
            Item::RupeeSilver24 => { assert("RupeeSilver24"@.len() == 13); },
            Item::RupeeSilver25 => { assert("RupeeSilver25"@.len() == 13); },
            Item::RupeeSilver26 => { assert("RupeeSilver26"@.len() == 13); },
            Item::RupeeSilver27 => { assert("RupeeSilver27"@.len() == 13); },
            Item::RupeeSilver28 => { assert("RupeeSilver28"@.len() == 13); },
            Item::RupeeSilver29 => { assert("RupeeSilver29"@.len() == 13); },
            Item::RupeeSilver30 => { assert("RupeeSilver30"@.len() == 13); },
            Item::RupeeSilver31 => { assert("RupeeSilver31"@.len() == 13); },
            Item::RupeeSilver32 => { assert("RupeeSilver32"@.len() == 13); },
            Item::RupeeSilver33 => { assert("RupeeSilver33"@.len() == 13); },
            Item::RupeeSilver34 => { assert("RupeeSilver34"@.len() == 13); },
            Item::RupeeSilver35 => { assert("RupeeSilver35"@.len() == 13); },
            Item::RupeeSilver36 => { assert("RupeeSilver36"@.len() == 13); },
            Item::RupeeSilver37 => { assert("RupeeSilver37"@.len() == 13); },
            Item::RupeeSilver38 => { assert("RupeeSilver38"@.len() == 13); },
            Item::RupeeGold01 => { assert("RupeeGold01"@.len() == 11); },
            Item::RupeeGold02 => { assert("RupeeGold02"@.len() == 11); },
            Item::RupeeGold03 => { assert("RupeeGold03"@.len() == 11); },
            Item::RupeeGold04 => { assert("RupeeGold04"@.len() == 11); },
            Item::RupeeGold05 => { assert("RupeeGold05"@.len() == 11); },
            Item::RupeeGold06 => { assert("RupeeGold06"@.len() == 11); },
            Item::RupeeGold07 => { assert("RupeeGold07"@.len() == 11); },
            Item::RupeeGold08 => { assert("RupeeGold08"@.len() == 11); },
            Item::MonsterGuts => { assert("MonsterGuts"@.len() == 11); },
            Item::MonsterHorn => { assert("MonsterHorn"@.len() == 11); },
            Item::MonsterTail => { assert("MonsterTail"@.len() == 11); },
            Item::HeartPiece01 => { assert("HeartPiece01"@.len() == 12); },
            Item::HeartPiece02 => { assert("HeartPiece02"@.len() == 12); },
            Item::HeartPiece03 => { assert("HeartPiece03"@.len() == 12); },
            Item::HeartPiece04 => { assert("HeartPiece04"@.len() == 12); },
            Item::HeartPiece05 => { assert("HeartPiece05"@.len() == 12); },
            Item::HeartPiece06 => { assert("HeartPiece06"@.len() == 12); },
            Item::HeartPiece07 => { assert("HeartPiece07"@.len() == 12); },
            Item::HeartPiece08 => { assert("HeartPiece08"@.len() == 12); },
            Item::HeartPiece09 => { assert("HeartPiece09"@.len() == 12); },
            Item::HeartPiece10 => { assert("HeartPiece10"@.len() == 12); },
            Item::HeartPiece11 => { assert("HeartPiece11"@.len() == 12); },
            Item::HeartPiece12 => { assert("HeartPiece12"@.len() == 12); },
            Item::HeartPiece13 => { assert("HeartPiece13"@.len() == 12); },
            Item::HeartPiece14 => { assert("HeartPiece14"@.len() == 12); },
            Item::HeartPiece15 => { assert("HeartPiece15"@.len() == 12); },
            Item::HeartPiece16 => { assert("HeartPiece16"@.len() == 12); },
            Item::HeartPiece17 => { assert("HeartPiece17"@.len() == 12); },
            Item::HeartPiece18 => { assert("HeartPiece18"@.len() == 12); },
            Item::HeartPiece19 => { assert("HeartPiece19"@.len() == 12); },
            Item::HeartPiece20 => { assert("HeartPiece20"@.len() == 12); },
            Item::HeartPiece21 => { assert("HeartPiece21"@.len() == 12); },
            Item::HeartPiece22 => { assert("HeartPiece22"@.len() == 12); },
            Item::HeartPiece23 => { assert("HeartPiece23"@.len() == 12); },
            Item::HeartPiece24 => { assert("HeartPiece24"@.len() == 12); },
            Item::HeartPiece25 => { assert("HeartPiece25"@.len() == 12); },
            Item::HeartPiece26 => { assert("HeartPiece26"@.len() == 12); },
            Item::HeartPiece27 => { assert("HeartPiece27"@.len() == 12); },
            Item::HeartContainer01 => { assert("HeartContainer01"@.len() == 16); },
            Item::HeartContainer02 => { assert("HeartContainer02"@.len() == 16); },
            Item::HeartContainer03 => { assert("HeartContainer03"@.len() == 16); },
            Item::HeartContainer04 => { assert("HeartContainer04"@.len() == 16); },
            Item::HeartContainer05 => { assert("HeartContainer05"@.len() == 16); },
            Item::HeartContainer06 => { assert("HeartContainer06"@.len() == 16); },
            Item::HeartContainer07 => { assert("HeartContainer07"@.len() == 16); },
            Item::HeartContainer08 => { assert("HeartContainer08"@.len() == 16); },
            Item::HeartContainer09 => { assert("HeartContainer09"@.len() == 16); },
            Item::HeartContainer10 => { assert("HeartContainer10"@.len() == 16); },
            Item::Bottle01 => { assert("Bottle01"@.len() == 8); },
            Item::Bottle02 => { assert("Bottle02"@.len() == 8); },
            Item::Bottle03 => { assert("Bottle03"@.len() == 8); },
            Item::Bottle04 => { assert("Bottle04"@.len() == 8); },
            Item::Bottle05 => { assert("Bottle05"@.len() == 8); },
            Item::Lamp01 => { assert("Lamp01"@.len() == 6); },
            Item::Lamp02 => { assert("Lamp02"@.len() == 6); },
            Item::Sword01 => { assert("Sword01"@.len() == 7); },
            Item::Sword02 => { assert("Sword02"@.len() == 7); },
            Item::Sword03 => { assert("Sword03"@.len() == 7); },
            Item::Sword04 => { assert("Sword04"@.len() == 7); },
            Item::Glove01 => { assert("Glove01"@.len() == 7); },
            Item::Glove02 => { assert("Glove02"@.len() == 7); },
            Item::Net01 => { assert("Net01"@.len() == 5); },
            Item::Net02 => { assert("Net02"@.len() == 5); },
            Item::Mail01 => { assert("Mail01"@.len() == 6); },
            Item::Mail02 => { assert("Mail02"@.len() == 6); },
            Item::OreYellow => { assert("OreYellow"@.len() == 9); },
            Item::OreGreen => { assert("OreGreen"@.len() == 8); },
            Item::OreBlue => { assert("OreBlue"@.len() == 7); },
            Item::OreRed => { assert("OreRed"@.len() == 6); },
            Item::HyruleSanctuaryKey => { assert("HyruleSanctuaryKey"@.len() == 18); },
            Item::LoruleSanctuaryKey => { assert("LoruleSanctuaryKey"@.len() == 18); },
            Item::EasternCompass => { assert("EasternCompass"@.len() == 14); },
            Item::EasternKeyBig => { assert("EasternKeyBig"@.len() == 13); },
            Item::EasternKeySmall01 => { assert("EasternKeySmall01"@.len() == 17); },
            Item::EasternKeySmall02 => { assert("EasternKeySmall02"@.len() == 17); },
            Item::GalesCompass => { assert("GalesCompass"@.len() == 12); },
            Item::GalesKeyBig => { assert("GalesKeyBig"@.len() == 11); },
            Item::GalesKeySmall01 => { assert("GalesKeySmall01"@.len() == 15); },
            Item::GalesKeySmall02 => { assert("GalesKeySmall02"@.len() == 15); },
            Item::GalesKeySmall03 => { assert("GalesKeySmall03"@.len() == 15); },
            Item::GalesKeySmall04 => { assert("GalesKeySmall04"@.len() == 15); },
            Item::HeraCompass => { assert("HeraCompass"@.len() == 11); },
            Item::HeraKeyBig => { assert("HeraKeyBig"@.len() == 10); },
            Item::HeraKeySmall01 => { assert("HeraKeySmall01"@.len() == 14); },
            Item::HeraKeySmall02 => { assert("HeraKeySmall02"@.len() == 14); },
            Item::DarkCompass => { assert("DarkCompass"@.len() == 11); },
            Item::DarkKeyBig => { assert("DarkKeyBig"@.len() == 10); },
            Item::DarkKeySmall01 => { assert("DarkKeySmall01"@.len() == 14); },
            Item::DarkKeySmall02 => { assert("DarkKeySmall02"@.len() == 14); },
            Item::DarkKeySmall03 => { assert("DarkKeySmall03"@.len() == 14); },
            Item::DarkKeySmall04 => { assert("DarkKeySmall04"@.len() == 14); },
            Item::SwampCompass => { assert("SwampCompass"@.len() == 12); },
            Item::SwampKeyBig => { assert("SwampKeyBig"@.len() == 11); },
            Item::SwampKeySmall01 => { assert("SwampKeySmall01"@.len() == 15); },
            Item::SwampKeySmall02 => { assert("SwampKeySmall02"@.len() == 15); },
            Item::SwampKeySmall03 => { assert("SwampKeySmall03"@.len() == 15); },
            Item::SwampKeySmall04 => { assert("SwampKeySmall04"@.len() == 15); },
            Item::SkullCompass => { assert("SkullCompass"@.len() == 12); },
            Item::SkullKeyBig => { assert("SkullKeyBig"@.len() == 11); },
            Item::SkullKeySmall01 => { assert("SkullKeySmall01"@.len() == 15); },
            Item::SkullKeySmall02 => { assert("SkullKeySmall02"@.len() == 15); },
            Item::SkullKeySmall03 => { assert("SkullKeySmall03"@.len() == 15); },
            Item::ThievesCompass => { assert("ThievesCompass"@.len() == 14); },
            Item::ThievesKeyBig => { assert("ThievesKeyBig"@.len() == 13); },
            Item::ThievesKeySmall => { assert("ThievesKeySmall"@.len() == 15); },
            Item::IceCompass => { assert("IceCompass"@.len() == 10); },
            Item::IceKeyBig => { assert("IceKeyBig"@.len() == 9); },
            Item::IceKeySmall01 => { assert("IceKeySmall01"@.len() == 13); },
            Item::IceKeySmall02 => { assert("IceKeySmall02"@.len() == 13); },
            Item::IceKeySmall03 => { assert("IceKeySmall03"@.len() == 13); },
            Item::DesertCompass => { assert("DesertCompass"@.len() == 13); },
            Item::DesertKeyBig => { assert("DesertKeyBig"@.len() == 12); },
            Item::DesertKeySmall01 => { assert("DesertKeySmall01"@.len() == 16); },
            Item::DesertKeySmall02 => { assert("DesertKeySmall02"@.len() == 16); },
            Item::DesertKeySmall03 => { assert("DesertKeySmall03"@.len() == 16); },
            Item::DesertKeySmall04 => { assert("DesertKeySmall04"@.len() == 16); },
            Item::DesertKeySmall05 => { assert("DesertKeySmall05"@.len() == 16); },
            Item::TurtleCompass => { assert("TurtleCompass"@.len() == 13); },
            Item::TurtleKeyBig => { assert("TurtleKeyBig"@.len() == 12); },
            Item::TurtleKeySmall01 => { assert("TurtleKeySmall01"@.len() == 16); },
            Item::TurtleKeySmall02 => { assert("TurtleKeySmall02"@.len() == 16); },
            Item::TurtleKeySmall03 => { assert("TurtleKeySmall03"@.len() == 16); },
            Item::LoruleCastleCompass => { assert("LoruleCastleCompass"@.len() == 19); },
            Item::LoruleCastleKeySmall01 => { assert("LoruleCastleKeySmall01"@.len() == 22); },
            Item::LoruleCastleKeySmall02 => { assert("LoruleCastleKeySmall02"@.len() == 22); },
            Item::LoruleCastleKeySmall03 => { assert("LoruleCastleKeySmall03"@.len() == 22); },
            Item::LoruleCastleKeySmall04 => { assert("LoruleCastleKeySmall04"@.len() == 22); },
            Item::LoruleCastleKeySmall05 => { assert("LoruleCastleKeySmall05"@.len() == 22); },
            Item::PendantOfCourage => { assert("PendantOfCourage"@.len() == 16); },
            Item::PendantOfWisdom => { assert("PendantOfWisdom"@.len() == 15); },
            Item::PendantOfPower => { assert("PendantOfPower"@.len() == 14); },
            Item::SageGulley => { assert("SageGulley"@.len() == 10); },
            Item::SageOren => { assert("SageOren"@.len() == 8); },
            Item::SageSeres => { assert("SageSeres"@.len() == 9); },
            Item::SageOsfala => { assert("SageOsfala"@.len() == 10); },
            Item::SageRosso => { assert("SageRosso"@.len() == 9); },
            Item::SageIrene => { assert("SageIrene"@.len() == 9); },
            Item::SageImpa => { assert("SageImpa"@.len() == 8); },
            Item::ScootFruit => { assert("ScootFruit"@.len() == 10); },
            Item::FoulFruit => { assert("FoulFruit"@.len() == 9); },
            Item::Shield => { assert("Shield"@.len() == 6); },
            Item::GoldBee => { assert("GoldBee"@.len() == 7); },
            Item::OpenSanctuaryDoors => { assert("OpenSanctuaryDoors"@.len() == 18); },
            Item::BigBombFlower => { assert("BigBombFlower"@.len() == 13); },
            Item::StylishWomansHouseOpen => { assert("StylishWomansHouseOpen"@.len() == 22); },
            Item::SkullEyeRight => { assert("SkullEyeRight"@.len() == 13); },
            Item::SkullEyeLeft => { assert("SkullEyeLeft"@.len() == 12); },
            Item::AccessPotionShop => { assert("AccessPotionShop"@.len() == 16); },
            Item::AccessMilkBar => { assert("AccessMilkBar"@.len() == 13); },
            Item::AccessHyruleBlacksmith => { assert("AccessHyruleBlacksmith"@.len() == 22); },
            Item::AccessLoruleCastleField => { assert("AccessLoruleCastleField"@.len() == 23); },
            Item::Triforce => { assert("Triforce"@.len() == 8); },
        }
    }
}

/// Tokens of length 5 are pairwise distinct: with every character
/// revealed, some position tells any two of them apart.
#[verifier::rlimit(100)]
proof fn lemma_tokens_distinct_len5()
    ensures
        forall|i: Item, j: Item|
            token_len(i) == 5 && token_len(j) == 5 && i != j ==> #[trigger] item_token(i)
                != #[trigger] item_token(j),
{
    reveal_strlit("Bow01");
    reveal_strlit("Bow02");
    reveal_strlit("Pouch");
    reveal_strlit("Net01");
    reveal_strlit("Net02");
    assert("Bow01"@[0] == 'B');
    assert("Bow01"@[1] == 'o');
    assert("Bow01"@[2] == 'w');
    assert("Bow01"@[3] == '0');
    assert("Bow01"@[4] == '1');
    assert("Bow02"@[0] == 'B');
    assert("Bow02"@[1] == 'o');
    assert("Bow02"@[2] == 'w');
    assert("Bow02"@[3] == '0');
    assert("Bow02"@[4] == '2');
    assert("Pouch"@[0] == 'P');
    assert("Pouch"@[1] == 'o');
    assert("Pouch"@[2] == 'u');
    assert("Pouch"@[3] == 'c');
    assert("Pouch"@[4] == 'h');
    assert("Net01"@[0] == 'N');
    assert("Net01"@[1] == 'e');
    assert("Net01"@[2] == 't');
    assert("Net01"@[3] == '0');
    assert("Net01"@[4] == '1');
    assert("Net02"@[0] == 'N');
    assert("Net02"@[1] == 'e');
    assert("Net02"@[2] == 't');
    assert("Net02"@[3] == '0');
    assert("Net02"@[4] == '2');
    assert forall|i: Item, j: Item|
        token_len(i) == 5 && token_len(j) == 5 && i != j implies #[trigger] item_token(
        i,
    ) != #[trigger] item_token(j) by {}
}

/// Tokens of length 6 are pairwise distinct: with every character
/// revealed, some position tells any two of them apart.
#[verifier::rlimit(100)]
proof fn lemma_tokens_distinct_len6()
    ensures
        forall|i: Item, j: Item|
            token_len(i) == 6 && token_len(j) == 6 && i != j ==> #[trigger] item_token(i)
                != #[trigger] item_token(j),
{
    reveal_strlit("Lamp01");
    reveal_strlit("Lamp02");
    reveal_strlit("Mail01");
    reveal_strlit("Mail02");
    reveal_strlit("OreRed");
    reveal_strlit("Shield");
    assert("Lamp01"@[0] == 'L');
    assert("Lamp01"@[1] == 'a');
    assert("Lamp01"@[2] == 'm');
    assert("Lamp01"@[3] == 'p');
    assert("Lamp01"@[4] == '0');
    assert("Lamp01"@[5] == '1');
    assert("Lamp02"@[0] == 'L');
    assert("Lamp02"@[1] == 'a');
    assert("Lamp02"@[2] == 'm');
    assert("Lamp02"@[3] == 'p');
    assert("Lamp02"@[4] == '0');
    assert("Lamp02"@[5] == '2');
    assert("Mail01"@[0] == 'M');
    assert("Mail01"@[1] == 'a');
    assert("Mail01"@[2] == 'i');
    assert("Mail01"@[3] == 'l');
    assert("Mail01"@[4] == '0');
    assert("Mail01"@[5] == '1');
    assert("Mail02"@[0] == 'M');
    assert("Mail02"@[1] == 'a');
    assert("Mail02"@[2] == 'i');
    assert("Mail02"@[3] == 'l');
    assert("Mail02"@[4] == '0');
    assert("Mail02"@[5] == '2');
    assert("OreRed"@[0] == 'O');
    assert("OreRed"@[1] == 'r');
    assert("OreRed"@[2] == 'e');
    assert("OreRed"@[3] == 'R');
    assert("OreRed"@[4] == 'e');
    assert("OreRed"@[5] == 'd');
    assert("Shield"@[0] == 'S');
    assert("Shield"@[1] == 'h');
    assert("Shield"@[2] == 'i');
    assert("Shield"@[3] == 'e');
    assert("Shield"@[4] == 'l');
    assert("Shield"@[5] == 'd');
    assert forall|i: Item, j: Item|
        token_len(i) == 6 && token_len(j) == 6 && i != j implies #[trigger] item_token(
        i,
    ) != #[trigger] item_token(j) by {}
}

/// Tokens of length 7 are pairwise distinct: with every character
/// revealed, some position tells any two of them apart.
#[verifier::rlimit(100)]
proof fn lemma_tokens_distinct_len7()
    ensures
        forall|i: Item, j: Item|
            token_len(i) == 7 && token_len(j) == 7 && i != j ==> #[trigger] item_token(i)
                != #[trigger] item_token(j),
{
    reveal_strlit("Bombs01");
    reveal_strlit("Bombs02");
    reveal_strlit("Sword01");
    reveal_strlit("Sword02");
    reveal_strlit("Sword03");
    reveal_strlit("Sword04");
    reveal_strlit("Glove01");
    reveal_strlit("Glove02");
    reveal_strlit("OreBlue");
    reveal_strlit("GoldBee");
    assert("Bombs01"@[0] == 'B');
    assert("Bombs01"@[1] == 'o');
    assert("Bombs01"@[2] == 'm');
    assert("Bombs01"@[3] == 'b');
    assert("Bombs01"@[4] == 's');
    assert("Bombs01"@[5] == '0');
    assert("Bombs01"@[6] == '1');
    assert("Bombs02"@[0] == 'B');
    assert("Bombs02"@[1] == 'o');
    assert("Bombs02"@[2] == 'm');
    assert("Bombs02"@[3] == 'b');
    assert("Bombs02"@[4] == 's');
    assert("Bombs02"@[5] == '0');
    assert("Bombs02"@[6] == '2');
    assert("Sword01"@[0] == 'S');
    assert("Sword01"@[1] == 'w');
    assert("Sword01"@[2] == 'o');
    assert("Sword01"@[3] == 'r');
    assert("Sword01"@[4] == 'd');
    assert("Sword01"@[5] == '0');
    assert("Sword01"@[6] == '1');
    assert("Sword02"@[0] == 'S');
    assert("Sword02"@[1] == 'w');
    assert("Sword02"@[2] == 'o');
    assert("Sword02"@[3] == 'r');
    assert("Sword02"@[4] == 'd');
    assert("Sword02"@[5] == '0');
    assert("Sword02"@[6] == '2');
    assert("Sword03"@[0] == 'S');
    assert("Sword03"@[1] == 'w');
    assert("Sword03"@[2] == 'o');
    assert("Sword03"@[3] == 'r');
    assert("Sword03"@[4] == 'd');
    assert("Sword03"@[5] == '0');
    assert("Sword03"@[6] == '3');
    assert("Sword04"@[0] == 'S');
    assert("Sword04"@[1] == 'w');
    assert("Sword04"@[2] == 'o');
    assert("Sword04"@[3] == 'r');
    assert("Sword04"@[4] == 'd');
    assert("Sword04"@[5] == '0');
    assert("Sword04"@[6] == '4');
    assert("Glove01"@[0] == 'G');
    assert("Glove01"@[1] == 'l');
    assert("Glove01"@[2] == 'o');
    assert("Glove01"@[3] == 'v');
    assert("Glove01"@[4] == 'e');
    assert("Glove01"@[5] == '0');
    assert("Glove01"@[6] == '1');
    assert("Glove02"@[0] == 'G');
    assert("Glove02"@[1] == 'l');
    assert("Glove02"@[2] == 'o');
    assert("Glove02"@[3] == 'v');
    assert("Glove02"@[4] == 'e');
    assert("Glove02"@[5] == '0');
    assert("Glove02"@[6] == '2');
    assert("OreBlue"@[0] == 'O');
    assert("OreBlue"@[1] == 'r');
    assert("OreBlue"@[2] == 'e');
    assert("OreBlue"@[3] == 'B');
    assert("OreBlue"@[4] == 'l');
    assert("OreBlue"@[5] == 'u');
    assert("OreBlue"@[6] == 'e');
    assert("GoldBee"@[0] == 'G');
    assert("GoldBee"@[1] == 'o');
    assert("GoldBee"@[2] == 'l');
    assert("GoldBee"@[3] == 'd');
    assert("GoldBee"@[4] == 'B');
    assert("GoldBee"@[5] == 'e');
    assert("GoldBee"@[6] == 'e');
    assert forall|i: Item, j: Item|
        token_len(i) == 7 && token_len(j) == 7 && i != j implies #[trigger] item_token(
        i,
    ) != #[trigger] item_token(j) by {}
}

/// Tokens of length 8 are pairwise distinct: with every character
/// revealed, some position tells any two of them apart.
#[verifier::rlimit(100)]
proof fn lemma_tokens_distinct_len8()
    ensures
        forall|i: Item, j: Item|
            token_len(i) == 8 && token_len(j) == 8 && i != j ==> #[trigger] item_token(i)
                != #[trigger] item_token(j),
{
    reveal_strlit("IceRod01");
    reveal_strlit("IceRod02");
    reveal_strlit("Hammer01");
    reveal_strlit("Hammer02");
    reveal_strlit("Flippers");
    reveal_strlit("BeeBadge");
    reveal_strlit("RupeeRed");
    reveal_strlit("Bottle01");
    reveal_strlit("Bottle02");
    reveal_strlit("Bottle03");
    reveal_strlit("Bottle04");
    reveal_strlit("Bottle05");
    reveal_strlit("OreGreen");
    reveal_strlit("SageOren");
    reveal_strlit("SageImpa");
    reveal_strlit("Triforce");
    assert("IceRod01"@[0] == 'I');
    assert("IceRod01"@[1] == 'c');
    assert("IceRod01"@[2] == 'e');
    assert("IceRod01"@[3] == 'R');
    assert("IceRod01"@[4] == 'o');
    assert("IceRod01"@[5] == 'd');
    assert("IceRod01"@[6] == '0');
    assert("IceRod01"@[7] == '1');
    assert("IceRod02"@[0] == 'I');
    assert("IceRod02"@[1] == 'c');
    assert("IceRod02"@[2] == 'e');
    assert("IceRod02"@[3] == 'R');
    assert("IceRod02"@[4] == 'o');
    assert("IceRod02"@[5] == 'd');
    assert("IceRod02"@[6] == '0');
    assert("IceRod02"@[7] == '2');
    assert("Hammer01"@[0] == 'H');
    assert("Hammer01"@[1] == 'a');
    assert("Hammer01"@[2] == 'm');
    assert("Hammer01"@[3] == 'm');
    assert("Hammer01"@[4] == 'e');
    assert("Hammer01"@[5] == 'r');
    assert("Hammer01"@[6] == '0');
    assert("Hammer01"@[7] == '1');
    assert("Hammer02"@[0] == 'H');
    assert("Hammer02"@[1] == 'a');
    assert("Hammer02"@[2] == 'm');
    assert("Hammer02"@[3] == 'm');
    assert("Hammer02"@[4] == 'e');
    assert("Hammer02"@[5] == 'r');
    assert("Hammer02"@[6] == '0');
    assert("Hammer02"@[7] == '2');
    assert("Flippers"@[0] == 'F');
    assert("Flippers"@[1] == 'l');
    assert("Flippers"@[2] == 'i');
    assert("Flippers"@[3] == 'p');
    assert("Flippers"@[4] == 'p');
    assert("Flippers"@[5] == 'e');
    assert("Flippers"@[6] == 'r');
    assert("Flippers"@[7] == 's');
    assert("BeeBadge"@[0] == 'B');
    assert("BeeBadge"@[1] == 'e');
    assert("BeeBadge"@[2] == 'e');
    assert("BeeBadge"@[3] == 'B');
    assert("BeeBadge"@[4] == 'a');
    assert("BeeBadge"@[5] == 'd');
    assert("BeeBadge"@[6] == 'g');
    assert("BeeBadge"@[7] == 'e');
    assert("RupeeRed"@[0] == 'R');
    assert("RupeeRed"@[1] == 'u');
    assert("RupeeRed"@[2] == 'p');
    assert("RupeeRed"@[3] == 'e');
    assert("RupeeRed"@[4] == 'e');
    assert("RupeeRed"@[5] == 'R');
    assert("RupeeRed"@[6] == 'e');
    assert("RupeeRed"@[7] == 'd');
    assert("Bottle01"@[0] == 'B');
    assert("Bottle01"@[1] == 'o');
    assert("Bottle01"@[2] == 't');
    assert("Bottle01"@[3] == 't');
    assert("Bottle01"@[4] == 'l');
    assert("Bottle01"@[5] == 'e');
    assert("Bottle01"@[6] == '0');
    assert("Bottle01"@[7] == '1');
    assert("Bottle02"@[0] == 'B');
    assert("Bottle02"@[1] == 'o');
    assert("Bottle02"@[2] == 't');
    assert("Bottle02"@[3] == 't');
    assert("Bottle02"@[4] == 'l');
    assert("Bottle02"@[5] == 'e');
    assert("Bottle02"@[6] == '0');
    assert("Bottle02"@[7] == '2');
    assert("Bottle03"@[0] == 'B');
    assert("Bottle03"@[1] == 'o');
    assert("Bottle03"@[2] == 't');
    assert("Bottle03"@[3] == 't');
    assert("Bottle03"@[4] == 'l');
    assert("Bottle03"@[5] == 'e');
    assert("Bottle03"@[6] == '0');
    assert("Bottle03"@[7] == '3');
    assert("Bottle04"@[0] == 'B');
    assert("Bottle04"@[1] == 'o');
    assert("Bottle04"@[2] == 't');
    assert("Bottle04"@[3] == 't');
    assert("Bottle04"@[4] == 'l');
    assert("Bottle04"@[5] == 'e');
    assert("Bottle04"@[6] == '0');
    assert("Bottle04"@[7] == '4');
    assert("Bottle05"@[0] == 'B');
    assert("Bottle05"@[1] == 'o');
    assert("Bottle05"@[2] == 't');
    assert("Bottle05"@[3] == 't');
    assert("Bottle05"@[4] == 'l');
    assert("Bottle05"@[5] == 'e');
    assert("Bottle05"@[6] == '0');
    assert("Bottle05"@[7] == '5');
    assert("OreGreen"@[0] == 'O');
    assert("OreGreen"@[1] == 'r');
    assert("OreGreen"@[2] == 'e');
    assert("OreGreen"@[3] == 'G');
    assert("OreGreen"@[4] == 'r');
    assert("OreGreen"@[5] == 'e');
    assert("OreGreen"@[6] == 'e');
    assert("OreGreen"@[7] == 'n');
    assert("SageOren"@[0] == 'S');
    assert("SageOren"@[1] == 'a');
    assert("SageOren"@[2] == 'g');
    assert("SageOren"@[3] == 'e');
    assert("SageOren"@[4] == 'O');
    assert("SageOren"@[5] == 'r');
    assert("SageOren"@[6] == 'e');
    assert("SageOren"@[7] == 'n');
    assert("SageImpa"@[0] == 'S');
    assert("SageImpa"@[1] == 'a');
    assert("SageImpa"@[2] == 'g');
    assert("SageImpa"@[3] == 'e');
    assert("SageImpa"@[4] == 'I');
    assert("SageImpa"@[5] == 'm');
    assert("SageImpa"@[6] == 'p');
    assert("SageImpa"@[7] == 'a');
    assert("Triforce"@[0] == 'T');
    assert("Triforce"@[1] == 'r');
    assert("Triforce"@[2] == 'i');
    assert("Triforce"@[3] == 'f');
    assert("Triforce"@[4] == 'o');
    assert("Triforce"@[5] == 'r');
    assert("Triforce"@[6] == 'c');
    assert("Triforce"@[7] == 'e');
    assert forall|i: Item, j: Item|
        token_len(i) == 8 && token_len(j) == 8 && i != j implies #[trigger] item_token(
        i,
    ) != #[trigger] item_token(j) by {}
}

/// Tokens of length 9 are pairwise distinct: with every character
/// revealed, some position tells any two of them apart.
#[verifier::rlimit(100)]
proof fn lemma_tokens_distinct_len9()
    ensures
        forall|i: Item, j: Item|
            token_len(i) == 9 && token_len(j) == 9 && i != j ==> #[trigger] item_token(i)
                != #[trigger] item_token(j),
{
    reveal_strlit("FireRod01");
    reveal_strlit("FireRod02");
    reveal_strlit("SandRod01");
    reveal_strlit("SandRod02");
    reveal_strlit("SmoothGem");
    reveal_strlit("RupeeBlue");
    reveal_strlit("OreYellow");
    reveal_strlit("IceKeyBig");
    reveal_strlit("SageSeres");
    reveal_strlit("SageRosso");
    reveal_strlit("SageIrene");
    reveal_strlit("FoulFruit");
    assert("FireRod01"@[0] == 'F');
    assert("FireRod01"@[1] == 'i');
    assert("FireRod01"@[2] == 'r');
    assert("FireRod01"@[3] == 'e');
    assert("FireRod01"@[4] == 'R');
    assert("FireRod01"@[5] == 'o');
    assert("FireRod01"@[6] == 'd');
    assert("FireRod01"@[7] == '0');
    assert("FireRod01"@[8] == '1');
    assert("FireRod02"@[0] == 'F');
    assert("FireRod02"@[1] == 'i');
    assert("FireRod02"@[2] == 'r');
    assert("FireRod02"@[3] == 'e');
    assert("FireRod02"@[4] == 'R');
    assert("FireRod02"@[5] == 'o');
    assert("FireRod02"@[6] == 'd');
    assert("FireRod02"@[7] == '0');
    assert("FireRod02"@[8] == '2');
    assert("SandRod01"@[0] == 'S');
    assert("SandRod01"@[1] == 'a');
    assert("SandRod01"@[2] == 'n');
    assert("SandRod01"@[3] == 'd');
    assert("SandRod01"@[4] == 'R');
    assert("SandRod01"@[5] == 'o');
    assert("SandRod01"@[6] == 'd');
    assert("SandRod01"@[7] == '0');
    assert("SandRod01"@[8] == '1');
    assert("SandRod02"@[0] == 'S');
    assert("SandRod02"@[1] == 'a');
    assert("SandRod02"@[2] == 'n');
    assert("SandRod02"@[3] == 'd');
    assert("SandRod02"@[4] == 'R');
    assert("SandRod02"@[5] == 'o');
    assert("SandRod02"@[6] == 'd');
    assert("SandRod02"@[7] == '0');
    assert("SandRod02"@[8] == '2');
    assert("SmoothGem"@[0] == 'S');
    assert("SmoothGem"@[1] == 'm');
    assert("SmoothGem"@[2] == 'o');
    assert("SmoothGem"@[3] == 'o');
    assert("SmoothGem"@[4] == 't');
    assert("SmoothGem"@[5] == 'h');
    assert("SmoothGem"@[6] == 'G');
    assert("SmoothGem"@[7] == 'e');
    assert("SmoothGem"@[8] == 'm');
    assert("RupeeBlue"@[0] == 'R');
    assert("RupeeBlue"@[1] == 'u');
    assert("RupeeBlue"@[2] == 'p');
    assert("RupeeBlue"@[3] == 'e');
    assert("RupeeBlue"@[4] == 'e');
    assert("RupeeBlue"@[5] == 'B');
    assert("RupeeBlue"@[6] == 'l');
    assert("RupeeBlue"@[7] == 'u');
    assert("RupeeBlue"@[8] == 'e');
    assert("OreYellow"@[0] == 'O');
    assert("OreYellow"@[1] == 'r');
    assert("OreYellow"@[2] == 'e');
    assert("OreYellow"@[3] == 'Y');
    assert("OreYellow"@[4] == 'e');
    assert("OreYellow"@[5] == 'l');
    assert("OreYellow"@[6] == 'l');
    assert("OreYellow"@[7] == 'o');
    assert("OreYellow"@[8] == 'w');
    assert("IceKeyBig"@[0] == 'I');
    assert("IceKeyBig"@[1] == 'c');
    assert("IceKeyBig"@[2] == 'e');
    assert("IceKeyBig"@[3] == 'K');
    assert("IceKeyBig"@[4] == 'e');
    assert("IceKeyBig"@[5] == 'y');
    assert("IceKeyBig"@[6] == 'B');
    assert("IceKeyBig"@[7] == 'i');
    assert("IceKeyBig"@[8] == 'g');
    assert("SageSeres"@[0] == 'S');
    assert("SageSeres"@[1] == 'a');
    assert("SageSeres"@[2] == 'g');
    assert("SageSeres"@[3] == 'e');
    assert("SageSeres"@[4] == 'S');
    assert("SageSeres"@[5] == 'e');
    assert("SageSeres"@[6] == 'r');
    assert("SageSeres"@[7] == 'e');
    assert("SageSeres"@[8] == 's');
    assert("SageRosso"@[0] == 'S');
    assert("SageRosso"@[1] == 'a');
    assert("SageRosso"@[2] == 'g');
    assert("SageRosso"@[3] == 'e');
    assert("SageRosso"@[4] == 'R');
    assert("SageRosso"@[5] == 'o');
    assert("SageRosso"@[6] == 's');
    assert("SageRosso"@[7] == 's');
    assert("SageRosso"@[8] == 'o');
    assert("SageIrene"@[0] == 'S');
    assert("SageIrene"@[1] == 'a');
    assert("SageIrene"@[2] == 'g');
    assert("SageIrene"@[3] == 'e');
    assert("SageIrene"@[4] == 'I');
    assert("SageIrene"@[5] == 'r');
    assert("SageIrene"@[6] == 'e');
    assert("SageIrene"@[7] == 'n');
    assert("SageIrene"@[8] == 'e');
    assert("FoulFruit"@[0] == 'F');
    assert("FoulFruit"@[1] == 'o');
    assert("FoulFruit"@[2] == 'u');
    assert("FoulFruit"@[3] == 'l');
    assert("FoulFruit"@[4] == 'F');
    assert("FoulFruit"@[5] == 'r');
    assert("FoulFruit"@[6] == 'u');
    assert("FoulFruit"@[7] == 'i');
    assert("FoulFruit"@[8] == 't');
    assert forall|i: Item, j: Item|
        token_len(i) == 9 && token_len(j) == 9 && i != j implies #[trigger] item_token(
        i,
    ) != #[trigger] item_token(j) by {}
}

/// Tokens of length 10 are pairwise distinct: with every character
/// revealed, some position tells any two of them apart.
#[verifier::rlimit(100)]
proof fn lemma_tokens_distinct_len10()
    ensures
        forall|i: Item, j: Item|
            token_len(i) == 10 && token_len(j) == 10 && i != j ==> #[trigger] item_token(i)
                != #[trigger] item_token(j),
{
    reveal_strlit("Hookshot01");
    reveal_strlit("Hookshot02");
    reveal_strlit("BowOfLight");
    reveal_strlit("RupeeGreen");
    reveal_strlit("HeraKeyBig");
    reveal_strlit("DarkKeyBig");
    reveal_strlit("IceCompass");
    reveal_strlit("SageGulley");
    reveal_strlit("SageOsfala");
    reveal_strlit("ScootFruit");
    assert("Hookshot01"@[0] == 'H');
    assert("Hookshot01"@[1] == 'o');
    assert("Hookshot01"@[2] == 'o');
    assert("Hookshot01"@[3] == 'k');
    assert("Hookshot01"@[4] == 's');
    assert("Hookshot01"@[5] == 'h');
    assert("Hookshot01"@[6] == 'o');
    assert("Hookshot01"@[7] == 't');
    assert("Hookshot01"@[8] == '0');
    assert("Hookshot01"@[9] == '1');
    assert("Hookshot02"@[0] == 'H');
    assert("Hookshot02"@[1] == 'o');
    assert("Hookshot02"@[2] == 'o');
    assert("Hookshot02"@[3] == 'k');
    assert("Hookshot02"@[4] == 's');
    assert("Hookshot02"@[5] == 'h');
    assert("Hookshot02"@[6] == 'o');
    assert("Hookshot02"@[7] == 't');
    assert("Hookshot02"@[8] == '0');
    assert("Hookshot02"@[9] == '2');
    assert("BowOfLight"@[0] == 'B');
    assert("BowOfLight"@[1] == 'o');
    assert("BowOfLight"@[2] == 'w');
    assert("BowOfLight"@[3] == 'O');
    assert("BowOfLight"@[4] == 'f');
    assert("BowOfLight"@[5] == 'L');
    assert("BowOfLight"@[6] == 'i');
    assert("BowOfLight"@[7] == 'g');
    assert("BowOfLight"@[8] == 'h');
    assert("BowOfLight"@[9] == 't');
    assert("RupeeGreen"@[0] == 'R');
    assert("RupeeGreen"@[1] == 'u');
    assert("RupeeGreen"@[2] == 'p');
    assert("RupeeGreen"@[3] == 'e');
    assert("RupeeGreen"@[4] == 'e');
    assert("RupeeGreen"@[5] == 'G');
    assert("RupeeGreen"@[6] == 'r');
    assert("RupeeGreen"@[7] == 'e');
    assert("RupeeGreen"@[8] == 'e');
    assert("RupeeGreen"@[9] == 'n');
    assert("HeraKeyBig"@[0] == 'H');
    assert("HeraKeyBig"@[1] == 'e');
    assert("HeraKeyBig"@[2] == 'r');
    assert("HeraKeyBig"@[3] == 'a');
    assert("HeraKeyBig"@[4] == 'K');
    assert("HeraKeyBig"@[5] == 'e');
    assert("HeraKeyBig"@[6] == 'y');
    assert("HeraKeyBig"@[7] == 'B');
    assert("HeraKeyBig"@[8] == 'i');
    assert("HeraKeyBig"@[9] == 'g');
    assert("DarkKeyBig"@[0] == 'D');
    assert("DarkKeyBig"@[1] == 'a');
    assert("DarkKeyBig"@[2] == 'r');
    assert("DarkKeyBig"@[3] == 'k');
    assert("DarkKeyBig"@[4] == 'K');
    assert("DarkKeyBig"@[5] == 'e');
    assert("DarkKeyBig"@[6] == 'y');
    assert("DarkKeyBig"@[7] == 'B');
    assert("DarkKeyBig"@[8] == 'i');
    assert("DarkKeyBig"@[9] == 'g');
    assert("IceCompass"@[0] == 'I');
    assert("IceCompass"@[1] == 'c');
    assert("IceCompass"@[2] == 'e');
    assert("IceCompass"@[3] == 'C');
    assert("IceCompass"@[4] == 'o');
    assert("IceCompass"@[5] == 'm');
    assert("IceCompass"@[6] == 'p');
    assert("IceCompass"@[7] == 'a');
    assert("IceCompass"@[8] == 's');
    assert("IceCompass"@[9] == 's');
    assert("SageGulley"@[0] == 'S');
    assert("SageGulley"@[1] == 'a');
    assert("SageGulley"@[2] == 'g');
    assert("SageGulley"@[3] == 'e');
    assert("SageGulley"@[4] == 'G');
    assert("SageGulley"@[5] == 'u');
    assert("SageGulley"@[6] == 'l');
    assert("SageGulley"@[7] == 'l');
    assert("SageGulley"@[8] == 'e');
    assert("SageGulley"@[9] == 'y');
    assert("SageOsfala"@[0] == 'S');
    assert("SageOsfala"@[1] == 'a');
    assert("SageOsfala"@[2] == 'g');
    assert("SageOsfala"@[3] == 'e');
    assert("SageOsfala"@[4] == 'O');
    assert("SageOsfala"@[5] == 's');
    assert("SageOsfala"@[6] == 'f');
    assert("SageOsfala"@[7] == 'a');
    assert("SageOsfala"@[8] == 'l');
    assert("SageOsfala"@[9] == 'a');
    assert("ScootFruit"@[0] == 'S');
    assert("ScootFruit"@[1] == 'c');
    assert("ScootFruit"@[2] == 'o');
    assert("ScootFruit"@[3] == 'o');
    assert("ScootFruit"@[4] == 't');
    assert("ScootFruit"@[5] == 'F');
    assert("ScootFruit"@[6] == 'r');
    assert("ScootFruit"@[7] == 'u');
    assert("ScootFruit"@[8] == 'i');
    assert("ScootFruit"@[9] == 't');
    assert forall|i: Item, j: Item|
        token_len(i) == 10 && token_len(j) == 10 && i != j implies #[trigger] item_token(
        i,
    ) != #[trigger] item_token(j) by {}
}

/// Tokens of length 11 are pairwise distinct: with every character
/// revealed, some position tells any two of them apart.
#[verifier::rlimit(100)]
proof fn lemma_tokens_distinct_len11()
    ensures
        forall|i: Item, j: Item|
            token_len(i) == 11 && token_len(j) == 11 && i != j ==> #[trigger] item_token(i)
                != #[trigger] item_token(j),
{
    reveal_strlit("Boomerang01");
    reveal_strlit("Boomerang02");
    reveal_strlit("PremiumMilk");
    reveal_strlit("HintGlasses");
    reveal_strlit("RupeeGold01");
    reveal_strlit("RupeeGold02");
    reveal_strlit("RupeeGold03");
    reveal_strlit("RupeeGold04");
    reveal_strlit("RupeeGold05");
    reveal_strlit("RupeeGold06");
    reveal_strlit("RupeeGold07");
    reveal_strlit("RupeeGold08");
    reveal_strlit("MonsterGuts");
    reveal_strlit("MonsterHorn");
    reveal_strlit("MonsterTail");
    reveal_strlit("GalesKeyBig");
    reveal_strlit("HeraCompass");
    reveal_strlit("DarkCompass");
    reveal_strlit("SwampKeyBig");
    reveal_strlit("SkullKeyBig");
    assert("Boomerang01"@[0] == 'B');
    assert("Boomerang01"@[1] == 'o');
    assert("Boomerang01"@[2] == 'o');
    assert("Boomerang01"@[3] == 'm');
    assert("Boomerang01"@[4] == 'e');
    assert("Boomerang01"@[5] == 'r');
    assert("Boomerang01"@[6] == 'a');
    assert("Boomerang01"@[7] == 'n');
    assert("Boomerang01"@[8] == 'g');
    assert("Boomerang01"@[9] == '0');
    assert("Boomerang01"@[10] == '1');
    assert("Boomerang02"@[0] == 'B');
    assert("Boomerang02"@[1] == 'o');
    assert("Boomerang02"@[2] == 'o');
    assert("Boomerang02"@[3] == 'm');
    assert("Boomerang02"@[4] == 'e');
    assert("Boomerang02"@[5] == 'r');
    assert("Boomerang02"@[6] == 'a');
    assert("Boomerang02"@[7] == 'n');
    assert("Boomerang02"@[8] == 'g');
    assert("Boomerang02"@[9] == '0');
    assert("Boomerang02"@[10] == '2');
    assert("PremiumMilk"@[0] == 'P');
    assert("PremiumMilk"@[1] == 'r');
    assert("PremiumMilk"@[2] == 'e');
    assert("PremiumMilk"@[3] == 'm');
    assert("PremiumMilk"@[4] == 'i');
    assert("PremiumMilk"@[5] == 'u');
    assert("PremiumMilk"@[6] == 'm');
    assert("PremiumMilk"@[7] == 'M');
    assert("PremiumMilk"@[8] == 'i');
    assert("PremiumMilk"@[9] == 'l');
    assert("PremiumMilk"@[10] == 'k');
    assert("HintGlasses"@[0] == 'H');
    assert("HintGlasses"@[1] == 'i');
    assert("HintGlasses"@[2] == 'n');
    assert("HintGlasses"@[3] == 't');
    assert("HintGlasses"@[4] == 'G');
    assert("HintGlasses"@[5] == 'l');
    assert("HintGlasses"@[6] == 'a');
    assert("HintGlasses"@[7] == 's');
    assert("HintGlasses"@[8] == 's');
    assert("HintGlasses"@[9] == 'e');
    assert("HintGlasses"@[10] == 's');
    assert("RupeeGold01"@[0] == 'R');
    assert("RupeeGold01"@[1] == 'u');
    assert("RupeeGold01"@[2] == 'p');
    assert("RupeeGold01"@[3] == 'e');
    assert("RupeeGold01"@[4] == 'e');
    assert("RupeeGold01"@[5] == 'G');
    assert("RupeeGold01"@[6] == 'o');
    assert("RupeeGold01"@[7] == 'l');
    assert("RupeeGold01"@[8] == 'd');
    assert("RupeeGold01"@[9] == '0');
    assert("RupeeGold01"@[10] == '1');
    assert("RupeeGold02"@[0] == 'R');
    assert("RupeeGold02"@[1] == 'u');
    assert("RupeeGold02"@[2] == 'p');
    assert("RupeeGold02"@[3] == 'e');
    assert("RupeeGold02"@[4] == 'e');
    assert("RupeeGold02"@[5] == 'G');
    assert("RupeeGold02"@[6] == 'o');
    assert("RupeeGold02"@[7] == 'l');
    assert("RupeeGold02"@[8] == 'd');
    assert("RupeeGold02"@[9] == '0');
    assert("RupeeGold02"@[10] == '2');
    assert("RupeeGold03"@[0] == 'R');
    assert("RupeeGold03"@[1] == 'u');
    assert("RupeeGold03"@[2] == 'p');
    assert("RupeeGold03"@[3] == 'e');
    assert("RupeeGold03"@[4] == 'e');
    assert("RupeeGold03"@[5] == 'G');
    assert("RupeeGold03"@[6] == 'o');
    assert("RupeeGold03"@[7] == 'l');
    assert("RupeeGold03"@[8] == 'd');
    assert("RupeeGold03"@[9] == '0');
    assert("RupeeGold03"@[10] == '3');
    assert("RupeeGold04"@[0] == 'R');
    assert("RupeeGold04"@[1] == 'u');
    assert("RupeeGold04"@[2] == 'p');
    assert("RupeeGold04"@[3] == 'e');
    assert("RupeeGold04"@[4] == 'e');
    assert("RupeeGold04"@[5] == 'G');
    assert("RupeeGold04"@[6] == 'o');
    assert("RupeeGold04"@[7] == 'l');
    assert("RupeeGold04"@[8] == 'd');
    assert("RupeeGold04"@[9] == '0');
    assert("RupeeGold04"@[10] == '4');
    assert("RupeeGold05"@[0] == 'R');
    assert("RupeeGold05"@[1] == 'u');
    assert("RupeeGold05"@[2] == 'p');
    assert("RupeeGold05"@[3] == 'e');
    assert("RupeeGold05"@[4] == 'e');
    assert("RupeeGold05"@[5] == 'G');
    assert("RupeeGold05"@[6] == 'o');
    assert("RupeeGold05"@[7] == 'l');
    assert("RupeeGold05"@[8] == 'd');
    assert("RupeeGold05"@[9] == '0');
    assert("RupeeGold05"@[10] == '5');
    assert("RupeeGold06"@[0] == 'R');
    assert("RupeeGold06"@[1] == 'u');
    assert("RupeeGold06"@[2] == 'p');
    assert("RupeeGold06"@[3] == 'e');
    assert("RupeeGold06"@[4] == 'e');
    assert("RupeeGold06"@[5] == 'G');
    assert("RupeeGold06"@[6] == 'o');
    assert("RupeeGold06"@[7] == 'l');
    assert("RupeeGold06"@[8] == 'd');
    assert("RupeeGold06"@[9] == '0');
    assert("RupeeGold06"@[10] == '6');
    assert("RupeeGold07"@[0] == 'R');
    assert("RupeeGold07"@[1] == 'u');
    assert("RupeeGold07"@[2] == 'p');
    assert("RupeeGold07"@[3] == 'e');
    assert("RupeeGold07"@[4] == 'e');
    assert("RupeeGold07"@[5] == 'G');
    assert("RupeeGold07"@[6] == 'o');
    assert("RupeeGold07"@[7] == 'l');
    assert("RupeeGold07"@[8] == 'd');
    assert("RupeeGold07"@[9] == '0');
    assert("RupeeGold07"@[10] == '7');
    assert("RupeeGold08"@[0] == 'R');
    assert("RupeeGold08"@[1] == 'u');
    assert("RupeeGold08"@[2] == 'p');
    assert("RupeeGold08"@[3] == 'e');
    assert("RupeeGold08"@[4] == 'e');
    assert("RupeeGold08"@[5] == 'G');
    assert("RupeeGold08"@[6] == 'o');
    assert("RupeeGold08"@[7] == 'l');
    assert("RupeeGold08"@[8] == 'd');
    assert("RupeeGold08"@[9] == '0');
    assert("RupeeGold08"@[10] == '8');
    assert("MonsterGuts"@[0] == 'M');
    assert("MonsterGuts"@[1] == 'o');
    assert("MonsterGuts"@[2] == 'n');
    assert("MonsterGuts"@[3] == 's');
    assert("MonsterGuts"@[4] == 't');
    assert("MonsterGuts"@[5] == 'e');
    assert("MonsterGuts"@[6] == 'r');
    assert("MonsterGuts"@[7] == 'G');
    assert("MonsterGuts"@[8] == 'u');
    assert("MonsterGuts"@[9] == 't');
    assert("MonsterGuts"@[10] == 's');
    assert("MonsterHorn"@[0] == 'M');
    assert("MonsterHorn"@[1] == 'o');
    assert("MonsterHorn"@[2] == 'n');
    assert("MonsterHorn"@[3] == 's');
    assert("MonsterHorn"@[4] == 't');
    assert("MonsterHorn"@[5] == 'e');
    assert("MonsterHorn"@[6] == 'r');
    assert("MonsterHorn"@[7] == 'H');
    assert("MonsterHorn"@[8] == 'o');
    assert("MonsterHorn"@[9] == 'r');
    assert("MonsterHorn"@[10] == 'n');
    assert("MonsterTail"@[0] == 'M');
    assert("MonsterTail"@[1] == 'o');
    assert("MonsterTail"@[2] == 'n');
    assert("MonsterTail"@[3] == 's');
    assert("MonsterTail"@[4] == 't');
    assert("MonsterTail"@[5] == 'e');
    assert("MonsterTail"@[6] == 'r');
    assert("MonsterTail"@[7] == 'T');
    assert("MonsterTail"@[8] == 'a');
    assert("MonsterTail"@[9] == 'i');
    assert("MonsterTail"@[10] == 'l');
    assert("GalesKeyBig"@[0] == 'G');
    assert("GalesKeyBig"@[1] == 'a');
    assert("GalesKeyBig"@[2] == 'l');
    assert("GalesKeyBig"@[3] == 'e');
    assert("GalesKeyBig"@[4] == 's');
    assert("GalesKeyBig"@[5] == 'K');
    assert("GalesKeyBig"@[6] == 'e');
    assert("GalesKeyBig"@[7] == 'y');
    assert("GalesKeyBig"@[8] == 'B');
    assert("GalesKeyBig"@[9] == 'i');
    assert("GalesKeyBig"@[10] == 'g');
    assert("HeraCompass"@[0] == 'H');
    assert("HeraCompass"@[1] == 'e');
    assert("HeraCompass"@[2] == 'r');
    assert("HeraCompass"@[3] == 'a');
    assert("HeraCompass"@[4] == 'C');
    assert("HeraCompass"@[5] == 'o');
    assert("HeraCompass"@[6] == 'm');
    assert("HeraCompass"@[7] == 'p');
    assert("HeraCompass"@[8] == 'a');
    assert("HeraCompass"@[9] == 's');
    assert("HeraCompass"@[10] == 's');
    assert("DarkCompass"@[0] == 'D');
    assert("DarkCompass"@[1] == 'a');
    assert("DarkCompass"@[2] == 'r');
    assert("DarkCompass"@[3] == 'k');
    assert("DarkCompass"@[4] == 'C');
    assert("DarkCompass"@[5] == 'o');
    assert("DarkCompass"@[6] == 'm');
    assert("DarkCompass"@[7] == 'p');
    assert("DarkCompass"@[8] == 'a');
    assert("DarkCompass"@[9] == 's');
    assert("DarkCompass"@[10] == 's');
    assert("SwampKeyBig"@[0] == 'S');
    assert("SwampKeyBig"@[1] == 'w');
    assert("SwampKeyBig"@[2] == 'a');
    assert("SwampKeyBig"@[3] == 'm');
    assert("SwampKeyBig"@[4] == 'p');
    assert("SwampKeyBig"@[5] == 'K');
    assert("SwampKeyBig"@[6] == 'e');
    assert("SwampKeyBig"@[7] == 'y');
    assert("SwampKeyBig"@[8] == 'B');
    assert("SwampKeyBig"@[9] == 'i');
    assert("SwampKeyBig"@[10] == 'g');
    assert("SkullKeyBig"@[0] == 'S');
    assert("SkullKeyBig"@[1] == 'k');
    assert("SkullKeyBig"@[2] == 'u');
    assert("SkullKeyBig"@[3] == 'l');
    assert("SkullKeyBig"@[4] == 'l');
    assert("SkullKeyBig"@[5] == 'K');
    assert("SkullKeyBig"@[6] == 'e');
    assert("SkullKeyBig"@[7] == 'y');
    assert("SkullKeyBig"@[8] == 'B');
    assert("SkullKeyBig"@[9] == 'i');
    assert("SkullKeyBig"@[10] == 'g');
    assert forall|i: Item, j: Item|
        token_len(i) == 11 && token_len(j) == 11 && i != j implies #[trigger] item_token(
        i,
    ) != #[trigger] item_token(j) by {}
}

/// Tokens of length 12 are pairwise distinct: with every character
/// revealed, some position tells any two of them apart.
#[verifier::rlimit(100)]
proof fn lemma_tokens_distinct_len12()
    ensures
        forall|i: Item, j: Item|
            token_len(i) == 12 && token_len(j) == 12 && i != j ==> #[trigger] item_token(i)
                != #[trigger] item_token(j),
{
    reveal_strlit("TornadoRod01");
    reveal_strlit("TornadoRod02");
    reveal_strlit("PegasusBoots");
    reveal_strlit("HylianShield");
    reveal_strlit("HeartPiece01");
    reveal_strlit("HeartPiece02");
    reveal_strlit("HeartPiece03");
    reveal_strlit("HeartPiece04");
    reveal_strlit("HeartPiece05");
    reveal_strlit("HeartPiece06");
    reveal_strlit("HeartPiece07");
    reveal_strlit("HeartPiece08");
    reveal_strlit("HeartPiece09");
    reveal_strlit("HeartPiece10");
    reveal_strlit("HeartPiece11");
    reveal_strlit("HeartPiece12");
    reveal_strlit("HeartPiece13");
    reveal_strlit("HeartPiece14");
    reveal_strlit("HeartPiece15");
    reveal_strlit("HeartPiece16");
    reveal_strlit("HeartPiece17");
    reveal_strlit("HeartPiece18");
    reveal_strlit("HeartPiece19");
    reveal_strlit("HeartPiece20");
    reveal_strlit("HeartPiece21");
    reveal_strlit("HeartPiece22");
    reveal_strlit("HeartPiece23");
    reveal_strlit("HeartPiece24");
    reveal_strlit("HeartPiece25");
    reveal_strlit("HeartPiece26");
    reveal_strlit("HeartPiece27");
    reveal_strlit("GalesCompass");
    reveal_strlit("SwampCompass");
    reveal_strlit("SkullCompass");
    reveal_strlit("DesertKeyBig");
    reveal_strlit("TurtleKeyBig");
    reveal_strlit("SkullEyeLeft");
    assert("TornadoRod01"@[0] == 'T');
    assert("TornadoRod01"@[1] == 'o');
    assert("TornadoRod01"@[2] == 'r');
    assert("TornadoRod01"@[3] == 'n');
    assert("TornadoRod01"@[4] == 'a');
    assert("TornadoRod01"@[5] == 'd');
    assert("TornadoRod01"@[6] == 'o');
    assert("TornadoRod01"@[7] == 'R');
    assert("TornadoRod01"@[8] == 'o');
    assert("TornadoRod01"@[9] == 'd');
    assert("TornadoRod01"@[10] == '0');
    assert("TornadoRod01"@[11] == '1');
    assert("TornadoRod02"@[0] == 'T');
    assert("TornadoRod02"@[1] == 'o');
    assert("TornadoRod02"@[2] == 'r');
    assert("TornadoRod02"@[3] == 'n');
    assert("TornadoRod02"@[4] == 'a');
    assert("TornadoRod02"@[5] == 'd');
    assert("TornadoRod02"@[6] == 'o');
    assert("TornadoRod02"@[7] == 'R');
    assert("TornadoRod02"@[8] == 'o');
    assert("TornadoRod02"@[9] == 'd');
    assert("TornadoRod02"@[10] == '0');
    assert("TornadoRod02"@[11] == '2');
    assert("PegasusBoots"@[0] == 'P');
    assert("PegasusBoots"@[1] == 'e');
    assert("PegasusBoots"@[2] == 'g');
    assert("PegasusBoots"@[3] == 'a');
    assert("PegasusBoots"@[4] == 's');
    assert("PegasusBoots"@[5] == 'u');
    assert("PegasusBoots"@[6] == 's');
    assert("PegasusBoots"@[7] == 'B');
    assert("PegasusBoots"@[8] == 'o');
    assert("PegasusBoots"@[9] == 'o');
    assert("PegasusBoots"@[10] == 't');
    assert("PegasusBoots"@[11] == 's');
    assert("HylianShield"@[0] == 'H');
    assert("HylianShield"@[1] == 'y');
    assert("HylianShield"@[2] == 'l');
    assert("HylianShield"@[3] == 'i');
    assert("HylianShield"@[4] == 'a');
    assert("HylianShield"@[5] == 'n');
    assert("HylianShield"@[6] == 'S');
    assert("HylianShield"@[7] == 'h');
    assert("HylianShield"@[8] == 'i');
    assert("HylianShield"@[9] == 'e');
    assert("HylianShield"@[10] == 'l');
    assert("HylianShield"@[11] == 'd');
    assert("HeartPiece01"@[0] == 'H');
    assert("HeartPiece01"@[1] == 'e');
    assert("HeartPiece01"@[2] == 'a');
    assert("HeartPiece01"@[3] == 'r');
    assert("HeartPiece01"@[4] == 't');
    assert("HeartPiece01"@[5] == 'P');
    assert("HeartPiece01"@[6] == 'i');
    assert("HeartPiece01"@[7] == 'e');
    assert("HeartPiece01"@[8] == 'c');
    assert("HeartPiece01"@[9] == 'e');
    assert("HeartPiece01"@[10] == '0');
    assert("HeartPiece01"@[11] == '1');
    assert("HeartPiece02"@[0] == 'H');
    assert("HeartPiece02"@[1] == 'e');
    assert("HeartPiece02"@[2] == 'a');
    assert("HeartPiece02"@[3] == 'r');
    assert("HeartPiece02"@[4] == 't');
    assert("HeartPiece02"@[5] == 'P');
    assert("HeartPiece02"@[6] == 'i');
    assert("HeartPiece02"@[7] == 'e');
    assert("HeartPiece02"@[8] == 'c');
    assert("HeartPiece02"@[9] == 'e');
    assert("HeartPiece02"@[10] == '0');
    assert("HeartPiece02"@[11] == '2');
    assert("HeartPiece03"@[0] == 'H');
    assert("HeartPiece03"@[1] == 'e');
    assert("HeartPiece03"@[2] == 'a');
    assert("HeartPiece03"@[3] == 'r');
    assert("HeartPiece03"@[4] == 't');
    assert("HeartPiece03"@[5] == 'P');
    assert("HeartPiece03"@[6] == 'i');
    assert("HeartPiece03"@[7] == 'e');
    assert("HeartPiece03"@[8] == 'c');
    assert("HeartPiece03"@[9] == 'e');
    assert("HeartPiece03"@[10] == '0');
    assert("HeartPiece03"@[11] == '3');
    assert("HeartPiece04"@[0] == 'H');
    assert("HeartPiece04"@[1] == 'e');
    assert("HeartPiece04"@[2] == 'a');
    assert("HeartPiece04"@[3] == 'r');
    assert("HeartPiece04"@[4] == 't');
    assert("HeartPiece04"@[5] == 'P');
    assert("HeartPiece04"@[6] == 'i');
    assert("HeartPiece04"@[7] == 'e');
    assert("HeartPiece04"@[8] == 'c');
    assert("HeartPiece04"@[9] == 'e');
    assert("HeartPiece04"@[10] == '0');
    assert("HeartPiece04"@[11] == '4');
    assert("HeartPiece05"@[0] == 'H');
    assert("HeartPiece05"@[1] == 'e');
    assert("HeartPiece05"@[2] == 'a');
    assert("HeartPiece05"@[3] == 'r');
    assert("HeartPiece05"@[4] == 't');
    assert("HeartPiece05"@[5] == 'P');
    assert("HeartPiece05"@[6] == 'i');
    assert("HeartPiece05"@[7] == 'e');
    assert("HeartPiece05"@[8] == 'c');
    assert("HeartPiece05"@[9] == 'e');
    assert("HeartPiece05"@[10] == '0');
    assert("HeartPiece05"@[11] == '5');
    assert("HeartPiece06"@[0] == 'H');
    assert("HeartPiece06"@[1] == 'e');
    assert("HeartPiece06"@[2] == 'a');
    assert("HeartPiece06"@[3] == 'r');
    assert("HeartPiece06"@[4] == 't');
    assert("HeartPiece06"@[5] == 'P');
    assert("HeartPiece06"@[6] == 'i');
    assert("HeartPiece06"@[7] == 'e');
    assert("HeartPiece06"@[8] == 'c');
    assert("HeartPiece06"@[9] == 'e');
    assert("HeartPiece06"@[10] == '0');
    assert("HeartPiece06"@[11] == '6');
    assert("HeartPiece07"@[0] == 'H');
    assert("HeartPiece07"@[1] == 'e');
    assert("HeartPiece07"@[2] == 'a');
    assert("HeartPiece07"@[3] == 'r');
    assert("HeartPiece07"@[4] == 't');
    assert("HeartPiece07"@[5] == 'P');
    assert("HeartPiece07"@[6] == 'i');
    assert("HeartPiece07"@[7] == 'e');
    assert("HeartPiece07"@[8] == 'c');
    assert("HeartPiece07"@[9] == 'e');
    assert("HeartPiece07"@[10] == '0');
    assert("HeartPiece07"@[11] == '7');
    assert("HeartPiece08"@[0] == 'H');
    assert("HeartPiece08"@[1] == 'e');
    assert("HeartPiece08"@[2] == 'a');
    assert("HeartPiece08"@[3] == 'r');
    assert("HeartPiece08"@[4] == 't');
    assert("HeartPiece08"@[5] == 'P');
    assert("HeartPiece08"@[6] == 'i');
    assert("HeartPiece08"@[7] == 'e');
    assert("HeartPiece08"@[8] == 'c');
    assert("HeartPiece08"@[9] == 'e');
    assert("HeartPiece08"@[10] == '0');
    assert("HeartPiece08"@[11] == '8');
    assert("HeartPiece09"@[0] == 'H');
    assert("HeartPiece09"@[1] == 'e');
    assert("HeartPiece09"@[2] == 'a');
    assert("HeartPiece09"@[3] == 'r');
    assert("HeartPiece09"@[4] == 't');
    assert("HeartPiece09"@[5] == 'P');
    assert("HeartPiece09"@[6] == 'i');
    assert("HeartPiece09"@[7] == 'e');
    assert("HeartPiece09"@[8] == 'c');
    assert("HeartPiece09"@[9] == 'e');
    assert("HeartPiece09"@[10] == '0');
    assert("HeartPiece09"@[11] == '9');
    assert("HeartPiece10"@[0] == 'H');
    assert("HeartPiece10"@[1] == 'e');
    assert("HeartPiece10"@[2] == 'a');
    assert("HeartPiece10"@[3] == 'r');
    assert("HeartPiece10"@[4] == 't');
    assert("HeartPiece10"@[5] == 'P');
    assert("HeartPiece10"@[6] == 'i');
    assert("HeartPiece10"@[7] == 'e');
    assert("HeartPiece10"@[8] == 'c');
    assert("HeartPiece10"@[9] == 'e');
    assert("HeartPiece10"@[10] == '1');
    assert("HeartPiece10"@[11] == '0');
    assert("HeartPiece11"@[0] == 'H');
    assert("HeartPiece11"@[1] == 'e');
    assert("HeartPiece11"@[2] == 'a');
    assert("HeartPiece11"@[3] == 'r');
    assert("HeartPiece11"@[4] == 't');
    assert("HeartPiece11"@[5] == 'P');
    assert("HeartPiece11"@[6] == 'i');
    assert("HeartPiece11"@[7] == 'e');
    assert("HeartPiece11"@[8] == 'c');
    assert("HeartPiece11"@[9] == 'e');
    assert("HeartPiece11"@[10] == '1');
    assert("HeartPiece11"@[11] == '1');
    assert("HeartPiece12"@[0] == 'H');
    assert("HeartPiece12"@[1] == 'e');
    assert("HeartPiece12"@[2] == 'a');
    assert("HeartPiece12"@[3] == 'r');
    assert("HeartPiece12"@[4] == 't');
    assert("HeartPiece12"@[5] == 'P');
    assert("HeartPiece12"@[6] == 'i');
    assert("HeartPiece12"@[7] == 'e');
    assert("HeartPiece12"@[8] == 'c');
    assert("HeartPiece12"@[9] == 'e');
    assert("HeartPiece12"@[10] == '1');
    assert("HeartPiece12"@[11] == '2');
    assert("HeartPiece13"@[0] == 'H');
    assert("HeartPiece13"@[1] == 'e');
    assert("HeartPiece13"@[2] == 'a');
    assert("HeartPiece13"@[3] == 'r');
    assert("HeartPiece13"@[4] == 't');
    assert("HeartPiece13"@[5] == 'P');
    assert("HeartPiece13"@[6] == 'i');
    assert("HeartPiece13"@[7] == 'e');
    assert("HeartPiece13"@[8] == 'c');
    assert("HeartPiece13"@[9] == 'e');
    assert("HeartPiece13"@[10] == '1');
    assert("HeartPiece13"@[11] == '3');
    assert("HeartPiece14"@[0] == 'H');
    assert("HeartPiece14"@[1] == 'e');
    assert("HeartPiece14"@[2] == 'a');
    assert("HeartPiece14"@[3] == 'r');
    assert("HeartPiece14"@[4] == 't');
    assert("HeartPiece14"@[5] == 'P');
    assert("HeartPiece14"@[6] == 'i');
    assert("HeartPiece14"@[7] == 'e');
    assert("HeartPiece14"@[8] == 'c');
    assert("HeartPiece14"@[9] == 'e');
    assert("HeartPiece14"@[10] == '1');
    assert("HeartPiece14"@[11] == '4');
    assert("HeartPiece15"@[0] == 'H');
    assert("HeartPiece15"@[1] == 'e');
    assert("HeartPiece15"@[2] == 'a');
    assert("HeartPiece15"@[3] == 'r');
    assert("HeartPiece15"@[4] == 't');
    assert("HeartPiece15"@[5] == 'P');
    assert("HeartPiece15"@[6] == 'i');
    assert("HeartPiece15"@[7] == 'e');
    assert("HeartPiece15"@[8] == 'c');
    assert("HeartPiece15"@[9] == 'e');
    assert("HeartPiece15"@[10] == '1');
    assert("HeartPiece15"@[11] == '5');
    assert("HeartPiece16"@[0] == 'H');
    assert("HeartPiece16"@[1] == 'e');
    assert("HeartPiece16"@[2] == 'a');
    assert("HeartPiece16"@[3] == 'r');
    assert("HeartPiece16"@[4] == 't');
    assert("HeartPiece16"@[5] == 'P');
    assert("HeartPiece16"@[6] == 'i');
    assert("HeartPiece16"@[7] == 'e');
    assert("HeartPiece16"@[8] == 'c');
    assert("HeartPiece16"@[9] == 'e');
    assert("HeartPiece16"@[10] == '1');
    assert("HeartPiece16"@[11] == '6');
    assert("HeartPiece17"@[0] == 'H');
    assert("HeartPiece17"@[1] == 'e');
    assert("HeartPiece17"@[2] == 'a');
    assert("HeartPiece17"@[3] == 'r');
    assert("HeartPiece17"@[4] == 't');
    assert("HeartPiece17"@[5] == 'P');
    assert("HeartPiece17"@[6] == 'i');
    assert("HeartPiece17"@[7] == 'e');
    assert("HeartPiece17"@[8] == 'c');
    assert("HeartPiece17"@[9] == 'e');
    assert("HeartPiece17"@[10] == '1');
    assert("HeartPiece17"@[11] == '7');
    assert("HeartPiece18"@[0] == 'H');
    assert("HeartPiece18"@[1] == 'e');
    assert("HeartPiece18"@[2] == 'a');
    assert("HeartPiece18"@[3] == 'r');
    assert("HeartPiece18"@[4] == 't');
    assert("HeartPiece18"@[5] == 'P');
    assert("HeartPiece18"@[6] == 'i');
    assert("HeartPiece18"@[7] == 'e');
    assert("HeartPiece18"@[8] == 'c');
    assert("HeartPiece18"@[9] == 'e');
    assert("HeartPiece18"@[10] == '1');
    assert("HeartPiece18"@[11] == '8');
    assert("HeartPiece19"@[0] == 'H');
    assert("HeartPiece19"@[1] == 'e');
    assert("HeartPiece19"@[2] == 'a');
    assert("HeartPiece19"@[3] == 'r');
    assert("HeartPiece19"@[4] == 't');
    assert("HeartPiece19"@[5] == 'P');
    assert("HeartPiece19"@[6] == 'i');
    assert("HeartPiece19"@[7] == 'e');
    assert("HeartPiece19"@[8] == 'c');
    assert("HeartPiece19"@[9] == 'e');
    assert("HeartPiece19"@[10] == '1');
    assert("HeartPiece19"@[11] == '9');
    assert("HeartPiece20"@[0] == 'H');
    assert("HeartPiece20"@[1] == 'e');
    assert("HeartPiece20"@[2] == 'a');
    assert("HeartPiece20"@[3] == 'r');
    assert("HeartPiece20"@[4] == 't');
    assert("HeartPiece20"@[5] == 'P');
    assert("HeartPiece20"@[6] == 'i');
    assert("HeartPiece20"@[7] == 'e');
    assert("HeartPiece20"@[8] == 'c');
    assert("HeartPiece20"@[9] == 'e');
    assert("HeartPiece20"@[10] == '2');
    assert("HeartPiece20"@[11] == '0');
    assert("HeartPiece21"@[0] == 'H');
    assert("HeartPiece21"@[1] == 'e');
    assert("HeartPiece21"@[2] == 'a');
    assert("HeartPiece21"@[3] == 'r');
    assert("HeartPiece21"@[4] == 't');
    assert("HeartPiece21"@[5] == 'P');
    assert("HeartPiece21"@[6] == 'i');
    assert("HeartPiece21"@[7] == 'e');
    assert("HeartPiece21"@[8] == 'c');
    assert("HeartPiece21"@[9] == 'e');
    assert("HeartPiece21"@[10] == '2');
    assert("HeartPiece21"@[11] == '1');
    assert("HeartPiece22"@[0] == 'H');
    assert("HeartPiece22"@[1] == 'e');
    assert("HeartPiece22"@[2] == 'a');
    assert("HeartPiece22"@[3] == 'r');
    assert("HeartPiece22"@[4] == 't');
    assert("HeartPiece22"@[5] == 'P');
    assert("HeartPiece22"@[6] == 'i');
    assert("HeartPiece22"@[7] == 'e');
    assert("HeartPiece22"@[8] == 'c');
    assert("HeartPiece22"@[9] == 'e');
    assert("HeartPiece22"@[10] == '2');
    assert("HeartPiece22"@[11] == '2');
    assert("HeartPiece23"@[0] == 'H');
    assert("HeartPiece23"@[1] == 'e');
    assert("HeartPiece23"@[2] == 'a');
    assert("HeartPiece23"@[3] == 'r');
    assert("HeartPiece23"@[4] == 't');
    assert("HeartPiece23"@[5] == 'P');
    assert("HeartPiece23"@[6] == 'i');
    assert("HeartPiece23"@[7] == 'e');
    assert("HeartPiece23"@[8] == 'c');
    assert("HeartPiece23"@[9] == 'e');
    assert("HeartPiece23"@[10] == '2');
    assert("HeartPiece23"@[11] == '3');
    assert("HeartPiece24"@[0] == 'H');
    assert("HeartPiece24"@[1] == 'e');
    assert("HeartPiece24"@[2] == 'a');
    assert("HeartPiece24"@[3] == 'r');
    assert("HeartPiece24"@[4] == 't');
    assert("HeartPiece24"@[5] == 'P');
    assert("HeartPiece24"@[6] == 'i');
    assert("HeartPiece24"@[7] == 'e');
    assert("HeartPiece24"@[8] == 'c');
    assert("HeartPiece24"@[9] == 'e');
    assert("HeartPiece24"@[10] == '2');
    assert("HeartPiece24"@[11] == '4');
    assert("HeartPiece25"@[0] == 'H');
    assert("HeartPiece25"@[1] == 'e');
    assert("HeartPiece25"@[2] == 'a');
    assert("HeartPiece25"@[3] == 'r');
    assert("HeartPiece25"@[4] == 't');
    assert("HeartPiece25"@[5] == 'P');
    assert("HeartPiece25"@[6] == 'i');
    assert("HeartPiece25"@[7] == 'e');
    assert("HeartPiece25"@[8] == 'c');
    assert("HeartPiece25"@[9] == 'e');
    assert("HeartPiece25"@[10] == '2');
    assert("HeartPiece25"@[11] == '5');
    assert("HeartPiece26"@[0] == 'H');
    assert("HeartPiece26"@[1] == 'e');
    assert("HeartPiece26"@[2] == 'a');
    assert("HeartPiece26"@[3] == 'r');
    assert("HeartPiece26"@[4] == 't');
    assert("HeartPiece26"@[5] == 'P');
    assert("HeartPiece26"@[6] == 'i');
    assert("HeartPiece26"@[7] == 'e');
    assert("HeartPiece26"@[8] == 'c');
    assert("HeartPiece26"@[9] == 'e');
    assert("HeartPiece26"@[10] == '2');
    assert("HeartPiece26"@[11] == '6');
    assert("HeartPiece27"@[0] == 'H');
    assert("HeartPiece27"@[1] == 'e');
    assert("HeartPiece27"@[2] == 'a');
    assert("HeartPiece27"@[3] == 'r');
    assert("HeartPiece27"@[4] == 't');
    assert("HeartPiece27"@[5] == 'P');
    assert("HeartPiece27"@[6] == 'i');
    assert("HeartPiece27"@[7] == 'e');
    assert("HeartPiece27"@[8] == 'c');
    assert("HeartPiece27"@[9] == 'e');
    assert("HeartPiece27"@[10] == '2');
    assert("HeartPiece27"@[11] == '7');
    assert("GalesCompass"@[0] == 'G');
    assert("GalesCompass"@[1] == 'a');
    assert("GalesCompass"@[2] == 'l');
    assert("GalesCompass"@[3] == 'e');
    assert("GalesCompass"@[4] == 's');
    assert("GalesCompass"@[5] == 'C');
    assert("GalesCompass"@[6] == 'o');
    assert("GalesCompass"@[7] == 'm');
    assert("GalesCompass"@[8] == 'p');
    assert("GalesCompass"@[9] == 'a');
    assert("GalesCompass"@[10] == 's');
    assert("GalesCompass"@[11] == 's');
    assert("SwampCompass"@[0] == 'S');
    assert("SwampCompass"@[1] == 'w');
    assert("SwampCompass"@[2] == 'a');
    assert("SwampCompass"@[3] == 'm');
    assert("SwampCompass"@[4] == 'p');
    assert("SwampCompass"@[5] == 'C');
    assert("SwampCompass"@[6] == 'o');
    assert("SwampCompass"@[7] == 'm');
    assert("SwampCompass"@[8] == 'p');
    assert("SwampCompass"@[9] == 'a');
    assert("SwampCompass"@[10] == 's');
    assert("SwampCompass"@[11] == 's');
    assert("SkullCompass"@[0] == 'S');
    assert("SkullCompass"@[1] == 'k');
    assert("SkullCompass"@[2] == 'u');
    assert("SkullCompass"@[3] == 'l');
    assert("SkullCompass"@[4] == 'l');
    assert("SkullCompass"@[5] == 'C');
    assert("SkullCompass"@[6] == 'o');
    assert("SkullCompass"@[7] == 'm');
    assert("SkullCompass"@[8] == 'p');
    assert("SkullCompass"@[9] == 'a');
    assert("SkullCompass"@[10] == 's');
    assert("SkullCompass"@[11] == 's');
    assert("DesertKeyBig"@[0] == 'D');
    assert("DesertKeyBig"@[1] == 'e');
    assert("DesertKeyBig"@[2] == 's');
    assert("DesertKeyBig"@[3] == 'e');
    assert("DesertKeyBig"@[4] == 'r');
    assert("DesertKeyBig"@[5] == 't');
    assert("DesertKeyBig"@[6] == 'K');
    assert("DesertKeyBig"@[7] == 'e');
    assert("DesertKeyBig"@[8] == 'y');
    assert("DesertKeyBig"@[9] == 'B');
    assert("DesertKeyBig"@[10] == 'i');
    assert("DesertKeyBig"@[11] == 'g');
    assert("TurtleKeyBig"@[0] == 'T');
    assert("TurtleKeyBig"@[1] == 'u');
    assert("TurtleKeyBig"@[2] == 'r');
    assert("TurtleKeyBig"@[3] == 't');
    assert("TurtleKeyBig"@[4] == 'l');
    assert("TurtleKeyBig"@[5] == 'e');
    assert("TurtleKeyBig"@[6] == 'K');
    assert("TurtleKeyBig"@[7] == 'e');
    assert("TurtleKeyBig"@[8] == 'y');
    assert("TurtleKeyBig"@[9] == 'B');
    assert("TurtleKeyBig"@[10] == 'i');
    assert("TurtleKeyBig"@[11] == 'g');
    assert("SkullEyeLeft"@[0] == 'S');
    assert("SkullEyeLeft"@[1] == 'k');
    assert("SkullEyeLeft"@[2] == 'u');
    assert("SkullEyeLeft"@[3] == 'l');
    assert("SkullEyeLeft"@[4] == 'l');
    assert("SkullEyeLeft"@[5] == 'E');
    assert("SkullEyeLeft"@[6] == 'y');
    assert("SkullEyeLeft"@[7] == 'e');
    assert("SkullEyeLeft"@[8] == 'L');
    assert("SkullEyeLeft"@[9] == 'e');
    assert("SkullEyeLeft"@[10] == 'f');
    assert("SkullEyeLeft"@[11] == 't');
    assert forall|i: Item, j: Item|
        token_len(i) == 12 && token_len(j) == 12 && i != j implies #[trigger] item_token(
        i,
    ) != #[trigger] item_token(j) by {}
}

/// Tokens of length 13 are pairwise distinct: with every character
/// revealed, some position tells any two of them apart.
#[verifier::rlimit(100)]
proof fn lemma_tokens_distinct_len13()
    ensures
        forall|i: Item, j: Item|
            token_len(i) == 13 && token_len(j) == 13 && i != j ==> #[trigger] item_token(i)
                != #[trigger] item_token(j),
{
    reveal_strlit("StaminaScroll");
    reveal_strlit("RupeePurple01");
    reveal_strlit("RupeePurple02");
    reveal_strlit("RupeePurple03");
    reveal_strlit("RupeePurple04");
    reveal_strlit("RupeePurple05");
    reveal_strlit("RupeePurple06");
    reveal_strlit("RupeePurple07");
    reveal_strlit("RupeePurple08");
    reveal_strlit("RupeePurple09");
    reveal_strlit("RupeePurple10");
    reveal_strlit("RupeePurple11");
    reveal_strlit("RupeePurple12");
    reveal_strlit("RupeePurple13");
    reveal_strlit("RupeePurple14");
    reveal_strlit("RupeePurple15");
    reveal_strlit("RupeePurple16");
    reveal_strlit("RupeePurple17");
    reveal_strlit("RupeePurple18");
    reveal_strlit("RupeeSilver01");
    reveal_strlit("RupeeSilver02");
    reveal_strlit("RupeeSilver03");
    reveal_strlit("RupeeSilver04");
    reveal_strlit("RupeeSilver05");
    reveal_strlit("RupeeSilver06");
    reveal_strlit("RupeeSilver07");
    reveal_strlit("RupeeSilver08");
    reveal_strlit("RupeeSilver09");
    reveal_strlit("RupeeSilver10");
    reveal_strlit("RupeeSilver11");
    reveal_strlit("RupeeSilver12");
    reveal_strlit("RupeeSilver13");
    reveal_strlit("RupeeSilver14");
    reveal_strlit("RupeeSilver15");
    reveal_strlit("RupeeSilver16");
    reveal_strlit("RupeeSilver17");
    reveal_strlit("RupeeSilver18");
    reveal_strlit("RupeeSilver19");
    reveal_strlit("RupeeSilver20");
    reveal_strlit("RupeeSilver21");
    reveal_strlit("RupeeSilver22");
    reveal_strlit("RupeeSilver23");
    reveal_strlit("RupeeSilver24");
    reveal_strlit("RupeeSilver25");
    reveal_strlit("RupeeSilver26");
    reveal_strlit("RupeeSilver27");
    reveal_strlit("RupeeSilver28");
    reveal_strlit("RupeeSilver29");
    reveal_strlit("RupeeSilver30");
    reveal_strlit("RupeeSilver31");
    reveal_strlit("RupeeSilver32");
    reveal_strlit("RupeeSilver33");
    reveal_strlit("RupeeSilver34");
    reveal_strlit("RupeeSilver35");
    reveal_strlit("RupeeSilver36");
    reveal_strlit("RupeeSilver37");
    reveal_strlit("RupeeSilver38");
    reveal_strlit("EasternKeyBig");
    reveal_strlit("ThievesKeyBig");
    reveal_strlit("IceKeySmall01");
    reveal_strlit("IceKeySmall02");
    reveal_strlit("IceKeySmall03");
    reveal_strlit("DesertCompass");
    reveal_strlit("TurtleCompass");
    reveal_strlit("BigBombFlower");
    reveal_strlit("SkullEyeRight");
    reveal_strlit("AccessMilkBar");
    assert("StaminaScroll"@[0] == 'S');
    assert("StaminaScroll"@[1] == 't');
    assert("StaminaScroll"@[2] == 'a');
    assert("StaminaScroll"@[3] == 'm');
    assert("StaminaScroll"@[4] == 'i');
    assert("StaminaScroll"@[5] == 'n');
    assert("StaminaScroll"@[6] == 'a');
    assert("StaminaScroll"@[7] == 'S');
    assert("StaminaScroll"@[8] == 'c');
    assert("StaminaScroll"@[9] == 'r');
    assert("StaminaScroll"@[10] == 'o');
    assert("StaminaScroll"@[11] == 'l');
    assert("StaminaScroll"@[12] == 'l');
    assert("RupeePurple01"@[0] == 'R');
    assert("RupeePurple01"@[1] == 'u');
    assert("RupeePurple01"@[2] == 'p');
    assert("RupeePurple01"@[3] == 'e');
    assert("RupeePurple01"@[4] == 'e');
    assert("RupeePurple01"@[5] == 'P');
    assert("RupeePurple01"@[6] == 'u');
    assert("RupeePurple01"@[7] == 'r');
    assert("RupeePurple01"@[8] == 'p');
    assert("RupeePurple01"@[9] == 'l');
    assert("RupeePurple01"@[10] == 'e');
    assert("RupeePurple01"@[11] == '0');
    assert("RupeePurple01"@[12] == '1');
    assert("RupeePurple02"@[0] == 'R');
    assert("RupeePurple02"@[1] == 'u');
    assert("RupeePurple02"@[2] == 'p');
    assert("RupeePurple02"@[3] == 'e');
    assert("RupeePurple02"@[4] == 'e');
    assert("RupeePurple02"@[5] == 'P');
    assert("RupeePurple02"@[6] == 'u');
    assert("RupeePurple02"@[7] == 'r');
    assert("RupeePurple02"@[8] == 'p');
    assert("RupeePurple02"@[9] == 'l');
    assert("RupeePurple02"@[10] == 'e');
    assert("RupeePurple02"@[11] == '0');
    assert("RupeePurple02"@[12] == '2');
    assert("RupeePurple03"@[0] == 'R');
    assert("RupeePurple03"@[1] == 'u');
    assert("RupeePurple03"@[2] == 'p');
    assert("RupeePurple03"@[3] == 'e');
    assert("RupeePurple03"@[4] == 'e');
    assert("RupeePurple03"@[5] == 'P');
    assert("RupeePurple03"@[6] == 'u');
    assert("RupeePurple03"@[7] == 'r');
    assert("RupeePurple03"@[8] == 'p');
    assert("RupeePurple03"@[9] == 'l');
    assert("RupeePurple03"@[10] == 'e');
    assert("RupeePurple03"@[11] == '0');
    assert("RupeePurple03"@[12] == '3');
    assert("RupeePurple04"@[0] == 'R');
    assert("RupeePurple04"@[1] == 'u');
    assert("RupeePurple04"@[2] == 'p');
    assert("RupeePurple04"@[3] == 'e');
    assert("RupeePurple04"@[4] == 'e');
    assert("RupeePurple04"@[5] == 'P');
    assert("RupeePurple04"@[6] == 'u');
    assert("RupeePurple04"@[7] == 'r');
    assert("RupeePurple04"@[8] == 'p');
    assert("RupeePurple04"@[9] == 'l');
    assert("RupeePurple04"@[10] == 'e');
    assert("RupeePurple04"@[11] == '0');
    assert("RupeePurple04"@[12] == '4');
    assert("RupeePurple05"@[0] == 'R');
    assert("RupeePurple05"@[1] == 'u');
    assert("RupeePurple05"@[2] == 'p');
    assert("RupeePurple05"@[3] == 'e');
    assert("RupeePurple05"@[4] == 'e');
    assert("RupeePurple05"@[5] == 'P');
    assert("RupeePurple05"@[6] == 'u');
    assert("RupeePurple05"@[7] == 'r');
    assert("RupeePurple05"@[8] == 'p');
    assert("RupeePurple05"@[9] == 'l');
    assert("RupeePurple05"@[10] == 'e');
    assert("RupeePurple05"@[11] == '0');
    assert("RupeePurple05"@[12] == '5');
    assert("RupeePurple06"@[0] == 'R');
    assert("RupeePurple06"@[1] == 'u');
    assert("RupeePurple06"@[2] == 'p');
    assert("RupeePurple06"@[3] == 'e');
    assert("RupeePurple06"@[4] == 'e');
    assert("RupeePurple06"@[5] == 'P');
    assert("RupeePurple06"@[6] == 'u');
    assert("RupeePurple06"@[7] == 'r');
    assert("RupeePurple06"@[8] == 'p');
    assert("RupeePurple06"@[9] == 'l');
    assert("RupeePurple06"@[10] == 'e');
    assert("RupeePurple06"@[11] == '0');
    assert("RupeePurple06"@[12] == '6');
    assert("RupeePurple07"@[0] == 'R');
    assert("RupeePurple07"@[1] == 'u');
    assert("RupeePurple07"@[2] == 'p');
    assert("RupeePurple07"@[3] == 'e');
    assert("RupeePurple07"@[4] == 'e');
    assert("RupeePurple07"@[5] == 'P');
    assert("RupeePurple07"@[6] == 'u');
    assert("RupeePurple07"@[7] == 'r');
    assert("RupeePurple07"@[8] == 'p');
    assert("RupeePurple07"@[9] == 'l');
    assert("RupeePurple07"@[10] == 'e');
    assert("RupeePurple07"@[11] == '0');
    assert("RupeePurple07"@[12] == '7');
    assert("RupeePurple08"@[0] == 'R');
    assert("RupeePurple08"@[1] == 'u');
    assert("RupeePurple08"@[2] == 'p');
    assert("RupeePurple08"@[3] == 'e');
    assert("RupeePurple08"@[4] == 'e');
    assert("RupeePurple08"@[5] == 'P');
    assert("RupeePurple08"@[6] == 'u');
    assert("RupeePurple08"@[7] == 'r');
    assert("RupeePurple08"@[8] == 'p');
    assert("RupeePurple08"@[9] == 'l');
    assert("RupeePurple08"@[10] == 'e');
    assert("RupeePurple08"@[11] == '0');
    assert("RupeePurple08"@[12] == '8');
    assert("RupeePurple09"@[0] == 'R');
    assert("RupeePurple09"@[1] == 'u');
    assert("RupeePurple09"@[2] == 'p');
    assert("RupeePurple09"@[3] == 'e');
    assert("RupeePurple09"@[4] == 'e');
    assert("RupeePurple09"@[5] == 'P');
    assert("RupeePurple09"@[6] == 'u');
    assert("RupeePurple09"@[7] == 'r');
    assert("RupeePurple09"@[8] == 'p');
    assert("RupeePurple09"@[9] == 'l');
    assert("RupeePurple09"@[10] == 'e');
    assert("RupeePurple09"@[11] == '0');
    assert("RupeePurple09"@[12] == '9');
    assert("RupeePurple10"@[0] == 'R');
    assert("RupeePurple10"@[1] == 'u');
    assert("RupeePurple10"@[2] == 'p');
    assert("RupeePurple10"@[3] == 'e');
    assert("RupeePurple10"@[4] == 'e');
    assert("RupeePurple10"@[5] == 'P');
    assert("RupeePurple10"@[6] == 'u');
    assert("RupeePurple10"@[7] == 'r');
    assert("RupeePurple10"@[8] == 'p');
    assert("RupeePurple10"@[9] == 'l');
    assert("RupeePurple10"@[10] == 'e');
    assert("RupeePurple10"@[11] == '1');
    assert("RupeePurple10"@[12] == '0');
    assert("RupeePurple11"@[0] == 'R');
    assert("RupeePurple11"@[1] == 'u');
    assert("RupeePurple11"@[2] == 'p');
    assert("RupeePurple11"@[3] == 'e');
    assert("RupeePurple11"@[4] == 'e');
    assert("RupeePurple11"@[5] == 'P');
    assert("RupeePurple11"@[6] == 'u');
    assert("RupeePurple11"@[7] == 'r');
    assert("RupeePurple11"@[8] == 'p');
    assert("RupeePurple11"@[9] == 'l');
    assert("RupeePurple11"@[10] == 'e');
    assert("RupeePurple11"@[11] == '1');
    assert("RupeePurple11"@[12] == '1');
    assert("RupeePurple12"@[0] == 'R');
    assert("RupeePurple12"@[1] == 'u');
    assert("RupeePurple12"@[2] == 'p');
    assert("RupeePurple12"@[3] == 'e');
    assert("RupeePurple12"@[4] == 'e');
    assert("RupeePurple12"@[5] == 'P');
    assert("RupeePurple12"@[6] == 'u');
    assert("RupeePurple12"@[7] == 'r');
    assert("RupeePurple12"@[8] == 'p');
    assert("RupeePurple12"@[9] == 'l');
    assert("RupeePurple12"@[10] == 'e');
    assert("RupeePurple12"@[11] == '1');
    assert("RupeePurple12"@[12] == '2');
    assert("RupeePurple13"@[0] == 'R');
    assert("RupeePurple13"@[1] == 'u');
    assert("RupeePurple13"@[2] == 'p');
    assert("RupeePurple13"@[3] == 'e');
    assert("RupeePurple13"@[4] == 'e');
    assert("RupeePurple13"@[5] == 'P');
    assert("RupeePurple13"@[6] == 'u');
    assert("RupeePurple13"@[7] == 'r');
    assert("RupeePurple13"@[8] == 'p');
    assert("RupeePurple13"@[9] == 'l');
    assert("RupeePurple13"@[10] == 'e');
    assert("RupeePurple13"@[11] == '1');
    assert("RupeePurple13"@[12] == '3');
    assert("RupeePurple14"@[0] == 'R');
    assert("RupeePurple14"@[1] == 'u');
    assert("RupeePurple14"@[2] == 'p');
    assert("RupeePurple14"@[3] == 'e');
    assert("RupeePurple14"@[4] == 'e');
    assert("RupeePurple14"@[5] == 'P');
    assert("RupeePurple14"@[6] == 'u');
    assert("RupeePurple14"@[7] == 'r');
    assert("RupeePurple14"@[8] == 'p');
    assert("RupeePurple14"@[9] == 'l');
    assert("RupeePurple14"@[10] == 'e');
    assert("RupeePurple14"@[11] == '1');
    assert("RupeePurple14"@[12] == '4');
    assert("RupeePurple15"@[0] == 'R');
    assert("RupeePurple15"@[1] == 'u');
    assert("RupeePurple15"@[2] == 'p');
    assert("RupeePurple15"@[3] == 'e');
    assert("RupeePurple15"@[4] == 'e');
    assert("RupeePurple15"@[5] == 'P');
    assert("RupeePurple15"@[6] == 'u');
    assert("RupeePurple15"@[7] == 'r');
    assert("RupeePurple15"@[8] == 'p');
    assert("RupeePurple15"@[9] == 'l');
    assert("RupeePurple15"@[10] == 'e');
    assert("RupeePurple15"@[11] == '1');
    assert("RupeePurple15"@[12] == '5');
    assert("RupeePurple16"@[0] == 'R');
    assert("RupeePurple16"@[1] == 'u');
    assert("RupeePurple16"@[2] == 'p');
    assert("RupeePurple16"@[3] == 'e');
    assert("RupeePurple16"@[4] == 'e');
    assert("RupeePurple16"@[5] == 'P');
    assert("RupeePurple16"@[6] == 'u');
    assert("RupeePurple16"@[7] == 'r');
    assert("RupeePurple16"@[8] == 'p');
    assert("RupeePurple16"@[9] == 'l');
    assert("RupeePurple16"@[10] == 'e');
    assert("RupeePurple16"@[11] == '1');
    assert("RupeePurple16"@[12] == '6');
    assert("RupeePurple17"@[0] == 'R');
    assert("RupeePurple17"@[1] == 'u');
    assert("RupeePurple17"@[2] == 'p');
    assert("RupeePurple17"@[3] == 'e');
    assert("RupeePurple17"@[4] == 'e');
    assert("RupeePurple17"@[5] == 'P');
    assert("RupeePurple17"@[6] == 'u');
    assert("RupeePurple17"@[7] == 'r');
    assert("RupeePurple17"@[8] == 'p');
    assert("RupeePurple17"@[9] == 'l');
    assert("RupeePurple17"@[10] == 'e');
    assert("RupeePurple17"@[11] == '1');
    assert("RupeePurple17"@[12] == '7');
    assert("RupeePurple18"@[0] == 'R');
    assert("RupeePurple18"@[1] == 'u');
    assert("RupeePurple18"@[2] == 'p');
    assert("RupeePurple18"@[3] == 'e');
    assert("RupeePurple18"@[4] == 'e');
    assert("RupeePurple18"@[5] == 'P');
    assert("RupeePurple18"@[6] == 'u');
    assert("RupeePurple18"@[7] == 'r');
    assert("RupeePurple18"@[8] == 'p');
    assert("RupeePurple18"@[9] == 'l');
    assert("RupeePurple18"@[10] == 'e');
    assert("RupeePurple18"@[11] == '1');
    assert("RupeePurple18"@[12] == '8');
    assert("RupeeSilver01"@[0] == 'R');
    assert("RupeeSilver01"@[1] == 'u');
    assert("RupeeSilver01"@[2] == 'p');
    assert("RupeeSilver01"@[3] == 'e');
    assert("RupeeSilver01"@[4] == 'e');
    assert("RupeeSilver01"@[5] == 'S');
    assert("RupeeSilver01"@[6] == 'i');
    assert("RupeeSilver01"@[7] == 'l');
    assert("RupeeSilver01"@[8] == 'v');
    assert("RupeeSilver01"@[9] == 'e');
    assert("RupeeSilver01"@[10] == 'r');
    assert("RupeeSilver01"@[11] == '0');
    assert("RupeeSilver01"@[12] == '1');
    assert("RupeeSilver02"@[0] == 'R');
    assert("RupeeSilver02"@[1] == 'u');
    assert("RupeeSilver02"@[2] == 'p');
    assert("RupeeSilver02"@[3] == 'e');
    assert("RupeeSilver02"@[4] == 'e');
    assert("RupeeSilver02"@[5] == 'S');
    assert("RupeeSilver02"@[6] == 'i');
    assert("RupeeSilver02"@[7] == 'l');
    assert("RupeeSilver02"@[8] == 'v');
    assert("RupeeSilver02"@[9] == 'e');
    assert("RupeeSilver02"@[10] == 'r');
    assert("RupeeSilver02"@[11] == '0');
    assert("RupeeSilver02"@[12] == '2');
    assert("RupeeSilver03"@[0] == 'R');
    assert("RupeeSilver03"@[1] == 'u');
    assert("RupeeSilver03"@[2] == 'p');
    assert("RupeeSilver03"@[3] == 'e');
    assert("RupeeSilver03"@[4] == 'e');
    assert("RupeeSilver03"@[5] == 'S');
    assert("RupeeSilver03"@[6] == 'i');
    assert("RupeeSilver03"@[7] == 'l');
    assert("RupeeSilver03"@[8] == 'v');
    assert("RupeeSilver03"@[9] == 'e');
    assert("RupeeSilver03"@[10] == 'r');
    assert("RupeeSilver03"@[11] == '0');
    assert("RupeeSilver03"@[12] == '3');
    assert("RupeeSilver04"@[0] == 'R');
    assert("RupeeSilver04"@[1] == 'u');
    assert("RupeeSilver04"@[2] == 'p');
    assert("RupeeSilver04"@[3] == 'e');
    assert("RupeeSilver04"@[4] == 'e');
    assert("RupeeSilver04"@[5] == 'S');
    assert("RupeeSilver04"@[6] == 'i');
    assert("RupeeSilver04"@[7] == 'l');
    assert("RupeeSilver04"@[8] == 'v');
    assert("RupeeSilver04"@[9] == 'e');
    assert("RupeeSilver04"@[10] == 'r');
    assert("RupeeSilver04"@[11] == '0');
    assert("RupeeSilver04"@[12] == '4');
    assert("RupeeSilver05"@[0] == 'R');
    assert("RupeeSilver05"@[1] == 'u');
    assert("RupeeSilver05"@[2] == 'p');
    assert("RupeeSilver05"@[3] == 'e');
    assert("RupeeSilver05"@[4] == 'e');
    assert("RupeeSilver05"@[5] == 'S');
    assert("RupeeSilver05"@[6] == 'i');
    assert("RupeeSilver05"@[7] == 'l');
    assert("RupeeSilver05"@[8] == 'v');
    assert("RupeeSilver05"@[9] == 'e');
    assert("RupeeSilver05"@[10] == 'r');
    assert("RupeeSilver05"@[11] == '0');
    assert("RupeeSilver05"@[12] == '5');
    assert("RupeeSilver06"@[0] == 'R');
    assert("RupeeSilver06"@[1] == 'u');
    assert("RupeeSilver06"@[2] == 'p');
    assert("RupeeSilver06"@[3] == 'e');
    assert("RupeeSilver06"@[4] == 'e');
    assert("RupeeSilver06"@[5] == 'S');
    assert("RupeeSilver06"@[6] == 'i');
    assert("RupeeSilver06"@[7] == 'l');
    assert("RupeeSilver06"@[8] == 'v');
    assert("RupeeSilver06"@[9] == 'e');
    assert("RupeeSilver06"@[10] == 'r');
    assert("RupeeSilver06"@[11] == '0');
    assert("RupeeSilver06"@[12] == '6');
    assert("RupeeSilver07"@[0] == 'R');
    assert("RupeeSilver07"@[1] == 'u');
    assert("RupeeSilver07"@[2] == 'p');
    assert("RupeeSilver07"@[3] == 'e');
    assert("RupeeSilver07"@[4] == 'e');
    assert("RupeeSilver07"@[5] == 'S');
    assert("RupeeSilver07"@[6] == 'i');
    assert("RupeeSilver07"@[7] == 'l');
    assert("RupeeSilver07"@[8] == 'v');
    assert("RupeeSilver07"@[9] == 'e');
    assert("RupeeSilver07"@[10] == 'r');
    assert("RupeeSilver07"@[11] == '0');
    assert("RupeeSilver07"@[12] == '7');
    assert("RupeeSilver08"@[0] == 'R');
    assert("RupeeSilver08"@[1] == 'u');
    assert("RupeeSilver08"@[2] == 'p');
    assert("RupeeSilver08"@[3] == 'e');
    assert("RupeeSilver08"@[4] == 'e');
    assert("RupeeSilver08"@[5] == 'S');
    assert("RupeeSilver08"@[6] == 'i');
    assert("RupeeSilver08"@[7] == 'l');
    assert("RupeeSilver08"@[8] == 'v');
    assert("RupeeSilver08"@[9] == 'e');
    assert("RupeeSilver08"@[10] == 'r');
    assert("RupeeSilver08"@[11] == '0');
    assert("RupeeSilver08"@[12] == '8');
    assert("RupeeSilver09"@[0] == 'R');
    assert("RupeeSilver09"@[1] == 'u');
    assert("RupeeSilver09"@[2] == 'p');
    assert("RupeeSilver09"@[3] == 'e');
    assert("RupeeSilver09"@[4] == 'e');
    assert("RupeeSilver09"@[5] == 'S');
    assert("RupeeSilver09"@[6] == 'i');
    assert("RupeeSilver09"@[7] == 'l');
    assert("RupeeSilver09"@[8] == 'v');
    assert("RupeeSilver09"@[9] == 'e');
    assert("RupeeSilver09"@[10] == 'r');
    assert("RupeeSilver09"@[11] == '0');
    assert("RupeeSilver09"@[12] == '9');
    assert("RupeeSilver10"@[0] == 'R');
    assert("RupeeSilver10"@[1] == 'u');
    assert("RupeeSilver10"@[2] == 'p');
    assert("RupeeSilver10"@[3] == 'e');
    assert("RupeeSilver10"@[4] == 'e');
    assert("RupeeSilver10"@[5] == 'S');
    assert("RupeeSilver10"@[6] == 'i');
    assert("RupeeSilver10"@[7] == 'l');
    assert("RupeeSilver10"@[8] == 'v');
    assert("RupeeSilver10"@[9] == 'e');
    assert("RupeeSilver10"@[10] == 'r');
    assert("RupeeSilver10"@[11] == '1');
    assert("RupeeSilver10"@[12] == '0');
    assert("RupeeSilver11"@[0] == 'R');
    assert("RupeeSilver11"@[1] == 'u');
    assert("RupeeSilver11"@[2] == 'p');
    assert("RupeeSilver11"@[3] == 'e');
    assert("RupeeSilver11"@[4] == 'e');
    assert("RupeeSilver11"@[5] == 'S');
    assert("RupeeSilver11"@[6] == 'i');
    assert("RupeeSilver11"@[7] == 'l');
    assert("RupeeSilver11"@[8] == 'v');
    assert("RupeeSilver11"@[9] == 'e');
    assert("RupeeSilver11"@[10] == 'r');
    assert("RupeeSilver11"@[11] == '1');
    assert("RupeeSilver11"@[12] == '1');
    assert("RupeeSilver12"@[0] == 'R');
    assert("RupeeSilver12"@[1] == 'u');
    assert("RupeeSilver12"@[2] == 'p');
    assert("RupeeSilver12"@[3] == 'e');
    assert("RupeeSilver12"@[4] == 'e');
    assert("RupeeSilver12"@[5] == 'S');
    assert("RupeeSilver12"@[6] == 'i');
    assert("RupeeSilver12"@[7] == 'l');
    assert("RupeeSilver12"@[8] == 'v');
    assert("RupeeSilver12"@[9] == 'e');
    assert("RupeeSilver12"@[10] == 'r');
    assert("RupeeSilver12"@[11] == '1');
    assert("RupeeSilver12"@[12] == '2');
    assert("RupeeSilver13"@[0] == 'R');
    assert("RupeeSilver13"@[1] == 'u');
    assert("RupeeSilver13"@[2] == 'p');
    assert("RupeeSilver13"@[3] == 'e');
    assert("RupeeSilver13"@[4] == 'e');
    assert("RupeeSilver13"@[5] == 'S');
    assert("RupeeSilver13"@[6] == 'i');
    assert("RupeeSilver13"@[7] == 'l');
    assert("RupeeSilver13"@[8] == 'v');
    assert("RupeeSilver13"@[9] == 'e');
    assert("RupeeSilver13"@[10] == 'r');
    assert("RupeeSilver13"@[11] == '1');
    assert("RupeeSilver13"@[12] == '3');
    assert("RupeeSilver14"@[0] == 'R');
    assert("RupeeSilver14"@[1] == 'u');
    assert("RupeeSilver14"@[2] == 'p');
    assert("RupeeSilver14"@[3] == 'e');
    assert("RupeeSilver14"@[4] == 'e');
    assert("RupeeSilver14"@[5] == 'S');
    assert("RupeeSilver14"@[6] == 'i');
    assert("RupeeSilver14"@[7] == 'l');
    assert("RupeeSilver14"@[8] == 'v');
    assert("RupeeSilver14"@[9] == 'e');
    assert("RupeeSilver14"@[10] == 'r');
    assert("RupeeSilver14"@[11] == '1');
    assert("RupeeSilver14"@[12] == '4');
    assert("RupeeSilver15"@[0] == 'R');
    assert("RupeeSilver15"@[1] == 'u');
    assert("RupeeSilver15"@[2] == 'p');
    assert("RupeeSilver15"@[3] == 'e');
    assert("RupeeSilver15"@[4] == 'e');
    assert("RupeeSilver15"@[5] == 'S');
    assert("RupeeSilver15"@[6] == 'i');
    assert("RupeeSilver15"@[7] == 'l');
    assert("RupeeSilver15"@[8] == 'v');
    assert("RupeeSilver15"@[9] == 'e');
    assert("RupeeSilver15"@[10] == 'r');
    assert("RupeeSilver15"@[11] == '1');
    assert("RupeeSilver15"@[12] == '5');
    assert("RupeeSilver16"@[0] == 'R');
    assert("RupeeSilver16"@[1] == 'u');
    assert("RupeeSilver16"@[2] == 'p');
    assert("RupeeSilver16"@[3] == 'e');
    assert("RupeeSilver16"@[4] == 'e');
    assert("RupeeSilver16"@[5] == 'S');
    assert("RupeeSilver16"@[6] == 'i');
    assert("RupeeSilver16"@[7] == 'l');
    assert("RupeeSilver16"@[8] == 'v');
    assert("RupeeSilver16"@[9] == 'e');
    assert("RupeeSilver16"@[10] == 'r');
    assert("RupeeSilver16"@[11] == '1');
    assert("RupeeSilver16"@[12] == '6');
    assert("RupeeSilver17"@[0] == 'R');
    assert("RupeeSilver17"@[1] == 'u');
    assert("RupeeSilver17"@[2] == 'p');
    assert("RupeeSilver17"@[3] == 'e');
    assert("RupeeSilver17"@[4] == 'e');
    assert("RupeeSilver17"@[5] == 'S');
    assert("RupeeSilver17"@[6] == 'i');
    assert("RupeeSilver17"@[7] == 'l');
    assert("RupeeSilver17"@[8] == 'v');
    assert("RupeeSilver17"@[9] == 'e');
    assert("RupeeSilver17"@[10] == 'r');
    assert("RupeeSilver17"@[11] == '1');
    assert("RupeeSilver17"@[12] == '7');
    assert("RupeeSilver18"@[0] == 'R');
    assert("RupeeSilver18"@[1] == 'u');
    assert("RupeeSilver18"@[2] == 'p');
    assert("RupeeSilver18"@[3] == 'e');
    assert("RupeeSilver18"@[4] == 'e');
    assert("RupeeSilver18"@[5] == 'S');
    assert("RupeeSilver18"@[6] == 'i');
    assert("RupeeSilver18"@[7] == 'l');
    assert("RupeeSilver18"@[8] == 'v');
    assert("RupeeSilver18"@[9] == 'e');
    assert("RupeeSilver18"@[10] == 'r');
    assert("RupeeSilver18"@[11] == '1');
    assert("RupeeSilver18"@[12] == '8');
    assert("RupeeSilver19"@[0] == 'R');
    assert("RupeeSilver19"@[1] == 'u');
    assert("RupeeSilver19"@[2] == 'p');
    assert("RupeeSilver19"@[3] == 'e');
    assert("RupeeSilver19"@[4] == 'e');
    assert("RupeeSilver19"@[5] == 'S');
    assert("RupeeSilver19"@[6] == 'i');
    assert("RupeeSilver19"@[7] == 'l');
    assert("RupeeSilver19"@[8] == 'v');
    assert("RupeeSilver19"@[9] == 'e');
    assert("RupeeSilver19"@[10] == 'r');
    assert("RupeeSilver19"@[11] == '1');
    assert("RupeeSilver19"@[12] == '9');
    assert("RupeeSilver20"@[0] == 'R');
    assert("RupeeSilver20"@[1] == 'u');
    assert("RupeeSilver20"@[2] == 'p');
    assert("RupeeSilver20"@[3] == 'e');
    assert("RupeeSilver20"@[4] == 'e');
    assert("RupeeSilver20"@[5] == 'S');
    assert("RupeeSilver20"@[6] == 'i');
    assert("RupeeSilver20"@[7] == 'l');
    assert("RupeeSilver20"@[8] == 'v');
    assert("RupeeSilver20"@[9] == 'e');
    assert("RupeeSilver20"@[10] == 'r');
    assert("RupeeSilver20"@[11] == '2');
    assert("RupeeSilver20"@[12] == '0');
    assert("RupeeSilver21"@[0] == 'R');
    assert("RupeeSilver21"@[1] == 'u');
    assert("RupeeSilver21"@[2] == 'p');
    assert("RupeeSilver21"@[3] == 'e');
    assert("RupeeSilver21"@[4] == 'e');
    assert("RupeeSilver21"@[5] == 'S');
    assert("RupeeSilver21"@[6] == 'i');
    assert("RupeeSilver21"@[7] == 'l');
    assert("RupeeSilver21"@[8] == 'v');
    assert("RupeeSilver21"@[9] == 'e');
    assert("RupeeSilver21"@[10] == 'r');
    assert("RupeeSilver21"@[11] == '2');
    assert("RupeeSilver21"@[12] == '1');
    assert("RupeeSilver22"@[0] == 'R');
    assert("RupeeSilver22"@[1] == 'u');
    assert("RupeeSilver22"@[2] == 'p');
    assert("RupeeSilver22"@[3] == 'e');
    assert("RupeeSilver22"@[4] == 'e');
    assert("RupeeSilver22"@[5] == 'S');
    assert("RupeeSilver22"@[6] == 'i');
    assert("RupeeSilver22"@[7] == 'l');
    assert("RupeeSilver22"@[8] == 'v');
    assert("RupeeSilver22"@[9] == 'e');
    assert("RupeeSilver22"@[10] == 'r');
    assert("RupeeSilver22"@[11] == '2');
    assert("RupeeSilver22"@[12] == '2');
    assert("RupeeSilver23"@[0] == 'R');
    assert("RupeeSilver23"@[1] == 'u');
    assert("RupeeSilver23"@[2] == 'p');
    assert("RupeeSilver23"@[3] == 'e');
    assert("RupeeSilver23"@[4] == 'e');
    assert("RupeeSilver23"@[5] == 'S');
    assert("RupeeSilver23"@[6] == 'i');
    assert("RupeeSilver23"@[7] == 'l');
    assert("RupeeSilver23"@[8] == 'v');
    assert("RupeeSilver23"@[9] == 'e');
    assert("RupeeSilver23"@[10] == 'r');
    assert("RupeeSilver23"@[11] == '2');
    assert("RupeeSilver23"@[12] == '3');
    assert("RupeeSilver24"@[0] == 'R');
    assert("RupeeSilver24"@[1] == 'u');
    assert("RupeeSilver24"@[2] == 'p');
    assert("RupeeSilver24"@[3] == 'e');
    assert("RupeeSilver24"@[4] == 'e');
    assert("RupeeSilver24"@[5] == 'S');
    assert("RupeeSilver24"@[6] == 'i');
    assert("RupeeSilver24"@[7] == 'l');
    assert("RupeeSilver24"@[8] == 'v');
    assert("RupeeSilver24"@[9] == 'e');
    assert("RupeeSilver24"@[10] == 'r');
    assert("RupeeSilver24"@[11] == '2');
    assert("RupeeSilver24"@[12] == '4');
    assert("RupeeSilver25"@[0] == 'R');
    assert("RupeeSilver25"@[1] == 'u');
    assert("RupeeSilver25"@[2] == 'p');
    assert("RupeeSilver25"@[3] == 'e');
    assert("RupeeSilver25"@[4] == 'e');
    assert("RupeeSilver25"@[5] == 'S');
    assert("RupeeSilver25"@[6] == 'i');
    assert("RupeeSilver25"@[7] == 'l');
    assert("RupeeSilver25"@[8] == 'v');
    assert("RupeeSilver25"@[9] == 'e');
    assert("RupeeSilver25"@[10] == 'r');
    assert("RupeeSilver25"@[11] == '2');
    assert("RupeeSilver25"@[12] == '5');
    assert("RupeeSilver26"@[0] == 'R');
    assert("RupeeSilver26"@[1] == 'u');
    assert("RupeeSilver26"@[2] == 'p');
    assert("RupeeSilver26"@[3] == 'e');
    assert("RupeeSilver26"@[4] == 'e');
    assert("RupeeSilver26"@[5] == 'S');
    assert("RupeeSilver26"@[6] == 'i');
    assert("RupeeSilver26"@[7] == 'l');
    assert("RupeeSilver26"@[8] == 'v');
    assert("RupeeSilver26"@[9] == 'e');
    assert("RupeeSilver26"@[10] == 'r');
    assert("RupeeSilver26"@[11] == '2');
    assert("RupeeSilver26"@[12] == '6');
    assert("RupeeSilver27"@[0] == 'R');
    assert("RupeeSilver27"@[1] == 'u');
    assert("RupeeSilver27"@[2] == 'p');
    assert("RupeeSilver27"@[3] == 'e');
    assert("RupeeSilver27"@[4] == 'e');
    assert("RupeeSilver27"@[5] == 'S');
    assert("RupeeSilver27"@[6] == 'i');
    assert("RupeeSilver27"@[7] == 'l');
    assert("RupeeSilver27"@[8] == 'v');
    assert("RupeeSilver27"@[9] == 'e');
    assert("RupeeSilver27"@[10] == 'r');
    assert("RupeeSilver27"@[11] == '2');
    assert("RupeeSilver27"@[12] == '7');
    assert("RupeeSilver28"@[0] == 'R');
    assert("RupeeSilver28"@[1] == 'u');
    assert("RupeeSilver28"@[2] == 'p');
    assert("RupeeSilver28"@[3] == 'e');
    assert("RupeeSilver28"@[4] == 'e');
    assert("RupeeSilver28"@[5] == 'S');
    assert("RupeeSilver28"@[6] == 'i');
    assert("RupeeSilver28"@[7] == 'l');
    assert("RupeeSilver28"@[8] == 'v');
    assert("RupeeSilver28"@[9] == 'e');
    assert("RupeeSilver28"@[10] == 'r');
    assert("RupeeSilver28"@[11] == '2');
    assert("RupeeSilver28"@[12] == '8');
    assert("RupeeSilver29"@[0] == 'R');
    assert("RupeeSilver29"@[1] == 'u');
    assert("RupeeSilver29"@[2] == 'p');
    assert("RupeeSilver29"@[3] == 'e');
    assert("RupeeSilver29"@[4] == 'e');
    assert("RupeeSilver29"@[5] == 'S');
    assert("RupeeSilver29"@[6] == 'i');
    assert("RupeeSilver29"@[7] == 'l');
    assert("RupeeSilver29"@[8] == 'v');
    assert("RupeeSilver29"@[9] == 'e');
    assert("RupeeSilver29"@[10] == 'r');
    assert("RupeeSilver29"@[11] == '2');
    assert("RupeeSilver29"@[12] == '9');
    assert("RupeeSilver30"@[0] == 'R');
    assert("RupeeSilver30"@[1] == 'u');
    assert("RupeeSilver30"@[2] == 'p');
    assert("RupeeSilver30"@[3] == 'e');
    assert("RupeeSilver30"@[4] == 'e');
    assert("RupeeSilver30"@[5] == 'S');
    assert("RupeeSilver30"@[6] == 'i');
    assert("RupeeSilver30"@[7] == 'l');
    assert("RupeeSilver30"@[8] == 'v');
    assert("RupeeSilver30"@[9] == 'e');
    assert("RupeeSilver30"@[10] == 'r');
    assert("RupeeSilver30"@[11] == '3');
    assert("RupeeSilver30"@[12] == '0');
    assert("RupeeSilver31"@[0] == 'R');
    assert("RupeeSilver31"@[1] == 'u');
    assert("RupeeSilver31"@[2] == 'p');
    assert("RupeeSilver31"@[3] == 'e');
    assert("RupeeSilver31"@[4] == 'e');
    assert("RupeeSilver31"@[5] == 'S');
    assert("RupeeSilver31"@[6] == 'i');
    assert("RupeeSilver31"@[7] == 'l');
    assert("RupeeSilver31"@[8] == 'v');
    assert("RupeeSilver31"@[9] == 'e');
    assert("RupeeSilver31"@[10] == 'r');
    assert("RupeeSilver31"@[11] == '3');
    assert("RupeeSilver31"@[12] == '1');
    assert("RupeeSilver32"@[0] == 'R');
    assert("RupeeSilver32"@[1] == 'u');
    assert("RupeeSilver32"@[2] == 'p');
    assert("RupeeSilver32"@[3] == 'e');
    assert("RupeeSilver32"@[4] == 'e');
    assert("RupeeSilver32"@[5] == 'S');
    assert("RupeeSilver32"@[6] == 'i');
    assert("RupeeSilver32"@[7] == 'l');
    assert("RupeeSilver32"@[8] == 'v');
    assert("RupeeSilver32"@[9] == 'e');
    assert("RupeeSilver32"@[10] == 'r');
    assert("RupeeSilver32"@[11] == '3');
    assert("RupeeSilver32"@[12] == '2');
    assert("RupeeSilver33"@[0] == 'R');
    assert("RupeeSilver33"@[1] == 'u');
    assert("RupeeSilver33"@[2] == 'p');
    assert("RupeeSilver33"@[3] == 'e');
    assert("RupeeSilver33"@[4] == 'e');
    assert("RupeeSilver33"@[5] == 'S');
    assert("RupeeSilver33"@[6] == 'i');
    assert("RupeeSilver33"@[7] == 'l');
    assert("RupeeSilver33"@[8] == 'v');
    assert("RupeeSilver33"@[9] == 'e');
    assert("RupeeSilver33"@[10] == 'r');
    assert("RupeeSilver33"@[11] == '3');
    assert("RupeeSilver33"@[12] == '3');
    assert("RupeeSilver34"@[0] == 'R');
    assert("RupeeSilver34"@[1] == 'u');
    assert("RupeeSilver34"@[2] == 'p');
    assert("RupeeSilver34"@[3] == 'e');
    assert("RupeeSilver34"@[4] == 'e');
    assert("RupeeSilver34"@[5] == 'S');
    assert("RupeeSilver34"@[6] == 'i');
    assert("RupeeSilver34"@[7] == 'l');
    assert("RupeeSilver34"@[8] == 'v');
    assert("RupeeSilver34"@[9] == 'e');
    assert("RupeeSilver34"@[10] == 'r');
    assert("RupeeSilver34"@[11] == '3');
    assert("RupeeSilver34"@[12] == '4');
    assert("RupeeSilver35"@[0] == 'R');
    assert("RupeeSilver35"@[1] == 'u');
    assert("RupeeSilver35"@[2] == 'p');
    assert("RupeeSilver35"@[3] == 'e');
    assert("RupeeSilver35"@[4] == 'e');
    assert("RupeeSilver35"@[5] == 'S');
    assert("RupeeSilver35"@[6] == 'i');
    assert("RupeeSilver35"@[7] == 'l');
    assert("RupeeSilver35"@[8] == 'v');
    assert("RupeeSilver35"@[9] == 'e');
    assert("RupeeSilver35"@[10] == 'r');
    assert("RupeeSilver35"@[11] == '3');
    assert("RupeeSilver35"@[12] == '5');
    assert("RupeeSilver36"@[0] == 'R');
    assert("RupeeSilver36"@[1] == 'u');
    assert("RupeeSilver36"@[2] == 'p');
    assert("RupeeSilver36"@[3] == 'e');
    assert("RupeeSilver36"@[4] == 'e');
    assert("RupeeSilver36"@[5] == 'S');
    assert("RupeeSilver36"@[6] == 'i');
    assert("RupeeSilver36"@[7] == 'l');
    assert("RupeeSilver36"@[8] == 'v');
    assert("RupeeSilver36"@[9] == 'e');
    assert("RupeeSilver36"@[10] == 'r');
    assert("RupeeSilver36"@[11] == '3');
    assert("RupeeSilver36"@[12] == '6');
    assert("RupeeSilver37"@[0] == 'R');
    assert("RupeeSilver37"@[1] == 'u');
    assert("RupeeSilver37"@[2] == 'p');
    assert("RupeeSilver37"@[3] == 'e');
    assert("RupeeSilver37"@[4] == 'e');
    assert("RupeeSilver37"@[5] == 'S');
    assert("RupeeSilver37"@[6] == 'i');
    assert("RupeeSilver37"@[7] == 'l');
    assert("RupeeSilver37"@[8] == 'v');
    assert("RupeeSilver37"@[9] == 'e');
    assert("RupeeSilver37"@[10] == 'r');
    assert("RupeeSilver37"@[11] == '3');
    assert("RupeeSilver37"@[12] == '7');
    assert("RupeeSilver38"@[0] == 'R');
    assert("RupeeSilver38"@[1] == 'u');
    assert("RupeeSilver38"@[2] == 'p');
    assert("RupeeSilver38"@[3] == 'e');
    assert("RupeeSilver38"@[4] == 'e');
    assert("RupeeSilver38"@[5] == 'S');
    assert("RupeeSilver38"@[6] == 'i');
    assert("RupeeSilver38"@[7] == 'l');
    assert("RupeeSilver38"@[8] == 'v');
    assert("RupeeSilver38"@[9] == 'e');
    assert("RupeeSilver38"@[10] == 'r');
    assert("RupeeSilver38"@[11] == '3');
    assert("RupeeSilver38"@[12] == '8');
    assert("EasternKeyBig"@[0] == 'E');
    assert("EasternKeyBig"@[1] == 'a');
    assert("EasternKeyBig"@[2] == 's');
    assert("EasternKeyBig"@[3] == 't');
    assert("EasternKeyBig"@[4] == 'e');
    assert("EasternKeyBig"@[5] == 'r');
    assert("EasternKeyBig"@[6] == 'n');
    assert("EasternKeyBig"@[7] == 'K');
    assert("EasternKeyBig"@[8] == 'e');
    assert("EasternKeyBig"@[9] == 'y');
    assert("EasternKeyBig"@[10] == 'B');
    assert("EasternKeyBig"@[11] == 'i');
    assert("EasternKeyBig"@[12] == 'g');
    assert("ThievesKeyBig"@[0] == 'T');
    assert("ThievesKeyBig"@[1] == 'h');
    assert("ThievesKeyBig"@[2] == 'i');
    assert("ThievesKeyBig"@[3] == 'e');
    assert("ThievesKeyBig"@[4] == 'v');
    assert("ThievesKeyBig"@[5] == 'e');
    assert("ThievesKeyBig"@[6] == 's');
    assert("ThievesKeyBig"@[7] == 'K');
    assert("ThievesKeyBig"@[8] == 'e');
    assert("ThievesKeyBig"@[9] == 'y');
    assert("ThievesKeyBig"@[10] == 'B');
    assert("ThievesKeyBig"@[11] == 'i');
    assert("ThievesKeyBig"@[12] == 'g');
    assert("IceKeySmall01"@[0] == 'I');
    assert("IceKeySmall01"@[1] == 'c');
    assert("IceKeySmall01"@[2] == 'e');
    assert("IceKeySmall01"@[3] == 'K');
    assert("IceKeySmall01"@[4] == 'e');
    assert("IceKeySmall01"@[5] == 'y');
    assert("IceKeySmall01"@[6] == 'S');
    assert("IceKeySmall01"@[7] == 'm');
    assert("IceKeySmall01"@[8] == 'a');
    assert("IceKeySmall01"@[9] == 'l');
    assert("IceKeySmall01"@[10] == 'l');
    assert("IceKeySmall01"@[11] == '0');
    assert("IceKeySmall01"@[12] == '1');
    assert("IceKeySmall02"@[0] == 'I');
    assert("IceKeySmall02"@[1] == 'c');
    assert("IceKeySmall02"@[2] == 'e');
    assert("IceKeySmall02"@[3] == 'K');
    assert("IceKeySmall02"@[4] == 'e');
    assert("IceKeySmall02"@[5] == 'y');
    assert("IceKeySmall02"@[6] == 'S');
    assert("IceKeySmall02"@[7] == 'm');
    assert("IceKeySmall02"@[8] == 'a');
    assert("IceKeySmall02"@[9] == 'l');
    assert("IceKeySmall02"@[10] == 'l');
    assert("IceKeySmall02"@[11] == '0');
    assert("IceKeySmall02"@[12] == '2');
    assert("IceKeySmall03"@[0] == 'I');
    assert("IceKeySmall03"@[1] == 'c');
    assert("IceKeySmall03"@[2] == 'e');
    assert("IceKeySmall03"@[3] == 'K');
    assert("IceKeySmall03"@[4] == 'e');
    assert("IceKeySmall03"@[5] == 'y');
    assert("IceKeySmall03"@[6] == 'S');
    assert("IceKeySmall03"@[7] == 'm');
    assert("IceKeySmall03"@[8] == 'a');
    assert("IceKeySmall03"@[9] == 'l');
    assert("IceKeySmall03"@[10] == 'l');
    assert("IceKeySmall03"@[11] == '0');
    assert("IceKeySmall03"@[12] == '3');
    assert("DesertCompass"@[0] == 'D');
    assert("DesertCompass"@[1] == 'e');
    assert("DesertCompass"@[2] == 's');
    assert("DesertCompass"@[3] == 'e');
    assert("DesertCompass"@[4] == 'r');
    assert("DesertCompass"@[5] == 't');
    assert("DesertCompass"@[6] == 'C');
    assert("DesertCompass"@[7] == 'o');
    assert("DesertCompass"@[8] == 'm');
    assert("DesertCompass"@[9] == 'p');
    assert("DesertCompass"@[10] == 'a');
    assert("DesertCompass"@[11] == 's');
    assert("DesertCompass"@[12] == 's');
    assert("TurtleCompass"@[0] == 'T');
    assert("TurtleCompass"@[1] == 'u');
    assert("TurtleCompass"@[2] == 'r');
    assert("TurtleCompass"@[3] == 't');
    assert("TurtleCompass"@[4] == 'l');
    assert("TurtleCompass"@[5] == 'e');
    assert("TurtleCompass"@[6] == 'C');
    assert("TurtleCompass"@[7] == 'o');
    assert("TurtleCompass"@[8] == 'm');
    assert("TurtleCompass"@[9] == 'p');
    assert("TurtleCompass"@[10] == 'a');
    assert("TurtleCompass"@[11] == 's');
    assert("TurtleCompass"@[12] == 's');
    assert("BigBombFlower"@[0] == 'B');
    assert("BigBombFlower"@[1] == 'i');
    assert("BigBombFlower"@[2] == 'g');
    assert("BigBombFlower"@[3] == 'B');
    assert("BigBombFlower"@[4] == 'o');
    assert("BigBombFlower"@[5] == 'm');
    assert("BigBombFlower"@[6] == 'b');
    assert("BigBombFlower"@[7] == 'F');
    assert("BigBombFlower"@[8] == 'l');
    assert("BigBombFlower"@[9] == 'o');
    assert("BigBombFlower"@[10] == 'w');
    assert("BigBombFlower"@[11] == 'e');
    assert("BigBombFlower"@[12] == 'r');
    assert("SkullEyeRight"@[0] == 'S');
    assert("SkullEyeRight"@[1] == 'k');
    assert("SkullEyeRight"@[2] == 'u');
    assert("SkullEyeRight"@[3] == 'l');
    assert("SkullEyeRight"@[4] == 'l');
    assert("SkullEyeRight"@[5] == 'E');
    assert("SkullEyeRight"@[6] == 'y');
    assert("SkullEyeRight"@[7] == 'e');
    assert("SkullEyeRight"@[8] == 'R');
    assert("SkullEyeRight"@[9] == 'i');
    assert("SkullEyeRight"@[10] == 'g');
    assert("SkullEyeRight"@[11] == 'h');
    assert("SkullEyeRight"@[12] == 't');
    assert("AccessMilkBar"@[0] == 'A');
    assert("AccessMilkBar"@[1] == 'c');
    assert("AccessMilkBar"@[2] == 'c');
    assert("AccessMilkBar"@[3] == 'e');
    assert("AccessMilkBar"@[4] == 's');
    assert("AccessMilkBar"@[5] == 's');
    assert("AccessMilkBar"@[6] == 'M');
    assert("AccessMilkBar"@[7] == 'i');
    assert("AccessMilkBar"@[8] == 'l');
    assert("AccessMilkBar"@[9] == 'k');
    assert("AccessMilkBar"@[10] == 'B');
    assert("AccessMilkBar"@[11] == 'a');
    assert("AccessMilkBar"@[12] == 'r');
    assert forall|i: Item, j: Item|
        token_len(i) == 13 && token_len(j) == 13 && i != j implies #[trigger] item_token(
        i,
    ) != #[trigger] item_token(j) by {}
}

/// Tokens of length 14 are pairwise distinct: with every character
/// revealed, some position tells any two of them apart.
#[verifier::rlimit(100)]
proof fn lemma_tokens_distinct_len14()
    ensures
        forall|i: Item, j: Item|
            token_len(i) == 14 && token_len(j) == 14 && i != j ==> #[trigger] item_token(i)
                != #[trigger] item_token(j),
{
    reveal_strlit("EasternCompass");
    reveal_strlit("HeraKeySmall01");
    reveal_strlit("HeraKeySmall02");
    reveal_strlit("DarkKeySmall01");
    reveal_strlit("DarkKeySmall02");
    reveal_strlit("DarkKeySmall03");
    reveal_strlit("DarkKeySmall04");
    reveal_strlit("ThievesCompass");
    reveal_strlit("PendantOfPower");
    assert("EasternCompass"@[0] == 'E');
    assert("EasternCompass"@[1] == 'a');
    assert("EasternCompass"@[2] == 's');
    assert("EasternCompass"@[3] == 't');
    assert("EasternCompass"@[4] == 'e');
    assert("EasternCompass"@[5] == 'r');
    assert("EasternCompass"@[6] == 'n');
    assert("EasternCompass"@[7] == 'C');
    assert("EasternCompass"@[8] == 'o');
    assert("EasternCompass"@[9] == 'm');
    assert("EasternCompass"@[10] == 'p');
    assert("EasternCompass"@[11] == 'a');
    assert("EasternCompass"@[12] == 's');
    assert("EasternCompass"@[13] == 's');
    assert("HeraKeySmall01"@[0] == 'H');
    assert("HeraKeySmall01"@[1] == 'e');
    assert("HeraKeySmall01"@[2] == 'r');
    assert("HeraKeySmall01"@[3] == 'a');
    assert("HeraKeySmall01"@[4] == 'K');
    assert("HeraKeySmall01"@[5] == 'e');
    assert("HeraKeySmall01"@[6] == 'y');
    assert("HeraKeySmall01"@[7] == 'S');
    assert("HeraKeySmall01"@[8] == 'm');
    assert("HeraKeySmall01"@[9] == 'a');
    assert("HeraKeySmall01"@[10] == 'l');
    assert("HeraKeySmall01"@[11] == 'l');
    assert("HeraKeySmall01"@[12] == '0');
    assert("HeraKeySmall01"@[13] == '1');
    assert("HeraKeySmall02"@[0] == 'H');
    assert("HeraKeySmall02"@[1] == 'e');
    assert("HeraKeySmall02"@[2] == 'r');
    assert("HeraKeySmall02"@[3] == 'a');
    assert("HeraKeySmall02"@[4] == 'K');
    assert("HeraKeySmall02"@[5] == 'e');
    assert("HeraKeySmall02"@[6] == 'y');
    assert("HeraKeySmall02"@[7] == 'S');
    assert("HeraKeySmall02"@[8] == 'm');
    assert("HeraKeySmall02"@[9] == 'a');
    assert("HeraKeySmall02"@[10] == 'l');
    assert("HeraKeySmall02"@[11] == 'l');
    assert("HeraKeySmall02"@[12] == '0');
    assert("HeraKeySmall02"@[13] == '2');
    assert("DarkKeySmall01"@[0] == 'D');
    assert("DarkKeySmall01"@[1] == 'a');
    assert("DarkKeySmall01"@[2] == 'r');
    assert("DarkKeySmall01"@[3] == 'k');
    assert("DarkKeySmall01"@[4] == 'K');
    assert("DarkKeySmall01"@[5] == 'e');
    assert("DarkKeySmall01"@[6] == 'y');
    assert("DarkKeySmall01"@[7] == 'S');
    assert("DarkKeySmall01"@[8] == 'm');
    assert("DarkKeySmall01"@[9] == 'a');
    assert("DarkKeySmall01"@[10] == 'l');
    assert("DarkKeySmall01"@[11] == 'l');
    assert("DarkKeySmall01"@[12] == '0');
    assert("DarkKeySmall01"@[13] == '1');
    assert("DarkKeySmall02"@[0] == 'D');
    assert("DarkKeySmall02"@[1] == 'a');
    assert("DarkKeySmall02"@[2] == 'r');
    assert("DarkKeySmall02"@[3] == 'k');
    assert("DarkKeySmall02"@[4] == 'K');
    assert("DarkKeySmall02"@[5] == 'e');
    assert("DarkKeySmall02"@[6] == 'y');
    assert("DarkKeySmall02"@[7] == 'S');
    assert("DarkKeySmall02"@[8] == 'm');
    assert("DarkKeySmall02"@[9] == 'a');
    assert("DarkKeySmall02"@[10] == 'l');
    assert("DarkKeySmall02"@[11] == 'l');
    assert("DarkKeySmall02"@[12] == '0');
    assert("DarkKeySmall02"@[13] == '2');
    assert("DarkKeySmall03"@[0] == 'D');
    assert("DarkKeySmall03"@[1] == 'a');
    assert("DarkKeySmall03"@[2] == 'r');
    assert("DarkKeySmall03"@[3] == 'k');
    assert("DarkKeySmall03"@[4] == 'K');
    assert("DarkKeySmall03"@[5] == 'e');
    assert("DarkKeySmall03"@[6] == 'y');
    assert("DarkKeySmall03"@[7] == 'S');
    assert("DarkKeySmall03"@[8] == 'm');
    assert("DarkKeySmall03"@[9] == 'a');
    assert("DarkKeySmall03"@[10] == 'l');
    assert("DarkKeySmall03"@[11] == 'l');
    assert("DarkKeySmall03"@[12] == '0');
    assert("DarkKeySmall03"@[13] == '3');
    assert("DarkKeySmall04"@[0] == 'D');
    assert("DarkKeySmall04"@[1] == 'a');
    assert("DarkKeySmall04"@[2] == 'r');
    assert("DarkKeySmall04"@[3] == 'k');
    assert("DarkKeySmall04"@[4] == 'K');
    assert("DarkKeySmall04"@[5] == 'e');
    assert("DarkKeySmall04"@[6] == 'y');
    assert("DarkKeySmall04"@[7] == 'S');
    assert("DarkKeySmall04"@[8] == 'm');
    assert("DarkKeySmall04"@[9] == 'a');
    assert("DarkKeySmall04"@[10] == 'l');
    assert("DarkKeySmall04"@[11] == 'l');
    assert("DarkKeySmall04"@[12] == '0');
    assert("DarkKeySmall04"@[13] == '4');
    assert("ThievesCompass"@[0] == 'T');
    assert("ThievesCompass"@[1] == 'h');
    assert("ThievesCompass"@[2] == 'i');
    assert("ThievesCompass"@[3] == 'e');
    assert("ThievesCompass"@[4] == 'v');
    assert("ThievesCompass"@[5] == 'e');
    assert("ThievesCompass"@[6] == 's');
    assert("ThievesCompass"@[7] == 'C');
    assert("ThievesCompass"@[8] == 'o');
    assert("ThievesCompass"@[9] == 'm');
    assert("ThievesCompass"@[10] == 'p');
    assert("ThievesCompass"@[11] == 'a');
    assert("ThievesCompass"@[12] == 's');
    assert("ThievesCompass"@[13] == 's');
    assert("PendantOfPower"@[0] == 'P');
    assert("PendantOfPower"@[1] == 'e');
    assert("PendantOfPower"@[2] == 'n');
    assert("PendantOfPower"@[3] == 'd');
    assert("PendantOfPower"@[4] == 'a');
    assert("PendantOfPower"@[5] == 'n');
    assert("PendantOfPower"@[6] == 't');
    assert("PendantOfPower"@[7] == 'O');
    assert("PendantOfPower"@[8] == 'f');
    assert("PendantOfPower"@[9] == 'P');
    assert("PendantOfPower"@[10] == 'o');
    assert("PendantOfPower"@[11] == 'w');
    assert("PendantOfPower"@[12] == 'e');
    assert("PendantOfPower"@[13] == 'r');
    assert forall|i: Item, j: Item|
        token_len(i) == 14 && token_len(j) == 14 && i != j implies #[trigger] item_token(
        i,
    ) != #[trigger] item_token(j) by {}
}

/// Tokens of length 15 are pairwise distinct: with every character
/// revealed, some position tells any two of them apart.
#[verifier::rlimit(100)]
proof fn lemma_tokens_distinct_len15()
    ensures
        forall|i: Item, j: Item|
            token_len(i) == 15 && token_len(j) == 15 && i != j ==> #[trigger] item_token(i)
                != #[trigger] item_token(j),
{
    reveal_strlit("LetterInABottle");
    reveal_strlit("GalesKeySmall01");
    reveal_strlit("GalesKeySmall02");
    reveal_strlit("GalesKeySmall03");
    reveal_strlit("GalesKeySmall04");
    reveal_strlit("SwampKeySmall01");
    reveal_strlit("SwampKeySmall02");
    reveal_strlit("SwampKeySmall03");
    reveal_strlit("SwampKeySmall04");
    reveal_strlit("SkullKeySmall01");
    reveal_strlit("SkullKeySmall02");
    reveal_strlit("SkullKeySmall03");
    reveal_strlit("ThievesKeySmall");
    reveal_strlit("PendantOfWisdom");
    assert("LetterInABottle"@[0] == 'L');
    assert("LetterInABottle"@[1] == 'e');
    assert("LetterInABottle"@[2] == 't');
    assert("LetterInABottle"@[3] == 't');
    assert("LetterInABottle"@[4] == 'e');
    assert("LetterInABottle"@[5] == 'r');
    assert("LetterInABottle"@[6] == 'I');
    assert("LetterInABottle"@[7] == 'n');
    assert("LetterInABottle"@[8] == 'A');
    assert("LetterInABottle"@[9] == 'B');
    assert("LetterInABottle"@[10] == 'o');
    assert("LetterInABottle"@[11] == 't');
    assert("LetterInABottle"@[12] == 't');
    assert("LetterInABottle"@[13] == 'l');
    assert("LetterInABottle"@[14] == 'e');
    assert("GalesKeySmall01"@[0] == 'G');
    assert("GalesKeySmall01"@[1] == 'a');
    assert("GalesKeySmall01"@[2] == 'l');
    assert("GalesKeySmall01"@[3] == 'e');
    assert("GalesKeySmall01"@[4] == 's');
    assert("GalesKeySmall01"@[5] == 'K');
    assert("GalesKeySmall01"@[6] == 'e');
    assert("GalesKeySmall01"@[7] == 'y');
    assert("GalesKeySmall01"@[8] == 'S');
    assert("GalesKeySmall01"@[9] == 'm');
    assert("GalesKeySmall01"@[10] == 'a');
    assert("GalesKeySmall01"@[11] == 'l');
    assert("GalesKeySmall01"@[12] == 'l');
    assert("GalesKeySmall01"@[13] == '0');
    assert("GalesKeySmall01"@[14] == '1');
    assert("GalesKeySmall02"@[0] == 'G');
    assert("GalesKeySmall02"@[1] == 'a');
    assert("GalesKeySmall02"@[2] == 'l');
    assert("GalesKeySmall02"@[3] == 'e');
    assert("GalesKeySmall02"@[4] == 's');
    assert("GalesKeySmall02"@[5] == 'K');
    assert("GalesKeySmall02"@[6] == 'e');
    assert("GalesKeySmall02"@[7] == 'y');
    assert("GalesKeySmall02"@[8] == 'S');
    assert("GalesKeySmall02"@[9] == 'm');
    assert("GalesKeySmall02"@[10] == 'a');
    assert("GalesKeySmall02"@[11] == 'l');
    assert("GalesKeySmall02"@[12] == 'l');
    assert("GalesKeySmall02"@[13] == '0');
    assert("GalesKeySmall02"@[14] == '2');
    assert("GalesKeySmall03"@[0] == 'G');
    assert("GalesKeySmall03"@[1] == 'a');
    assert("GalesKeySmall03"@[2] == 'l');
    assert("GalesKeySmall03"@[3] == 'e');
    assert("GalesKeySmall03"@[4] == 's');
    assert("GalesKeySmall03"@[5] == 'K');
    assert("GalesKeySmall03"@[6] == 'e');
    assert("GalesKeySmall03"@[7] == 'y');
    assert("GalesKeySmall03"@[8] == 'S');
    assert("GalesKeySmall03"@[9] == 'm');
    assert("GalesKeySmall03"@[10] == 'a');
    assert("GalesKeySmall03"@[11] == 'l');
    assert("GalesKeySmall03"@[12] == 'l');
    assert("GalesKeySmall03"@[13] == '0');
    assert("GalesKeySmall03"@[14] == '3');
    assert("GalesKeySmall04"@[0] == 'G');
    assert("GalesKeySmall04"@[1] == 'a');
    assert("GalesKeySmall04"@[2] == 'l');
    assert("GalesKeySmall04"@[3] == 'e');
    assert("GalesKeySmall04"@[4] == 's');
    assert("GalesKeySmall04"@[5] == 'K');
    assert("GalesKeySmall04"@[6] == 'e');
    assert("GalesKeySmall04"@[7] == 'y');
    assert("GalesKeySmall04"@[8] == 'S');
    assert("GalesKeySmall04"@[9] == 'm');
    assert("GalesKeySmall04"@[10] == 'a');
    assert("GalesKeySmall04"@[11] == 'l');
    assert("GalesKeySmall04"@[12] == 'l');
    assert("GalesKeySmall04"@[13] == '0');
    assert("GalesKeySmall04"@[14] == '4');
    assert("SwampKeySmall01"@[0] == 'S');
    assert("SwampKeySmall01"@[1] == 'w');
    assert("SwampKeySmall01"@[2] == 'a');
    assert("SwampKeySmall01"@[3] == 'm');
    assert("SwampKeySmall01"@[4] == 'p');
    assert("SwampKeySmall01"@[5] == 'K');
    assert("SwampKeySmall01"@[6] == 'e');
    assert("SwampKeySmall01"@[7] == 'y');
    assert("SwampKeySmall01"@[8] == 'S');
    assert("SwampKeySmall01"@[9] == 'm');
    assert("SwampKeySmall01"@[10] == 'a');
    assert("SwampKeySmall01"@[11] == 'l');
    assert("SwampKeySmall01"@[12] == 'l');
    assert("SwampKeySmall01"@[13] == '0');
    assert("SwampKeySmall01"@[14] == '1');
    assert("SwampKeySmall02"@[0] == 'S');
    assert("SwampKeySmall02"@[1] == 'w');
    assert("SwampKeySmall02"@[2] == 'a');
    assert("SwampKeySmall02"@[3] == 'm');
    assert("SwampKeySmall02"@[4] == 'p');
    assert("SwampKeySmall02"@[5] == 'K');
    assert("SwampKeySmall02"@[6] == 'e');
    assert("SwampKeySmall02"@[7] == 'y');
    assert("SwampKeySmall02"@[8] == 'S');
    assert("SwampKeySmall02"@[9] == 'm');
    assert("SwampKeySmall02"@[10] == 'a');
    assert("SwampKeySmall02"@[11] == 'l');
    assert("SwampKeySmall02"@[12] == 'l');
    assert("SwampKeySmall02"@[13] == '0');
    assert("SwampKeySmall02"@[14] == '2');
    assert("SwampKeySmall03"@[0] == 'S');
    assert("SwampKeySmall03"@[1] == 'w');
    assert("SwampKeySmall03"@[2] == 'a');
    assert("SwampKeySmall03"@[3] == 'm');
    assert("SwampKeySmall03"@[4] == 'p');
    assert("SwampKeySmall03"@[5] == 'K');
    assert("SwampKeySmall03"@[6] == 'e');
    assert("SwampKeySmall03"@[7] == 'y');
    assert("SwampKeySmall03"@[8] == 'S');
    assert("SwampKeySmall03"@[9] == 'm');
    assert("SwampKeySmall03"@[10] == 'a');
    assert("SwampKeySmall03"@[11] == 'l');
    assert("SwampKeySmall03"@[12] == 'l');
    assert("SwampKeySmall03"@[13] == '0');
    assert("SwampKeySmall03"@[14] == '3');
    assert("SwampKeySmall04"@[0] == 'S');
    assert("SwampKeySmall04"@[1] == 'w');
    assert("SwampKeySmall04"@[2] == 'a');
    assert("SwampKeySmall04"@[3] == 'm');
    assert("SwampKeySmall04"@[4] == 'p');
    assert("SwampKeySmall04"@[5] == 'K');
    assert("SwampKeySmall04"@[6] == 'e');
    assert("SwampKeySmall04"@[7] == 'y');
    assert("SwampKeySmall04"@[8] == 'S');
    assert("SwampKeySmall04"@[9] == 'm');
    assert("SwampKeySmall04"@[10] == 'a');
    assert("SwampKeySmall04"@[11] == 'l');
    assert("SwampKeySmall04"@[12] == 'l');
    assert("SwampKeySmall04"@[13] == '0');
    assert("SwampKeySmall04"@[14] == '4');
    assert("SkullKeySmall01"@[0] == 'S');
    assert("SkullKeySmall01"@[1] == 'k');
    assert("SkullKeySmall01"@[2] == 'u');
    assert("SkullKeySmall01"@[3] == 'l');
    assert("SkullKeySmall01"@[4] == 'l');
    assert("SkullKeySmall01"@[5] == 'K');
    assert("SkullKeySmall01"@[6] == 'e');
    assert("SkullKeySmall01"@[7] == 'y');
    assert("SkullKeySmall01"@[8] == 'S');
    assert("SkullKeySmall01"@[9] == 'm');
    assert("SkullKeySmall01"@[10] == 'a');
    assert("SkullKeySmall01"@[11] == 'l');
    assert("SkullKeySmall01"@[12] == 'l');
    assert("SkullKeySmall01"@[13] == '0');
    assert("SkullKeySmall01"@[14] == '1');
    assert("SkullKeySmall02"@[0] == 'S');
    assert("SkullKeySmall02"@[1] == 'k');
    assert("SkullKeySmall02"@[2] == 'u');
    assert("SkullKeySmall02"@[3] == 'l');
    assert("SkullKeySmall02"@[4] == 'l');
    assert("SkullKeySmall02"@[5] == 'K');
    assert("SkullKeySmall02"@[6] == 'e');
    assert("SkullKeySmall02"@[7] == 'y');
    assert("SkullKeySmall02"@[8] == 'S');
    assert("SkullKeySmall02"@[9] == 'm');
    assert("SkullKeySmall02"@[10] == 'a');
    assert("SkullKeySmall02"@[11] == 'l');
    assert("SkullKeySmall02"@[12] == 'l');
    assert("SkullKeySmall02"@[13] == '0');
    assert("SkullKeySmall02"@[14] == '2');
    assert("SkullKeySmall03"@[0] == 'S');
    assert("SkullKeySmall03"@[1] == 'k');
    assert("SkullKeySmall03"@[2] == 'u');
    assert("SkullKeySmall03"@[3] == 'l');
    assert("SkullKeySmall03"@[4] == 'l');
    assert("SkullKeySmall03"@[5] == 'K');
    assert("SkullKeySmall03"@[6] == 'e');
    assert("SkullKeySmall03"@[7] == 'y');
    assert("SkullKeySmall03"@[8] == 'S');
    assert("SkullKeySmall03"@[9] == 'm');
    assert("SkullKeySmall03"@[10] == 'a');
    assert("SkullKeySmall03"@[11] == 'l');
    assert("SkullKeySmall03"@[12] == 'l');
    assert("SkullKeySmall03"@[13] == '0');
    assert("SkullKeySmall03"@[14] == '3');
    assert("ThievesKeySmall"@[0] == 'T');
    assert("ThievesKeySmall"@[1] == 'h');
    assert("ThievesKeySmall"@[2] == 'i');
    assert("ThievesKeySmall"@[3] == 'e');
    assert("ThievesKeySmall"@[4] == 'v');
    assert("ThievesKeySmall"@[5] == 'e');
    assert("ThievesKeySmall"@[6] == 's');
    assert("ThievesKeySmall"@[7] == 'K');
    assert("ThievesKeySmall"@[8] == 'e');
    assert("ThievesKeySmall"@[9] == 'y');
    assert("ThievesKeySmall"@[10] == 'S');
    assert("ThievesKeySmall"@[11] == 'm');
    assert("ThievesKeySmall"@[12] == 'a');
    assert("ThievesKeySmall"@[13] == 'l');
    assert("ThievesKeySmall"@[14] == 'l');
    assert("PendantOfWisdom"@[0] == 'P');
    assert("PendantOfWisdom"@[1] == 'e');
    assert("PendantOfWisdom"@[2] == 'n');
    assert("PendantOfWisdom"@[3] == 'd');
    assert("PendantOfWisdom"@[4] == 'a');
    assert("PendantOfWisdom"@[5] == 'n');
    assert("PendantOfWisdom"@[6] == 't');
    assert("PendantOfWisdom"@[7] == 'O');
    assert("PendantOfWisdom"@[8] == 'f');
    assert("PendantOfWisdom"@[9] == 'W');
    assert("PendantOfWisdom"@[10] == 'i');
    assert("PendantOfWisdom"@[11] == 's');
    assert("PendantOfWisdom"@[12] == 'd');
    assert("PendantOfWisdom"@[13] == 'o');
    assert("PendantOfWisdom"@[14] == 'm');
    assert forall|i: Item, j: Item|
        token_len(i) == 15 && token_len(j) == 15 && i != j implies #[trigger] item_token(
        i,
    ) != #[trigger] item_token(j) by {}
}

/// Tokens of length 16 are pairwise distinct: with every character
/// revealed, some position tells any two of them apart.
#[verifier::rlimit(100)]
proof fn lemma_tokens_distinct_len16()
    ensures
        forall|i: Item, j: Item|
            token_len(i) == 16 && token_len(j) == 16 && i != j ==> #[trigger] item_token(i)
                != #[trigger] item_token(j),
{
    reveal_strlit("RaviosBracelet01");
    reveal_strlit("RaviosBracelet02");
    reveal_strlit("HeartContainer01");
    reveal_strlit("HeartContainer02");
    reveal_strlit("HeartContainer03");
    reveal_strlit("HeartContainer04");
    reveal_strlit("HeartContainer05");
    reveal_strlit("HeartContainer06");
    reveal_strlit("HeartContainer07");
    reveal_strlit("HeartContainer08");
    reveal_strlit("HeartContainer09");
    reveal_strlit("HeartContainer10");
    reveal_strlit("DesertKeySmall01");
    reveal_strlit("DesertKeySmall02");
    reveal_strlit("DesertKeySmall03");
    reveal_strlit("DesertKeySmall04");
    reveal_strlit("DesertKeySmall05");
    reveal_strlit("TurtleKeySmall01");
    reveal_strlit("TurtleKeySmall02");
    reveal_strlit("TurtleKeySmall03");
    reveal_strlit("PendantOfCourage");
    reveal_strlit("AccessPotionShop");
    assert("RaviosBracelet01"@[0] == 'R');
    assert("RaviosBracelet01"@[1] == 'a');
    assert("RaviosBracelet01"@[2] == 'v');
    assert("RaviosBracelet01"@[3] == 'i');
    assert("RaviosBracelet01"@[4] == 'o');
    assert("RaviosBracelet01"@[5] == 's');
    assert("RaviosBracelet01"@[6] == 'B');
    assert("RaviosBracelet01"@[7] == 'r');
    assert("RaviosBracelet01"@[8] == 'a');
    assert("RaviosBracelet01"@[9] == 'c');
    assert("RaviosBracelet01"@[10] == 'e');
    assert("RaviosBracelet01"@[11] == 'l');
    assert("RaviosBracelet01"@[12] == 'e');
    assert("RaviosBracelet01"@[13] == 't');
    assert("RaviosBracelet01"@[14] == '0');
    assert("RaviosBracelet01"@[15] == '1');
    assert("RaviosBracelet02"@[0] == 'R');
    assert("RaviosBracelet02"@[1] == 'a');
    assert("RaviosBracelet02"@[2] == 'v');
    assert("RaviosBracelet02"@[3] == 'i');
    assert("RaviosBracelet02"@[4] == 'o');
    assert("RaviosBracelet02"@[5] == 's');
    assert("RaviosBracelet02"@[6] == 'B');
    assert("RaviosBracelet02"@[7] == 'r');
    assert("RaviosBracelet02"@[8] == 'a');
    assert("RaviosBracelet02"@[9] == 'c');
    assert("RaviosBracelet02"@[10] == 'e');
    assert("RaviosBracelet02"@[11] == 'l');
    assert("RaviosBracelet02"@[12] == 'e');
    assert("RaviosBracelet02"@[13] == 't');
    assert("RaviosBracelet02"@[14] == '0');
    assert("RaviosBracelet02"@[15] == '2');
    assert("HeartContainer01"@[0] == 'H');
    assert("HeartContainer01"@[1] == 'e');
    assert("HeartContainer01"@[2] == 'a');
    assert("HeartContainer01"@[3] == 'r');
    assert("HeartContainer01"@[4] == 't');
    assert("HeartContainer01"@[5] == 'C');
    assert("HeartContainer01"@[6] == 'o');
    assert("HeartContainer01"@[7] == 'n');
    assert("HeartContainer01"@[8] == 't');
    assert("HeartContainer01"@[9] == 'a');
    assert("HeartContainer01"@[10] == 'i');
    assert("HeartContainer01"@[11] == 'n');
    assert("HeartContainer01"@[12] == 'e');
    assert("HeartContainer01"@[13] == 'r');
    assert("HeartContainer01"@[14] == '0');
    assert("HeartContainer01"@[15] == '1');
    assert("HeartContainer02"@[0] == 'H');
    assert("HeartContainer02"@[1] == 'e');
    assert("HeartContainer02"@[2] == 'a');
    assert("HeartContainer02"@[3] == 'r');
    assert("HeartContainer02"@[4] == 't');
    assert("HeartContainer02"@[5] == 'C');
    assert("HeartContainer02"@[6] == 'o');
    assert("HeartContainer02"@[7] == 'n');
    assert("HeartContainer02"@[8] == 't');
    assert("HeartContainer02"@[9] == 'a');
    assert("HeartContainer02"@[10] == 'i');
    assert("HeartContainer02"@[11] == 'n');
    assert("HeartContainer02"@[12] == 'e');
    assert("HeartContainer02"@[13] == 'r');
    assert("HeartContainer02"@[14] == '0');
    assert("HeartContainer02"@[15] == '2');
    assert("HeartContainer03"@[0] == 'H');
    assert("HeartContainer03"@[1] == 'e');
    assert("HeartContainer03"@[2] == 'a');
    assert("HeartContainer03"@[3] == 'r');
    assert("HeartContainer03"@[4] == 't');
    assert("HeartContainer03"@[5] == 'C');
    assert("HeartContainer03"@[6] == 'o');
    assert("HeartContainer03"@[7] == 'n');
    assert("HeartContainer03"@[8] == 't');
    assert("HeartContainer03"@[9] == 'a');
    assert("HeartContainer03"@[10] == 'i');
    assert("HeartContainer03"@[11] == 'n');
    assert("HeartContainer03"@[12] == 'e');
    assert("HeartContainer03"@[13] == 'r');
    assert("HeartContainer03"@[14] == '0');
    assert("HeartContainer03"@[15] == '3');
    assert("HeartContainer04"@[0] == 'H');
    assert("HeartContainer04"@[1] == 'e');
    assert("HeartContainer04"@[2] == 'a');
    assert("HeartContainer04"@[3] == 'r');
    assert("HeartContainer04"@[4] == 't');
    assert("HeartContainer04"@[5] == 'C');
    assert("HeartContainer04"@[6] == 'o');
    assert("HeartContainer04"@[7] == 'n');
    assert("HeartContainer04"@[8] == 't');
    assert("HeartContainer04"@[9] == 'a');
    assert("HeartContainer04"@[10] == 'i');
    assert("HeartContainer04"@[11] == 'n');
    assert("HeartContainer04"@[12] == 'e');
    assert("HeartContainer04"@[13] == 'r');
    assert("HeartContainer04"@[14] == '0');
    assert("HeartContainer04"@[15] == '4');
    assert("HeartContainer05"@[0] == 'H');
    assert("HeartContainer05"@[1] == 'e');
    assert("HeartContainer05"@[2] == 'a');
    assert("HeartContainer05"@[3] == 'r');
    assert("HeartContainer05"@[4] == 't');
    assert("HeartContainer05"@[5] == 'C');
    assert("HeartContainer05"@[6] == 'o');
    assert("HeartContainer05"@[7] == 'n');
    assert("HeartContainer05"@[8] == 't');
    assert("HeartContainer05"@[9] == 'a');
    assert("HeartContainer05"@[10] == 'i');
    assert("HeartContainer05"@[11] == 'n');
    assert("HeartContainer05"@[12] == 'e');
    assert("HeartContainer05"@[13] == 'r');
    assert("HeartContainer05"@[14] == '0');
    assert("HeartContainer05"@[15] == '5');
    assert("HeartContainer06"@[0] == 'H');
    assert("HeartContainer06"@[1] == 'e');
    assert("HeartContainer06"@[2] == 'a');
    assert("HeartContainer06"@[3] == 'r');
    assert("HeartContainer06"@[4] == 't');
    assert("HeartContainer06"@[5] == 'C');
    assert("HeartContainer06"@[6] == 'o');
    assert("HeartContainer06"@[7] == 'n');
    assert("HeartContainer06"@[8] == 't');
    assert("HeartContainer06"@[9] == 'a');
    assert("HeartContainer06"@[10] == 'i');
    assert("HeartContainer06"@[11] == 'n');
    assert("HeartContainer06"@[12] == 'e');
    assert("HeartContainer06"@[13] == 'r');
    assert("HeartContainer06"@[14] == '0');
    assert("HeartContainer06"@[15] == '6');
    assert("HeartContainer07"@[0] == 'H');
    assert("HeartContainer07"@[1] == 'e');
    assert("HeartContainer07"@[2] == 'a');
    assert("HeartContainer07"@[3] == 'r');
    assert("HeartContainer07"@[4] == 't');
    assert("HeartContainer07"@[5] == 'C');
    assert("HeartContainer07"@[6] == 'o');
    assert("HeartContainer07"@[7] == 'n');
    assert("HeartContainer07"@[8] == 't');
    assert("HeartContainer07"@[9] == 'a');
    assert("HeartContainer07"@[10] == 'i');
    assert("HeartContainer07"@[11] == 'n');
    assert("HeartContainer07"@[12] == 'e');
    assert("HeartContainer07"@[13] == 'r');
    assert("HeartContainer07"@[14] == '0');
    assert("HeartContainer07"@[15] == '7');
    assert("HeartContainer08"@[0] == 'H');
    assert("HeartContainer08"@[1] == 'e');
    assert("HeartContainer08"@[2] == 'a');
    assert("HeartContainer08"@[3] == 'r');
    assert("HeartContainer08"@[4] == 't');
    assert("HeartContainer08"@[5] == 'C');
    assert("HeartContainer08"@[6] == 'o');
    assert("HeartContainer08"@[7] == 'n');
    assert("HeartContainer08"@[8] == 't');
    assert("HeartContainer08"@[9] == 'a');
    assert("HeartContainer08"@[10] == 'i');
    assert("HeartContainer08"@[11] == 'n');
    assert("HeartContainer08"@[12] == 'e');
    assert("HeartContainer08"@[13] == 'r');
    assert("HeartContainer08"@[14] == '0');
    assert("HeartContainer08"@[15] == '8');
    assert("HeartContainer09"@[0] == 'H');
    assert("HeartContainer09"@[1] == 'e');
    assert("HeartContainer09"@[2] == 'a');
    assert("HeartContainer09"@[3] == 'r');
    assert("HeartContainer09"@[4] == 't');
    assert("HeartContainer09"@[5] == 'C');
    assert("HeartContainer09"@[6] == 'o');
    assert("HeartContainer09"@[7] == 'n');
    assert("HeartContainer09"@[8] == 't');
    assert("HeartContainer09"@[9] == 'a');
    assert("HeartContainer09"@[10] == 'i');
    assert("HeartContainer09"@[11] == 'n');
    assert("HeartContainer09"@[12] == 'e');
    assert("HeartContainer09"@[13] == 'r');
    assert("HeartContainer09"@[14] == '0');
    assert("HeartContainer09"@[15] == '9');
    assert("HeartContainer10"@[0] == 'H');
    assert("HeartContainer10"@[1] == 'e');
    assert("HeartContainer10"@[2] == 'a');
    assert("HeartContainer10"@[3] == 'r');
    assert("HeartContainer10"@[4] == 't');
    assert("HeartContainer10"@[5] == 'C');
    assert("HeartContainer10"@[6] == 'o');
    assert("HeartContainer10"@[7] == 'n');
    assert("HeartContainer10"@[8] == 't');
    assert("HeartContainer10"@[9] == 'a');
    assert("HeartContainer10"@[10] == 'i');
    assert("HeartContainer10"@[11] == 'n');
    assert("HeartContainer10"@[12] == 'e');
    assert("HeartContainer10"@[13] == 'r');
    assert("HeartContainer10"@[14] == '1');
    assert("HeartContainer10"@[15] == '0');
    assert("DesertKeySmall01"@[0] == 'D');
    assert("DesertKeySmall01"@[1] == 'e');
    assert("DesertKeySmall01"@[2] == 's');
    assert("DesertKeySmall01"@[3] == 'e');
    assert("DesertKeySmall01"@[4] == 'r');
    assert("DesertKeySmall01"@[5] == 't');
    assert("DesertKeySmall01"@[6] == 'K');
    assert("DesertKeySmall01"@[7] == 'e');
    assert("DesertKeySmall01"@[8] == 'y');
    assert("DesertKeySmall01"@[9] == 'S');
    assert("DesertKeySmall01"@[10] == 'm');
    assert("DesertKeySmall01"@[11] == 'a');
    assert("DesertKeySmall01"@[12] == 'l');
    assert("DesertKeySmall01"@[13] == 'l');
    assert("DesertKeySmall01"@[14] == '0');
    assert("DesertKeySmall01"@[15] == '1');
    assert("DesertKeySmall02"@[0] == 'D');
    assert("DesertKeySmall02"@[1] == 'e');
    assert("DesertKeySmall02"@[2] == 's');
    assert("DesertKeySmall02"@[3] == 'e');
    assert("DesertKeySmall02"@[4] == 'r');
    assert("DesertKeySmall02"@[5] == 't');
    assert("DesertKeySmall02"@[6] == 'K');
    assert("DesertKeySmall02"@[7] == 'e');
    assert("DesertKeySmall02"@[8] == 'y');
    assert("DesertKeySmall02"@[9] == 'S');
    assert("DesertKeySmall02"@[10] == 'm');
    assert("DesertKeySmall02"@[11] == 'a');
    assert("DesertKeySmall02"@[12] == 'l');
    assert("DesertKeySmall02"@[13] == 'l');
    assert("DesertKeySmall02"@[14] == '0');
    assert("DesertKeySmall02"@[15] == '2');
    assert("DesertKeySmall03"@[0] == 'D');
    assert("DesertKeySmall03"@[1] == 'e');
    assert("DesertKeySmall03"@[2] == 's');
    assert("DesertKeySmall03"@[3] == 'e');
    assert("DesertKeySmall03"@[4] == 'r');
    assert("DesertKeySmall03"@[5] == 't');
    assert("DesertKeySmall03"@[6] == 'K');
    assert("DesertKeySmall03"@[7] == 'e');
    assert("DesertKeySmall03"@[8] == 'y');
    assert("DesertKeySmall03"@[9] == 'S');
    assert("DesertKeySmall03"@[10] == 'm');
    assert("DesertKeySmall03"@[11] == 'a');
    assert("DesertKeySmall03"@[12] == 'l');
    assert("DesertKeySmall03"@[13] == 'l');
    assert("DesertKeySmall03"@[14] == '0');
    assert("DesertKeySmall03"@[15] == '3');
    assert("DesertKeySmall04"@[0] == 'D');
    assert("DesertKeySmall04"@[1] == 'e');
    assert("DesertKeySmall04"@[2] == 's');
    assert("DesertKeySmall04"@[3] == 'e');
    assert("DesertKeySmall04"@[4] == 'r');
    assert("DesertKeySmall04"@[5] == 't');
    assert("DesertKeySmall04"@[6] == 'K');
    assert("DesertKeySmall04"@[7] == 'e');
    assert("DesertKeySmall04"@[8] == 'y');
    assert("DesertKeySmall04"@[9] == 'S');
    assert("DesertKeySmall04"@[10] == 'm');
    assert("DesertKeySmall04"@[11] == 'a');
    assert("DesertKeySmall04"@[12] == 'l');
    assert("DesertKeySmall04"@[13] == 'l');
    assert("DesertKeySmall04"@[14] == '0');
    assert("DesertKeySmall04"@[15] == '4');
    assert("DesertKeySmall05"@[0] == 'D');
    assert("DesertKeySmall05"@[1] == 'e');
    assert("DesertKeySmall05"@[2] == 's');
    assert("DesertKeySmall05"@[3] == 'e');
    assert("DesertKeySmall05"@[4] == 'r');
    assert("DesertKeySmall05"@[5] == 't');
    assert("DesertKeySmall05"@[6] == 'K');
    assert("DesertKeySmall05"@[7] == 'e');
    assert("DesertKeySmall05"@[8] == 'y');
    assert("DesertKeySmall05"@[9] == 'S');
    assert("DesertKeySmall05"@[10] == 'm');
    assert("DesertKeySmall05"@[11] == 'a');
    assert("DesertKeySmall05"@[12] == 'l');
    assert("DesertKeySmall05"@[13] == 'l');
    assert("DesertKeySmall05"@[14] == '0');
    assert("DesertKeySmall05"@[15] == '5');
    assert("TurtleKeySmall01"@[0] == 'T');
    assert("TurtleKeySmall01"@[1] == 'u');
    assert("TurtleKeySmall01"@[2] == 'r');
    assert("TurtleKeySmall01"@[3] == 't');
    assert("TurtleKeySmall01"@[4] == 'l');
    assert("TurtleKeySmall01"@[5] == 'e');
    assert("TurtleKeySmall01"@[6] == 'K');
    assert("TurtleKeySmall01"@[7] == 'e');
    assert("TurtleKeySmall01"@[8] == 'y');
    assert("TurtleKeySmall01"@[9] == 'S');
    assert("TurtleKeySmall01"@[10] == 'm');
    assert("TurtleKeySmall01"@[11] == 'a');
    assert("TurtleKeySmall01"@[12] == 'l');
    assert("TurtleKeySmall01"@[13] == 'l');
    assert("TurtleKeySmall01"@[14] == '0');
    assert("TurtleKeySmall01"@[15] == '1');
    assert("TurtleKeySmall02"@[0] == 'T');
    assert("TurtleKeySmall02"@[1] == 'u');
    assert("TurtleKeySmall02"@[2] == 'r');
    assert("TurtleKeySmall02"@[3] == 't');
    assert("TurtleKeySmall02"@[4] == 'l');
    assert("TurtleKeySmall02"@[5] == 'e');
    assert("TurtleKeySmall02"@[6] == 'K');
    assert("TurtleKeySmall02"@[7] == 'e');
    assert("TurtleKeySmall02"@[8] == 'y');
    assert("TurtleKeySmall02"@[9] == 'S');
    assert("TurtleKeySmall02"@[10] == 'm');
    assert("TurtleKeySmall02"@[11] == 'a');
    assert("TurtleKeySmall02"@[12] == 'l');
    assert("TurtleKeySmall02"@[13] == 'l');
    assert("TurtleKeySmall02"@[14] == '0');
    assert("TurtleKeySmall02"@[15] == '2');
    assert("TurtleKeySmall03"@[0] == 'T');
    assert("TurtleKeySmall03"@[1] == 'u');
    assert("TurtleKeySmall03"@[2] == 'r');
    assert("TurtleKeySmall03"@[3] == 't');
    assert("TurtleKeySmall03"@[4] == 'l');
    assert("TurtleKeySmall03"@[5] == 'e');
    assert("TurtleKeySmall03"@[6] == 'K');
    assert("TurtleKeySmall03"@[7] == 'e');
    assert("TurtleKeySmall03"@[8] == 'y');
    assert("TurtleKeySmall03"@[9] == 'S');
    assert("TurtleKeySmall03"@[10] == 'm');
    assert("TurtleKeySmall03"@[11] == 'a');
    assert("TurtleKeySmall03"@[12] == 'l');
    assert("TurtleKeySmall03"@[13] == 'l');
    assert("TurtleKeySmall03"@[14] == '0');
    assert("TurtleKeySmall03"@[15] == '3');
    assert("PendantOfCourage"@[0] == 'P');
    assert("PendantOfCourage"@[1] == 'e');
    assert("PendantOfCourage"@[2] == 'n');
    assert("PendantOfCourage"@[3] == 'd');
    assert("PendantOfCourage"@[4] == 'a');
    assert("PendantOfCourage"@[5] == 'n');
    assert("PendantOfCourage"@[6] == 't');
    assert("PendantOfCourage"@[7] == 'O');
    assert("PendantOfCourage"@[8] == 'f');
    assert("PendantOfCourage"@[9] == 'C');
    assert("PendantOfCourage"@[10] == 'o');
    assert("PendantOfCourage"@[11] == 'u');
    assert("PendantOfCourage"@[12] == 'r');
    assert("PendantOfCourage"@[13] == 'a');
    assert("PendantOfCourage"@[14] == 'g');
    assert("PendantOfCourage"@[15] == 'e');
    assert("AccessPotionShop"@[0] == 'A');
    assert("AccessPotionShop"@[1] == 'c');
    assert("AccessPotionShop"@[2] == 'c');
    assert("AccessPotionShop"@[3] == 'e');
    assert("AccessPotionShop"@[4] == 's');
    assert("AccessPotionShop"@[5] == 's');
    assert("AccessPotionShop"@[6] == 'P');
    assert("AccessPotionShop"@[7] == 'o');
    assert("AccessPotionShop"@[8] == 't');
    assert("AccessPotionShop"@[9] == 'i');
    assert("AccessPotionShop"@[10] == 'o');
    assert("AccessPotionShop"@[11] == 'n');
    assert("AccessPotionShop"@[12] == 'S');
    assert("AccessPotionShop"@[13] == 'h');
    assert("AccessPotionShop"@[14] == 'o');
    assert("AccessPotionShop"@[15] == 'p');
    assert forall|i: Item, j: Item|
        token_len(i) == 16 && token_len(j) == 16 && i != j implies #[trigger] item_token(
        i,
    ) != #[trigger] item_token(j) by {}
}

/// Tokens of length 17 are pairwise distinct: with every character
/// revealed, some position tells any two of them apart.
#[verifier::rlimit(100)]
proof fn lemma_tokens_distinct_len17()
    ensures
        forall|i: Item, j: Item|
            token_len(i) == 17 && token_len(j) == 17 && i != j ==> #[trigger] item_token(i)
                != #[trigger] item_token(j),
{
    reveal_strlit("EasternKeySmall01");
    reveal_strlit("EasternKeySmall02");
    assert("EasternKeySmall01"@[0] == 'E');
    assert("EasternKeySmall01"@[1] == 'a');
    assert("EasternKeySmall01"@[2] == 's');
    assert("EasternKeySmall01"@[3] == 't');
    assert("EasternKeySmall01"@[4] == 'e');
    assert("EasternKeySmall01"@[5] == 'r');
    assert("EasternKeySmall01"@[6] == 'n');
    assert("EasternKeySmall01"@[7] == 'K');
    assert("EasternKeySmall01"@[8] == 'e');
    assert("EasternKeySmall01"@[9] == 'y');
    assert("EasternKeySmall01"@[10] == 'S');
    assert("EasternKeySmall01"@[11] == 'm');
    assert("EasternKeySmall01"@[12] == 'a');
    assert("EasternKeySmall01"@[13] == 'l');
    assert("EasternKeySmall01"@[14] == 'l');
    assert("EasternKeySmall01"@[15] == '0');
    assert("EasternKeySmall01"@[16] == '1');
    assert("EasternKeySmall02"@[0] == 'E');
    assert("EasternKeySmall02"@[1] == 'a');
    assert("EasternKeySmall02"@[2] == 's');
    assert("EasternKeySmall02"@[3] == 't');
    assert("EasternKeySmall02"@[4] == 'e');
    assert("EasternKeySmall02"@[5] == 'r');
    assert("EasternKeySmall02"@[6] == 'n');
    assert("EasternKeySmall02"@[7] == 'K');
    assert("EasternKeySmall02"@[8] == 'e');
    assert("EasternKeySmall02"@[9] == 'y');
    assert("EasternKeySmall02"@[10] == 'S');
    assert("EasternKeySmall02"@[11] == 'm');
    assert("EasternKeySmall02"@[12] == 'a');
    assert("EasternKeySmall02"@[13] == 'l');
    assert("EasternKeySmall02"@[14] == 'l');
    assert("EasternKeySmall02"@[15] == '0');
    assert("EasternKeySmall02"@[16] == '2');
    assert forall|i: Item, j: Item|
        token_len(i) == 17 && token_len(j) == 17 && i != j implies #[trigger] item_token(
        i,
    ) != #[trigger] item_token(j) by {}
}

/// Tokens of length 18 are pairwise distinct: with every character
/// revealed, some position tells any two of them apart.
#[verifier::rlimit(100)]
proof fn lemma_tokens_distinct_len18()
    ensures
        forall|i: Item, j: Item|
            token_len(i) == 18 && token_len(j) == 18 && i != j ==> #[trigger] item_token(i)
                != #[trigger] item_token(j),
{
    reveal_strlit("HyruleSanctuaryKey");
    reveal_strlit("LoruleSanctuaryKey");
    reveal_strlit("OpenSanctuaryDoors");
    assert("HyruleSanctuaryKey"@[0] == 'H');
    assert("HyruleSanctuaryKey"@[1] == 'y');
    assert("HyruleSanctuaryKey"@[2] == 'r');
    assert("HyruleSanctuaryKey"@[3] == 'u');
    assert("HyruleSanctuaryKey"@[4] == 'l');
    assert("HyruleSanctuaryKey"@[5] == 'e');
    assert("HyruleSanctuaryKey"@[6] == 'S');
    assert("HyruleSanctuaryKey"@[7] == 'a');
    assert("HyruleSanctuaryKey"@[8] == 'n');
    assert("HyruleSanctuaryKey"@[9] == 'c');
    assert("HyruleSanctuaryKey"@[10] == 't');
    assert("HyruleSanctuaryKey"@[11] == 'u');
    assert("HyruleSanctuaryKey"@[12] == 'a');
    assert("HyruleSanctuaryKey"@[13] == 'r');
    assert("HyruleSanctuaryKey"@[14] == 'y');
    assert("HyruleSanctuaryKey"@[15] == 'K');
    assert("HyruleSanctuaryKey"@[16] == 'e');
    assert("HyruleSanctuaryKey"@[17] == 'y');
    assert("LoruleSanctuaryKey"@[0] == 'L');
    assert("LoruleSanctuaryKey"@[1] == 'o');
    assert("LoruleSanctuaryKey"@[2] == 'r');
    assert("LoruleSanctuaryKey"@[3] == 'u');
    assert("LoruleSanctuaryKey"@[4] == 'l');
    assert("LoruleSanctuaryKey"@[5] == 'e');
    assert("LoruleSanctuaryKey"@[6] == 'S');
    assert("LoruleSanctuaryKey"@[7] == 'a');
    assert("LoruleSanctuaryKey"@[8] == 'n');
    assert("LoruleSanctuaryKey"@[9] == 'c');
    assert("LoruleSanctuaryKey"@[10] == 't');
    assert("LoruleSanctuaryKey"@[11] == 'u');
    assert("LoruleSanctuaryKey"@[12] == 'a');
    assert("LoruleSanctuaryKey"@[13] == 'r');
    assert("LoruleSanctuaryKey"@[14] == 'y');
    assert("LoruleSanctuaryKey"@[15] == 'K');
    assert("LoruleSanctuaryKey"@[16] == 'e');
    assert("LoruleSanctuaryKey"@[17] == 'y');
    assert("OpenSanctuaryDoors"@[0] == 'O');
    assert("OpenSanctuaryDoors"@[1] == 'p');
    assert("OpenSanctuaryDoors"@[2] == 'e');
    assert("OpenSanctuaryDoors"@[3] == 'n');
    assert("OpenSanctuaryDoors"@[4] == 'S');
    assert("OpenSanctuaryDoors"@[5] == 'a');
    assert("OpenSanctuaryDoors"@[6] == 'n');
    assert("OpenSanctuaryDoors"@[7] == 'c');
    assert("OpenSanctuaryDoors"@[8] == 't');
    assert("OpenSanctuaryDoors"@[9] == 'u');
    assert("OpenSanctuaryDoors"@[10] == 'a');
    assert("OpenSanctuaryDoors"@[11] == 'r');
    assert("OpenSanctuaryDoors"@[12] == 'y');
    assert("OpenSanctuaryDoors"@[13] == 'D');
    assert("OpenSanctuaryDoors"@[14] == 'o');
    assert("OpenSanctuaryDoors"@[15] == 'o');
    assert("OpenSanctuaryDoors"@[16] == 'r');
    assert("OpenSanctuaryDoors"@[17] == 's');
    assert forall|i: Item, j: Item|
        token_len(i) == 18 && token_len(j) == 18 && i != j implies #[trigger] item_token(
        i,
    ) != #[trigger] item_token(j) by {}
}

/// Tokens of length 22 are pairwise distinct: with every character
/// revealed, some position tells any two of them apart.
#[verifier::rlimit(100)]
proof fn lemma_tokens_distinct_len22()
    ensures
        forall|i: Item, j: Item|
            token_len(i) == 22 && token_len(j) == 22 && i != j ==> #[trigger] item_token(i)
                != #[trigger] item_token(j),
{
    reveal_strlit("LoruleCastleKeySmall01");
    reveal_strlit("LoruleCastleKeySmall02");
    reveal_strlit("LoruleCastleKeySmall03");
    reveal_strlit("LoruleCastleKeySmall04");
    reveal_strlit("LoruleCastleKeySmall05");
    reveal_strlit("StylishWomansHouseOpen");
    reveal_strlit("AccessHyruleBlacksmith");
    assert("LoruleCastleKeySmall01"@[0] == 'L');
    assert("LoruleCastleKeySmall01"@[1] == 'o');
    assert("LoruleCastleKeySmall01"@[2] == 'r');
    assert("LoruleCastleKeySmall01"@[3] == 'u');
    assert("LoruleCastleKeySmall01"@[4] == 'l');
    assert("LoruleCastleKeySmall01"@[5] == 'e');
    assert("LoruleCastleKeySmall01"@[6] == 'C');
    assert("LoruleCastleKeySmall01"@[7] == 'a');
    assert("LoruleCastleKeySmall01"@[8] == 's');
    assert("LoruleCastleKeySmall01"@[9] == 't');
    assert("LoruleCastleKeySmall01"@[10] == 'l');
    assert("LoruleCastleKeySmall01"@[11] == 'e');
    assert("LoruleCastleKeySmall01"@[12] == 'K');
    assert("LoruleCastleKeySmall01"@[13] == 'e');
    assert("LoruleCastleKeySmall01"@[14] == 'y');
    assert("LoruleCastleKeySmall01"@[15] == 'S');
    assert("LoruleCastleKeySmall01"@[16] == 'm');
    assert("LoruleCastleKeySmall01"@[17] == 'a');
    assert("LoruleCastleKeySmall01"@[18] == 'l');
    assert("LoruleCastleKeySmall01"@[19] == 'l');
    assert("LoruleCastleKeySmall01"@[20] == '0');
    assert("LoruleCastleKeySmall01"@[21] == '1');
    assert("LoruleCastleKeySmall02"@[0] == 'L');
    assert("LoruleCastleKeySmall02"@[1] == 'o');
    assert("LoruleCastleKeySmall02"@[2] == 'r');
    assert("LoruleCastleKeySmall02"@[3] == 'u');
    assert("LoruleCastleKeySmall02"@[4] == 'l');
    assert("LoruleCastleKeySmall02"@[5] == 'e');
    assert("LoruleCastleKeySmall02"@[6] == 'C');
    assert("LoruleCastleKeySmall02"@[7] == 'a');
    assert("LoruleCastleKeySmall02"@[8] == 's');
    assert("LoruleCastleKeySmall02"@[9] == 't');
    assert("LoruleCastleKeySmall02"@[10] == 'l');
    assert("LoruleCastleKeySmall02"@[11] == 'e');
    assert("LoruleCastleKeySmall02"@[12] == 'K');
    assert("LoruleCastleKeySmall02"@[13] == 'e');
    assert("LoruleCastleKeySmall02"@[14] == 'y');
    assert("LoruleCastleKeySmall02"@[15] == 'S');
    assert("LoruleCastleKeySmall02"@[16] == 'm');
    assert("LoruleCastleKeySmall02"@[17] == 'a');
    assert("LoruleCastleKeySmall02"@[18] == 'l');
    assert("LoruleCastleKeySmall02"@[19] == 'l');
    assert("LoruleCastleKeySmall02"@[20] == '0');
    assert("LoruleCastleKeySmall02"@[21] == '2');
    assert("LoruleCastleKeySmall03"@[0] == 'L');
    assert("LoruleCastleKeySmall03"@[1] == 'o');
    assert("LoruleCastleKeySmall03"@[2] == 'r');
    assert("LoruleCastleKeySmall03"@[3] == 'u');
    assert("LoruleCastleKeySmall03"@[4] == 'l');
    assert("LoruleCastleKeySmall03"@[5] == 'e');
    assert("LoruleCastleKeySmall03"@[6] == 'C');
    assert("LoruleCastleKeySmall03"@[7] == 'a');
    assert("LoruleCastleKeySmall03"@[8] == 's');
    assert("LoruleCastleKeySmall03"@[9] == 't');
    assert("LoruleCastleKeySmall03"@[10] == 'l');
    assert("LoruleCastleKeySmall03"@[11] == 'e');
    assert("LoruleCastleKeySmall03"@[12] == 'K');
    assert("LoruleCastleKeySmall03"@[13] == 'e');
    assert("LoruleCastleKeySmall03"@[14] == 'y');
    assert("LoruleCastleKeySmall03"@[15] == 'S');
    assert("LoruleCastleKeySmall03"@[16] == 'm');
    assert("LoruleCastleKeySmall03"@[17] == 'a');
    assert("LoruleCastleKeySmall03"@[18] == 'l');
    assert("LoruleCastleKeySmall03"@[19] == 'l');
    assert("LoruleCastleKeySmall03"@[20] == '0');
    assert("LoruleCastleKeySmall03"@[21] == '3');
    assert("LoruleCastleKeySmall04"@[0] == 'L');
    assert("LoruleCastleKeySmall04"@[1] == 'o');
    assert("LoruleCastleKeySmall04"@[2] == 'r');
    assert("LoruleCastleKeySmall04"@[3] == 'u');
    assert("LoruleCastleKeySmall04"@[4] == 'l');
    assert("LoruleCastleKeySmall04"@[5] == 'e');
    assert("LoruleCastleKeySmall04"@[6] == 'C');
    assert("LoruleCastleKeySmall04"@[7] == 'a');
    assert("LoruleCastleKeySmall04"@[8] == 's');
    assert("LoruleCastleKeySmall04"@[9] == 't');
    assert("LoruleCastleKeySmall04"@[10] == 'l');
    assert("LoruleCastleKeySmall04"@[11] == 'e');
    assert("LoruleCastleKeySmall04"@[12] == 'K');
    assert("LoruleCastleKeySmall04"@[13] == 'e');
    assert("LoruleCastleKeySmall04"@[14] == 'y');
    assert("LoruleCastleKeySmall04"@[15] == 'S');
    assert("LoruleCastleKeySmall04"@[16] == 'm');
    assert("LoruleCastleKeySmall04"@[17] == 'a');
    assert("LoruleCastleKeySmall04"@[18] == 'l');
    assert("LoruleCastleKeySmall04"@[19] == 'l');
    assert("LoruleCastleKeySmall04"@[20] == '0');
    assert("LoruleCastleKeySmall04"@[21] == '4');
    assert("LoruleCastleKeySmall05"@[0] == 'L');
    assert("LoruleCastleKeySmall05"@[1] == 'o');
    assert("LoruleCastleKeySmall05"@[2] == 'r');
    assert("LoruleCastleKeySmall05"@[3] == 'u');
    assert("LoruleCastleKeySmall05"@[4] == 'l');
    assert("LoruleCastleKeySmall05"@[5] == 'e');
    assert("LoruleCastleKeySmall05"@[6] == 'C');
    assert("LoruleCastleKeySmall05"@[7] == 'a');
    assert("LoruleCastleKeySmall05"@[8] == 's');
    assert("LoruleCastleKeySmall05"@[9] == 't');
    assert("LoruleCastleKeySmall05"@[10] == 'l');
    assert("LoruleCastleKeySmall05"@[11] == 'e');
    assert("LoruleCastleKeySmall05"@[12] == 'K');
    assert("LoruleCastleKeySmall05"@[13] == 'e');
    assert("LoruleCastleKeySmall05"@[14] == 'y');
    assert("LoruleCastleKeySmall05"@[15] == 'S');
    assert("LoruleCastleKeySmall05"@[16] == 'm');
    assert("LoruleCastleKeySmall05"@[17] == 'a');
    assert("LoruleCastleKeySmall05"@[18] == 'l');
    assert("LoruleCastleKeySmall05"@[19] == 'l');
    assert("LoruleCastleKeySmall05"@[20] == '0');
    assert("LoruleCastleKeySmall05"@[21] == '5');
    assert("StylishWomansHouseOpen"@[0] == 'S');
    assert("StylishWomansHouseOpen"@[1] == 't');
    assert("StylishWomansHouseOpen"@[2] == 'y');
    assert("StylishWomansHouseOpen"@[3] == 'l');
    assert("StylishWomansHouseOpen"@[4] == 'i');
    assert("StylishWomansHouseOpen"@[5] == 's');
    assert("StylishWomansHouseOpen"@[6] == 'h');
    assert("StylishWomansHouseOpen"@[7] == 'W');
    assert("StylishWomansHouseOpen"@[8] == 'o');
    assert("StylishWomansHouseOpen"@[9] == 'm');
    assert("StylishWomansHouseOpen"@[10] == 'a');
    assert("StylishWomansHouseOpen"@[11] == 'n');
    assert("StylishWomansHouseOpen"@[12] == 's');
    assert("StylishWomansHouseOpen"@[13] == 'H');
    assert("StylishWomansHouseOpen"@[14] == 'o');
    assert("StylishWomansHouseOpen"@[15] == 'u');
    assert("StylishWomansHouseOpen"@[16] == 's');
    assert("StylishWomansHouseOpen"@[17] == 'e');
    assert("StylishWomansHouseOpen"@[18] == 'O');
    assert("StylishWomansHouseOpen"@[19] == 'p');
    assert("StylishWomansHouseOpen"@[20] == 'e');
    assert("StylishWomansHouseOpen"@[21] == 'n');
    assert("AccessHyruleBlacksmith"@[0] == 'A');
    assert("AccessHyruleBlacksmith"@[1] == 'c');
    assert("AccessHyruleBlacksmith"@[2] == 'c');
    assert("AccessHyruleBlacksmith"@[3] == 'e');
    assert("AccessHyruleBlacksmith"@[4] == 's');
    assert("AccessHyruleBlacksmith"@[5] == 's');
    assert("AccessHyruleBlacksmith"@[6] == 'H');
    assert("AccessHyruleBlacksmith"@[7] == 'y');
    assert("AccessHyruleBlacksmith"@[8] == 'r');
    assert("AccessHyruleBlacksmith"@[9] == 'u');
    assert("AccessHyruleBlacksmith"@[10] == 'l');
    assert("AccessHyruleBlacksmith"@[11] == 'e');
    assert("AccessHyruleBlacksmith"@[12] == 'B');
    assert("AccessHyruleBlacksmith"@[13] == 'l');
    assert("AccessHyruleBlacksmith"@[14] == 'a');
    assert("AccessHyruleBlacksmith"@[15] == 'c');
    assert("AccessHyruleBlacksmith"@[16] == 'k');
    assert("AccessHyruleBlacksmith"@[17] == 's');
    assert("AccessHyruleBlacksmith"@[18] == 'm');
    assert("AccessHyruleBlacksmith"@[19] == 'i');
    assert("AccessHyruleBlacksmith"@[20] == 't');
    assert("AccessHyruleBlacksmith"@[21] == 'h');
    assert forall|i: Item, j: Item|
        token_len(i) == 22 && token_len(j) == 22 && i != j implies #[trigger] item_token(
        i,
    ) != #[trigger] item_token(j) by {}
}

/// No two items share a wire token: the registry is injective.
#[verifier::rlimit(100)]
pub proof fn lemma_token_injective()
    ensures
        forall|i: Item, j: Item| #[trigger] item_token(i) == #[trigger] item_token(j) ==> i
            == j,
{
    lemma_token_lens();
    lemma_tokens_distinct_len5();
    lemma_tokens_distinct_len6();
    lemma_tokens_distinct_len7();
    lemma_tokens_distinct_len8();
    lemma_tokens_distinct_len9();
    lemma_tokens_distinct_len10();
    lemma_tokens_distinct_len11();
    lemma_tokens_distinct_len12();
    lemma_tokens_distinct_len13();
    lemma_tokens_distinct_len14();
    lemma_tokens_distinct_len15();
    lemma_tokens_distinct_len16();
    lemma_tokens_distinct_len17();
    lemma_tokens_distinct_len18();
    lemma_tokens_distinct_len22();
    assert forall|i: Item, j: Item|
        #[trigger] item_token(i) == #[trigger] item_token(j) implies i == j by {}
}

/// The registry round trip: resolving an item's own token yields that item
/// back.
pub proof fn lemma_token_round_trip()
    ensures
        forall|i: Item| #[trigger] spec_token_to_item(item_token(i)) == Some(i),
{
    lemma_token_injective();
    assert forall|i: Item| #[trigger] spec_token_to_item(item_token(i)) == Some(i) by {
        assert(item_token(i) == item_token(i));
        let j = choose|k: Item| item_token(k) == item_token(i);
        assert(item_token(j) == item_token(i));
    }
}

} // verus!
