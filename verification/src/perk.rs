use vstd::prelude::*;
use vstd::string::StringExecFns;

verus! {

/// A rune the provider reports on a participant, named; values the mapping
/// does not know fall back to the unknown rune.
#[derive(Eq, PartialEq, Structural, Hash, Debug, Clone, Copy)]
#[allow(non_camel_case_types)]
pub enum Perk {
    UNKNOWN,
    StatsHealScaling,
    StatsArmor,
    StatsMagicResist,
    StatsAttackSpeed,
    StatsAbilityHaste,
    StatsAdaptiveForce,
    StatsMovementSpeed,
    StatsHealth,
    StatsResistScaling,
    StatsTenacitySlowResist,
    Domination,
    Electrocute,
    DarkHarvest,
    HailOfBlades,
    CheapShot,
    TasteOfBlood,
    SuddenImpact,
    ZombieWard,
    GhostPoro,
    EyeballCollection,
    RavenousHunter,
    IngeniousHunter,
    RelentlessHunter,
    UltimateHunter,
    Inspiration,
    GlacialAugment,
    UnsealedSpellbook,
    FirstStrike,
    HextechFlashtraption,
    MagicalFootwear,
    CashBack,
    PerfectTiming,
    TimeWarpTonic,
    BiscuitDelivery,
    CosmicInsight,
    ApproachVelocity,
    JackOfAllTrades,
    Precision,
    PressTheAttack,
    LethalTempo,
    FleetFootwork,
    Conqueror,
    AbsorbLife,
    Triumph,
    PresenceOfMind,
    LegendAlacrity,
    LegendHaste,
    LegendBloodline,
    CoupDeGrace,
    CutDown,
    LastStand,
    Resolve,
    GraspOfTheUndying,
    Aftershock,
    Guardian,
    Demolish,
    FontOfLife,
    ShieldBash,
    Conditioning,
    SecondWind,
    BonePlating,
    Overgrowth,
    Revitalize,
    Unflinching,
    Sorcery,
    SummonAery,
    ArcaneComet,
    PhaseRush,
    NullifyingOrb,
    ManaflowBand,
    NimbusCloack,
    Transcendence,
    Celerity,
    AbsoluteFocus,
    Scorch,
    Waterwalking,
    GatheringStorm,
}

/// The rune a provider value names; an unmapped value is the unknown rune.
pub open spec fn spec_perk_from(value: u16) -> Perk {
    match value {
        5001 => Perk::StatsHealScaling,
        5002 => Perk::StatsArmor,
        5003 => Perk::StatsMagicResist,
        5005 => Perk::StatsAttackSpeed,
        5007 => Perk::StatsAbilityHaste,
        5008 => Perk::StatsAdaptiveForce,
        5010 => Perk::StatsMovementSpeed,
        5011 => Perk::StatsHealth,
        5012 => Perk::StatsResistScaling,
        5013 => Perk::StatsTenacitySlowResist,
        8100 => Perk::Domination,
        8112 => Perk::Electrocute,
        8128 => Perk::DarkHarvest,
        9923 => Perk::HailOfBlades,
        8126 => Perk::CheapShot,
        8139 => Perk::TasteOfBlood,
        8143 => Perk::SuddenImpact,
        8136 => Perk::ZombieWard,
        8120 => Perk::GhostPoro,
        8138 => Perk::EyeballCollection,
        8135 => Perk::RavenousHunter,
        8134 => Perk::IngeniousHunter,
        8105 => Perk::RelentlessHunter,
        8106 => Perk::UltimateHunter,
        8300 => Perk::Inspiration,
        8351 => Perk::GlacialAugment,
        8360 => Perk::UnsealedSpellbook,
        8369 => Perk::FirstStrike,
        8306 => Perk::HextechFlashtraption,
        8304 => Perk::MagicalFootwear,
        8321 => Perk::CashBack,
        8313 => Perk::PerfectTiming,
        8352 => Perk::TimeWarpTonic,
        8345 => Perk::BiscuitDelivery,
        8347 => Perk::CosmicInsight,
        8410 => Perk::ApproachVelocity,
        8316 => Perk::JackOfAllTrades,
        8000 => Perk::Precision,
        _ => Perk::UNKNOWN,
    }
}

impl vstd::std_specs::convert::FromSpecImpl<u16> for Perk {
    open spec fn obeys_from_spec() -> bool {
        true
    }

    open spec fn from_spec(v: u16) -> Perk {
        spec_perk_from(v)
    }
}

impl From<u16> for Perk {
    fn from(value: u16) -> (r: Perk) {
        match value {
            5001 => Perk::StatsHealScaling,
            5002 => Perk::StatsArmor,
            5003 => Perk::StatsMagicResist,
            5005 => Perk::StatsAttackSpeed,
            5007 => Perk::StatsAbilityHaste,
            5008 => Perk::StatsAdaptiveForce,
            5010 => Perk::StatsMovementSpeed,
            5011 => Perk::StatsHealth,
            5012 => Perk::StatsResistScaling,
            5013 => Perk::StatsTenacitySlowResist,
            8100 => Perk::Domination,
            8112 => Perk::Electrocute,
            8128 => Perk::DarkHarvest,
            9923 => Perk::HailOfBlades,
            8126 => Perk::CheapShot,
            8139 => Perk::TasteOfBlood,
            8143 => Perk::SuddenImpact,
            8136 => Perk::ZombieWard,
            8120 => Perk::GhostPoro,
            8138 => Perk::EyeballCollection,
            8135 => Perk::RavenousHunter,
            8134 => Perk::IngeniousHunter,
            8105 => Perk::RelentlessHunter,
            8106 => Perk::UltimateHunter,
            8300 => Perk::Inspiration,
            8351 => Perk::GlacialAugment,
            8360 => Perk::UnsealedSpellbook,
            8369 => Perk::FirstStrike,
            8306 => Perk::HextechFlashtraption,
            8304 => Perk::MagicalFootwear,
            8321 => Perk::CashBack,
            8313 => Perk::PerfectTiming,
            8352 => Perk::TimeWarpTonic,
            8345 => Perk::BiscuitDelivery,
            8347 => Perk::CosmicInsight,
            8410 => Perk::ApproachVelocity,
            8316 => Perk::JackOfAllTrades,
            8000 => Perk::Precision,
            _ => Perk::UNKNOWN,
        }
    }
}

impl Perk {
    /// The display name of the rune.
    pub open spec fn spec_name(self) -> Seq<char> {
        match self {
            Perk::UNKNOWN => "UNKNOWN"@,
            Perk::StatsHealScaling => "StatsHealScaling"@,
            Perk::StatsArmor => "StatsArmor "@,
            Perk::StatsMagicResist => "StatsMagicResist"@,
            Perk::StatsAttackSpeed => "StatsAttackSpeed "@,
            Perk::StatsAbilityHaste => "StatsAbilityHaste"@,
            Perk::StatsAdaptiveForce => "StatsAdaptiveForce "@,
            Perk::StatsMovementSpeed => "StatsMovementSpeed"@,
            Perk::StatsHealth => "StatsHealth "@,
            Perk::StatsResistScaling => "StatsResistScaling"@,
            Perk::StatsTenacitySlowResist => "StatsTenacitySlowResist "@,
            Perk::Domination => "Domination"@,
            Perk::Electrocute => "Electrocute "@,
            Perk::DarkHarvest => "DarkHarvest"@,
            Perk::HailOfBlades => "HailOfBlades "@,
            Perk::CheapShot => "CheapShot"@,
            Perk::TasteOfBlood => "TasteOfBlood "@,
            Perk::SuddenImpact => "SuddenImpact"@,
            Perk::ZombieWard => "ZombieWard "@,
            Perk::GhostPoro => "GhostPoro"@,
            Perk::EyeballCollection => "EyeballCollection "@,
            Perk::RavenousHunter => "RavenousHunter"@,
            Perk::IngeniousHunter => "IngeniousHunter "@,
            Perk::RelentlessHunter => "RelentlessHunter"@,
            Perk::UltimateHunter => "UltimateHunter "@,
            Perk::Inspiration => "Inspiration"@,
            Perk::GlacialAugment => "GlacialAugment "@,
            Perk::UnsealedSpellbook => "UnsealedSpellbook"@,
            Perk::FirstStrike => "FirstStrike "@,
            Perk::HextechFlashtraption => "HextechFlashtraption"@,
            Perk::MagicalFootwear => "MagicalFootwear "@,
            Perk::CashBack => "CashBack"@,
            Perk::PerfectTiming => "PerfectTiming "@,
            Perk::TimeWarpTonic => "TimeWarpTonic"@,
            Perk::BiscuitDelivery => "BiscuitDelivery "@,
            Perk::CosmicInsight => "CosmicInsight"@,
            Perk::ApproachVelocity => "ApproachVelocity "@,
            Perk::JackOfAllTrades => "JackOfAllTrades"@,
            Perk::Precision => "Precision "@,
            Perk::PressTheAttack => "PressTheAttack"@,
            Perk::LethalTempo => "LethalTempo "@,
            Perk::FleetFootwork => "FleetFootwork"@,
            Perk::Conqueror => "Conqueror "@,
            Perk::AbsorbLife => "AbsorbLife"@,
            Perk::Triumph => "Triumph "@,
            Perk::PresenceOfMind => "PresenceOfMind"@,
            Perk::LegendAlacrity => "LegendAlacrity "@,
            Perk::LegendHaste => "LegendHaste"@,
            Perk::LegendBloodline => "LegendBloodline "@,
            Perk::CoupDeGrace => "CoupDeGrace"@,
            Perk::CutDown => "CutDown "@,
            Perk::LastStand => "LastStand"@,
            Perk::Resolve => "Resolve "@,
            Perk::GraspOfTheUndying => "GraspOfTheUndying"@,
            Perk::Aftershock => "Aftershock "@,
            Perk::Guardian => "Guardian"@,
            Perk::Demolish => "Demolish "@,
            Perk::FontOfLife => "FontOfLife"@,
            Perk::ShieldBash => "ShieldBash "@,
            Perk::Conditioning => "Conditioning"@,
            Perk::SecondWind => "SecondWind "@,
            Perk::BonePlating => "BonePlating"@,
            Perk::Overgrowth => "Overgrowth "@,
            Perk::Revitalize => "Revitalize"@,
            Perk::Unflinching => "Unflinching "@,
            Perk::Sorcery => "Sorcery"@,
            Perk::SummonAery => "SummonAery "@,
            Perk::ArcaneComet => "ArcaneComet"@,
            Perk::PhaseRush => "PhaseRush "@,
            Perk::NullifyingOrb => "NullifyingOrb"@,
            Perk::ManaflowBand => "ManaflowBand "@,
            Perk::NimbusCloack => "NimbusCloack"@,
            Perk::Transcendence => "Transcendence "@,
            Perk::Celerity => "Celerity"@,
            Perk::AbsoluteFocus => "AbsoluteFocus "@,
            Perk::Scorch => "Scorch"@,
            Perk::Waterwalking => "Waterwalking "@,
            Perk::GatheringStorm => "GatheringStorm"@,
        }
    }

    /// Renders the display name of the rune.
    pub fn name(&self) -> (r: String)
        ensures
            r@ == self.spec_name(),
    {
        match *self {
            Perk::UNKNOWN => String::from_str("UNKNOWN"),
            Perk::StatsHealScaling => String::from_str("StatsHealScaling"),
            Perk::StatsArmor => String::from_str("StatsArmor "),
            Perk::StatsMagicResist => String::from_str("StatsMagicResist"),
            Perk::StatsAttackSpeed => String::from_str("StatsAttackSpeed "),
            Perk::StatsAbilityHaste => String::from_str("StatsAbilityHaste"),
            Perk::StatsAdaptiveForce => String::from_str("StatsAdaptiveForce "),
            Perk::StatsMovementSpeed => String::from_str("StatsMovementSpeed"),
            Perk::StatsHealth => String::from_str("StatsHealth "),
            Perk::StatsResistScaling => String::from_str("StatsResistScaling"),
            Perk::StatsTenacitySlowResist => String::from_str("StatsTenacitySlowResist "),
            Perk::Domination => String::from_str("Domination"),
            Perk::Electrocute => String::from_str("Electrocute "),
            Perk::DarkHarvest => String::from_str("DarkHarvest"),
            Perk::HailOfBlades => String::from_str("HailOfBlades "),
            Perk::CheapShot => String::from_str("CheapShot"),
            Perk::TasteOfBlood => String::from_str("TasteOfBlood "),
            Perk::SuddenImpact => String::from_str("SuddenImpact"),
            Perk::ZombieWard => String::from_str("ZombieWard "),
            Perk::GhostPoro => String::from_str("GhostPoro"),
            Perk::EyeballCollection => String::from_str("EyeballCollection "),
            Perk::RavenousHunter => String::from_str("RavenousHunter"),
            Perk::IngeniousHunter => String::from_str("IngeniousHunter "),
            Perk::RelentlessHunter => String::from_str("RelentlessHunter"),
            Perk::UltimateHunter => String::from_str("UltimateHunter "),
            Perk::Inspiration => String::from_str("Inspiration"),
            Perk::GlacialAugment => String::from_str("GlacialAugment "),
            Perk::UnsealedSpellbook => String::from_str("UnsealedSpellbook"),
            Perk::FirstStrike => String::from_str("FirstStrike "),
            Perk::HextechFlashtraption => String::from_str("HextechFlashtraption"),
            Perk::MagicalFootwear => String::from_str("MagicalFootwear "),
            Perk::CashBack => String::from_str("CashBack"),
            Perk::PerfectTiming => String::from_str("PerfectTiming "),
            Perk::TimeWarpTonic => String::from_str("TimeWarpTonic"),
            Perk::BiscuitDelivery => String::from_str("BiscuitDelivery "),
            Perk::CosmicInsight => String::from_str("CosmicInsight"),
            Perk::ApproachVelocity => String::from_str("ApproachVelocity "),
            Perk::JackOfAllTrades => String::from_str("JackOfAllTrades"),
            Perk::Precision => String::from_str("Precision "),
            Perk::PressTheAttack => String::from_str("PressTheAttack"),
            Perk::LethalTempo => String::from_str("LethalTempo "),
            Perk::FleetFootwork => String::from_str("FleetFootwork"),
            Perk::Conqueror => String::from_str("Conqueror "),
            Perk::AbsorbLife => String::from_str("AbsorbLife"),
            Perk::Triumph => String::from_str("Triumph "),
            Perk::PresenceOfMind => String::from_str("PresenceOfMind"),
            Perk::LegendAlacrity => String::from_str("LegendAlacrity "),
            Perk::LegendHaste => String::from_str("LegendHaste"),
            Perk::LegendBloodline => String::from_str("LegendBloodline "),
            Perk::CoupDeGrace => String::from_str("CoupDeGrace"),
            Perk::CutDown => String::from_str("CutDown "),
            Perk::LastStand => String::from_str("LastStand"),
            Perk::Resolve => String::from_str("Resolve "),
            Perk::GraspOfTheUndying => String::from_str("GraspOfTheUndying"),
            Perk::Aftershock => String::from_str("Aftershock "),
            Perk::Guardian => String::from_str("Guardian"),
            Perk::Demolish => String::from_str("Demolish "),
            Perk::FontOfLife => String::from_str("FontOfLife"),
            Perk::ShieldBash => String::from_str("ShieldBash "),
            Perk::Conditioning => String::from_str("Conditioning"),
            Perk::SecondWind => String::from_str("SecondWind "),
            Perk::BonePlating => String::from_str("BonePlating"),
            Perk::Overgrowth => String::from_str("Overgrowth "),
            Perk::Revitalize => String::from_str("Revitalize"),
            Perk::Unflinching => String::from_str("Unflinching "),
            Perk::Sorcery => String::from_str("Sorcery"),
            Perk::SummonAery => String::from_str("SummonAery "),
            Perk::ArcaneComet => String::from_str("ArcaneComet"),
            Perk::PhaseRush => String::from_str("PhaseRush "),
            Perk::NullifyingOrb => String::from_str("NullifyingOrb"),
            Perk::ManaflowBand => String::from_str("ManaflowBand "),
            Perk::NimbusCloack => String::from_str("NimbusCloack"),
            Perk::Transcendence => String::from_str("Transcendence "),
            Perk::Celerity => String::from_str("Celerity"),
            Perk::AbsoluteFocus => String::from_str("AbsoluteFocus "),
            Perk::Scorch => String::from_str("Scorch"),
            Perk::Waterwalking => String::from_str("Waterwalking "),
            Perk::GatheringStorm => String::from_str("GatheringStorm"),
        }
    }
}

} // verus!
