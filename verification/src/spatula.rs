//! Definition of every golden-spatula task in the game, with the lookup
//! tables the memory layer needs: each task's entity-array offset, its home
//! level, its pause-menu coordinate, and a dense index used to store one
//! [`Task`](crate::game_interface::Task) per spatula.

use crate::level::Level;
use vstd::prelude::*;

verus! {

/// How many spatulas (tasks) the game tracks.
pub const SPATULA_COUNT: usize = 84;

/// Convenient definition for every spatula in the game.
///
/// Each spatula also names a coordinate in the in-game pause menu: a pair of
/// a world index and a task index within that world.
#[derive(Clone, Copy, Debug, PartialEq, Eq, Hash, Structural)]
pub enum Spatula {
    OnTopOfThePineapple,
    OnTopOfShadyShoals,
    OnTopOfTheChumBucket,
    SpongebobsCloset,
    AnnoySquidward,
    AmbushAtTheTreeDome,
    InfestationAtTheKrustyKrab,
    AWallJumpInTheBucket,
    TopOfTheHill,
    CowaBungee,
    Spelunking,
    PatricksDilemma,
    NavigateTheCanyonsAndMesas,
    DrainTheLake,
    SlideLeap,
    DefeatKingJellyfish,
    EndOfTheRoad,
    LearnSandysMoves,
    TikisGoBoom,
    AcrossTheRooftops,
    SwinginSandy,
    AmbushInTheLighthouse,
    ExtremeBungee,
    ComeBackWithTheCruiseBubble,
    KingOfTheCastle,
    ConnectTheTowers,
    SaveTheChildren,
    OverTheMoat,
    ThroughTheSeaCaves,
    CleanOutTheBumperBoats,
    SlipAndSlideUnderThePier,
    TowerBungee,
    RumbleAtThePoseidome,
    GetToTheMuseum,
    SlipSlidingAway,
    ReturnTheMuseumsArt,
    SwingalongSpatula,
    PlunderingRobotsInTheMuseum,
    AcrossTheTrenchOfDarkness,
    LasersAreFunAndGoodForYou,
    HowInTarnationDoYouGetThere,
    TopOfTheEntranceAreaML,
    TopOfTheComputerArea,
    ShutDownTheSecuritySystem,
    TheFunnelMachines,
    TheSpinningTowersOfPower,
    TopOfTheSecurityTunnel,
    CompleteTheRollingBallRoom,
    DefeatPrawn,
    FrostyBungee,
    TopOfTheLodge,
    DefeatRobotsOnGuppyMound,
    BeatMrsPuffsTime,
    DefeatRobotsOnFlounderHill,
    BeatBubbleBuddysTime,
    DefeatRobotsOnSandMountain,
    BeatLarrysTime,
    RoboPatrickAhoy,
    ThroughTheWoods,
    FindAllTheLostCampers,
    TikiRoundup,
    DownInTheSwamp,
    ThroughTheKelpCaves,
    PowerCrystalCrisis,
    KelpVineSlide,
    BeatMermaidMansTime,
    TopOfTheEntranceAreaFDG,
    APathThroughTheGoo,
    GooTankerAhoy,
    TopOfTheStackOfShips,
    ShipwreckBungee,
    DestroyTheRobotShip,
    GetAloftThereMatey,
    DefeatTheFlyingDutchman,
    AcrossTheDreamscape,
    FollowTheBouncingBall,
    SlidingTexasStyle,
    SwingersAhoy,
    MusicIsInTheEarOfTheBeholder,
    KrabbyPattyPlatforms,
    SuperBounce,
    HereYouGo,
    KahRahTae,
    TheSmallShallRuleOrNot,
}

impl Spatula {
    /// The spatula's dense index, in declaration order.
    pub open spec fn spec_index(self) -> int {
        match self {
            Spatula::OnTopOfThePineapple => 0,
            Spatula::OnTopOfShadyShoals => 1,
            Spatula::OnTopOfTheChumBucket => 2,
            Spatula::SpongebobsCloset => 3,
            Spatula::AnnoySquidward => 4,
            Spatula::AmbushAtTheTreeDome => 5,
            Spatula::InfestationAtTheKrustyKrab => 6,
            Spatula::AWallJumpInTheBucket => 7,
            Spatula::TopOfTheHill => 8,
            Spatula::CowaBungee => 9,
            Spatula::Spelunking => 10,
            Spatula::PatricksDilemma => 11,
            Spatula::NavigateTheCanyonsAndMesas => 12,
            Spatula::DrainTheLake => 13,
            Spatula::SlideLeap => 14,
            Spatula::DefeatKingJellyfish => 15,
            Spatula::EndOfTheRoad => 16,
            Spatula::LearnSandysMoves => 17,
            Spatula::TikisGoBoom => 18,
            Spatula::AcrossTheRooftops => 19,
            Spatula::SwinginSandy => 20,
            Spatula::AmbushInTheLighthouse => 21,
            Spatula::ExtremeBungee => 22,
            Spatula::ComeBackWithTheCruiseBubble => 23,
            Spatula::KingOfTheCastle => 24,
            Spatula::ConnectTheTowers => 25,
            Spatula::SaveTheChildren => 26,
            Spatula::OverTheMoat => 27,
            Spatula::ThroughTheSeaCaves => 28,
            Spatula::CleanOutTheBumperBoats => 29,
            Spatula::SlipAndSlideUnderThePier => 30,
            Spatula::TowerBungee => 31,
            Spatula::RumbleAtThePoseidome => 32,
            Spatula::GetToTheMuseum => 33,
            Spatula::SlipSlidingAway => 34,
            Spatula::ReturnTheMuseumsArt => 35,
            Spatula::SwingalongSpatula => 36,
            Spatula::PlunderingRobotsInTheMuseum => 37,
            Spatula::AcrossTheTrenchOfDarkness => 38,
            Spatula::LasersAreFunAndGoodForYou => 39,
            Spatula::HowInTarnationDoYouGetThere => 40,
            Spatula::TopOfTheEntranceAreaML => 41,
            Spatula::TopOfTheComputerArea => 42,
            Spatula::ShutDownTheSecuritySystem => 43,
            Spatula::TheFunnelMachines => 44,
            Spatula::TheSpinningTowersOfPower => 45,
            Spatula::TopOfTheSecurityTunnel => 46,
            Spatula::CompleteTheRollingBallRoom => 47,
            Spatula::DefeatPrawn => 48,
            Spatula::FrostyBungee => 49,
            Spatula::TopOfTheLodge => 50,
            Spatula::DefeatRobotsOnGuppyMound => 51,
            Spatula::BeatMrsPuffsTime => 52,
            Spatula::DefeatRobotsOnFlounderHill => 53,
            Spatula::BeatBubbleBuddysTime => 54,
            Spatula::DefeatRobotsOnSandMountain => 55,
            Spatula::BeatLarrysTime => 56,
            Spatula::RoboPatrickAhoy => 57,
            Spatula::ThroughTheWoods => 58,
            Spatula::FindAllTheLostCampers => 59,
            Spatula::TikiRoundup => 60,
            Spatula::DownInTheSwamp => 61,
            Spatula::ThroughTheKelpCaves => 62,
            Spatula::PowerCrystalCrisis => 63,
            Spatula::KelpVineSlide => 64,
            Spatula::BeatMermaidMansTime => 65,
            Spatula::TopOfTheEntranceAreaFDG => 66,
            Spatula::APathThroughTheGoo => 67,
            Spatula::GooTankerAhoy => 68,
            Spatula::TopOfTheStackOfShips => 69,
            Spatula::ShipwreckBungee => 70,
            Spatula::DestroyTheRobotShip => 71,
            Spatula::GetAloftThereMatey => 72,
            Spatula::DefeatTheFlyingDutchman => 73,
            Spatula::AcrossTheDreamscape => 74,
            Spatula::FollowTheBouncingBall => 75,
            Spatula::SlidingTexasStyle => 76,
            Spatula::SwingersAhoy => 77,
            Spatula::MusicIsInTheEarOfTheBeholder => 78,
            Spatula::KrabbyPattyPlatforms => 79,
            Spatula::SuperBounce => 80,
            Spatula::HereYouGo => 81,
            Spatula::KahRahTae => 82,
            Spatula::TheSmallShallRuleOrNot => 83,
        }
    }

    /// The spatula at a dense index; indices at or past [`SPATULA_COUNT`]
    /// give the last spatula.
    pub open spec fn spec_from_index(i: int) -> Spatula {
        if i == 0 {
            Spatula::OnTopOfThePineapple
        } else if i == 1 {
            Spatula::OnTopOfShadyShoals
        } else if i == 2 {
            Spatula::OnTopOfTheChumBucket
        } else if i == 3 {
            Spatula::SpongebobsCloset
        } else if i == 4 {
            Spatula::AnnoySquidward
        } else if i == 5 {
            Spatula::AmbushAtTheTreeDome
        } else if i == 6 {
            Spatula::InfestationAtTheKrustyKrab
        } else if i == 7 {
            Spatula::AWallJumpInTheBucket
        } else if i == 8 {
            Spatula::TopOfTheHill
        } else if i == 9 {
            Spatula::CowaBungee
        } else if i == 10 {
            Spatula::Spelunking
        } else if i == 11 {
            Spatula::PatricksDilemma
        } else if i == 12 {
            Spatula::NavigateTheCanyonsAndMesas
        } else if i == 13 {
            Spatula::DrainTheLake
        } else if i == 14 {
            Spatula::SlideLeap
        } else if i == 15 {
            Spatula::DefeatKingJellyfish
        } else if i == 16 {
            Spatula::EndOfTheRoad
        } else if i == 17 {
            Spatula::LearnSandysMoves
        } else if i == 18 {
            Spatula::TikisGoBoom
        } else if i == 19 {
            Spatula::AcrossTheRooftops
        } else if i == 20 {
            Spatula::SwinginSandy
        } else if i == 21 {
            Spatula::AmbushInTheLighthouse
        } else if i == 22 {
            Spatula::ExtremeBungee
        } else if i == 23 {
            Spatula::ComeBackWithTheCruiseBubble
        } else if i == 24 {
            Spatula::KingOfTheCastle
        } else if i == 25 {
            Spatula::ConnectTheTowers
        } else if i == 26 {
            Spatula::SaveTheChildren
        } else if i == 27 {
            Spatula::OverTheMoat
        } else if i == 28 {
            Spatula::ThroughTheSeaCaves
        } else if i == 29 {
            Spatula::CleanOutTheBumperBoats
        } else if i == 30 {
            Spatula::SlipAndSlideUnderThePier
        } else if i == 31 {
            Spatula::TowerBungee
        } else if i == 32 {
            Spatula::RumbleAtThePoseidome
        } else if i == 33 {
            Spatula::GetToTheMuseum
        } else if i == 34 {
            Spatula::SlipSlidingAway
        } else if i == 35 {
            Spatula::ReturnTheMuseumsArt
        } else if i == 36 {
            Spatula::SwingalongSpatula
        } else if i == 37 {
            Spatula::PlunderingRobotsInTheMuseum
        } else if i == 38 {
            Spatula::AcrossTheTrenchOfDarkness
        } else if i == 39 {
            Spatula::LasersAreFunAndGoodForYou
        } else if i == 40 {
            Spatula::HowInTarnationDoYouGetThere
        } else if i == 41 {
            Spatula::TopOfTheEntranceAreaML
        } else if i == 42 {
            Spatula::TopOfTheComputerArea
        } else if i == 43 {
            Spatula::ShutDownTheSecuritySystem
        } else if i == 44 {
            Spatula::TheFunnelMachines
        } else if i == 45 {
            Spatula::TheSpinningTowersOfPower
        } else if i == 46 {
            Spatula::TopOfTheSecurityTunnel
        } else if i == 47 {
            Spatula::CompleteTheRollingBallRoom
        } else if i == 48 {
            Spatula::DefeatPrawn
        } else if i == 49 {
            Spatula::FrostyBungee
        } else if i == 50 {
            Spatula::TopOfTheLodge
        } else if i == 51 {
            Spatula::DefeatRobotsOnGuppyMound
        } else if i == 52 {
            Spatula::BeatMrsPuffsTime
        } else if i == 53 {
            Spatula::DefeatRobotsOnFlounderHill
        } else if i == 54 {
            Spatula::BeatBubbleBuddysTime
        } else if i == 55 {
            Spatula::DefeatRobotsOnSandMountain
        } else if i == 56 {
            Spatula::BeatLarrysTime
        } else if i == 57 {
            Spatula::RoboPatrickAhoy
        } else if i == 58 {
            Spatula::ThroughTheWoods
        } else if i == 59 {
            Spatula::FindAllTheLostCampers
        } else if i == 60 {
            Spatula::TikiRoundup
        } else if i == 61 {
            Spatula::DownInTheSwamp
        } else if i == 62 {
            Spatula::ThroughTheKelpCaves
        } else if i == 63 {
            Spatula::PowerCrystalCrisis
        } else if i == 64 {
            Spatula::KelpVineSlide
        } else if i == 65 {
            Spatula::BeatMermaidMansTime
        } else if i == 66 {
            Spatula::TopOfTheEntranceAreaFDG
        } else if i == 67 {
            Spatula::APathThroughTheGoo
        } else if i == 68 {
            Spatula::GooTankerAhoy
        } else if i == 69 {
            Spatula::TopOfTheStackOfShips
        } else if i == 70 {
            Spatula::ShipwreckBungee
        } else if i == 71 {
            Spatula::DestroyTheRobotShip
        } else if i == 72 {
            Spatula::GetAloftThereMatey
        } else if i == 73 {
            Spatula::DefeatTheFlyingDutchman
        } else if i == 74 {
            Spatula::AcrossTheDreamscape
        } else if i == 75 {
            Spatula::FollowTheBouncingBall
        } else if i == 76 {
            Spatula::SlidingTexasStyle
        } else if i == 77 {
            Spatula::SwingersAhoy
        } else if i == 78 {
            Spatula::MusicIsInTheEarOfTheBeholder
        } else if i == 79 {
            Spatula::KrabbyPattyPlatforms
        } else if i == 80 {
            Spatula::SuperBounce
        } else if i == 81 {
            Spatula::HereYouGo
        } else if i == 82 {
            Spatula::KahRahTae
        } else {
            Spatula::TheSmallShallRuleOrNot
        }
    }

    /// The dense index is a bijection onto `0 .. SPATULA_COUNT`.
    pub proof fn lemma_index_round_trip(self)
        ensures
            0 <= self.spec_index() < SPATULA_COUNT,
            Spatula::spec_from_index(self.spec_index()) == self,
    {
    }

    /// The spatula's dense index, in declaration order.
    pub fn as_index(&self) -> (r: usize)
        ensures
            r as int == self.spec_index(),
    {
        match *self {
            Spatula::OnTopOfThePineapple => 0,
            Spatula::OnTopOfShadyShoals => 1,
            Spatula::OnTopOfTheChumBucket => 2,
            Spatula::SpongebobsCloset => 3,
            Spatula::AnnoySquidward => 4,
            Spatula::AmbushAtTheTreeDome => 5,
            Spatula::InfestationAtTheKrustyKrab => 6,
            Spatula::AWallJumpInTheBucket => 7,
            Spatula::TopOfTheHill => 8,
            Spatula::CowaBungee => 9,
            Spatula::Spelunking => 10,
            Spatula::PatricksDilemma => 11,
            Spatula::NavigateTheCanyonsAndMesas => 12,
            Spatula::DrainTheLake => 13,
            Spatula::SlideLeap => 14,
            Spatula::DefeatKingJellyfish => 15,
            Spatula::EndOfTheRoad => 16,
            Spatula::LearnSandysMoves => 17,
            Spatula::TikisGoBoom => 18,
            Spatula::AcrossTheRooftops => 19,
            Spatula::SwinginSandy => 20,
            Spatula::AmbushInTheLighthouse => 21,
            Spatula::ExtremeBungee => 22,
            Spatula::ComeBackWithTheCruiseBubble => 23,
            Spatula::KingOfTheCastle => 24,
            Spatula::ConnectTheTowers => 25,
            Spatula::SaveTheChildren => 26,
            Spatula::OverTheMoat => 27,
            Spatula::ThroughTheSeaCaves => 28,
            Spatula::CleanOutTheBumperBoats => 29,
            Spatula::SlipAndSlideUnderThePier => 30,
            Spatula::TowerBungee => 31,
            Spatula::RumbleAtThePoseidome => 32,
            Spatula::GetToTheMuseum => 33,
            Spatula::SlipSlidingAway => 34,
            Spatula::ReturnTheMuseumsArt => 35,
            Spatula::SwingalongSpatula => 36,
            Spatula::PlunderingRobotsInTheMuseum => 37,
            Spatula::AcrossTheTrenchOfDarkness => 38,
            Spatula::LasersAreFunAndGoodForYou => 39,
            Spatula::HowInTarnationDoYouGetThere => 40,
            Spatula::TopOfTheEntranceAreaML => 41,
            Spatula::TopOfTheComputerArea => 42,
            Spatula::ShutDownTheSecuritySystem => 43,
            Spatula::TheFunnelMachines => 44,
            Spatula::TheSpinningTowersOfPower => 45,
            Spatula::TopOfTheSecurityTunnel => 46,
            Spatula::CompleteTheRollingBallRoom => 47,
            Spatula::DefeatPrawn => 48,
            Spatula::FrostyBungee => 49,
            Spatula::TopOfTheLodge => 50,
            Spatula::DefeatRobotsOnGuppyMound => 51,
            Spatula::BeatMrsPuffsTime => 52,
            Spatula::DefeatRobotsOnFlounderHill => 53,
            Spatula::BeatBubbleBuddysTime => 54,
            Spatula::DefeatRobotsOnSandMountain => 55,
            Spatula::BeatLarrysTime => 56,
            Spatula::RoboPatrickAhoy => 57,
            Spatula::ThroughTheWoods => 58,
            Spatula::FindAllTheLostCampers => 59,
            Spatula::TikiRoundup => 60,
            Spatula::DownInTheSwamp => 61,
            Spatula::ThroughTheKelpCaves => 62,
            Spatula::PowerCrystalCrisis => 63,
            Spatula::KelpVineSlide => 64,
            Spatula::BeatMermaidMansTime => 65,
            Spatula::TopOfTheEntranceAreaFDG => 66,
            Spatula::APathThroughTheGoo => 67,
            Spatula::GooTankerAhoy => 68,
            Spatula::TopOfTheStackOfShips => 69,
            Spatula::ShipwreckBungee => 70,
            Spatula::DestroyTheRobotShip => 71,
            Spatula::GetAloftThereMatey => 72,
            Spatula::DefeatTheFlyingDutchman => 73,
            Spatula::AcrossTheDreamscape => 74,
            Spatula::FollowTheBouncingBall => 75,
            Spatula::SlidingTexasStyle => 76,
            Spatula::SwingersAhoy => 77,
            Spatula::MusicIsInTheEarOfTheBeholder => 78,
            Spatula::KrabbyPattyPlatforms => 79,
            Spatula::SuperBounce => 80,
            Spatula::HereYouGo => 81,
            Spatula::KahRahTae => 82,
            Spatula::TheSmallShallRuleOrNot => 83,
        }
    }

    /// The spatula at a dense index.
    pub fn from_index(i: usize) -> (r: Spatula)
        requires
            i < SPATULA_COUNT,
        ensures
            r == Spatula::spec_from_index(i as int),
    {
        match i {
            0 => Spatula::OnTopOfThePineapple,
            1 => Spatula::OnTopOfShadyShoals,
            2 => Spatula::OnTopOfTheChumBucket,
            3 => Spatula::SpongebobsCloset,
            4 => Spatula::AnnoySquidward,
            5 => Spatula::AmbushAtTheTreeDome,
            6 => Spatula::InfestationAtTheKrustyKrab,
            7 => Spatula::AWallJumpInTheBucket,
            8 => Spatula::TopOfTheHill,
            9 => Spatula::CowaBungee,
            10 => Spatula::Spelunking,
            11 => Spatula::PatricksDilemma,
            12 => Spatula::NavigateTheCanyonsAndMesas,
            13 => Spatula::DrainTheLake,
            14 => Spatula::SlideLeap,
            15 => Spatula::DefeatKingJellyfish,
            16 => Spatula::EndOfTheRoad,
            17 => Spatula::LearnSandysMoves,
            18 => Spatula::TikisGoBoom,
            19 => Spatula::AcrossTheRooftops,
            20 => Spatula::SwinginSandy,
            21 => Spatula::AmbushInTheLighthouse,
            22 => Spatula::ExtremeBungee,
            23 => Spatula::ComeBackWithTheCruiseBubble,
            24 => Spatula::KingOfTheCastle,
            25 => Spatula::ConnectTheTowers,
            26 => Spatula::SaveTheChildren,
            27 => Spatula::OverTheMoat,
            28 => Spatula::ThroughTheSeaCaves,
            29 => Spatula::CleanOutTheBumperBoats,
            30 => Spatula::SlipAndSlideUnderThePier,
            31 => Spatula::TowerBungee,
            32 => Spatula::RumbleAtThePoseidome,
            33 => Spatula::GetToTheMuseum,
            34 => Spatula::SlipSlidingAway,
            35 => Spatula::ReturnTheMuseumsArt,
            36 => Spatula::SwingalongSpatula,
            37 => Spatula::PlunderingRobotsInTheMuseum,
            38 => Spatula::AcrossTheTrenchOfDarkness,
            39 => Spatula::LasersAreFunAndGoodForYou,
            40 => Spatula::HowInTarnationDoYouGetThere,
            41 => Spatula::TopOfTheEntranceAreaML,
            42 => Spatula::TopOfTheComputerArea,
            43 => Spatula::ShutDownTheSecuritySystem,
            44 => Spatula::TheFunnelMachines,
            45 => Spatula::TheSpinningTowersOfPower,
            46 => Spatula::TopOfTheSecurityTunnel,
            47 => Spatula::CompleteTheRollingBallRoom,
            48 => Spatula::DefeatPrawn,
            49 => Spatula::FrostyBungee,
            50 => Spatula::TopOfTheLodge,
            51 => Spatula::DefeatRobotsOnGuppyMound,
            52 => Spatula::BeatMrsPuffsTime,
            53 => Spatula::DefeatRobotsOnFlounderHill,
            54 => Spatula::BeatBubbleBuddysTime,
            55 => Spatula::DefeatRobotsOnSandMountain,
            56 => Spatula::BeatLarrysTime,
            57 => Spatula::RoboPatrickAhoy,
            58 => Spatula::ThroughTheWoods,
            59 => Spatula::FindAllTheLostCampers,
            60 => Spatula::TikiRoundup,
            61 => Spatula::DownInTheSwamp,
            62 => Spatula::ThroughTheKelpCaves,
            63 => Spatula::PowerCrystalCrisis,
            64 => Spatula::KelpVineSlide,
            65 => Spatula::BeatMermaidMansTime,
            66 => Spatula::TopOfTheEntranceAreaFDG,
            67 => Spatula::APathThroughTheGoo,
            68 => Spatula::GooTankerAhoy,
            69 => Spatula::TopOfTheStackOfShips,
            70 => Spatula::ShipwreckBungee,
            71 => Spatula::DestroyTheRobotShip,
            72 => Spatula::GetAloftThereMatey,
            73 => Spatula::DefeatTheFlyingDutchman,
            74 => Spatula::AcrossTheDreamscape,
            75 => Spatula::FollowTheBouncingBall,
            76 => Spatula::SlidingTexasStyle,
            77 => Spatula::SwingersAhoy,
            78 => Spatula::MusicIsInTheEarOfTheBeholder,
            79 => Spatula::KrabbyPattyPlatforms,
            80 => Spatula::SuperBounce,
            81 => Spatula::HereYouGo,
            82 => Spatula::KahRahTae,
            _ => Spatula::TheSmallShallRuleOrNot,
        }
    }

    /// The index of the spatula's entity within the loaded scene's entity
    /// array, where the spatula has one.
    pub open spec fn spec_offset(self) -> Option<usize> {
        match self {
            Spatula::OnTopOfThePineapple => Some(0xa8),
            Spatula::OnTopOfShadyShoals => Some(0xcf),
            Spatula::OnTopOfTheChumBucket => Some(0xd0),
            Spatula::SpongebobsCloset => Some(0x5d),
            Spatula::AnnoySquidward => Some(0x26),
            Spatula::AmbushAtTheTreeDome => Some(0x3a),
            Spatula::InfestationAtTheKrustyKrab => Some(0xce),
            Spatula::AWallJumpInTheBucket => Some(0x2a),
            Spatula::TopOfTheHill => Some(0xc8),
            Spatula::CowaBungee => Some(0xc9),
            Spatula::Spelunking => Some(0xd8),
            Spatula::PatricksDilemma => Some(0xd7),
            Spatula::NavigateTheCanyonsAndMesas => Some(0xfa),
            Spatula::DrainTheLake => Some(0xea),
            Spatula::SlideLeap => Some(0x58),
            Spatula::DefeatKingJellyfish => Some(0x128),
            Spatula::EndOfTheRoad => Some(0xba),
            Spatula::LearnSandysMoves => Some(0xb9),
            Spatula::TikisGoBoom => Some(0x111),
            Spatula::AcrossTheRooftops => Some(0xab),
            Spatula::SwinginSandy => Some(0xac),
            Spatula::AmbushInTheLighthouse => Some(0x53),
            Spatula::ExtremeBungee => Some(0x99),
            Spatula::ComeBackWithTheCruiseBubble => Some(0x9a),
            Spatula::KingOfTheCastle => Some(0x12a),
            Spatula::ConnectTheTowers => Some(0x154),
            Spatula::SaveTheChildren => Some(0x153),
            Spatula::OverTheMoat => Some(0x12b),
            Spatula::ThroughTheSeaCaves => Some(0x5c),
            Spatula::CleanOutTheBumperBoats => Some(0xff),
            Spatula::SlipAndSlideUnderThePier => Some(0xfd),
            Spatula::TowerBungee => Some(0xfe),
            Spatula::RumbleAtThePoseidome => Some(0x28),
            Spatula::GetToTheMuseum => Some(0xff),
            Spatula::SlipSlidingAway => Some(0xfe),
            Spatula::ReturnTheMuseumsArt => Some(0x105),
            Spatula::SwingalongSpatula => Some(0x107),
            Spatula::PlunderingRobotsInTheMuseum => Some(0x76),
            Spatula::AcrossTheTrenchOfDarkness => Some(0xa5),
            Spatula::LasersAreFunAndGoodForYou => Some(0xa4),
            Spatula::HowInTarnationDoYouGetThere => Some(0xa3),
            Spatula::TopOfTheEntranceAreaML => Some(0x72),
            Spatula::TopOfTheComputerArea => Some(0x6a),
            Spatula::ShutDownTheSecuritySystem => Some(0x6b),
            Spatula::TheFunnelMachines => Some(0x68),
            Spatula::TheSpinningTowersOfPower => Some(0x69),
            Spatula::TopOfTheSecurityTunnel => Some(0x9a),
            Spatula::CompleteTheRollingBallRoom => Some(0x45),
            Spatula::DefeatPrawn => Some(0x39),
            Spatula::FrostyBungee => Some(0x5d),
            Spatula::TopOfTheLodge => Some(0x5e),
            Spatula::DefeatRobotsOnGuppyMound => Some(0x91),
            Spatula::BeatMrsPuffsTime => Some(0x92),
            Spatula::DefeatRobotsOnFlounderHill => Some(0xa8),
            Spatula::BeatBubbleBuddysTime => Some(0xa9),
            Spatula::DefeatRobotsOnSandMountain => Some(0xcd),
            Spatula::BeatLarrysTime => Some(0xcc),
            Spatula::RoboPatrickAhoy => Some(0x28),
            Spatula::ThroughTheWoods => Some(0x94),
            Spatula::FindAllTheLostCampers => Some(0x8d),
            Spatula::TikiRoundup => Some(0x83),
            Spatula::DownInTheSwamp => Some(0x84),
            Spatula::ThroughTheKelpCaves => Some(0x5a),
            Spatula::PowerCrystalCrisis => Some(0x53),
            Spatula::KelpVineSlide => Some(0x53),
            Spatula::BeatMermaidMansTime => Some(0x54),
            Spatula::TopOfTheEntranceAreaFDG => Some(0x70),
            Spatula::APathThroughTheGoo => Some(0x71),
            Spatula::GooTankerAhoy => Some(0x6f),
            Spatula::TopOfTheStackOfShips => Some(0x86),
            Spatula::ShipwreckBungee => Some(0x87),
            Spatula::DestroyTheRobotShip => Some(0x5f),
            Spatula::GetAloftThereMatey => Some(0x60),
            Spatula::DefeatTheFlyingDutchman => Some(0x35),
            Spatula::AcrossTheDreamscape => Some(0x5e),
            Spatula::FollowTheBouncingBall => Some(0x5f),
            Spatula::SlidingTexasStyle => Some(0xa1),
            Spatula::SwingersAhoy => Some(0xa3),
            Spatula::MusicIsInTheEarOfTheBeholder => Some(0x22e),
            Spatula::KrabbyPattyPlatforms => Some(0x7f),
            Spatula::SuperBounce => Some(0x6e),
            Spatula::HereYouGo => Some(0x32),
            Spatula::KahRahTae => None,
            Spatula::TheSmallShallRuleOrNot => None,
        }
    }

    /// In-game, spatula objects are stored within an array of entities;
    /// this is the index of this spatula within that array, valid only while
    /// the spatula's level is loaded. The two tasks granted rather than
    /// collected have no entity and yield `None`.
    pub fn get_offset(&self) -> (r: Option<usize>)
        ensures
            r == self.spec_offset(),
    {
        match *self {
            Spatula::OnTopOfThePineapple => Some(0xa8),
            Spatula::OnTopOfShadyShoals => Some(0xcf),
            Spatula::OnTopOfTheChumBucket => Some(0xd0),
            Spatula::SpongebobsCloset => Some(0x5d),
            Spatula::AnnoySquidward => Some(0x26),
            Spatula::AmbushAtTheTreeDome => Some(0x3a),
            Spatula::InfestationAtTheKrustyKrab => Some(0xce),
            Spatula::AWallJumpInTheBucket => Some(0x2a),
            Spatula::TopOfTheHill => Some(0xc8),
            Spatula::CowaBungee => Some(0xc9),
            Spatula::Spelunking => Some(0xd8),
            Spatula::PatricksDilemma => Some(0xd7),
            Spatula::NavigateTheCanyonsAndMesas => Some(0xfa),
            Spatula::DrainTheLake => Some(0xea),
            Spatula::SlideLeap => Some(0x58),
            Spatula::DefeatKingJellyfish => Some(0x128),
            Spatula::EndOfTheRoad => Some(0xba),
            Spatula::LearnSandysMoves => Some(0xb9),
            Spatula::TikisGoBoom => Some(0x111),
            Spatula::AcrossTheRooftops => Some(0xab),
            Spatula::SwinginSandy => Some(0xac),
            Spatula::AmbushInTheLighthouse => Some(0x53),
            Spatula::ExtremeBungee => Some(0x99),
            Spatula::ComeBackWithTheCruiseBubble => Some(0x9a),
            Spatula::KingOfTheCastle => Some(0x12a),
            Spatula::ConnectTheTowers => Some(0x154),
            Spatula::SaveTheChildren => Some(0x153),
            Spatula::OverTheMoat => Some(0x12b),
            Spatula::ThroughTheSeaCaves => Some(0x5c),
            Spatula::CleanOutTheBumperBoats => Some(0xff),
            Spatula::SlipAndSlideUnderThePier => Some(0xfd),
            Spatula::TowerBungee => Some(0xfe),
            Spatula::RumbleAtThePoseidome => Some(0x28),
            Spatula::GetToTheMuseum => Some(0xff),
            Spatula::SlipSlidingAway => Some(0xfe),
            Spatula::ReturnTheMuseumsArt => Some(0x105),
            Spatula::SwingalongSpatula => Some(0x107),
            Spatula::PlunderingRobotsInTheMuseum => Some(0x76),
            Spatula::AcrossTheTrenchOfDarkness => Some(0xa5),
            Spatula::LasersAreFunAndGoodForYou => Some(0xa4),
            Spatula::HowInTarnationDoYouGetThere => Some(0xa3),
            Spatula::TopOfTheEntranceAreaML => Some(0x72),
            Spatula::TopOfTheComputerArea => Some(0x6a),
            Spatula::ShutDownTheSecuritySystem => Some(0x6b),
            Spatula::TheFunnelMachines => Some(0x68),
            Spatula::TheSpinningTowersOfPower => Some(0x69),
            Spatula::TopOfTheSecurityTunnel => Some(0x9a),
            Spatula::CompleteTheRollingBallRoom => Some(0x45),
            Spatula::DefeatPrawn => Some(0x39),
            Spatula::FrostyBungee => Some(0x5d),
            Spatula::TopOfTheLodge => Some(0x5e),
            Spatula::DefeatRobotsOnGuppyMound => Some(0x91),
            Spatula::BeatMrsPuffsTime => Some(0x92),
            Spatula::DefeatRobotsOnFlounderHill => Some(0xa8),
            Spatula::BeatBubbleBuddysTime => Some(0xa9),
            Spatula::DefeatRobotsOnSandMountain => Some(0xcd),
            Spatula::BeatLarrysTime => Some(0xcc),
            Spatula::RoboPatrickAhoy => Some(0x28),
            Spatula::ThroughTheWoods => Some(0x94),
            Spatula::FindAllTheLostCampers => Some(0x8d),
            Spatula::TikiRoundup => Some(0x83),
            Spatula::DownInTheSwamp => Some(0x84),
            Spatula::ThroughTheKelpCaves => Some(0x5a),
            Spatula::PowerCrystalCrisis => Some(0x53),
            Spatula::KelpVineSlide => Some(0x53),
            Spatula::BeatMermaidMansTime => Some(0x54),
            Spatula::TopOfTheEntranceAreaFDG => Some(0x70),
            Spatula::APathThroughTheGoo => Some(0x71),
            Spatula::GooTankerAhoy => Some(0x6f),
            Spatula::TopOfTheStackOfShips => Some(0x86),
            Spatula::ShipwreckBungee => Some(0x87),
            Spatula::DestroyTheRobotShip => Some(0x5f),
            Spatula::GetAloftThereMatey => Some(0x60),
            Spatula::DefeatTheFlyingDutchman => Some(0x35),
            Spatula::AcrossTheDreamscape => Some(0x5e),
            Spatula::FollowTheBouncingBall => Some(0x5f),
            Spatula::SlidingTexasStyle => Some(0xa1),
            Spatula::SwingersAhoy => Some(0xa3),
            Spatula::MusicIsInTheEarOfTheBeholder => Some(0x22e),
            Spatula::KrabbyPattyPlatforms => Some(0x7f),
            Spatula::SuperBounce => Some(0x6e),
            Spatula::HereYouGo => Some(0x32),
            Spatula::KahRahTae => None,
            Spatula::TheSmallShallRuleOrNot => None,
        }
    }

    /// The level this spatula is found in.
    pub open spec fn spec_level(self) -> Level {
        match self {
            Spatula::OnTopOfThePineapple => Level::BikiniBottom,
            Spatula::OnTopOfShadyShoals => Level::BikiniBottom,
            Spatula::OnTopOfTheChumBucket => Level::BikiniBottom,
            Spatula::SpongebobsCloset => Level::SpongebobHouse,
            Spatula::AnnoySquidward => Level::SquidwardHouse,
            Spatula::AmbushAtTheTreeDome => Level::Treedome,
            Spatula::InfestationAtTheKrustyKrab => Level::BikiniBottom,
            Spatula::AWallJumpInTheBucket => Level::ChumBucket,
            Spatula::TopOfTheHill => Level::JellyfishRock,
            Spatula::CowaBungee => Level::JellyfishRock,
            Spatula::Spelunking => Level::JellyfishCaves,
            Spatula::PatricksDilemma => Level::JellyfishCaves,
            Spatula::NavigateTheCanyonsAndMesas => Level::JellyfishLake,
            Spatula::DrainTheLake => Level::JellyfishLake,
            Spatula::SlideLeap => Level::JellyfishMountain,
            Spatula::DefeatKingJellyfish => Level::JellyfishRock,
            Spatula::EndOfTheRoad => Level::DowntownStreets,
            Spatula::LearnSandysMoves => Level::DowntownStreets,
            Spatula::TikisGoBoom => Level::DowntownStreets,
            Spatula::AcrossTheRooftops => Level::DowntownRooftops,
            Spatula::SwinginSandy => Level::DowntownRooftops,
            Spatula::AmbushInTheLighthouse => Level::DowntownLighthouse,
            Spatula::ExtremeBungee => Level::DowntownSeaNeedle,
            Spatula::ComeBackWithTheCruiseBubble => Level::DowntownSeaNeedle,
            Spatula::KingOfTheCastle => Level::GooLagoonBeach,
            Spatula::ConnectTheTowers => Level::GooLagoonBeach,
            Spatula::SaveTheChildren => Level::GooLagoonBeach,
            Spatula::OverTheMoat => Level::GooLagoonBeach,
            Spatula::ThroughTheSeaCaves => Level::GooLagoonCaves,
            Spatula::CleanOutTheBumperBoats => Level::GooLagoonPier,
            Spatula::SlipAndSlideUnderThePier => Level::GooLagoonPier,
            Spatula::TowerBungee => Level::GooLagoonPier,
            Spatula::RumbleAtThePoseidome => Level::Poseidome,
            Spatula::GetToTheMuseum => Level::RockBottomDowntown,
            Spatula::SlipSlidingAway => Level::RockBottomDowntown,
            Spatula::ReturnTheMuseumsArt => Level::RockBottomDowntown,
            Spatula::SwingalongSpatula => Level::RockBottomDowntown,
            Spatula::PlunderingRobotsInTheMuseum => Level::RockBottomMuseum,
            Spatula::AcrossTheTrenchOfDarkness => Level::RockBottomTrench,
            Spatula::LasersAreFunAndGoodForYou => Level::RockBottomTrench,
            Spatula::HowInTarnationDoYouGetThere => Level::RockBottomTrench,
            Spatula::TopOfTheEntranceAreaML => Level::MermalairEntranceArea,
            Spatula::TopOfTheComputerArea => Level::MermalairMainChamber,
            Spatula::ShutDownTheSecuritySystem => Level::MermalairMainChamber,
            Spatula::TheFunnelMachines => Level::MermalairMainChamber,
            Spatula::TheSpinningTowersOfPower => Level::MermalairMainChamber,
            Spatula::TopOfTheSecurityTunnel => Level::MermalairSecurityTunnel,
            Spatula::CompleteTheRollingBallRoom => Level::MermalairBallroom,
            Spatula::DefeatPrawn => Level::MermalairVillianContainment,
            Spatula::FrostyBungee => Level::SandMountainHub,
            Spatula::TopOfTheLodge => Level::SandMountainHub,
            Spatula::DefeatRobotsOnGuppyMound => Level::SandMountainSlide1,
            Spatula::BeatMrsPuffsTime => Level::SandMountainSlide1,
            Spatula::DefeatRobotsOnFlounderHill => Level::SandMountainSlide2,
            Spatula::BeatBubbleBuddysTime => Level::SandMountainSlide2,
            Spatula::DefeatRobotsOnSandMountain => Level::SandMountainSlide3,
            Spatula::BeatLarrysTime => Level::SandMountainSlide3,
            Spatula::RoboPatrickAhoy => Level::IndustrialPark,
            Spatula::ThroughTheWoods => Level::KelpForest,
            Spatula::FindAllTheLostCampers => Level::KelpForest,
            Spatula::TikiRoundup => Level::KelpSwamps,
            Spatula::DownInTheSwamp => Level::KelpSwamps,
            Spatula::ThroughTheKelpCaves => Level::KelpCaves,
            Spatula::PowerCrystalCrisis => Level::KelpCaves,
            Spatula::KelpVineSlide => Level::KelpVines,
            Spatula::BeatMermaidMansTime => Level::KelpVines,
            Spatula::TopOfTheEntranceAreaFDG => Level::GraveyardLake,
            Spatula::APathThroughTheGoo => Level::GraveyardLake,
            Spatula::GooTankerAhoy => Level::GraveyardLake,
            Spatula::TopOfTheStackOfShips => Level::GraveyardShipwreck,
            Spatula::ShipwreckBungee => Level::GraveyardShipwreck,
            Spatula::DestroyTheRobotShip => Level::GraveyardShip,
            Spatula::GetAloftThereMatey => Level::GraveyardShip,
            Spatula::DefeatTheFlyingDutchman => Level::GraveyardBoss,
            Spatula::AcrossTheDreamscape => Level::SpongebobsDream,
            Spatula::FollowTheBouncingBall => Level::SpongebobsDream,
            Spatula::SlidingTexasStyle => Level::SandysDream,
            Spatula::SwingersAhoy => Level::SandysDream,
            Spatula::MusicIsInTheEarOfTheBeholder => Level::SquidwardsDream,
            Spatula::KrabbyPattyPlatforms => Level::KrabsDream,
            Spatula::SuperBounce => Level::SpongebobsDream,
            Spatula::HereYouGo => Level::PatricksDream,
            Spatula::KahRahTae => Level::ChumBucketLab,
            Spatula::TheSmallShallRuleOrNot => Level::ChumBucketBrain,
        }
    }

    /// Returns the level this spatula is in.
    pub fn get_level(&self) -> (r: Level)
        ensures
            r == self.spec_level(),
    {
        match *self {
            Spatula::OnTopOfThePineapple => Level::BikiniBottom,
            Spatula::OnTopOfShadyShoals => Level::BikiniBottom,
            Spatula::OnTopOfTheChumBucket => Level::BikiniBottom,
            Spatula::SpongebobsCloset => Level::SpongebobHouse,
            Spatula::AnnoySquidward => Level::SquidwardHouse,
            Spatula::AmbushAtTheTreeDome => Level::Treedome,
            Spatula::InfestationAtTheKrustyKrab => Level::BikiniBottom,
            Spatula::AWallJumpInTheBucket => Level::ChumBucket,
            Spatula::TopOfTheHill => Level::JellyfishRock,
            Spatula::CowaBungee => Level::JellyfishRock,
            Spatula::Spelunking => Level::JellyfishCaves,
            Spatula::PatricksDilemma => Level::JellyfishCaves,
            Spatula::NavigateTheCanyonsAndMesas => Level::JellyfishLake,
            Spatula::DrainTheLake => Level::JellyfishLake,
            Spatula::SlideLeap => Level::JellyfishMountain,
            Spatula::DefeatKingJellyfish => Level::JellyfishRock,
            Spatula::EndOfTheRoad => Level::DowntownStreets,
            Spatula::LearnSandysMoves => Level::DowntownStreets,
            Spatula::TikisGoBoom => Level::DowntownStreets,
            Spatula::AcrossTheRooftops => Level::DowntownRooftops,
            Spatula::SwinginSandy => Level::DowntownRooftops,
            Spatula::AmbushInTheLighthouse => Level::DowntownLighthouse,
            Spatula::ExtremeBungee => Level::DowntownSeaNeedle,
            Spatula::ComeBackWithTheCruiseBubble => Level::DowntownSeaNeedle,
            Spatula::KingOfTheCastle => Level::GooLagoonBeach,
            Spatula::ConnectTheTowers => Level::GooLagoonBeach,
            Spatula::SaveTheChildren => Level::GooLagoonBeach,
            Spatula::OverTheMoat => Level::GooLagoonBeach,
            Spatula::ThroughTheSeaCaves => Level::GooLagoonCaves,
            Spatula::CleanOutTheBumperBoats => Level::GooLagoonPier,
            Spatula::SlipAndSlideUnderThePier => Level::GooLagoonPier,
            Spatula::TowerBungee => Level::GooLagoonPier,
            Spatula::RumbleAtThePoseidome => Level::Poseidome,
            Spatula::GetToTheMuseum => Level::RockBottomDowntown,
            Spatula::SlipSlidingAway => Level::RockBottomDowntown,
            Spatula::ReturnTheMuseumsArt => Level::RockBottomDowntown,
            Spatula::SwingalongSpatula => Level::RockBottomDowntown,
            Spatula::PlunderingRobotsInTheMuseum => Level::RockBottomMuseum,
            Spatula::AcrossTheTrenchOfDarkness => Level::RockBottomTrench,
            Spatula::LasersAreFunAndGoodForYou => Level::RockBottomTrench,
            Spatula::HowInTarnationDoYouGetThere => Level::RockBottomTrench,
            Spatula::TopOfTheEntranceAreaML => Level::MermalairEntranceArea,
            Spatula::TopOfTheComputerArea => Level::MermalairMainChamber,
            Spatula::ShutDownTheSecuritySystem => Level::MermalairMainChamber,
            Spatula::TheFunnelMachines => Level::MermalairMainChamber,
            Spatula::TheSpinningTowersOfPower => Level::MermalairMainChamber,
            Spatula::TopOfTheSecurityTunnel => Level::MermalairSecurityTunnel,
            Spatula::CompleteTheRollingBallRoom => Level::MermalairBallroom,
            Spatula::DefeatPrawn => Level::MermalairVillianContainment,
            Spatula::FrostyBungee => Level::SandMountainHub,
            Spatula::TopOfTheLodge => Level::SandMountainHub,
            Spatula::DefeatRobotsOnGuppyMound => Level::SandMountainSlide1,
            Spatula::BeatMrsPuffsTime => Level::SandMountainSlide1,
            Spatula::DefeatRobotsOnFlounderHill => Level::SandMountainSlide2,
            Spatula::BeatBubbleBuddysTime => Level::SandMountainSlide2,
            Spatula::DefeatRobotsOnSandMountain => Level::SandMountainSlide3,
            Spatula::BeatLarrysTime => Level::SandMountainSlide3,
            Spatula::RoboPatrickAhoy => Level::IndustrialPark,
            Spatula::ThroughTheWoods => Level::KelpForest,
            Spatula::FindAllTheLostCampers => Level::KelpForest,
            Spatula::TikiRoundup => Level::KelpSwamps,
            Spatula::DownInTheSwamp => Level::KelpSwamps,
            Spatula::ThroughTheKelpCaves => Level::KelpCaves,
            Spatula::PowerCrystalCrisis => Level::KelpCaves,
            Spatula::KelpVineSlide => Level::KelpVines,
            Spatula::BeatMermaidMansTime => Level::KelpVines,
            Spatula::TopOfTheEntranceAreaFDG => Level::GraveyardLake,
            Spatula::APathThroughTheGoo => Level::GraveyardLake,
            Spatula::GooTankerAhoy => Level::GraveyardLake,
            Spatula::TopOfTheStackOfShips => Level::GraveyardShipwreck,
            Spatula::ShipwreckBungee => Level::GraveyardShipwreck,
            Spatula::DestroyTheRobotShip => Level::GraveyardShip,
            Spatula::GetAloftThereMatey => Level::GraveyardShip,
            Spatula::DefeatTheFlyingDutchman => Level::GraveyardBoss,
            Spatula::AcrossTheDreamscape => Level::SpongebobsDream,
            Spatula::FollowTheBouncingBall => Level::SpongebobsDream,
            Spatula::SlidingTexasStyle => Level::SandysDream,
            Spatula::SwingersAhoy => Level::SandysDream,
            Spatula::MusicIsInTheEarOfTheBeholder => Level::SquidwardsDream,
            Spatula::KrabbyPattyPlatforms => Level::KrabsDream,
            Spatula::SuperBounce => Level::SpongebobsDream,
            Spatula::HereYouGo => Level::PatricksDream,
            Spatula::KahRahTae => Level::ChumBucketLab,
            Spatula::TheSmallShallRuleOrNot => Level::ChumBucketBrain,
        }
    }

    /// The spatula's pause-menu coordinate: world index, then task index
    /// within the world.
    pub open spec fn spec_menu_coordinates(self) -> (usize, usize) {
        match self {
            Spatula::OnTopOfThePineapple => (0, 0),
            Spatula::OnTopOfShadyShoals => (0, 1),
            Spatula::OnTopOfTheChumBucket => (0, 2),
            Spatula::SpongebobsCloset => (0, 3),
            Spatula::AnnoySquidward => (0, 4),
            Spatula::AmbushAtTheTreeDome => (0, 5),
            Spatula::InfestationAtTheKrustyKrab => (0, 6),
            Spatula::AWallJumpInTheBucket => (0, 7),
            Spatula::TopOfTheHill => (1, 0),
            Spatula::CowaBungee => (1, 1),
            Spatula::Spelunking => (1, 2),
            Spatula::PatricksDilemma => (1, 3),
            Spatula::NavigateTheCanyonsAndMesas => (1, 4),
            Spatula::DrainTheLake => (1, 5),
            Spatula::SlideLeap => (1, 6),
            Spatula::DefeatKingJellyfish => (1, 7),
            Spatula::EndOfTheRoad => (2, 0),
            Spatula::LearnSandysMoves => (2, 1),
            Spatula::TikisGoBoom => (2, 2),
            Spatula::AcrossTheRooftops => (2, 3),
            Spatula::SwinginSandy => (2, 4),
            Spatula::AmbushInTheLighthouse => (2, 5),
            Spatula::ExtremeBungee => (2, 6),
            Spatula::ComeBackWithTheCruiseBubble => (2, 7),
            Spatula::KingOfTheCastle => (3, 0),
            Spatula::ConnectTheTowers => (3, 1),
            Spatula::SaveTheChildren => (3, 2),
            Spatula::OverTheMoat => (3, 3),
            Spatula::ThroughTheSeaCaves => (3, 4),
            Spatula::CleanOutTheBumperBoats => (3, 5),
            Spatula::SlipAndSlideUnderThePier => (3, 6),
            Spatula::TowerBungee => (3, 7),
            Spatula::RumbleAtThePoseidome => (4, 0),
            Spatula::GetToTheMuseum => (5, 0),
            Spatula::SlipSlidingAway => (5, 1),
            Spatula::ReturnTheMuseumsArt => (5, 2),
            Spatula::SwingalongSpatula => (5, 3),
            Spatula::PlunderingRobotsInTheMuseum => (5, 4),
            Spatula::AcrossTheTrenchOfDarkness => (5, 5),
            Spatula::LasersAreFunAndGoodForYou => (5, 6),
            Spatula::HowInTarnationDoYouGetThere => (5, 7),
            Spatula::TopOfTheEntranceAreaML => (6, 0),
            Spatula::TopOfTheComputerArea => (6, 1),
            Spatula::ShutDownTheSecuritySystem => (6, 2),
            Spatula::TheFunnelMachines => (6, 3),
            Spatula::TheSpinningTowersOfPower => (6, 4),
            Spatula::TopOfTheSecurityTunnel => (6, 5),
            Spatula::CompleteTheRollingBallRoom => (6, 6),
            Spatula::DefeatPrawn => (6, 7),
            Spatula::FrostyBungee => (7, 0),
            Spatula::TopOfTheLodge => (7, 1),
            Spatula::DefeatRobotsOnGuppyMound => (7, 2),
            Spatula::BeatMrsPuffsTime => (7, 3),
            Spatula::DefeatRobotsOnFlounderHill => (7, 4),
            Spatula::BeatBubbleBuddysTime => (7, 5),
            Spatula::DefeatRobotsOnSandMountain => (7, 6),
            Spatula::BeatLarrysTime => (7, 7),
            Spatula::RoboPatrickAhoy => (8, 0),
            Spatula::ThroughTheWoods => (9, 0),
            Spatula::FindAllTheLostCampers => (9, 1),
            Spatula::TikiRoundup => (9, 2),
            Spatula::DownInTheSwamp => (9, 3),
            Spatula::ThroughTheKelpCaves => (9, 4),
            Spatula::PowerCrystalCrisis => (9, 5),
            Spatula::KelpVineSlide => (9, 6),
            Spatula::BeatMermaidMansTime => (9, 7),
            Spatula::TopOfTheEntranceAreaFDG => (10, 0),
            Spatula::APathThroughTheGoo => (10, 1),
            Spatula::GooTankerAhoy => (10, 2),
            Spatula::TopOfTheStackOfShips => (10, 3),
            Spatula::ShipwreckBungee => (10, 4),
            Spatula::DestroyTheRobotShip => (10, 5),
            Spatula::GetAloftThereMatey => (10, 6),
            Spatula::DefeatTheFlyingDutchman => (10, 7),
            Spatula::AcrossTheDreamscape => (11, 0),
            Spatula::FollowTheBouncingBall => (11, 1),
            Spatula::SlidingTexasStyle => (11, 2),
            Spatula::SwingersAhoy => (11, 3),
            Spatula::MusicIsInTheEarOfTheBeholder => (11, 4),
            Spatula::KrabbyPattyPlatforms => (11, 5),
            Spatula::SuperBounce => (11, 6),
            Spatula::HereYouGo => (11, 7),
            Spatula::KahRahTae => (12, 0),
            Spatula::TheSmallShallRuleOrNot => (12, 1),
        }
    }

    /// The spatula's pause-menu coordinate: world index, then task index
    /// within the world.
    pub fn menu_coordinates(&self) -> (r: (usize, usize))
        ensures
            r == self.spec_menu_coordinates(),
    {
        match *self {
            Spatula::OnTopOfThePineapple => (0, 0),
            Spatula::OnTopOfShadyShoals => (0, 1),
            Spatula::OnTopOfTheChumBucket => (0, 2),
            Spatula::SpongebobsCloset => (0, 3),
            Spatula::AnnoySquidward => (0, 4),
            Spatula::AmbushAtTheTreeDome => (0, 5),
            Spatula::InfestationAtTheKrustyKrab => (0, 6),
            Spatula::AWallJumpInTheBucket => (0, 7),
            Spatula::TopOfTheHill => (1, 0),
            Spatula::CowaBungee => (1, 1),
            Spatula::Spelunking => (1, 2),
            Spatula::PatricksDilemma => (1, 3),
            Spatula::NavigateTheCanyonsAndMesas => (1, 4),
            Spatula::DrainTheLake => (1, 5),
            Spatula::SlideLeap => (1, 6),
            Spatula::DefeatKingJellyfish => (1, 7),
            Spatula::EndOfTheRoad => (2, 0),
            Spatula::LearnSandysMoves => (2, 1),
            Spatula::TikisGoBoom => (2, 2),
            Spatula::AcrossTheRooftops => (2, 3),
            Spatula::SwinginSandy => (2, 4),
            Spatula::AmbushInTheLighthouse => (2, 5),
            Spatula::ExtremeBungee => (2, 6),
            Spatula::ComeBackWithTheCruiseBubble => (2, 7),
            Spatula::KingOfTheCastle => (3, 0),
            Spatula::ConnectTheTowers => (3, 1),
            Spatula::SaveTheChildren => (3, 2),
            Spatula::OverTheMoat => (3, 3),
            Spatula::ThroughTheSeaCaves => (3, 4),
            Spatula::CleanOutTheBumperBoats => (3, 5),
            Spatula::SlipAndSlideUnderThePier => (3, 6),
            Spatula::TowerBungee => (3, 7),
            Spatula::RumbleAtThePoseidome => (4, 0),
            Spatula::GetToTheMuseum => (5, 0),
            Spatula::SlipSlidingAway => (5, 1),
            Spatula::ReturnTheMuseumsArt => (5, 2),
            Spatula::SwingalongSpatula => (5, 3),
            Spatula::PlunderingRobotsInTheMuseum => (5, 4),
            Spatula::AcrossTheTrenchOfDarkness => (5, 5),
            Spatula::LasersAreFunAndGoodForYou => (5, 6),
            Spatula::HowInTarnationDoYouGetThere => (5, 7),
            Spatula::TopOfTheEntranceAreaML => (6, 0),
            Spatula::TopOfTheComputerArea => (6, 1),
            Spatula::ShutDownTheSecuritySystem => (6, 2),
            Spatula::TheFunnelMachines => (6, 3),
            Spatula::TheSpinningTowersOfPower => (6, 4),
            Spatula::TopOfTheSecurityTunnel => (6, 5),
            Spatula::CompleteTheRollingBallRoom => (6, 6),
            Spatula::DefeatPrawn => (6, 7),
            Spatula::FrostyBungee => (7, 0),
            Spatula::TopOfTheLodge => (7, 1),
            Spatula::DefeatRobotsOnGuppyMound => (7, 2),
            Spatula::BeatMrsPuffsTime => (7, 3),
            Spatula::DefeatRobotsOnFlounderHill => (7, 4),
            Spatula::BeatBubbleBuddysTime => (7, 5),
            Spatula::DefeatRobotsOnSandMountain => (7, 6),
            Spatula::BeatLarrysTime => (7, 7),
            Spatula::RoboPatrickAhoy => (8, 0),
            Spatula::ThroughTheWoods => (9, 0),
            Spatula::FindAllTheLostCampers => (9, 1),
            Spatula::TikiRoundup => (9, 2),
            Spatula::DownInTheSwamp => (9, 3),
            Spatula::ThroughTheKelpCaves => (9, 4),
            Spatula::PowerCrystalCrisis => (9, 5),
            Spatula::KelpVineSlide => (9, 6),
            Spatula::BeatMermaidMansTime => (9, 7),
            Spatula::TopOfTheEntranceAreaFDG => (10, 0),
            Spatula::APathThroughTheGoo => (10, 1),
            Spatula::GooTankerAhoy => (10, 2),
            Spatula::TopOfTheStackOfShips => (10, 3),
            Spatula::ShipwreckBungee => (10, 4),
            Spatula::DestroyTheRobotShip => (10, 5),
            Spatula::GetAloftThereMatey => (10, 6),
            Spatula::DefeatTheFlyingDutchman => (10, 7),
            Spatula::AcrossTheDreamscape => (11, 0),
            Spatula::FollowTheBouncingBall => (11, 1),
            Spatula::SlidingTexasStyle => (11, 2),
            Spatula::SwingersAhoy => (11, 3),
            Spatula::MusicIsInTheEarOfTheBeholder => (11, 4),
            Spatula::KrabbyPattyPlatforms => (11, 5),
            Spatula::SuperBounce => (11, 6),
            Spatula::HereYouGo => (11, 7),
            Spatula::KahRahTae => (12, 0),
            Spatula::TheSmallShallRuleOrNot => (12, 1),
        }
    }

    /// Menu coordinates are bounded: at most thirteen worlds of at most
    /// eight tasks.
    pub proof fn lemma_menu_bounds(self)
        ensures
            self.spec_menu_coordinates().0 <= 12,
            self.spec_menu_coordinates().1 <= 7,
    {
    }

    /// Entity-array offsets are bounded.
    pub proof fn lemma_offset_bound(self)
        ensures
            self.spec_offset() matches Some(x) ==> x <= 0x22e,
    {
    }

    /// The spatula at a pause-menu coordinate, if the coordinate names one.
    pub open spec fn spec_from_menu_coordinates(world: usize, idx: usize) -> Option<Spatula> {
        match (world, idx) {
            (0, 0) => Some(Spatula::OnTopOfThePineapple),
            (0, 1) => Some(Spatula::OnTopOfShadyShoals),
            (0, 2) => Some(Spatula::OnTopOfTheChumBucket),
            (0, 3) => Some(Spatula::SpongebobsCloset),
            (0, 4) => Some(Spatula::AnnoySquidward),
            (0, 5) => Some(Spatula::AmbushAtTheTreeDome),
            (0, 6) => Some(Spatula::InfestationAtTheKrustyKrab),
            (0, 7) => Some(Spatula::AWallJumpInTheBucket),
            (1, 0) => Some(Spatula::TopOfTheHill),
            (1, 1) => Some(Spatula::CowaBungee),
            (1, 2) => Some(Spatula::Spelunking),
            (1, 3) => Some(Spatula::PatricksDilemma),
            (1, 4) => Some(Spatula::NavigateTheCanyonsAndMesas),
            (1, 5) => Some(Spatula::DrainTheLake),
            (1, 6) => Some(Spatula::SlideLeap),
            (1, 7) => Some(Spatula::DefeatKingJellyfish),
            (2, 0) => Some(Spatula::EndOfTheRoad),
            (2, 1) => Some(Spatula::LearnSandysMoves),
            (2, 2) => Some(Spatula::TikisGoBoom),
            (2, 3) => Some(Spatula::AcrossTheRooftops),
            (2, 4) => Some(Spatula::SwinginSandy),
            (2, 5) => Some(Spatula::AmbushInTheLighthouse),
            (2, 6) => Some(Spatula::ExtremeBungee),
            (2, 7) => Some(Spatula::ComeBackWithTheCruiseBubble),
            (3, 0) => Some(Spatula::KingOfTheCastle),
            (3, 1) => Some(Spatula::ConnectTheTowers),
            (3, 2) => Some(Spatula::SaveTheChildren),
            (3, 3) => Some(Spatula::OverTheMoat),
            (3, 4) => Some(Spatula::ThroughTheSeaCaves),
            (3, 5) => Some(Spatula::CleanOutTheBumperBoats),
            (3, 6) => Some(Spatula::SlipAndSlideUnderThePier),
            (3, 7) => Some(Spatula::TowerBungee),
            (4, 0) => Some(Spatula::RumbleAtThePoseidome),
            (5, 0) => Some(Spatula::GetToTheMuseum),
            (5, 1) => Some(Spatula::SlipSlidingAway),
            (5, 2) => Some(Spatula::ReturnTheMuseumsArt),
            (5, 3) => Some(Spatula::SwingalongSpatula),
            (5, 4) => Some(Spatula::PlunderingRobotsInTheMuseum),
            (5, 5) => Some(Spatula::AcrossTheTrenchOfDarkness),
            (5, 6) => Some(Spatula::LasersAreFunAndGoodForYou),
            (5, 7) => Some(Spatula::HowInTarnationDoYouGetThere),
            (6, 0) => Some(Spatula::TopOfTheEntranceAreaML),
            (6, 1) => Some(Spatula::TopOfTheComputerArea),
            (6, 2) => Some(Spatula::ShutDownTheSecuritySystem),
            (6, 3) => Some(Spatula::TheFunnelMachines),
            (6, 4) => Some(Spatula::TheSpinningTowersOfPower),
            (6, 5) => Some(Spatula::TopOfTheSecurityTunnel),
            (6, 6) => Some(Spatula::CompleteTheRollingBallRoom),
            (6, 7) => Some(Spatula::DefeatPrawn),
            (7, 0) => Some(Spatula::FrostyBungee),
            (7, 1) => Some(Spatula::TopOfTheLodge),
            (7, 2) => Some(Spatula::DefeatRobotsOnGuppyMound),
            (7, 3) => Some(Spatula::BeatMrsPuffsTime),
            (7, 4) => Some(Spatula::DefeatRobotsOnFlounderHill),
            (7, 5) => Some(Spatula::BeatBubbleBuddysTime),
            (7, 6) => Some(Spatula::DefeatRobotsOnSandMountain),
            (7, 7) => Some(Spatula::BeatLarrysTime),
            (8, 0) => Some(Spatula::RoboPatrickAhoy),
            (9, 0) => Some(Spatula::ThroughTheWoods),
            (9, 1) => Some(Spatula::FindAllTheLostCampers),
            (9, 2) => Some(Spatula::TikiRoundup),
            (9, 3) => Some(Spatula::DownInTheSwamp),
            (9, 4) => Some(Spatula::ThroughTheKelpCaves),
            (9, 5) => Some(Spatula::PowerCrystalCrisis),
            (9, 6) => Some(Spatula::KelpVineSlide),
            (9, 7) => Some(Spatula::BeatMermaidMansTime),
            (10, 0) => Some(Spatula::TopOfTheEntranceAreaFDG),
            (10, 1) => Some(Spatula::APathThroughTheGoo),
            (10, 2) => Some(Spatula::GooTankerAhoy),
            (10, 3) => Some(Spatula::TopOfTheStackOfShips),
            (10, 4) => Some(Spatula::ShipwreckBungee),
            (10, 5) => Some(Spatula::DestroyTheRobotShip),
            (10, 6) => Some(Spatula::GetAloftThereMatey),
            (10, 7) => Some(Spatula::DefeatTheFlyingDutchman),
            (11, 0) => Some(Spatula::AcrossTheDreamscape),
            (11, 1) => Some(Spatula::FollowTheBouncingBall),
            (11, 2) => Some(Spatula::SlidingTexasStyle),
            (11, 3) => Some(Spatula::SwingersAhoy),
            (11, 4) => Some(Spatula::MusicIsInTheEarOfTheBeholder),
            (11, 5) => Some(Spatula::KrabbyPattyPlatforms),
            (11, 6) => Some(Spatula::SuperBounce),
            (11, 7) => Some(Spatula::HereYouGo),
            (12, 0) => Some(Spatula::KahRahTae),
            (12, 1) => Some(Spatula::TheSmallShallRuleOrNot),
            _ => None,
        }
    }

    /// The spatula at a pause-menu coordinate, or `None` when the
    /// coordinate names no spatula.
    pub fn from_menu_coordinates(world: usize, idx: usize) -> (r: Option<Spatula>)
        ensures
            r == Spatula::spec_from_menu_coordinates(world, idx),
    {
        match (world, idx) {
            (0, 0) => Some(Spatula::OnTopOfThePineapple),
            (0, 1) => Some(Spatula::OnTopOfShadyShoals),
            (0, 2) => Some(Spatula::OnTopOfTheChumBucket),
            (0, 3) => Some(Spatula::SpongebobsCloset),
            (0, 4) => Some(Spatula::AnnoySquidward),
            (0, 5) => Some(Spatula::AmbushAtTheTreeDome),
            (0, 6) => Some(Spatula::InfestationAtTheKrustyKrab),
            (0, 7) => Some(Spatula::AWallJumpInTheBucket),
            (1, 0) => Some(Spatula::TopOfTheHill),
            (1, 1) => Some(Spatula::CowaBungee),
            (1, 2) => Some(Spatula::Spelunking),
            (1, 3) => Some(Spatula::PatricksDilemma),
            (1, 4) => Some(Spatula::NavigateTheCanyonsAndMesas),
            (1, 5) => Some(Spatula::DrainTheLake),
            (1, 6) => Some(Spatula::SlideLeap),
            (1, 7) => Some(Spatula::DefeatKingJellyfish),
            (2, 0) => Some(Spatula::EndOfTheRoad),
            (2, 1) => Some(Spatula::LearnSandysMoves),
            (2, 2) => Some(Spatula::TikisGoBoom),
            (2, 3) => Some(Spatula::AcrossTheRooftops),
            (2, 4) => Some(Spatula::SwinginSandy),
            (2, 5) => Some(Spatula::AmbushInTheLighthouse),
            (2, 6) => Some(Spatula::ExtremeBungee),
            (2, 7) => Some(Spatula::ComeBackWithTheCruiseBubble),
            (3, 0) => Some(Spatula::KingOfTheCastle),
            (3, 1) => Some(Spatula::ConnectTheTowers),
            (3, 2) => Some(Spatula::SaveTheChildren),
            (3, 3) => Some(Spatula::OverTheMoat),
            (3, 4) => Some(Spatula::ThroughTheSeaCaves),
            (3, 5) => Some(Spatula::CleanOutTheBumperBoats),
            (3, 6) => Some(Spatula::SlipAndSlideUnderThePier),
            (3, 7) => Some(Spatula::TowerBungee),
            (4, 0) => Some(Spatula::RumbleAtThePoseidome),
            (5, 0) => Some(Spatula::GetToTheMuseum),
            (5, 1) => Some(Spatula::SlipSlidingAway),
            (5, 2) => Some(Spatula::ReturnTheMuseumsArt),
            (5, 3) => Some(Spatula::SwingalongSpatula),
            (5, 4) => Some(Spatula::PlunderingRobotsInTheMuseum),
            (5, 5) => Some(Spatula::AcrossTheTrenchOfDarkness),
            (5, 6) => Some(Spatula::LasersAreFunAndGoodForYou),
            (5, 7) => Some(Spatula::HowInTarnationDoYouGetThere),
            (6, 0) => Some(Spatula::TopOfTheEntranceAreaML),
            (6, 1) => Some(Spatula::TopOfTheComputerArea),
            (6, 2) => Some(Spatula::ShutDownTheSecuritySystem),
            (6, 3) => Some(Spatula::TheFunnelMachines),
            (6, 4) => Some(Spatula::TheSpinningTowersOfPower),
            (6, 5) => Some(Spatula::TopOfTheSecurityTunnel),
            (6, 6) => Some(Spatula::CompleteTheRollingBallRoom),
            (6, 7) => Some(Spatula::DefeatPrawn),
            (7, 0) => Some(Spatula::FrostyBungee),
            (7, 1) => Some(Spatula::TopOfTheLodge),
            (7, 2) => Some(Spatula::DefeatRobotsOnGuppyMound),
            (7, 3) => Some(Spatula::BeatMrsPuffsTime),
            (7, 4) => Some(Spatula::DefeatRobotsOnFlounderHill),
            (7, 5) => Some(Spatula::BeatBubbleBuddysTime),
            (7, 6) => Some(Spatula::DefeatRobotsOnSandMountain),
            (7, 7) => Some(Spatula::BeatLarrysTime),
            (8, 0) => Some(Spatula::RoboPatrickAhoy),
            (9, 0) => Some(Spatula::ThroughTheWoods),
            (9, 1) => Some(Spatula::FindAllTheLostCampers),
            (9, 2) => Some(Spatula::TikiRoundup),
            (9, 3) => Some(Spatula::DownInTheSwamp),
            (9, 4) => Some(Spatula::ThroughTheKelpCaves),
            (9, 5) => Some(Spatula::PowerCrystalCrisis),
            (9, 6) => Some(Spatula::KelpVineSlide),
            (9, 7) => Some(Spatula::BeatMermaidMansTime),
            (10, 0) => Some(Spatula::TopOfTheEntranceAreaFDG),
            (10, 1) => Some(Spatula::APathThroughTheGoo),
            (10, 2) => Some(Spatula::GooTankerAhoy),
            (10, 3) => Some(Spatula::TopOfTheStackOfShips),
            (10, 4) => Some(Spatula::ShipwreckBungee),
            (10, 5) => Some(Spatula::DestroyTheRobotShip),
            (10, 6) => Some(Spatula::GetAloftThereMatey),
            (10, 7) => Some(Spatula::DefeatTheFlyingDutchman),
            (11, 0) => Some(Spatula::AcrossTheDreamscape),
            (11, 1) => Some(Spatula::FollowTheBouncingBall),
            (11, 2) => Some(Spatula::SlidingTexasStyle),
            (11, 3) => Some(Spatula::SwingersAhoy),
            (11, 4) => Some(Spatula::MusicIsInTheEarOfTheBeholder),
            (11, 5) => Some(Spatula::KrabbyPattyPlatforms),
            (11, 6) => Some(Spatula::SuperBounce),
            (11, 7) => Some(Spatula::HereYouGo),
            (12, 0) => Some(Spatula::KahRahTae),
            (12, 1) => Some(Spatula::TheSmallShallRuleOrNot),
            _ => None,
        }
    }
}

} // verus!
