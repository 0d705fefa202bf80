//! Identification of the scene (level) the player is in, by scene identifier.

use crate::codec::{
    lemma_u32_be_bytes_round_trip, spec_u32_from_be_bytes, spec_u32_to_be_bytes, u32_from_be_bytes4,
    u32_to_be_bytes4,
};
use vstd::prelude::*;

verus! {

/// Convenient definition for every level in the game.
///
/// The game identifies scenes by a four-character code packed into a 32-bit
/// word (for instance `"HB01"`); conversion to and from that form goes
/// through a `[u8; 4]` scene identifier, first character first.
#[derive(Clone, Copy, Debug, PartialEq, Eq, Structural)]
pub enum Level {
    MainMenu,
    IntroCutscene,
    BikiniBottom,
    SpongebobHouse,
    SquidwardHouse,
    PatrickHouse,
    ShadyShoals,
    PoliceStation,
    Treedome,
    KrustyKrab,
    ChumBucket,
    Theater,
    Poseidome,
    IndustrialPark,
    JellyfishRock,
    JellyfishCaves,
    JellyfishLake,
    JellyfishMountain,
    DowntownStreets,
    DowntownRooftops,
    DowntownLighthouse,
    DowntownSeaNeedle,
    GooLagoonBeach,
    GooLagoonCaves,
    GooLagoonPier,
    MermalairEntranceArea,
    MermalairMainChamber,
    MermalairSecurityTunnel,
    MermalairBallroom,
    MermalairVillianContainment,
    RockBottomDowntown,
    RockBottomMuseum,
    RockBottomTrench,
    SandMountainHub,
    SandMountainSlide1,
    SandMountainSlide2,
    SandMountainSlide3,
    KelpForest,
    KelpSwamps,
    KelpCaves,
    KelpVines,
    GraveyardLake,
    GraveyardShipwreck,
    GraveyardShip,
    GraveyardBoss,
    SpongebobsDream,
    SandysDream,
    SquidwardsDream,
    KrabsDream,
    PatricksDream,
    ChumBucketLab,
    ChumBucketBrain,
    SpongeballArena,
}

impl Level {
    /// The scene identifier packed as a 32-bit code, first character of the
    /// identifier in the most significant byte.
    pub open spec fn spec_scene_code(self) -> u32 {
        match self {
            Level::MainMenu => 0x4d4e5533,
            Level::IntroCutscene => 0x48423030,
            Level::BikiniBottom => 0x48423031,
            Level::SpongebobHouse => 0x48423032,
            Level::SquidwardHouse => 0x48423033,
            Level::PatrickHouse => 0x48423034,
            Level::ShadyShoals => 0x48423036,
            Level::PoliceStation => 0x48423039,
            Level::Treedome => 0x48423035,
            Level::KrustyKrab => 0x48423037,
            Level::ChumBucket => 0x48423038,
            Level::Theater => 0x48423130,
            Level::Poseidome => 0x42313031,
            Level::IndustrialPark => 0x42323031,
            Level::JellyfishRock => 0x4a463031,
            Level::JellyfishCaves => 0x4a463032,
            Level::JellyfishLake => 0x4a463033,
            Level::JellyfishMountain => 0x4a463034,
            Level::DowntownStreets => 0x42423031,
            Level::DowntownRooftops => 0x42423032,
            Level::DowntownLighthouse => 0x42423033,
            Level::DowntownSeaNeedle => 0x42423034,
            Level::GooLagoonBeach => 0x474c3031,
            Level::GooLagoonCaves => 0x474c3032,
            Level::GooLagoonPier => 0x474c3033,
            Level::MermalairEntranceArea => 0x42433031,
            Level::MermalairMainChamber => 0x42433032,
            Level::MermalairSecurityTunnel => 0x42433033,
            Level::MermalairBallroom => 0x42433034,
            Level::MermalairVillianContainment => 0x42433035,
            Level::RockBottomDowntown => 0x52423031,
            Level::RockBottomMuseum => 0x52423032,
            Level::RockBottomTrench => 0x52423033,
            Level::SandMountainHub => 0x534d3031,
            Level::SandMountainSlide1 => 0x534d3032,
            Level::SandMountainSlide2 => 0x534d3033,
            Level::SandMountainSlide3 => 0x534d3034,
            Level::KelpForest => 0x4b463031,
            Level::KelpSwamps => 0x4b463032,
            Level::KelpCaves => 0x4b463034,
            Level::KelpVines => 0x4b463035,
            Level::GraveyardLake => 0x47593031,
            Level::GraveyardShipwreck => 0x47593032,
            Level::GraveyardShip => 0x47593033,
            Level::GraveyardBoss => 0x47593034,
            Level::SpongebobsDream => 0x44423031,
            Level::SandysDream => 0x44423032,
            Level::SquidwardsDream => 0x44423033,
            Level::KrabsDream => 0x44423034,
            Level::PatricksDream => 0x44423036,
            Level::ChumBucketLab => 0x42333032,
            Level::ChumBucketBrain => 0x42333033,
            Level::SpongeballArena => 0x50473132,
        }
    }

    /// The level a packed scene code denotes, if any.
    pub open spec fn spec_from_code(code: u32) -> Option<Level> {
        match code {
            0x4d4e5533u32 => Some(Level::MainMenu),
            0x48423030u32 => Some(Level::IntroCutscene),
            0x48423031u32 => Some(Level::BikiniBottom),
            0x48423032u32 => Some(Level::SpongebobHouse),
            0x48423033u32 => Some(Level::SquidwardHouse),
            0x48423034u32 => Some(Level::PatrickHouse),
            0x48423036u32 => Some(Level::ShadyShoals),
            0x48423039u32 => Some(Level::PoliceStation),
            0x48423035u32 => Some(Level::Treedome),
            0x48423037u32 => Some(Level::KrustyKrab),
            0x48423038u32 => Some(Level::ChumBucket),
            0x48423130u32 => Some(Level::Theater),
            0x42313031u32 => Some(Level::Poseidome),
            0x42323031u32 => Some(Level::IndustrialPark),
            0x4a463031u32 => Some(Level::JellyfishRock),
            0x4a463032u32 => Some(Level::JellyfishCaves),
            0x4a463033u32 => Some(Level::JellyfishLake),
            0x4a463034u32 => Some(Level::JellyfishMountain),
            0x42423031u32 => Some(Level::DowntownStreets),
            0x42423032u32 => Some(Level::DowntownRooftops),
            0x42423033u32 => Some(Level::DowntownLighthouse),
            0x42423034u32 => Some(Level::DowntownSeaNeedle),
            0x474c3031u32 => Some(Level::GooLagoonBeach),
            0x474c3032u32 => Some(Level::GooLagoonCaves),
            0x474c3033u32 => Some(Level::GooLagoonPier),
            0x42433031u32 => Some(Level::MermalairEntranceArea),
            0x42433032u32 => Some(Level::MermalairMainChamber),
            0x42433033u32 => Some(Level::MermalairSecurityTunnel),
            0x42433034u32 => Some(Level::MermalairBallroom),
            0x42433035u32 => Some(Level::MermalairVillianContainment),
            0x52423031u32 => Some(Level::RockBottomDowntown),
            0x52423032u32 => Some(Level::RockBottomMuseum),
            0x52423033u32 => Some(Level::RockBottomTrench),
            0x534d3031u32 => Some(Level::SandMountainHub),
            0x534d3032u32 => Some(Level::SandMountainSlide1),
            0x534d3033u32 => Some(Level::SandMountainSlide2),
            0x534d3034u32 => Some(Level::SandMountainSlide3),
            0x4b463031u32 => Some(Level::KelpForest),
            0x4b463032u32 => Some(Level::KelpSwamps),
            0x4b463034u32 => Some(Level::KelpCaves),
            0x4b463035u32 => Some(Level::KelpVines),
            0x47593031u32 => Some(Level::GraveyardLake),
            0x47593032u32 => Some(Level::GraveyardShipwreck),
            0x47593033u32 => Some(Level::GraveyardShip),
            0x47593034u32 => Some(Level::GraveyardBoss),
            0x44423031u32 => Some(Level::SpongebobsDream),
            0x44423032u32 => Some(Level::SandysDream),
            0x44423033u32 => Some(Level::SquidwardsDream),
            0x44423034u32 => Some(Level::KrabsDream),
            0x44423036u32 => Some(Level::PatricksDream),
            0x42333032u32 => Some(Level::ChumBucketLab),
            0x42333033u32 => Some(Level::ChumBucketBrain),
            0x50473132u32 => Some(Level::SpongeballArena),
            _ => None,
        }
    }

    /// The four scene-identifier bytes as they appear in memory.
    pub open spec fn spec_scene_id(self) -> Seq<u8> {
        spec_u32_to_be_bytes(self.spec_scene_code())
    }

    /// Scene codes are unique: looking up a level's own code finds that
    /// level and no other.
    pub proof fn lemma_code_round_trip(self)
        ensures
            Level::spec_from_code(self.spec_scene_code()) == Some(self),
    {
    }

    /// Scene identifiers round-trip: parsing the four bytes a level
    /// prints yields that level back.
    pub proof fn lemma_scene_id_round_trip(self)
        ensures
            Level::spec_from_code(spec_u32_from_be_bytes(self.spec_scene_id())) == Some(self),
    {
        lemma_u32_be_bytes_round_trip(self.spec_scene_code(), self.spec_scene_id());
        self.lemma_code_round_trip();
    }

    /// The scene identifier packed as a 32-bit code.
    pub fn scene_code(&self) -> (r: u32)
        ensures
            r == self.spec_scene_code(),
    {
        match *self {
            Level::MainMenu => 0x4d4e5533,
            Level::IntroCutscene => 0x48423030,
            Level::BikiniBottom => 0x48423031,
            Level::SpongebobHouse => 0x48423032,
            Level::SquidwardHouse => 0x48423033,
            Level::PatrickHouse => 0x48423034,
            Level::ShadyShoals => 0x48423036,
            Level::PoliceStation => 0x48423039,
            Level::Treedome => 0x48423035,
            Level::KrustyKrab => 0x48423037,
            Level::ChumBucket => 0x48423038,
            Level::Theater => 0x48423130,
            Level::Poseidome => 0x42313031,
            Level::IndustrialPark => 0x42323031,
            Level::JellyfishRock => 0x4a463031,
            Level::JellyfishCaves => 0x4a463032,
            Level::JellyfishLake => 0x4a463033,
            Level::JellyfishMountain => 0x4a463034,
            Level::DowntownStreets => 0x42423031,
            Level::DowntownRooftops => 0x42423032,
            Level::DowntownLighthouse => 0x42423033,
            Level::DowntownSeaNeedle => 0x42423034,
            Level::GooLagoonBeach => 0x474c3031,
            Level::GooLagoonCaves => 0x474c3032,
            Level::GooLagoonPier => 0x474c3033,
            Level::MermalairEntranceArea => 0x42433031,
            Level::MermalairMainChamber => 0x42433032,
            Level::MermalairSecurityTunnel => 0x42433033,
            Level::MermalairBallroom => 0x42433034,
            Level::MermalairVillianContainment => 0x42433035,
            Level::RockBottomDowntown => 0x52423031,
            Level::RockBottomMuseum => 0x52423032,
            Level::RockBottomTrench => 0x52423033,
            Level::SandMountainHub => 0x534d3031,
            Level::SandMountainSlide1 => 0x534d3032,
            Level::SandMountainSlide2 => 0x534d3033,
            Level::SandMountainSlide3 => 0x534d3034,
            Level::KelpForest => 0x4b463031,
            Level::KelpSwamps => 0x4b463032,
            Level::KelpCaves => 0x4b463034,
            Level::KelpVines => 0x4b463035,
            Level::GraveyardLake => 0x47593031,
            Level::GraveyardShipwreck => 0x47593032,
            Level::GraveyardShip => 0x47593033,
            Level::GraveyardBoss => 0x47593034,
            Level::SpongebobsDream => 0x44423031,
            Level::SandysDream => 0x44423032,
            Level::SquidwardsDream => 0x44423033,
            Level::KrabsDream => 0x44423034,
            Level::PatricksDream => 0x44423036,
            Level::ChumBucketLab => 0x42333032,
            Level::ChumBucketBrain => 0x42333033,
            Level::SpongeballArena => 0x50473132,
        }
    }

    /// The four scene-identifier bytes this level is stored as.
    pub fn scene_id(&self) -> (r: [u8; 4])
        ensures
            r@ == self.spec_scene_id(),
    {
        u32_to_be_bytes4(self.scene_code())
    }

    /// The level a four-byte scene identifier denotes, or `None` when the
    /// bytes correspond to no level.
    pub fn from_scene_id(scene_id: [u8; 4]) -> (r: Option<Level>)
        ensures
            r == Level::spec_from_code(spec_u32_from_be_bytes(scene_id@)),
    {
        let code = u32_from_be_bytes4(&scene_id);
        match code {
            0x4d4e5533u32 => Some(Level::MainMenu),
            0x48423030u32 => Some(Level::IntroCutscene),
            0x48423031u32 => Some(Level::BikiniBottom),
            0x48423032u32 => Some(Level::SpongebobHouse),
            0x48423033u32 => Some(Level::SquidwardHouse),
            0x48423034u32 => Some(Level::PatrickHouse),
            0x48423036u32 => Some(Level::ShadyShoals),
            0x48423039u32 => Some(Level::PoliceStation),
            0x48423035u32 => Some(Level::Treedome),
            0x48423037u32 => Some(Level::KrustyKrab),
            0x48423038u32 => Some(Level::ChumBucket),
            0x48423130u32 => Some(Level::Theater),
            0x42313031u32 => Some(Level::Poseidome),
            0x42323031u32 => Some(Level::IndustrialPark),
            0x4a463031u32 => Some(Level::JellyfishRock),
            0x4a463032u32 => Some(Level::JellyfishCaves),
            0x4a463033u32 => Some(Level::JellyfishLake),
            0x4a463034u32 => Some(Level::JellyfishMountain),
            0x42423031u32 => Some(Level::DowntownStreets),
            0x42423032u32 => Some(Level::DowntownRooftops),
            0x42423033u32 => Some(Level::DowntownLighthouse),
            0x42423034u32 => Some(Level::DowntownSeaNeedle),
            0x474c3031u32 => Some(Level::GooLagoonBeach),
            0x474c3032u32 => Some(Level::GooLagoonCaves),
            0x474c3033u32 => Some(Level::GooLagoonPier),
            0x42433031u32 => Some(Level::MermalairEntranceArea),
            0x42433032u32 => Some(Level::MermalairMainChamber),
            0x42433033u32 => Some(Level::MermalairSecurityTunnel),
            0x42433034u32 => Some(Level::MermalairBallroom),
            0x42433035u32 => Some(Level::MermalairVillianContainment),
            0x52423031u32 => Some(Level::RockBottomDowntown),
            0x52423032u32 => Some(Level::RockBottomMuseum),
            0x52423033u32 => Some(Level::RockBottomTrench),
            0x534d3031u32 => Some(Level::SandMountainHub),
            0x534d3032u32 => Some(Level::SandMountainSlide1),
            0x534d3033u32 => Some(Level::SandMountainSlide2),
            0x534d3034u32 => Some(Level::SandMountainSlide3),
            0x4b463031u32 => Some(Level::KelpForest),
            0x4b463032u32 => Some(Level::KelpSwamps),
            0x4b463034u32 => Some(Level::KelpCaves),
            0x4b463035u32 => Some(Level::KelpVines),
            0x47593031u32 => Some(Level::GraveyardLake),
            0x47593032u32 => Some(Level::GraveyardShipwreck),
            0x47593033u32 => Some(Level::GraveyardShip),
            0x47593034u32 => Some(Level::GraveyardBoss),
            0x44423031u32 => Some(Level::SpongebobsDream),
            0x44423032u32 => Some(Level::SandysDream),
            0x44423033u32 => Some(Level::SquidwardsDream),
            0x44423034u32 => Some(Level::KrabsDream),
            0x44423036u32 => Some(Level::PatricksDream),
            0x42333032u32 => Some(Level::ChumBucketLab),
            0x42333033u32 => Some(Level::ChumBucketBrain),
            0x50473132u32 => Some(Level::SpongeballArena),
            _ => None,
        }
    }

    /// The level's in-game display name.
    pub fn name(&self) -> &'static str {
        match *self {
            Level::MainMenu => "Main Menu",
            Level::IntroCutscene => "Intro Cutscene",
            Level::BikiniBottom => "Bikini Bottom",
            Level::SpongebobHouse => "Spongebob's House",
            Level::SquidwardHouse => "Squidward's House",
            Level::PatrickHouse => "Patrick's House",
            Level::ShadyShoals => "Shady Shoals",
            Level::PoliceStation => "Police Station",
            Level::Treedome => "Treedome",
            Level::KrustyKrab => "Krusty Krab",
            Level::ChumBucket => "Chum Bucket",
            Level::Theater => "Theater",
            Level::Poseidome => "Poseidome",
            Level::IndustrialPark => "Industrial Park",
            Level::JellyfishRock => "Jellyfish Rock",
            Level::JellyfishCaves => "Jellyfish Caves",
            Level::JellyfishLake => "Jellyfish Lake",
            Level::JellyfishMountain => "Jellyfish Mountain",
            Level::DowntownStreets => "Downtown Streets",
            Level::DowntownRooftops => "Downtown Rooftops",
            Level::DowntownLighthouse => "Downtown Lighthouse",
            Level::DowntownSeaNeedle => "Downtown Sea Needle",
            Level::GooLagoonBeach => "Goo Lagoon Beach",
            Level::GooLagoonCaves => "Goo Lagoon Caves",
            Level::GooLagoonPier => "Goo Lagoon Pier",
            Level::MermalairEntranceArea => "Mermalair Entrance Area",
            Level::MermalairMainChamber => "Mermalair Main Chamber",
            Level::MermalairSecurityTunnel => "Mermalair Security Tunnel",
            Level::MermalairBallroom => "Mermalair Ballroom",
            Level::MermalairVillianContainment => "Mermalair Villian Containment",
            Level::RockBottomDowntown => "Rock Bottom Downtown",
            Level::RockBottomMuseum => "Rock Bottom Museum",
            Level::RockBottomTrench => "Rock Bottom Trench",
            Level::SandMountainHub => "Ski Lodge",
            Level::SandMountainSlide1 => "Guppy Mound",
            Level::SandMountainSlide2 => "Flounder Hill",
            Level::SandMountainSlide3 => "Sand Mountain",
            Level::KelpForest => "Kelp Forest",
            Level::KelpSwamps => "Kelp Swamps",
            Level::KelpCaves => "Kelp Caves",
            Level::KelpVines => "Kelp Vines",
            Level::GraveyardLake => "Graveyard Lake",
            Level::GraveyardShipwreck => "Graveyard of Ships",
            Level::GraveyardShip => "Dutchman's Ship",
            Level::GraveyardBoss => "Flying Dutchman Battle",
            Level::SpongebobsDream => "Spongebob's Dream",
            Level::SandysDream => "Sandy's Dream",
            Level::SquidwardsDream => "Squidward's Dream",
            Level::KrabsDream => "Krab's Dream",
            Level::PatricksDream => "Patrick's Dream",
            Level::ChumBucketLab => "Chum Bucket Lab",
            Level::ChumBucketBrain => "Chum Bucket Brain",
            Level::SpongeballArena => "Spongeball Arena",
        }
    }
}

} // verus!
