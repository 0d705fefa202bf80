//! Identification of a single room of the game, by scene identifier.

use crate::codec::{
    lemma_u32_be_bytes_round_trip, spec_u32_from_be_bytes, spec_u32_to_be_bytes, u32_from_be_bytes4,
    u32_to_be_bytes4,
};
use vstd::prelude::*;

verus! {

/// Convenient definition for every room in the game.
///
/// The game identifies scenes by a four-character code packed into a 32-bit
/// word (for instance `"HB01"`); conversion to and from that form goes
/// through a `[u8; 4]` scene identifier, first character first.
#[derive(Clone, Copy, Debug, PartialEq, Eq, Structural)]
pub enum Room {
    MainMenu,
    IntroCutscene,
    BikiniBottom,
    SpongebobHouse,
    SquidwardHouse,
    PatrickHouse,
    ShadyShoals,
    PoliceStation,
    Treedome,
    KrustyKrab,
    ChumBucket,
    Theater,
    Poseidome,
    IndustrialPark,
    JellyfishRock,
    JellyfishCaves,
    JellyfishLake,
    JellyfishMountain,
    DowntownStreets,
    DowntownRooftops,
    DowntownLighthouse,
    DowntownSeaNeedle,
    GooLagoonBeach,
    GooLagoonCaves,
    GooLagoonPier,
    MermalairEntranceArea,
    MermalairMainChamber,
    MermalairSecurityTunnel,
    MermalairBallroom,
    MermalairVillianContainment,
    RockBottomDowntown,
    RockBottomMuseum,
    RockBottomTrench,
    SandMountainHub,
    SandMountainSlide1,
    SandMountainSlide2,
    SandMountainSlide3,
    KelpForest,
    KelpSwamps,
    KelpCaves,
    KelpVines,
    GraveyardLake,
    GraveyardShipwreck,
    GraveyardShip,
    GraveyardBoss,
    SpongebobsDream,
    SandysDream,
    SquidwardsDream,
    KrabsDream,
    PatricksDream,
    ChumBucketLab,
    ChumBucketBrain,
    SpongeballArena,
}

impl Room {
    /// The scene identifier packed as a 32-bit code, first character of the
    /// identifier in the most significant byte.
    pub open spec fn spec_scene_code(self) -> u32 {
        match self {
            Room::MainMenu => 0x4d4e5533,
            Room::IntroCutscene => 0x48423030,
            Room::BikiniBottom => 0x48423031,
            Room::SpongebobHouse => 0x48423032,
            Room::SquidwardHouse => 0x48423033,
            Room::PatrickHouse => 0x48423034,
            Room::ShadyShoals => 0x48423036,
            Room::PoliceStation => 0x48423039,
            Room::Treedome => 0x48423035,
            Room::KrustyKrab => 0x48423037,
            Room::ChumBucket => 0x48423038,
            Room::Theater => 0x48423130,
            Room::Poseidome => 0x42313031,
            Room::IndustrialPark => 0x42323031,
            Room::JellyfishRock => 0x4a463031,
            Room::JellyfishCaves => 0x4a463032,
            Room::JellyfishLake => 0x4a463033,
            Room::JellyfishMountain => 0x4a463034,
            Room::DowntownStreets => 0x42423031,
            Room::DowntownRooftops => 0x42423032,
            Room::DowntownLighthouse => 0x42423033,
            Room::DowntownSeaNeedle => 0x42423034,
            Room::GooLagoonBeach => 0x474c3031,
            Room::GooLagoonCaves => 0x474c3032,
            Room::GooLagoonPier => 0x474c3033,
            Room::MermalairEntranceArea => 0x42433031,
            Room::MermalairMainChamber => 0x42433032,
            Room::MermalairSecurityTunnel => 0x42433033,
            Room::MermalairBallroom => 0x42433034,
            Room::MermalairVillianContainment => 0x42433035,
            Room::RockBottomDowntown => 0x52423031,
            Room::RockBottomMuseum => 0x52423032,
            Room::RockBottomTrench => 0x52423033,
            Room::SandMountainHub => 0x534d3031,
            Room::SandMountainSlide1 => 0x534d3032,
            Room::SandMountainSlide2 => 0x534d3033,
            Room::SandMountainSlide3 => 0x534d3034,
            Room::KelpForest => 0x4b463031,
            Room::KelpSwamps => 0x4b463032,
            Room::KelpCaves => 0x4b463034,
            Room::KelpVines => 0x4b463035,
            Room::GraveyardLake => 0x47593031,
            Room::GraveyardShipwreck => 0x47593032,
            Room::GraveyardShip => 0x47593033,
            Room::GraveyardBoss => 0x47593034,
            Room::SpongebobsDream => 0x44423031,
            Room::SandysDream => 0x44423032,
            Room::SquidwardsDream => 0x44423033,
            Room::KrabsDream => 0x44423034,
            Room::PatricksDream => 0x44423036,
            Room::ChumBucketLab => 0x42333032,
            Room::ChumBucketBrain => 0x42333033,
            Room::SpongeballArena => 0x50473132,
        }
    }

    /// The room a packed scene code denotes, if any.
    pub open spec fn spec_from_code(code: u32) -> Option<Room> {
        match code {
            0x4d4e5533u32 => Some(Room::MainMenu),
            0x48423030u32 => Some(Room::IntroCutscene),
            0x48423031u32 => Some(Room::BikiniBottom),
            0x48423032u32 => Some(Room::SpongebobHouse),
            0x48423033u32 => Some(Room::SquidwardHouse),
            0x48423034u32 => Some(Room::PatrickHouse),
            0x48423036u32 => Some(Room::ShadyShoals),
            0x48423039u32 => Some(Room::PoliceStation),
            0x48423035u32 => Some(Room::Treedome),
            0x48423037u32 => Some(Room::KrustyKrab),
            0x48423038u32 => Some(Room::ChumBucket),
            0x48423130u32 => Some(Room::Theater),
            0x42313031u32 => Some(Room::Poseidome),
            0x42323031u32 => Some(Room::IndustrialPark),
            0x4a463031u32 => Some(Room::JellyfishRock),
            0x4a463032u32 => Some(Room::JellyfishCaves),
            0x4a463033u32 => Some(Room::JellyfishLake),
            0x4a463034u32 => Some(Room::JellyfishMountain),
            0x42423031u32 => Some(Room::DowntownStreets),
            0x42423032u32 => Some(Room::DowntownRooftops),
            0x42423033u32 => Some(Room::DowntownLighthouse),
            0x42423034u32 => Some(Room::DowntownSeaNeedle),
            0x474c3031u32 => Some(Room::GooLagoonBeach),
            0x474c3032u32 => Some(Room::GooLagoonCaves),
            0x474c3033u32 => Some(Room::GooLagoonPier),
            0x42433031u32 => Some(Room::MermalairEntranceArea),
            0x42433032u32 => Some(Room::MermalairMainChamber),
            0x42433033u32 => Some(Room::MermalairSecurityTunnel),
            0x42433034u32 => Some(Room::MermalairBallroom),
            0x42433035u32 => Some(Room::MermalairVillianContainment),
            0x52423031u32 => Some(Room::RockBottomDowntown),
            0x52423032u32 => Some(Room::RockBottomMuseum),
            0x52423033u32 => Some(Room::RockBottomTrench),
            0x534d3031u32 => Some(Room::SandMountainHub),
            0x534d3032u32 => Some(Room::SandMountainSlide1),
            0x534d3033u32 => Some(Room::SandMountainSlide2),
            0x534d3034u32 => Some(Room::SandMountainSlide3),
            0x4b463031u32 => Some(Room::KelpForest),
            0x4b463032u32 => Some(Room::KelpSwamps),
            0x4b463034u32 => Some(Room::KelpCaves),
            0x4b463035u32 => Some(Room::KelpVines),
            0x47593031u32 => Some(Room::GraveyardLake),
            0x47593032u32 => Some(Room::GraveyardShipwreck),
            0x47593033u32 => Some(Room::GraveyardShip),
            0x47593034u32 => Some(Room::GraveyardBoss),
            0x44423031u32 => Some(Room::SpongebobsDream),
            0x44423032u32 => Some(Room::SandysDream),
            0x44423033u32 => Some(Room::SquidwardsDream),
            0x44423034u32 => Some(Room::KrabsDream),
            0x44423036u32 => Some(Room::PatricksDream),
            0x42333032u32 => Some(Room::ChumBucketLab),
            0x42333033u32 => Some(Room::ChumBucketBrain),
            0x50473132u32 => Some(Room::SpongeballArena),
            _ => None,
        }
    }

    /// The four scene-identifier bytes as they appear in memory.
    pub open spec fn spec_scene_id(self) -> Seq<u8> {
        spec_u32_to_be_bytes(self.spec_scene_code())
    }

    /// Scene codes are unique: looking up a room's own code finds that
    /// room and no other.
    pub proof fn lemma_code_round_trip(self)
        ensures
            Room::spec_from_code(self.spec_scene_code()) == Some(self),
    {
    }

    /// Scene identifiers round-trip: parsing the four bytes a room
    /// prints yields that room back.
    pub proof fn lemma_scene_id_round_trip(self)
        ensures
            Room::spec_from_code(spec_u32_from_be_bytes(self.spec_scene_id())) == Some(self),
    {
        lemma_u32_be_bytes_round_trip(self.spec_scene_code(), self.spec_scene_id());
        self.lemma_code_round_trip();
    }

    /// The scene identifier packed as a 32-bit code.
    pub fn scene_code(&self) -> (r: u32)
        ensures
            r == self.spec_scene_code(),
    {
        match *self {
            Room::MainMenu => 0x4d4e5533,
            Room::IntroCutscene => 0x48423030,
            Room::BikiniBottom => 0x48423031,
            Room::SpongebobHouse => 0x48423032,
            Room::SquidwardHouse => 0x48423033,
            Room::PatrickHouse => 0x48423034,
            Room::ShadyShoals => 0x48423036,
            Room::PoliceStation => 0x48423039,
            Room::Treedome => 0x48423035,
            Room::KrustyKrab => 0x48423037,
            Room::ChumBucket => 0x48423038,
            Room::Theater => 0x48423130,
            Room::Poseidome => 0x42313031,
            Room::IndustrialPark => 0x42323031,
            Room::JellyfishRock => 0x4a463031,
            Room::JellyfishCaves => 0x4a463032,
            Room::JellyfishLake => 0x4a463033,
            Room::JellyfishMountain => 0x4a463034,
            Room::DowntownStreets => 0x42423031,
            Room::DowntownRooftops => 0x42423032,
            Room::DowntownLighthouse => 0x42423033,
            Room::DowntownSeaNeedle => 0x42423034,
            Room::GooLagoonBeach => 0x474c3031,
            Room::GooLagoonCaves => 0x474c3032,
            Room::GooLagoonPier => 0x474c3033,
            Room::MermalairEntranceArea => 0x42433031,
            Room::MermalairMainChamber => 0x42433032,
            Room::MermalairSecurityTunnel => 0x42433033,
            Room::MermalairBallroom => 0x42433034,
            Room::MermalairVillianContainment => 0x42433035,
            Room::RockBottomDowntown => 0x52423031,
            Room::RockBottomMuseum => 0x52423032,
            Room::RockBottomTrench => 0x52423033,
            Room::SandMountainHub => 0x534d3031,
            Room::SandMountainSlide1 => 0x534d3032,
            Room::SandMountainSlide2 => 0x534d3033,
            Room::SandMountainSlide3 => 0x534d3034,
            Room::KelpForest => 0x4b463031,
            Room::KelpSwamps => 0x4b463032,
            Room::KelpCaves => 0x4b463034,
            Room::KelpVines => 0x4b463035,
            Room::GraveyardLake => 0x47593031,
            Room::GraveyardShipwreck => 0x47593032,
            Room::GraveyardShip => 0x47593033,
            Room::GraveyardBoss => 0x47593034,
            Room::SpongebobsDream => 0x44423031,
            Room::SandysDream => 0x44423032,
            Room::SquidwardsDream => 0x44423033,
            Room::KrabsDream => 0x44423034,
            Room::PatricksDream => 0x44423036,
            Room::ChumBucketLab => 0x42333032,
            Room::ChumBucketBrain => 0x42333033,
            Room::SpongeballArena => 0x50473132,
        }
    }

    /// The four scene-identifier bytes this room is stored as.
    pub fn scene_id(&self) -> (r: [u8; 4])
        ensures
            r@ == self.spec_scene_id(),
    {
        u32_to_be_bytes4(self.scene_code())
    }

    /// The room a four-byte scene identifier denotes, or `None` when the
    /// bytes correspond to no room.
    pub fn from_scene_id(scene_id: [u8; 4]) -> (r: Option<Room>)
        ensures
            r == Room::spec_from_code(spec_u32_from_be_bytes(scene_id@)),
    {
        let code = u32_from_be_bytes4(&scene_id);
        match code {
            0x4d4e5533u32 => Some(Room::MainMenu),
            0x48423030u32 => Some(Room::IntroCutscene),
            0x48423031u32 => Some(Room::BikiniBottom),
            0x48423032u32 => Some(Room::SpongebobHouse),
            0x48423033u32 => Some(Room::SquidwardHouse),
            0x48423034u32 => Some(Room::PatrickHouse),
            0x48423036u32 => Some(Room::ShadyShoals),
            0x48423039u32 => Some(Room::PoliceStation),
            0x48423035u32 => Some(Room::Treedome),
            0x48423037u32 => Some(Room::KrustyKrab),
            0x48423038u32 => Some(Room::ChumBucket),
            0x48423130u32 => Some(Room::Theater),
            0x42313031u32 => Some(Room::Poseidome),
            0x42323031u32 => Some(Room::IndustrialPark),
            0x4a463031u32 => Some(Room::JellyfishRock),
            0x4a463032u32 => Some(Room::JellyfishCaves),
            0x4a463033u32 => Some(Room::JellyfishLake),
            0x4a463034u32 => Some(Room::JellyfishMountain),
            0x42423031u32 => Some(Room::DowntownStreets),
            0x42423032u32 => Some(Room::DowntownRooftops),
            0x42423033u32 => Some(Room::DowntownLighthouse),
            0x42423034u32 => Some(Room::DowntownSeaNeedle),
            0x474c3031u32 => Some(Room::GooLagoonBeach),
            0x474c3032u32 => Some(Room::GooLagoonCaves),
            0x474c3033u32 => Some(Room::GooLagoonPier),
            0x42433031u32 => Some(Room::MermalairEntranceArea),
            0x42433032u32 => Some(Room::MermalairMainChamber),
            0x42433033u32 => Some(Room::MermalairSecurityTunnel),
            0x42433034u32 => Some(Room::MermalairBallroom),
            0x42433035u32 => Some(Room::MermalairVillianContainment),
            0x52423031u32 => Some(Room::RockBottomDowntown),
            0x52423032u32 => Some(Room::RockBottomMuseum),
            0x52423033u32 => Some(Room::RockBottomTrench),
            0x534d3031u32 => Some(Room::SandMountainHub),
            0x534d3032u32 => Some(Room::SandMountainSlide1),
            0x534d3033u32 => Some(Room::SandMountainSlide2),
            0x534d3034u32 => Some(Room::SandMountainSlide3),
            0x4b463031u32 => Some(Room::KelpForest),
            0x4b463032u32 => Some(Room::KelpSwamps),
            0x4b463034u32 => Some(Room::KelpCaves),
            0x4b463035u32 => Some(Room::KelpVines),
            0x47593031u32 => Some(Room::GraveyardLake),
            0x47593032u32 => Some(Room::GraveyardShipwreck),
            0x47593033u32 => Some(Room::GraveyardShip),
            0x47593034u32 => Some(Room::GraveyardBoss),
            0x44423031u32 => Some(Room::SpongebobsDream),
            0x44423032u32 => Some(Room::SandysDream),
            0x44423033u32 => Some(Room::SquidwardsDream),
            0x44423034u32 => Some(Room::KrabsDream),
            0x44423036u32 => Some(Room::PatricksDream),
            0x42333032u32 => Some(Room::ChumBucketLab),
            0x42333033u32 => Some(Room::ChumBucketBrain),
            0x50473132u32 => Some(Room::SpongeballArena),
            _ => None,
        }
    }

    /// The room's in-game display name.
    pub fn name(&self) -> &'static str {
        match *self {
            Room::MainMenu => "Main Menu",
            Room::IntroCutscene => "Intro Cutscene",
            Room::BikiniBottom => "Bikini Bottom",
            Room::SpongebobHouse => "Spongebob's House",
            Room::SquidwardHouse => "Squidward's House",
            Room::PatrickHouse => "Patrick's House",
            Room::ShadyShoals => "Shady Shoals",
            Room::PoliceStation => "Police Station",
            Room::Treedome => "Treedome",
            Room::KrustyKrab => "Krusty Krab",
            Room::ChumBucket => "Chum Bucket",
            Room::Theater => "Theater",
            Room::Poseidome => "Poseidome",
            Room::IndustrialPark => "Industrial Park",
            Room::JellyfishRock => "Jellyfish Rock",
            Room::JellyfishCaves => "Jellyfish Caves",
            Room::JellyfishLake => "Jellyfish Lake",
            Room::JellyfishMountain => "Jellyfish Mountain",
            Room::DowntownStreets => "Downtown Streets",
            Room::DowntownRooftops => "Downtown Rooftops",
            Room::DowntownLighthouse => "Downtown Lighthouse",
            Room::DowntownSeaNeedle => "Downtown Sea Needle",
            Room::GooLagoonBeach => "Goo Lagoon Beach",
            Room::GooLagoonCaves => "Goo Lagoon Caves",
            Room::GooLagoonPier => "Goo Lagoon Pier",
            Room::MermalairEntranceArea => "Mermalair Entrance Area",
            Room::MermalairMainChamber => "Mermalair Main Chamber",
            Room::MermalairSecurityTunnel => "Mermalair Security Tunnel",
            Room::MermalairBallroom => "Mermalair Ballroom",
            Room::MermalairVillianContainment => "Mermalair Villian Containment",
            Room::RockBottomDowntown => "Rock Bottom Downtown",
            Room::RockBottomMuseum => "Rock Bottom Museum",
            Room::RockBottomTrench => "Rock Bottom Trench",
            Room::SandMountainHub => "Ski Lodge",
            Room::SandMountainSlide1 => "Guppy Mound",
            Room::SandMountainSlide2 => "Flounder Hill",
            Room::SandMountainSlide3 => "Sand Mountain",
            Room::KelpForest => "Kelp Forest",
            Room::KelpSwamps => "Kelp Swamps",
            Room::KelpCaves => "Kelp Caves",
            Room::KelpVines => "Kelp Vines",
            Room::GraveyardLake => "Graveyard Lake",
            Room::GraveyardShipwreck => "Graveyard of Ships",
            Room::GraveyardShip => "Dutchman's Ship",
            Room::GraveyardBoss => "Flying Dutchman Battle",
            Room::SpongebobsDream => "Spongebob's Dream",
            Room::SandysDream => "Sandy's Dream",
            Room::SquidwardsDream => "Squidward's Dream",
            Room::KrabsDream => "Krab's Dream",
            Room::PatricksDream => "Patrick's Dream",
            Room::ChumBucketLab => "Chum Bucket Lab",
            Room::ChumBucketBrain => "Chum Bucket Brain",
            Room::SpongeballArena => "Spongeball Arena",
        }
    }
}

} // verus!
