use bfbb::{Level, Room, Spatula, SPATULA_COUNT};

#[test]
fn scene_id_of_known_level() {
    // "HB01" names the main hub.
    let id: [u8; 4] = [0x48, 0x42, 0x30, 0x31];
    assert_eq!(Level::from_scene_id(id), Some(Level::BikiniBottom));
    assert_eq!(Level::BikiniBottom.scene_id(), id);
}

#[test]
fn unknown_scene_id_is_rejected() {
    assert_eq!(Level::from_scene_id([0, 0, 0, 0]), None);
    assert_eq!(Level::from_scene_id([0x48, 0x42, 0x39, 0x39]), None);
    assert_eq!(Room::from_scene_id([0xff, 0xff, 0xff, 0xff]), None);
}

#[test]
fn some_level_ids_round_trip() {
    let levels = vec![
        Level::MainMenu,
        Level::IntroCutscene,
        Level::SpongebobHouse,
        Level::ChumBucket,
        Level::Poseidome,
        Level::JellyfishRock,
        Level::GooLagoonPier,
        Level::MermalairVillianContainment,
        Level::SandMountainSlide3,
        Level::KelpCaves,
        Level::GraveyardBoss,
        Level::PatricksDream,
        Level::ChumBucketBrain,
        Level::SpongeballArena,
    ];
    for l in levels {
        assert_eq!(Level::from_scene_id(l.scene_id()), Some(l));
    }
}

#[test]
fn room_ids_match_level_ids() {
    assert_eq!(Room::SpongebobHouse.scene_id(), Level::SpongebobHouse.scene_id());
    assert_eq!(Room::from_scene_id([0x4d, 0x4e, 0x55, 0x33]), Some(Room::MainMenu));
    assert_eq!(Room::from_scene_id(Room::Theater.scene_id()), Some(Room::Theater));
}

#[test]
fn level_names() {
    assert_eq!(Level::SpongebobHouse.name(), "Spongebob's House");
    assert_eq!(Room::SandMountainHub.name(), "Ski Lodge");
}

#[test]
fn spatula_tables() {
    let closet = Spatula::SpongebobsCloset;
    assert_eq!(closet.get_offset(), Some(0x5d));
    assert_eq!(closet.get_level(), Level::SpongebobHouse);
    assert_eq!(closet.menu_coordinates(), (0, 3));
    assert_eq!(Spatula::from_menu_coordinates(0, 3), Some(closet));

    // The two spatulas that are granted rather than collected have no
    // entity in any scene.
    assert_eq!(Spatula::KahRahTae.get_offset(), None);
    assert_eq!(Spatula::TheSmallShallRuleOrNot.get_offset(), None);
    assert_eq!(Spatula::KahRahTae.get_level(), Level::ChumBucketLab);
}

#[test]
fn spatula_indices_are_a_bijection() {
    for i in 0..SPATULA_COUNT {
        let s = Spatula::from_index(i);
        assert_eq!(s.as_index(), i);
        let (world, task) = s.menu_coordinates();
        assert_eq!(Spatula::from_menu_coordinates(world, task), Some(s));
    }
}

#[test]
fn menu_coordinates_without_a_spatula() {
    assert_eq!(Spatula::from_menu_coordinates(4, 1), None);
    assert_eq!(Spatula::from_menu_coordinates(12, 2), None);
    assert_eq!(Spatula::from_menu_coordinates(13, 0), None);
}
