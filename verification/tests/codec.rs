use bfbb::codec::GameValue;
use bfbb::endian::{swap_bytes, EndianAware};
use bfbb::game_state::{GameMode, GameOstrich, GameState};

#[test]
fn u32_encodes_host_order() {
    let v: u32 = 0x1122_3344;
    let host = v.encode();
    assert_eq!(host, vec![0x44, 0x33, 0x22, 0x11]);
    assert_eq!(<u32 as GameValue>::decode(&host), Some(v));
}

#[test]
fn u32_round_trips() {
    for v in [0u32, 1, 5, 10, 0x8000_0000, u32::MAX] {
        let host = v.encode();
        assert_eq!(host.len(), <u32 as GameValue>::width());
        assert_eq!(<u32 as GameValue>::decode(&host), Some(v));
    }
}

#[test]
fn u32_counter_emulated_image() {
    // A 4-byte unsigned counter holding 5 sits in emulated memory as
    // 00 00 00 05; writing 10 produces 00 00 00 0A.
    assert!(<u32 as EndianAware>::needs_swap());
    let image5 = swap_bytes(&5u32.encode());
    assert_eq!(image5, vec![0, 0, 0, 5]);
    let image10 = swap_bytes(&10u32.encode());
    assert_eq!(image10, vec![0, 0, 0, 0x0A]);
    let host = swap_bytes(&image5);
    assert_eq!(<u32 as GameValue>::decode(&host), Some(5));
}

#[test]
fn i16_round_trips() {
    for v in [0i16, 1, 2, -1, i16::MIN, i16::MAX] {
        let host = v.encode();
        assert_eq!(host.len(), 2);
        assert_eq!(<i16 as GameValue>::decode(&host), Some(v));
    }
    assert!(<i16 as EndianAware>::needs_swap());
    // 2 in emulated (big-endian) order.
    assert_eq!(swap_bytes(&2i16.encode()), vec![0, 2]);
}

#[test]
fn bool_decode_checks_bit_pattern() {
    assert_eq!(<bool as GameValue>::decode(&[0]), Some(false));
    assert_eq!(<bool as GameValue>::decode(&[1]), Some(true));
    assert_eq!(<bool as GameValue>::decode(&[2]), None);
    assert!(!<bool as EndianAware>::needs_swap());
}

#[test]
fn byte_and_array_round_trips() {
    for v in [0u8, 1, 0x7f, 0xff] {
        assert_eq!(<u8 as GameValue>::decode(&v.encode()), Some(v));
    }
    let id: [u8; 4] = [0x48, 0x42, 0x30, 0x31];
    let host = id.encode();
    assert_eq!(host, vec![0x48, 0x42, 0x30, 0x31]);
    assert_eq!(<[u8; 4] as GameValue>::decode(&host), Some(id));
    assert!(!<[u8; 4] as EndianAware>::needs_swap());
}

#[test]
fn ostrich_decoder_accepts_exactly_its_discriminants() {
    assert_eq!(<GameOstrich as GameValue>::decode(&[0]), Some(GameOstrich::Loading));
    assert_eq!(<GameOstrich as GameValue>::decode(&[1]), Some(GameOstrich::PlayingMovie));
    assert_eq!(<GameOstrich as GameValue>::decode(&[2]), Some(GameOstrich::InScene));
    assert_eq!(<GameOstrich as GameValue>::decode(&[3]), None);
    assert_eq!(<GameOstrich as GameValue>::decode(&[5]), None);
    assert_eq!(<GameOstrich as GameValue>::decode(&[0xff]), None);
}

#[test]
fn mode_and_state_round_trip() {
    let modes = vec![
        GameMode::Boot,
        GameMode::Intro,
        GameMode::Title,
        GameMode::Start,
        GameMode::Load,
        GameMode::Options,
        GameMode::Save,
        GameMode::Pause,
        GameMode::Stall,
        GameMode::WorldMap,
        GameMode::MonsterGallery,
        GameMode::ConceptArtGallery,
        GameMode::Game,
    ];
    for m in modes {
        let host = m.encode();
        assert_eq!(host.len(), 1);
        assert_eq!(<GameMode as GameValue>::decode(&host), Some(m));
    }
    assert_eq!(<GameMode as GameValue>::decode(&[13]), None);

    let states = vec![
        GameState::FirstTime,
        GameState::Play,
        GameState::LoseChance,
        GameState::GameOver,
        GameState::GameStats,
        GameState::SceneSwitch,
        GameState::Dead,
        GameState::Exit,
    ];
    for s in states {
        assert_eq!(<GameState as GameValue>::decode(&s.encode()), Some(s));
    }
    assert_eq!(<GameState as GameValue>::decode(&[8]), None);
}

#[test]
fn swap_is_an_involution() {
    let v: Vec<u8> = vec![1, 2, 3, 4, 5];
    assert_eq!(swap_bytes(&v), vec![5, 4, 3, 2, 1]);
    assert_eq!(swap_bytes(&swap_bytes(&v)), v);
}
