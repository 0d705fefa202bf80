use bfbb::game_interface::dolphin::{select_region, MapEntry, REGION_SIZE};

fn entry(start: usize, size: usize, path: &str) -> MapEntry {
    MapEntry {
        start,
        size,
        path: path.as_bytes().to_vec(),
    }
}

#[test]
fn region_needs_size_and_backing_path() {
    let needle = b"dolphin-emu".to_vec();
    let maps = vec![
        entry(0x1000, 0x1000, "/usr/lib/libc.so"),
        entry(0x2000, REGION_SIZE, "/tmp/other-file"),
        entry(0x3000, 0x4000, "/dev/shm/dolphin-emu.1"),
    ];
    // Right size with the wrong path, right path with the wrong size:
    // neither is the emulated region.
    assert_eq!(select_region(&maps, &needle), None);
}

#[test]
fn last_matching_region_wins() {
    let needle = b"dolphin-emu".to_vec();
    let maps = vec![
        entry(0x1000, REGION_SIZE, "/dev/shm/dolphin-emu.55"),
        entry(0x5000, 0x2000, "/dev/shm/dolphin-emu.55"),
        entry(0x9000, REGION_SIZE, "/dev/shm/dolphin-emu.55"),
        entry(0xd000, REGION_SIZE, "/usr/lib/libm.so"),
    ];
    // Several mappings fit the criteria; the last one is the emulated
    // region.
    assert_eq!(select_region(&maps, &needle), Some(0x9000));
}

#[test]
fn path_match_is_a_substring_match() {
    let needle = b"dolphin-emu".to_vec();
    let maps = vec![entry(0x4000, REGION_SIZE, "/home/player/.local/dolphin-emu-nightly/mem")];
    assert_eq!(select_region(&maps, &needle), Some(0x4000));
    let nothing = vec![entry(0x4000, REGION_SIZE, "/home/player/dolphin")];
    assert_eq!(select_region(&nothing, &needle), None);
}

#[test]
fn empty_map_list_finds_nothing() {
    let needle = b"dolphin-emu".to_vec();
    assert_eq!(select_region(&Vec::new(), &needle), None);
}
