use bfbb::game_interface::game_var::{GameVar, GameVarMut};
use bfbb::game_interface::mock::{MockBackend, MockInterface, MockVar};
use bfbb::game_interface::{GameInterface, InterfaceError};
use bfbb::{Level, Spatula};

#[test]
fn mock_var_set_then_get() {
    let mut v = MockVar::new(0u32);
    assert_eq!(v.get(), Ok(0));
    v.set(42).unwrap();
    assert_eq!(v.get(), Ok(42));
}

#[test]
fn start_new_game_sets_game_mode() {
    let mut i = GameInterface::<MockBackend>::default();
    i.start_new_game().unwrap();
    assert_eq!(i.game_mode.value, bfbb::game_state::GameMode::Game);
}

#[test]
fn current_level_follows_scene_id() {
    let mut i = GameInterface::<MockBackend>::default();
    assert_eq!(i.get_current_level(), Ok(Level::SpongebobHouse));
    i.scene_id.value = Level::KrustyKrab.scene_id();
    assert_eq!(i.get_current_level(), Ok(Level::KrustyKrab));
    i.scene_id.value = [0, 0, 0, 0];
    assert_eq!(i.get_current_level(), Err(InterfaceError::InvalidData));
}

#[test]
fn mark_task_complete_then_check() {
    let mut i = GameInterface::<MockBackend>::default();
    let s = Spatula::OnTopOfThePineapple;
    assert_eq!(i.is_task_complete(s), Ok(false));
    i.mark_task_complete(s).unwrap();
    assert_eq!(i.is_task_complete(s), Ok(true));
    assert_eq!(i.tasks.task(s).menu_count.value, 2);
    // Other tasks stay untouched.
    assert_eq!(i.is_task_complete(Spatula::CowaBungee), Ok(false));
}

#[test]
fn unlock_task_does_not_demote_a_complete_task() {
    let mut i = GameInterface::<MockBackend>::default();
    let s = Spatula::TopOfTheHill;
    i.unlock_task(s).unwrap();
    assert_eq!(i.tasks.arr[s.as_index()].menu_count.value, 1);

    i.tasks.arr[s.as_index()].menu_count.value = 2;
    i.unlock_task(s).unwrap();
    assert_eq!(i.tasks.arr[s.as_index()].menu_count.value, 2);
}

#[test]
fn collect_spatula_adjusts_entity_bitfields() {
    let mut i = GameInterface::<MockBackend>::default();
    let s = Spatula::SpongebobsCloset;
    let idx = s.as_index();
    i.tasks.arr[idx].flags = Some(MockVar::new(0xff));
    i.tasks.arr[idx].state = Some(MockVar::new(0x07));

    i.collect_spatula(s, Some(Level::SpongebobHouse)).unwrap();
    assert_eq!(i.tasks.arr[idx].flags.as_ref().unwrap().value, 0xfe);
    // state | 8, then bits 2 and 4 cleared: 0x07 -> 0x0f -> 0x09.
    assert_eq!(i.tasks.arr[idx].state.as_ref().unwrap().value, 0x09);
}

#[test]
fn collect_spatula_elsewhere_changes_nothing() {
    let mut i = GameInterface::<MockBackend>::default();
    let s = Spatula::SpongebobsCloset;
    let idx = s.as_index();
    i.collect_spatula(s, Some(Level::KrustyKrab)).unwrap();
    assert_eq!(i.tasks.arr[idx].flags.as_ref().unwrap().value, 0);
    assert_eq!(i.tasks.arr[idx].state.as_ref().unwrap().value, 0);
    i.collect_spatula(s, None).unwrap();
    assert_eq!(i.tasks.arr[idx].state.as_ref().unwrap().value, 0);
}

#[test]
fn collect_spatula_without_an_entity_changes_nothing() {
    let mut i = GameInterface::<MockBackend>::default();
    let s = Spatula::KahRahTae;
    let idx = s.as_index();
    i.tasks.arr[idx].flags = None;
    i.tasks.arr[idx].state = None;
    assert_eq!(i.collect_spatula(s, Some(Level::ChumBucketLab)), Ok(()));
    assert_eq!(i.is_spatula_being_collected(s, Some(Level::ChumBucketLab)), Ok(false));
}

#[test]
fn spatula_collection_animation_reads_state_bit() {
    let mut i = GameInterface::<MockBackend>::default();
    let s = Spatula::TowerBungee;
    let lvl = Some(Level::GooLagoonPier);
    assert_eq!(i.is_spatula_being_collected(s, lvl), Ok(false));
    i.tasks.arr[s.as_index()].state = Some(MockVar::new(4));
    assert_eq!(i.is_spatula_being_collected(s, lvl), Ok(true));
    assert_eq!(i.is_spatula_being_collected(s, Some(Level::KrustyKrab)), Ok(false));
}

#[test]
fn lab_door_cost_is_one_less_than_requested() {
    let mut i = GameInterface::<MockBackend>::default();
    assert_eq!(i.lab_door_cost.value, 74);
    i.set_lab_door(10, Some(Level::KrustyKrab)).unwrap();
    assert_eq!(i.lab_door_cost.value, 74);
    i.set_lab_door(10, Some(Level::ChumBucket)).unwrap();
    assert_eq!(i.lab_door_cost.value, 9);
}

#[test]
fn powers_unlock_and_new_game_flags() {
    let mut i = GameInterface::<MockBackend>::default();
    i.powers.unlock_powers().unwrap();
    assert!(i.powers.bubble_bowl.value);
    assert!(i.powers.cruise_bubble.value);
    assert!(!i.powers.initial_bubble_bowl.value);

    i.powers.start_with_powers(true).unwrap();
    assert!(i.powers.initial_bubble_bowl.value);
    assert!(i.powers.initial_cruise_bubble.value);
}

#[test]
fn mock_interface_runs_caller_logic() {
    let mut provider = MockInterface::default();
    assert!(provider.is_available());
    let count = provider.do_with_interface(|i| i.spatula_count.get()).unwrap();
    assert_eq!(count, 0);
    provider.do_with_interface(|i| i.spatula_count.set(17)).unwrap();
    assert_eq!(provider.interface.spatula_count.value, 17);
}
