use gameplay_core::gameplay_modes::{
    CheckpointId, Mode, ModeId, ModeUpdate, Modes, ModesUpdate, SpawnBehaviour, Stage,
    StageElement, StageElementBehaviour, StageId, StageUpdate, Zone, ZoneBehaviour,
};
use gameplay_core::gameplay_style::StyleModifiers;
use gameplay_core::model::ModelId;
use gameplay_core::updatable::Updatable;

fn plain_spawn() -> SpawnBehaviour {
    SpawnBehaviour { set_camera_angles: false, set_velocity: None }
}

fn stage_graph() -> Mode {
    let mut mode = Mode::empty(StyleModifiers::default(), ModelId::new(0));
    let mut first = Stage::empty(ModelId::new(1), plain_spawn());
    first.insert(StageUpdate::ordered_checkpoint(CheckpointId::new(0), ModelId::new(2)));
    mode.push_stage(first);
    mode.push_stage(Stage::empty(ModelId::new(3), plain_spawn()));
    mode
}

fn element(stage: u32, behaviour: StageElementBehaviour) -> StageElement {
    StageElement::new(StageId::new(stage), false, behaviour)
}

#[test]
fn stage_graph_is_denormalized() {
    let mut mode = stage_graph();
    assert_eq!(mode.get_zone(ModelId::new(0)), None);
    assert_eq!(mode.get_element(ModelId::new(1)), None);
    mode.denormalize_data();
    assert_eq!(mode.get_zone(ModelId::new(0)), Some(ZoneBehaviour::Start));
    assert_eq!(
        mode.get_element(ModelId::new(1)),
        Some(element(0, StageElementBehaviour::SpawnAt))
    );
    assert_eq!(
        mode.get_element(ModelId::new(2)),
        Some(element(0, StageElementBehaviour::Checkpoint))
    );
    assert_eq!(
        mode.get_element(ModelId::new(3)),
        Some(element(1, StageElementBehaviour::SpawnAt))
    );
    assert_eq!(mode.get_element(ModelId::new(4)), None);
    assert_eq!(mode.get_zone(ModelId::new(1)), None);
}

#[test]
fn denormalizing_twice_equals_once() {
    let mut once = stage_graph();
    once.insert(ModeUpdate::element(
        ModelId::new(9),
        StageElement::new(StageId::new(1), true, StageElementBehaviour::Teleport),
    ));
    once.denormalize_data();
    let mut twice = stage_graph();
    twice.insert(ModeUpdate::element(
        ModelId::new(9),
        StageElement::new(StageId::new(1), true, StageElementBehaviour::Teleport),
    ));
    twice.denormalize_data();
    twice.denormalize_data();
    for number in 0..12u32 {
        let model = ModelId::new(number);
        assert_eq!(once.get_zone(model), twice.get_zone(model));
        assert_eq!(once.get_element(model), twice.get_element(model));
        assert_eq!(once.get_jump_limit(model), twice.get_jump_limit(model));
    }
    assert_eq!(
        twice.get_element(ModelId::new(9)),
        Some(StageElement::new(StageId::new(1), true, StageElementBehaviour::Teleport))
    );
}

#[test]
fn last_stage_that_mentions_a_model_decides() {
    let mut mode = Mode::empty(StyleModifiers::default(), ModelId::new(0));
    let mut first = Stage::empty(ModelId::new(1), plain_spawn());
    first.insert(StageUpdate::unordered_checkpoint(ModelId::new(5)));
    mode.push_stage(first);
    let mut second = Stage::empty(ModelId::new(5), plain_spawn());
    second.insert(StageUpdate::unordered_checkpoint(ModelId::new(6)));
    second.insert(StageUpdate::ordered_checkpoint(CheckpointId::new(0), ModelId::new(7)));
    mode.push_stage(second);
    mode.denormalize_data();
    assert_eq!(
        mode.get_element(ModelId::new(5)),
        Some(element(1, StageElementBehaviour::SpawnAt))
    );
    assert_eq!(
        mode.get_element(ModelId::new(6)),
        Some(element(1, StageElementBehaviour::Checkpoint))
    );
    assert_eq!(
        mode.get_element(ModelId::new(7)),
        Some(element(1, StageElementBehaviour::Checkpoint))
    );
}

#[test]
fn checkpoint_goes_before_spawn_within_a_stage() {
    let mut mode = Mode::empty(StyleModifiers::default(), ModelId::new(0));
    let mut stage = Stage::empty(ModelId::new(1), plain_spawn());
    stage.insert(StageUpdate::ordered_checkpoint(CheckpointId::new(0), ModelId::new(1)));
    mode.push_stage(stage);
    mode.denormalize_data();
    assert_eq!(
        mode.get_element(ModelId::new(1)),
        Some(element(0, StageElementBehaviour::Checkpoint))
    );
}

#[test]
fn denormalizing_keeps_authored_entries() {
    let mut mode = stage_graph();
    mode.insert(ModeUpdate::zone(ModelId::new(8), ZoneBehaviour::Finish));
    mode.insert(ModeUpdate::zone(ModelId::new(0), ZoneBehaviour::Anticheat));
    mode.insert(ModeUpdate::jump_limit(ModelId::new(3), 2));
    mode.denormalize_data();
    assert_eq!(mode.get_zone(ModelId::new(8)), Some(ZoneBehaviour::Finish));
    assert_eq!(mode.get_zone(ModelId::new(0)), Some(ZoneBehaviour::Start));
    assert_eq!(mode.get_jump_limit(ModelId::new(3)), Some(2));
    assert_eq!(mode.get_start(), ModelId::new(0));
    assert_eq!(mode.stage_count(), 2);
}

#[test]
fn spawn_model_of_a_stage() {
    let mode = stage_graph();
    assert_eq!(mode.get_spawn_model_id(StageId::new(0)), Some(ModelId::new(1)));
    assert_eq!(mode.get_spawn_model_id(StageId::new(1)), Some(ModelId::new(3)));
    assert_eq!(mode.get_spawn_model_id(StageId::new(2)), None);
    assert_eq!(mode.get_spawn_model_id(StageId::new(u32::MAX)), None);
    assert!(mode.get_stage(StageId::new(2)).is_none());
    let stage = mode.get_stage(StageId::new(0)).unwrap();
    assert_eq!(stage.spawn(), ModelId::new(1));
    assert_eq!(stage.spawn_behaviour(), plain_spawn());
    assert_eq!(stage.ordered_checkpoint(CheckpointId::new(0)), Some(ModelId::new(2)));
    assert_eq!(stage.ordered_checkpoint(CheckpointId::new(1)), None);
    assert!(!stage.is_unordered_checkpoint(ModelId::new(2)));
}

#[test]
fn stale_stage_diff_is_dropped() {
    let mut mode = stage_graph();
    mode.denormalize_data();
    mode.insert(ModeUpdate::stage(
        StageId::new(99),
        StageUpdate::ordered_checkpoint(CheckpointId::new(0), ModelId::new(50)),
    ));
    assert_eq!(mode.stage_count(), 2);
    assert!(mode.get_stage(StageId::new(99)).is_none());
    for number in 0..2u32 {
        let stage = mode.get_stage(StageId::new(number)).unwrap();
        assert!(!stage.is_unordered_checkpoint(ModelId::new(50)));
        assert_eq!(stage.ordered_checkpoint(CheckpointId::new(1)), None);
    }
    let first = mode.get_stage(StageId::new(0)).unwrap();
    assert_eq!(first.ordered_checkpoint(CheckpointId::new(0)), Some(ModelId::new(2)));
    let second = mode.get_stage(StageId::new(1)).unwrap();
    assert_eq!(second.ordered_checkpoint(CheckpointId::new(0)), None);
    assert_eq!(mode.get_element(ModelId::new(50)), None);
    assert_eq!(mode.get_zone(ModelId::new(50)), None);
    mode.remove(ModeUpdate::stage(
        StageId::new(99),
        StageUpdate::ordered_checkpoint(CheckpointId::new(0), ModelId::new(2)),
    ));
    let first = mode.get_stage(StageId::new(0)).unwrap();
    assert_eq!(first.ordered_checkpoint(CheckpointId::new(0)), Some(ModelId::new(2)));
}

#[test]
fn insert_then_remove_restores_the_mode() {
    let mut mode = stage_graph();
    mode.denormalize_data();
    mode.insert(ModeUpdate::zone(ModelId::new(20), ZoneBehaviour::Finish));
    mode.insert(ModeUpdate::element(
        ModelId::new(21),
        element(1, StageElementBehaviour::Platform),
    ));
    mode.insert(ModeUpdate::jump_limit(ModelId::new(22), 3));
    mode.insert(ModeUpdate::stage(
        StageId::new(1),
        StageUpdate::unordered_checkpoint(ModelId::new(23)),
    ));
    mode.insert(ModeUpdate::stage(
        StageId::new(0),
        StageUpdate::ordered_checkpoint(CheckpointId::new(1), ModelId::new(24)),
    ));
    assert_eq!(mode.get_zone(ModelId::new(20)), Some(ZoneBehaviour::Finish));
    assert_eq!(
        mode.get_element(ModelId::new(21)),
        Some(element(1, StageElementBehaviour::Platform))
    );
    assert_eq!(mode.get_jump_limit(ModelId::new(22)), Some(3));
    assert!(mode.get_stage(StageId::new(1)).unwrap().is_unordered_checkpoint(ModelId::new(23)));
    assert_eq!(
        mode.get_stage(StageId::new(0)).unwrap().ordered_checkpoint(CheckpointId::new(1)),
        Some(ModelId::new(24))
    );
    mode.remove(ModeUpdate::zone(ModelId::new(20), ZoneBehaviour::Anticheat));
    mode.remove(ModeUpdate::element(
        ModelId::new(21),
        element(0, StageElementBehaviour::Check),
    ));
    mode.remove(ModeUpdate::jump_limit(ModelId::new(22), 77));
    mode.remove(ModeUpdate::stage(
        StageId::new(1),
        StageUpdate::unordered_checkpoint(ModelId::new(23)),
    ));
    mode.remove(ModeUpdate::stage(
        StageId::new(0),
        StageUpdate::ordered_checkpoint(CheckpointId::new(1), ModelId::new(99)),
    ));
    let mut reference = stage_graph();
    reference.denormalize_data();
    for number in 0..30u32 {
        let model = ModelId::new(number);
        assert_eq!(mode.get_zone(model), reference.get_zone(model));
        assert_eq!(mode.get_element(model), reference.get_element(model));
        assert_eq!(mode.get_jump_limit(model), reference.get_jump_limit(model));
        for stage in 0..2u32 {
            let left = mode.get_stage(StageId::new(stage)).unwrap();
            let right = reference.get_stage(StageId::new(stage)).unwrap();
            assert_eq!(left.is_unordered_checkpoint(model), right.is_unordered_checkpoint(model));
            assert_eq!(
                left.ordered_checkpoint(CheckpointId::new(number)),
                right.ordered_checkpoint(CheckpointId::new(number))
            );
        }
    }
}

#[test]
fn later_diff_wins() {
    let mut mode = stage_graph();
    mode.insert(ModeUpdate::zone(ModelId::new(4), ZoneBehaviour::Finish));
    mode.insert(ModeUpdate::zone(ModelId::new(4), ZoneBehaviour::Anticheat));
    assert_eq!(mode.get_zone(ModelId::new(4)), Some(ZoneBehaviour::Anticheat));
    mode.insert(ModeUpdate::jump_limit(ModelId::new(4), 1));
    mode.insert(ModeUpdate::jump_limit(ModelId::new(4), 5));
    assert_eq!(mode.get_jump_limit(ModelId::new(4)), Some(5));
    mode.insert(ModeUpdate::default());
    mode.remove(ModeUpdate::default());
    assert_eq!(mode.get_jump_limit(ModelId::new(4)), Some(5));
}

#[test]
fn stage_diff_is_written_and_deleted() {
    let mut stage = Stage::empty(ModelId::new(1), plain_spawn());
    stage.insert(StageUpdate::default());
    assert_eq!(stage.ordered_checkpoint(CheckpointId::new(0)), None);
    stage.insert(StageUpdate::ordered_checkpoint(CheckpointId::new(0), ModelId::new(2)));
    stage.insert(StageUpdate::ordered_checkpoint(CheckpointId::new(0), ModelId::new(3)));
    stage.insert(StageUpdate::unordered_checkpoint(ModelId::new(4)));
    assert_eq!(stage.ordered_checkpoint(CheckpointId::new(0)), Some(ModelId::new(3)));
    assert!(stage.is_unordered_checkpoint(ModelId::new(4)));
    stage.remove(StageUpdate::unordered_checkpoint(ModelId::new(5)));
    assert!(stage.is_unordered_checkpoint(ModelId::new(4)));
    stage.remove(StageUpdate::unordered_checkpoint(ModelId::new(4)));
    assert!(!stage.is_unordered_checkpoint(ModelId::new(4)));
    stage.remove(StageUpdate::ordered_checkpoint(CheckpointId::new(0), ModelId::new(77)));
    assert_eq!(stage.ordered_checkpoint(CheckpointId::new(0)), None);
    assert_eq!(stage.spawn(), ModelId::new(1));
}

#[test]
fn unforced_transitions_never_go_back() {
    let behaviours = [
        StageElementBehaviour::SpawnAt,
        StageElementBehaviour::Trigger,
        StageElementBehaviour::Teleport,
        StageElementBehaviour::Platform,
        StageElementBehaviour::Check,
        StageElementBehaviour::Checkpoint,
    ];
    let targets = [3u32, 1, 4, 1, 5, 9, 2, 6, 5, 3];
    let mut current = StageId::new(0);
    let mut step = 0usize;
    for target in targets {
        for behaviour in behaviours {
            let complete = step % 2 == 0;
            let next = StageElement::new(StageId::new(target), false, behaviour)
                .next_stage(current, complete);
            assert!(next.get() >= current.get());
            current = next;
            step += 1;
        }
    }
    assert_eq!(current, StageId::new(9));
}

#[test]
fn trigger_moves_forward_only_unless_forced() {
    let forward = StageElement::new(StageId::new(7), false, StageElementBehaviour::Trigger);
    assert_eq!(forward.next_stage(StageId::new(3), true), StageId::new(7));
    assert_eq!(forward.next_stage(StageId::new(7), true), StageId::new(7));
    assert_eq!(forward.next_stage(StageId::new(8), false), StageId::new(8));
    let spawn = StageElement::new(StageId::new(2), false, StageElementBehaviour::SpawnAt);
    assert_eq!(spawn.next_stage(StageId::new(5), false), StageId::new(5));
    assert_eq!(spawn.next_stage(StageId::new(1), false), StageId::new(2));
    let checkpoint = StageElement::new(StageId::new(9), true, StageElementBehaviour::Checkpoint);
    assert_eq!(checkpoint.next_stage(StageId::new(1), false), StageId::new(1));
    assert_eq!(checkpoint.next_stage(StageId::new(1), true), StageId::new(1));
}

#[test]
fn forced_transition_goes_back() {
    for behaviour in [
        StageElementBehaviour::SpawnAt,
        StageElementBehaviour::Trigger,
        StageElementBehaviour::Teleport,
        StageElementBehaviour::Platform,
    ] {
        let forced = StageElement::new(StageId::new(3), true, behaviour);
        assert_eq!(forced.next_stage(StageId::new(7), true), StageId::new(3));
        assert_eq!(forced.next_stage(StageId::new(3), false), StageId::new(3));
        assert_eq!(forced.next_stage(StageId::new(0), false), StageId::new(3));
        assert_eq!(forced.stage_id(), StageId::new(3));
        assert!(forced.force());
        assert_eq!(forced.behaviour(), behaviour);
    }
}

#[test]
fn check_is_a_trigger_until_the_stage_is_complete() {
    let mut stage = Stage::empty(ModelId::new(1), plain_spawn());
    stage.insert(StageUpdate::ordered_checkpoint(CheckpointId::new(0), ModelId::new(2)));
    stage.insert(StageUpdate::ordered_checkpoint(CheckpointId::new(1), ModelId::new(3)));
    stage.insert(StageUpdate::unordered_checkpoint(ModelId::new(4)));
    stage.insert(StageUpdate::unordered_checkpoint(ModelId::new(5)));
    let check = StageElement::new(StageId::new(6), false, StageElementBehaviour::Check);
    let trigger = StageElement::new(StageId::new(6), false, StageElementBehaviour::Trigger);
    let current = StageId::new(2);

    let nothing: [ModelId; 0] = [];
    assert!(!stage.is_complete(0, &nothing));
    assert!(!stage.is_complete(2, &nothing));
    assert!(!stage.is_complete(2, &[ModelId::new(4)]));
    assert!(!stage.is_complete(1, &[ModelId::new(4), ModelId::new(5)]));
    assert!(!stage.is_complete(0, &[ModelId::new(5), ModelId::new(4)]));
    assert!(stage.is_complete(2, &[ModelId::new(5), ModelId::new(4)]));
    assert!(stage.is_complete(3, &[ModelId::new(4), ModelId::new(9), ModelId::new(5)]));

    let pending = stage.is_complete(1, &[ModelId::new(4), ModelId::new(5)]);
    assert_eq!(check.next_stage(current, pending), trigger.next_stage(current, pending));
    assert_eq!(check.next_stage(current, pending), StageId::new(6));
    let done = stage.is_complete(2, &[ModelId::new(4), ModelId::new(5)]);
    assert_eq!(check.next_stage(current, done), current);

    assert!(stage.is_next_ordered_checkpoint(0, ModelId::new(2)));
    assert!(!stage.is_next_ordered_checkpoint(0, ModelId::new(3)));
    assert!(stage.is_next_ordered_checkpoint(1, ModelId::new(3)));
    assert!(!stage.is_next_ordered_checkpoint(2, ModelId::new(3)));
    assert!(!stage.is_next_ordered_checkpoint(1 << 32, ModelId::new(2)));
}

#[test]
fn stage_without_checkpoints_is_complete() {
    let stage = Stage::empty(ModelId::new(1), plain_spawn());
    let nothing: [ModelId; 0] = [];
    assert!(stage.is_complete(0, &nothing));
    let check = StageElement::new(StageId::new(4), true, StageElementBehaviour::Check);
    assert_eq!(check.next_stage(StageId::new(9), true), StageId::new(9));
    assert_eq!(check.next_stage(StageId::new(9), false), StageId::new(4));
}

#[test]
fn modes_are_found_by_their_place() {
    let mut modes = Modes::default();
    assert_eq!(modes.len(), 0);
    assert!(modes.get_mode(ModeId::new(ModeId::MAIN)).is_none());
    modes.insert(stage_graph());
    modes.insert(Mode::empty(StyleModifiers::roblox_surf(), ModelId::new(40)));
    assert_eq!(modes.len(), 2);
    let main = modes.get_mode(ModeId::new(ModeId::MAIN)).unwrap();
    assert_eq!(main.get_start(), ModelId::new(0));
    assert_eq!(*main.get_style(), StyleModifiers::roblox_bhop());
    let bonus = modes.get_mode(ModeId::new(ModeId::BONUS)).unwrap();
    assert_eq!(bonus.get_start(), ModelId::new(40));
    assert_eq!(*bonus.get_style(), StyleModifiers::roblox_surf());
    assert_eq!(bonus.stage_count(), 0);
    assert!(modes.get_mode(ModeId::new(2)).is_none());
    assert_eq!(ModeId::new(1).get(), 1);
    modes.clear();
    assert_eq!(modes.len(), 0);
    assert!(modes.get_mode(ModeId::new(0)).is_none());
}

#[test]
fn modes_diff_is_delegated_to_the_mode() {
    let mut modes = Modes::default();
    modes.insert(stage_graph());
    modes.insert(stage_graph());
    Updatable::insert(
        &mut modes,
        ModesUpdate::mode(ModeId::new(1), ModeUpdate::zone(ModelId::new(8), Zone::Finish)),
    );
    Updatable::insert(
        &mut modes,
        ModesUpdate::mode(ModeId::new(5), ModeUpdate::zone(ModelId::new(8), Zone::Finish)),
    );
    Updatable::insert(&mut modes, ModesUpdate::default());
    assert_eq!(modes.len(), 2);
    assert_eq!(modes.get_mode(ModeId::new(0)).unwrap().get_zone(ModelId::new(8)), None);
    assert_eq!(
        modes.get_mode(ModeId::new(1)).unwrap().get_zone(ModelId::new(8)),
        Some(ZoneBehaviour::Finish)
    );
    Updatable::remove(
        &mut modes,
        ModesUpdate::mode(ModeId::new(0), ModeUpdate::zone(ModelId::new(8), Zone::Start)),
    );
    assert_eq!(
        modes.get_mode(ModeId::new(1)).unwrap().get_zone(ModelId::new(8)),
        Some(ZoneBehaviour::Finish)
    );
    Updatable::remove(
        &mut modes,
        ModesUpdate::mode(ModeId::new(1), ModeUpdate::zone(ModelId::new(8), Zone::Start)),
    );
    assert_eq!(modes.get_mode(ModeId::new(1)).unwrap().get_zone(ModelId::new(8)), None);
    assert_eq!(modes.get_mode(ModeId::new(1)).unwrap().stage_count(), 2);
}
