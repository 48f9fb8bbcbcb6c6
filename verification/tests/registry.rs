use character_behavior::characters::clips::{
    AnimationDuration, AnimationRepeat, Clip, ClipId, ClipLibrary, Playback,
};
use character_behavior::characters::player::{
    clips_builder, init_player_animation, PlayerAnimationIds, PlayerType, ATTACK_COLUMNS,
    CYCLE_MILLIS, SHEET_COLUMNS, SHEET_ROWS,
};
use character_behavior::characters::{Animation, Animations, Toward};

fn id(value: usize) -> ClipId {
    ClipId { value }
}

fn whole_row(row: usize) -> Clip {
    Clip {
        columns: 6,
        rows: 10,
        row,
        column_range: None,
        default_duration: Some(AnimationDuration::PerCycle(1500)),
    }
}

fn attack_row(row: usize) -> Clip {
    Clip { columns: 6, rows: 10, row, column_range: Some(4), default_duration: None }
}

fn looping(row: usize) -> Playback {
    Playback { clip: whole_row(row), repeat: AnimationRepeat::Loop }
}

fn once(row: usize) -> Playback {
    Playback { clip: attack_row(row), repeat: AnimationRepeat::Cycles(1) }
}

#[test]
fn sheet_constants() {
    assert_eq!(SHEET_COLUMNS, 6);
    assert_eq!(SHEET_ROWS, 10);
    assert_eq!(ATTACK_COLUMNS, 4);
    assert_eq!(CYCLE_MILLIS, 1500);
}

#[test]
fn new_library_is_empty() {
    let library = ClipLibrary::new();
    assert_eq!(library.len(), 0);
    assert_eq!(library.get(id(0)), None);
}

#[test]
fn new_animation_hands_out_consecutive_ids() {
    let mut library = ClipLibrary::new();
    let first = library.new_animation(whole_row(2), AnimationRepeat::Loop);
    let second = library.new_animation(attack_row(8), AnimationRepeat::Cycles(3));
    assert_eq!(first, id(0));
    assert_eq!(second, id(1));
    assert_ne!(first, second);
    assert_eq!(library.len(), 2);
    assert_eq!(library.get(first), Some(looping(2)));
    assert_eq!(
        library.get(second),
        Some(Playback { clip: attack_row(8), repeat: AnimationRepeat::Cycles(3) })
    );
    assert_eq!(library.get(id(2)), None);
    assert_eq!(library.get(id(usize::MAX)), None);
}

#[test]
fn clips_builder_paces_a_whole_row() {
    assert_eq!(clips_builder(6, 10, 2, None), whole_row(2));
    assert_eq!(
        clips_builder(8, 3, 1, None),
        Clip {
            columns: 8,
            rows: 3,
            row: 1,
            column_range: None,
            default_duration: Some(AnimationDuration::PerCycle(1500)),
        }
    );
}

#[test]
fn clips_builder_leaves_the_pace_of_a_partial_row() {
    assert_eq!(clips_builder(6, 10, 8, Some(4)), attack_row(8));
    assert_eq!(
        clips_builder(6, 10, 8, Some(0)),
        Clip { columns: 6, rows: 10, row: 8, column_range: Some(0), default_duration: None }
    );
}

#[test]
fn new_clips_records_four_loops_in_order() {
    let mut library = ClipLibrary::new();
    library.new_animation(whole_row(9), AnimationRepeat::Loop);
    let animation =
        Animation::new_clips(&mut library, whole_row(2), whole_row(0), whole_row(1), whole_row(3));
    assert_eq!(animation, Animation { up: id(1), down: id(2), left: id(3), right: id(4) });
    assert_eq!(library.len(), 5);
    assert_eq!(library.get(id(0)), Some(looping(9)));
    assert_eq!(library.get(animation.up), Some(looping(2)));
    assert_eq!(library.get(animation.down), Some(looping(0)));
    assert_eq!(library.get(animation.left), Some(looping(1)));
    assert_eq!(library.get(animation.right), Some(looping(3)));
}

#[test]
fn new_clips_with_repeat_records_the_repeat() {
    let mut library = ClipLibrary::new();
    let animation = Animation::new_clips_with_repeat(
        &mut library,
        attack_row(8),
        attack_row(6),
        attack_row(7),
        attack_row(7),
        AnimationRepeat::Cycles(2),
    );
    assert_eq!(animation, Animation { up: id(0), down: id(1), left: id(2), right: id(3) });
    assert_eq!(library.len(), 4);
    for (clip_id, row) in [(animation.up, 8), (animation.down, 6), (animation.left, 7), (animation.right, 7)] {
        assert_eq!(
            library.get(clip_id),
            Some(Playback { clip: attack_row(row), repeat: AnimationRepeat::Cycles(2) })
        );
    }
}

#[test]
fn equal_clips_still_get_different_ids() {
    let mut library = ClipLibrary::new();
    let animation =
        Animation::new_clips(&mut library, whole_row(1), whole_row(1), whole_row(1), whole_row(1));
    assert_ne!(animation.left, animation.right);
    assert_ne!(animation.up, animation.down);
    assert_eq!(library.get(animation.left), library.get(animation.right));
}

#[test]
fn animation_get_and_contains() {
    let animation = Animation { up: id(10), down: id(11), left: id(12), right: id(13) };
    assert_eq!(animation.get(Toward::Up), id(10));
    assert_eq!(animation.get(Toward::Down), id(11));
    assert_eq!(animation.get(Toward::Left), id(12));
    assert_eq!(animation.get(Toward::Right), id(13));
    for value in 10..14 {
        assert!(animation.contains(id(value)));
    }
    assert!(!animation.contains(id(9)));
    assert!(!animation.contains(id(14)));
}

#[test]
fn player_registry_on_an_empty_library() {
    let mut library = ClipLibrary::new();
    let ids: PlayerAnimationIds = init_player_animation(&mut library);
    assert_eq!(
        ids,
        Animations {
            idle: Animation { up: id(0), down: id(1), left: id(2), right: id(3) },
            run: Animation { up: id(4), down: id(5), left: id(6), right: id(7) },
            attack: Animation { up: id(8), down: id(9), left: id(10), right: id(11) },
        }
    );
    assert!(ids.is_wf());
    assert_eq!(library.len(), 12);
    let expected = [
        looping(2),
        looping(0),
        looping(1),
        looping(1),
        looping(5),
        looping(3),
        looping(4),
        looping(4),
        once(8),
        once(6),
        once(7),
        once(7),
    ];
    for (index, playback) in expected.iter().enumerate() {
        assert_eq!(library.get(id(index)), Some(*playback));
    }
}

#[test]
fn player_registry_after_other_animations() {
    let mut library = ClipLibrary::new();
    library.new_animation(whole_row(9), AnimationRepeat::Loop);
    library.new_animation(whole_row(9), AnimationRepeat::Loop);
    let ids = init_player_animation(&mut library);
    assert_eq!(ids.idle.up, id(2));
    assert_eq!(ids.run.up, id(6));
    assert_eq!(ids.attack.up, id(10));
    assert_eq!(ids.attack.right, id(13));
    assert!(ids.is_wf());
    assert_eq!(library.len(), 14);
    assert_eq!(library.get(id(0)), Some(looping(9)));
    assert_eq!(library.get(ids.idle.get(Toward::Up)), Some(looping(2)));
    assert_eq!(library.get(ids.run.get(Toward::Left)), Some(looping(4)));
    assert_eq!(library.get(ids.attack.get(Toward::Down)), Some(once(6)));
}

#[test]
fn two_archetypes_share_no_clip() {
    let mut library = ClipLibrary::new();
    let first = init_player_animation(&mut library);
    let second = PlayerType::Adventurer.init_animation(&mut library);
    assert_eq!(library.len(), 24);
    for toward in [Toward::Up, Toward::Down, Toward::Left, Toward::Right] {
        assert!(!first.attack.contains(second.attack.get(toward)));
        assert!(!first.run.contains(second.run.get(toward)));
        assert!(!first.idle.contains(second.idle.get(toward)));
        assert_eq!(
            library.get(first.attack.get(toward)),
            library.get(second.attack.get(toward))
        );
    }
}

#[test]
fn attack_clips_play_once_and_the_others_loop() {
    let mut library = ClipLibrary::new();
    let ids = PlayerType::default().init_animation(&mut library);
    for toward in [Toward::Up, Toward::Down, Toward::Left, Toward::Right] {
        let attack = library.get(ids.attack.get(toward)).unwrap();
        assert_eq!(attack.repeat, AnimationRepeat::Cycles(1));
        assert_eq!(attack.clip.column_range, Some(4));
        assert_eq!(attack.clip.default_duration, None);
        for group in [ids.idle, ids.run] {
            let playback = library.get(group.get(toward)).unwrap();
            assert_eq!(playback.repeat, AnimationRepeat::Loop);
            assert_eq!(playback.clip.column_range, None);
            assert_eq!(playback.clip.default_duration, Some(AnimationDuration::PerCycle(1500)));
        }
    }
}

#[test]
fn player_type_defaults_to_adventurer() {
    assert_eq!(PlayerType::default(), PlayerType::Adventurer);
}

#[test]
fn registry_with_a_repeated_clip_is_not_well_formed() {
    let mut library = ClipLibrary::new();
    let good = init_player_animation(&mut library);
    assert!(good.is_wf());

    let mut within = good;
    within.run.left = within.run.right;
    assert!(!within.is_wf());

    let mut across = good;
    across.attack.up = across.idle.down;
    assert!(!across.is_wf());

    let mut run_attack = good;
    run_attack.run.left = run_attack.attack.left;
    assert!(!run_attack.is_wf());
}
