use scatter_scene::geometry::Point;
use scatter_scene::motion::{
    follow, step, tick, AvatarState, CameraFollowOffset, CameraState, ForwardAxis, InputState,
    MotionConfig, MotionError, Position, AVATAR_RANGE,
};

const CONFIG: MotionConfig = MotionConfig { speed: 5, forward: ForwardAxis::NegativeZ };

const OFFSET: CameraFollowOffset = CameraFollowOffset { dx: 10, dz: 16 };

fn avatar(x: i128, z: i128) -> AvatarState {
    AvatarState::new(x, z).unwrap()
}

fn camera(x: i128, z: i128) -> CameraState {
    CameraState { position: Position { x, z } }
}

fn held(left: bool, right: bool, forward: bool, backward: bool) -> InputState {
    InputState { left, right, forward, backward }
}

#[test]
fn avatar_stands_where_it_is_put() {
    assert_eq!(avatar(3, -4).position(), Position { x: 3, z: -4 });
    assert_eq!(AvatarState::at(Point { x: 20, z: 24 }).position(), Position { x: 20, z: 24 });
    assert_eq!(AvatarState::at(Point { x: 20, z: 24 }), avatar(20, 24));
    assert_eq!(
        AvatarState::at(Point { x: i64::MIN, z: i64::MAX }).position(),
        Position { x: i128::from(i64::MIN), z: i128::from(i64::MAX) }
    );
}

#[test]
fn avatar_range_is_two_to_the_126() {
    assert_eq!(AVATAR_RANGE, 1i128 << 126);
    assert!(AvatarState::new(AVATAR_RANGE, -AVATAR_RANGE).is_some());
    assert_eq!(
        AvatarState::new(AVATAR_RANGE, -AVATAR_RANGE).unwrap().position(),
        Position { x: AVATAR_RANGE, z: -AVATAR_RANGE }
    );
}

#[test]
fn avatar_beyond_its_range_is_refused() {
    assert_eq!(AvatarState::new(AVATAR_RANGE + 1, 0), None);
    assert_eq!(AvatarState::new(-AVATAR_RANGE - 1, 0), None);
    assert_eq!(AvatarState::new(0, AVATAR_RANGE + 1), None);
    assert_eq!(AvatarState::new(0, -AVATAR_RANGE - 1), None);
    assert_eq!(AvatarState::new(i128::MAX, i128::MIN), None);
}

#[test]
fn no_input_leaves_the_avatar_in_place() {
    for dt in [0u64, 1, 16, 1_000, u64::MAX] {
        for start in [avatar(0, 0), avatar(-7, 12), avatar(AVATAR_RANGE, -AVATAR_RANGE)] {
            assert_eq!(step(&start, &InputState::none(), &CONFIG, dt), Ok(start));
        }
    }
}

#[test]
fn no_input_is_all_four_released() {
    assert_eq!(InputState::none(), held(false, false, false, false));
    assert_eq!(InputState::none().direction(ForwardAxis::PositiveZ), (0, 0));
}

#[test]
fn right_moves_along_x_by_speed_times_time() {
    for dt in [0u64, 1, 20, 1_000, u64::MAX] {
        let stepped: AvatarState =
            step(&avatar(0, 0), &held(false, true, false, false), &CONFIG, dt).unwrap();
        assert_eq!(stepped, avatar(5 * i128::from(dt), 0));
    }
    assert_eq!(
        step(&avatar(0, 0), &held(false, true, false, false), &CONFIG, 100),
        Ok(avatar(500, 0))
    );
}

#[test]
fn right_from_the_origin_never_fails() {
    // The fastest avatar for the longest time.
    let fast: MotionConfig = MotionConfig { speed: u32::MAX, forward: ForwardAxis::PositiveZ };
    let far: i128 = i128::from(u32::MAX) * i128::from(u64::MAX);
    assert_eq!(
        step(&avatar(0, 0), &held(false, true, false, false), &fast, u64::MAX),
        Ok(avatar(far, 0))
    );
    assert_eq!(
        step(&avatar(0, 0), &held(true, false, true, false), &fast, u64::MAX),
        Ok(avatar(-far, far))
    );
}

#[test]
fn left_moves_against_x() {
    assert_eq!(
        step(&avatar(3, 9), &held(true, false, false, false), &CONFIG, 100),
        Ok(avatar(-497, 9))
    );
}

#[test]
fn left_and_right_cancel() {
    for forward in [false, true] {
        for backward in [false, true] {
            for dt in [0u64, 1, 250] {
                let start: AvatarState = avatar(40, -2);
                assert_eq!(
                    step(&start, &held(true, true, forward, backward), &CONFIG, dt),
                    step(&start, &held(false, false, forward, backward), &CONFIG, dt)
                );
            }
        }
    }
    assert_eq!(
        step(&avatar(40, -2), &held(true, true, false, false), &CONFIG, 250),
        Ok(avatar(40, -2))
    );
}

#[test]
fn forward_and_backward_cancel() {
    for left in [false, true] {
        for right in [false, true] {
            let start: AvatarState = avatar(1, 1);
            assert_eq!(
                step(&start, &held(left, right, true, true), &CONFIG, 30),
                step(&start, &held(left, right, false, false), &CONFIG, 30)
            );
        }
    }
}

#[test]
fn forward_follows_the_configured_axis() {
    let toward_negative: MotionConfig = MotionConfig { speed: 5, forward: ForwardAxis::NegativeZ };
    let toward_positive: MotionConfig = MotionConfig { speed: 5, forward: ForwardAxis::PositiveZ };
    let forward: InputState = held(false, false, true, false);
    let backward: InputState = held(false, false, false, true);
    assert_eq!(step(&avatar(0, 0), &forward, &toward_negative, 10), Ok(avatar(0, -50)));
    assert_eq!(step(&avatar(0, 0), &backward, &toward_negative, 10), Ok(avatar(0, 50)));
    assert_eq!(step(&avatar(0, 0), &forward, &toward_positive, 10), Ok(avatar(0, 50)));
    assert_eq!(step(&avatar(0, 0), &backward, &toward_positive, 10), Ok(avatar(0, -50)));
}

#[test]
fn direction_sums_the_held_inputs() {
    assert_eq!(held(true, false, false, false).direction(ForwardAxis::PositiveZ), (-1, 0));
    assert_eq!(held(false, true, false, false).direction(ForwardAxis::PositiveZ), (1, 0));
    assert_eq!(held(true, true, false, false).direction(ForwardAxis::PositiveZ), (0, 0));
    assert_eq!(held(false, false, true, false).direction(ForwardAxis::PositiveZ), (0, 1));
    assert_eq!(held(false, false, false, true).direction(ForwardAxis::PositiveZ), (0, -1));
    assert_eq!(held(false, false, true, false).direction(ForwardAxis::NegativeZ), (0, -1));
    assert_eq!(held(false, false, false, true).direction(ForwardAxis::NegativeZ), (0, 1));
    assert_eq!(held(false, false, true, true).direction(ForwardAxis::NegativeZ), (0, 0));
    assert_eq!(held(true, false, false, true).direction(ForwardAxis::NegativeZ), (-1, 1));
}

#[test]
fn both_axes_move_independently() {
    assert_eq!(
        step(&avatar(100, 100), &held(false, true, true, false), &CONFIG, 7),
        Ok(avatar(135, 65))
    );
}

#[test]
fn motion_is_not_clamped() {
    // Far beyond any scenery point.
    let far: i128 = i128::from(i64::MAX) * 1_000;
    assert_eq!(
        step(&avatar(far, -far), &held(false, true, false, true), &CONFIG, 2),
        Ok(avatar(far + 10, -far + 10))
    );
}

#[test]
fn step_reaches_the_ends_of_the_range() {
    let slow: MotionConfig = MotionConfig { speed: 1, forward: ForwardAxis::PositiveZ };
    assert_eq!(
        step(&avatar(AVATAR_RANGE - 5, 0), &held(false, true, false, false), &slow, 5),
        Ok(avatar(AVATAR_RANGE, 0))
    );
    assert_eq!(
        step(&avatar(0, -AVATAR_RANGE + 5), &held(false, false, false, true), &slow, 5),
        Ok(avatar(0, -AVATAR_RANGE))
    );
}

#[test]
fn step_past_the_range_fails() {
    let slow: MotionConfig = MotionConfig { speed: 1, forward: ForwardAxis::PositiveZ };
    assert_eq!(
        step(&avatar(AVATAR_RANGE - 5, 0), &held(false, true, false, false), &slow, 6),
        Err(MotionError::AvatarOutOfRange)
    );
    assert_eq!(
        step(&avatar(0, -AVATAR_RANGE), &held(false, false, false, true), &slow, 1),
        Err(MotionError::AvatarOutOfRange)
    );
    let fast: MotionConfig = MotionConfig { speed: u32::MAX, forward: ForwardAxis::PositiveZ };
    assert_eq!(
        step(&avatar(AVATAR_RANGE, 0), &held(false, true, false, false), &fast, u64::MAX),
        Err(MotionError::AvatarOutOfRange)
    );
    assert_eq!(
        step(&avatar(-AVATAR_RANGE, 0), &held(true, false, false, false), &fast, u64::MAX),
        Err(MotionError::AvatarOutOfRange)
    );
}

#[test]
fn camera_follows_at_its_offset() {
    assert_eq!(follow(&avatar(0, 0), &OFFSET), camera(10, 16));
    assert_eq!(follow(&avatar(-25, 4), &OFFSET), camera(-15, 20));
}

#[test]
fn camera_follows_at_the_ends_of_the_range() {
    let widest: CameraFollowOffset = CameraFollowOffset { dx: i64::MAX, dz: i64::MIN };
    assert_eq!(
        follow(&avatar(AVATAR_RANGE, -AVATAR_RANGE), &widest),
        camera(AVATAR_RANGE + i128::from(i64::MAX), -AVATAR_RANGE + i128::from(i64::MIN))
    );
    assert_eq!(
        follow(&avatar(-AVATAR_RANGE, AVATAR_RANGE), &widest),
        camera(-AVATAR_RANGE + i128::from(i64::MAX), AVATAR_RANGE + i128::from(i64::MIN))
    );
}

#[test]
fn tick_moves_the_avatar_and_the_camera() {
    let mut state: AvatarState = avatar(0, 0);
    let mut view: Option<CameraState> = Some(camera(10, 16));
    assert_eq!(
        tick(&mut state, &mut view, &held(false, true, true, false), &CONFIG, &OFFSET, 20),
        Ok(())
    );
    assert_eq!(state, avatar(100, -100));
    assert_eq!(view, Some(camera(110, -84)));
}

#[test]
fn tick_from_the_origin_with_right_held() {
    for dt in [0u64, 1, 15_625, u64::MAX] {
        let mut state: AvatarState = avatar(0, 0);
        let mut view: Option<CameraState> = None;
        assert_eq!(
            tick(&mut state, &mut view, &held(false, true, false, false), &CONFIG, &OFFSET, dt),
            Ok(())
        );
        assert_eq!(state.position(), Position { x: 5 * i128::from(dt), z: 0 });
        assert_eq!(view, None);
    }
}

#[test]
fn tick_puts_a_stray_camera_back_at_its_offset() {
    for stray in [camera(-1_000, 1_000), camera(0, 0), camera(i128::MAX, i128::MIN)] {
        let mut state: AvatarState = avatar(50, 60);
        let mut view: Option<CameraState> = Some(stray);
        assert_eq!(tick(&mut state, &mut view, &InputState::none(), &CONFIG, &OFFSET, 20), Ok(()));
        assert_eq!(state, avatar(50, 60));
        assert_eq!(view, Some(camera(60, 76)));
    }
}

#[test]
fn tick_without_a_camera_moves_the_avatar_alone() {
    let mut state: AvatarState = avatar(0, 0);
    let mut view: Option<CameraState> = None;
    assert_eq!(
        tick(&mut state, &mut view, &held(true, false, false, true), &CONFIG, &OFFSET, 4),
        Ok(())
    );
    assert_eq!(state, avatar(-20, 20));
    assert_eq!(view, None);
}

#[test]
fn camera_keeps_its_offset_over_many_ticks() {
    let mut state: AvatarState = avatar(3, -8);
    let mut view: Option<CameraState> = Some(camera(0, 0));
    let inputs: [InputState; 5] = [
        held(false, true, false, false),
        held(true, true, true, false),
        held(true, false, false, true),
        held(false, false, false, false),
        held(true, false, true, false),
    ];
    for (i, input) in inputs.iter().enumerate() {
        let dt: u64 = 16 + i as u64;
        assert_eq!(tick(&mut state, &mut view, input, &CONFIG, &OFFSET, dt), Ok(()));
        let now: CameraState = view.unwrap();
        assert_eq!(now.position.x - state.position().x, 10);
        assert_eq!(now.position.z - state.position().z, 16);
    }
}

#[test]
fn a_tick_that_cannot_move_the_avatar_still_places_the_camera() {
    let slow: MotionConfig = MotionConfig { speed: 1, forward: ForwardAxis::PositiveZ };
    let right: InputState = held(false, true, false, false);

    let mut state: AvatarState = avatar(AVATAR_RANGE, 7);
    let mut view: Option<CameraState> = Some(camera(1, 2));
    assert_eq!(
        tick(&mut state, &mut view, &right, &slow, &OFFSET, 1),
        Err(MotionError::AvatarOutOfRange)
    );
    assert_eq!(state, avatar(AVATAR_RANGE, 7));
    assert_eq!(view, Some(camera(AVATAR_RANGE + 10, 23)));

    let mut view: Option<CameraState> = None;
    assert_eq!(
        tick(&mut state, &mut view, &right, &slow, &OFFSET, 1),
        Err(MotionError::AvatarOutOfRange)
    );
    assert_eq!(state, avatar(AVATAR_RANGE, 7));
    assert_eq!(view, None);

    // One axis out of range holds back the whole step.
    let mut state: AvatarState = avatar(AVATAR_RANGE, 7);
    let mut view: Option<CameraState> = Some(camera(1, 2));
    assert_eq!(
        tick(&mut state, &mut view, &held(false, true, true, false), &slow, &OFFSET, 1),
        Err(MotionError::AvatarOutOfRange)
    );
    assert_eq!(state, avatar(AVATAR_RANGE, 7));
    assert_eq!(view, Some(camera(AVATAR_RANGE + 10, 23)));
}

#[test]
fn motion_errors_have_their_messages() {
    assert_eq!(
        MotionError::AvatarOutOfRange.message(),
        "the avatar would leave the range of coordinates"
    );
}
