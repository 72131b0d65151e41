//! What holds of every step and of every tick.

use crate::motion::{
    avatar_after_tick, camera_after_tick, displacement, follow_spec, reachable, step_spec,
    target_x, target_z, CameraFollowOffset, CameraState, InputState, MotionConfig, MotionError,
    Position,
};
use vstd::prelude::*;

verus! {

/// With no input held a step leaves the avatar where it is, however much
/// time passes.
pub proof fn lemma_idle_step(position: Position, config: MotionConfig, dt: u64)
    requires
        position.in_range(),
    ensures
        step_spec(position, InputState::idle(), config, dt) == Ok::<Position, MotionError>(position),
{
    assert(displacement(0, config.speed as int, dt as int) == 0) by (nonlinear_arith);
}

/// Holding right alone moves the avatar along x by speed times the time
/// passed and leaves z as it is. The step fails exactly when the new x lies
/// beyond the avatar's range.
pub proof fn lemma_right_is_linear(position: Position, config: MotionConfig, dt: u64)
    requires
        position.in_range(),
    ensures
        step_spec(
            position,
            InputState { left: false, right: true, forward: false, backward: false },
            config,
            dt,
        ) == if reachable(position.x + config.speed * dt) {
            Ok::<Position, MotionError>(
                Position::at(position.x + config.speed * dt, position.z as int),
            )
        } else {
            Err::<Position, MotionError>(MotionError::AvatarOutOfRange)
        },
{
    assert(displacement(0, config.speed as int, dt as int) == 0) by (nonlinear_arith);
    assert(displacement(1, config.speed as int, dt as int) == config.speed * dt) by (nonlinear_arith);
}

/// From the origin, holding right alone for `dt` time units brings the
/// avatar to x = speed times `dt` and leaves z at zero, whatever the speed
/// and however much time passes.
pub proof fn lemma_right_from_origin(config: MotionConfig, dt: u64)
    ensures
        step_spec(
            Position::at(0, 0),
            InputState { left: false, right: true, forward: false, backward: false },
            config,
            dt,
        ) == Ok::<Position, MotionError>(Position::at(config.speed * dt, 0)),
        Position::at(config.speed * dt, 0).x == config.speed * dt,
{
    lemma_right_is_linear(Position::at(0, 0), config, dt);
    assert(0 <= config.speed * dt <= 0x1_0000_0000 * 0x1_0000_0000_0000_0000) by (nonlinear_arith)
        requires
            0 <= config.speed <= 0xffff_ffff,
            0 <= dt <= 0xffff_ffff_ffff_ffff,
    ;
}

/// Holding left and right together is the same as holding neither of them.
pub proof fn lemma_left_and_right_cancel(
    position: Position,
    input: InputState,
    config: MotionConfig,
    dt: u64,
)
    requires
        input.left,
        input.right,
    ensures
        step_spec(position, input, config, dt) == step_spec(
            position,
            InputState { left: false, right: false, forward: input.forward, backward: input.backward },
            config,
            dt,
        ),
        target_x(position, input, config, dt) == position.x,
{
    assert(displacement(0, config.speed as int, dt as int) == 0) by (nonlinear_arith);
}

/// Holding forward and backward together is the same as holding neither of
/// them.
pub proof fn lemma_forward_and_backward_cancel(
    position: Position,
    input: InputState,
    config: MotionConfig,
    dt: u64,
)
    requires
        input.forward,
        input.backward,
    ensures
        step_spec(position, input, config, dt) == step_spec(
            position,
            InputState { left: input.left, right: input.right, forward: false, backward: false },
            config,
            dt,
        ),
        target_z(position, input, config, dt) == position.z,
{
    assert(displacement(0, config.speed as int, dt as int) == 0) by (nonlinear_arith);
}

/// A step of no time leaves the avatar where it is, whatever is held.
pub proof fn lemma_no_time_no_motion(position: Position, input: InputState, config: MotionConfig)
    requires
        position.in_range(),
    ensures
        step_spec(position, input, config, 0) == Ok::<Position, MotionError>(position),
{
    assert(forall|direction: int| #[trigger] displacement(direction, config.speed as int, 0) == 0)
        by (nonlinear_arith);
}

/// After a tick the avatar stands within its range, whether it took its
/// step or not.
pub proof fn lemma_tick_stays_in_range(
    position: Position,
    input: InputState,
    config: MotionConfig,
    dt: u64,
)
    requires
        position.in_range(),
    ensures
        avatar_after_tick(position, input, config, dt).in_range(),
{
}

/// A camera that follows an avatar stands exactly at the follow offset from
/// it, wherever the avatar stands and whatever the offset is.
pub proof fn lemma_follow_keeps_offset(position: Position, offset: CameraFollowOffset)
    requires
        position.in_range(),
    ensures
        follow_spec(position, offset).position.x - position.x == offset.dx,
        follow_spec(position, offset).position.z - position.z == offset.dz,
{
}

/// After every tick with a camera, whether the avatar took its step or not,
/// the camera stands exactly at the follow offset from where the avatar
/// stands after the tick. Where the camera stood before plays no part.
pub proof fn lemma_camera_keeps_offset(
    position: Position,
    camera: CameraState,
    input: InputState,
    config: MotionConfig,
    offset: CameraFollowOffset,
    dt: u64,
)
    requires
        position.in_range(),
    ensures
        ({
            let avatar = avatar_after_tick(position, input, config, dt);
            let followed = camera_after_tick(avatar, Some(camera), offset);
            &&& followed is Some
            &&& followed.unwrap().position.x - avatar.x == offset.dx
            &&& followed.unwrap().position.z - avatar.z == offset.dz
            &&& forall|other: CameraState|
                followed == #[trigger] camera_after_tick(avatar, Some(other), offset)
        }),
{
    lemma_tick_stays_in_range(position, input, config, dt);
    lemma_follow_keeps_offset(avatar_after_tick(position, input, config, dt), offset);
}

/// A tick without a camera leaves it so.
pub proof fn lemma_no_camera_stays_none(avatar: Position, offset: CameraFollowOffset)
    ensures
        camera_after_tick(avatar, None, offset) == None::<CameraState>,
{
}

/// A tick from the origin with right alone held brings the avatar to x =
/// speed times `dt` and leaves z at zero, whatever the speed and however
/// much time passes.
pub proof fn lemma_tick_right_from_origin(config: MotionConfig, dt: u64)
    ensures
        avatar_after_tick(
            Position::at(0, 0),
            InputState { left: false, right: true, forward: false, backward: false },
            config,
            dt,
        ) == Position::at(config.speed * dt, 0),
        Position::at(config.speed * dt, 0).x == config.speed * dt,
        Position::at(config.speed * dt, 0).z == 0,
{
    lemma_right_from_origin(config, dt);
}

} // verus!
