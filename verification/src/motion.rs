//! The avatar's motion under held directional inputs, and the camera that
//! follows the avatar at a fixed offset.
//!
//! The avatar may walk far beyond the scenery, so its coordinates and the
//! camera's are wider than those of a scenery point.

use crate::geometry::Point;
use crate::motion_laws::{lemma_follow_keeps_offset, lemma_idle_step};
use vstd::prelude::*;

verus! {

/// How far from the origin the avatar can get on each axis, in position
/// units. Any step from the origin stays below it, and it leaves room in a
/// coordinate for the camera's offset.
pub const AVATAR_RANGE: i128 = 0x4000_0000_0000_0000_0000_0000_0000_0000;

/// A point of the ground plane in wide fixed-point coordinates.
#[derive(Clone, Copy, Debug, PartialEq, Eq, Structural)]
pub struct Position {
    pub x: i128,
    pub z: i128,
}

/// Whether the avatar can stand at the coordinate `value`.
pub open spec fn reachable(value: int) -> bool {
    -AVATAR_RANGE <= value <= AVATAR_RANGE
}

impl Position {
    /// The position with the given mathematical coordinates.
    pub open spec fn at(x: int, z: int) -> Position {
        Position { x: x as i128, z: z as i128 }
    }

    /// Whether the avatar can stand here.
    pub open spec fn in_range(self) -> bool {
        reachable(self.x as int) && reachable(self.z as int)
    }
}

/// Which of the four directional inputs are held during a tick.
#[derive(Clone, Copy, Debug, PartialEq, Eq, Structural)]
pub struct InputState {
    pub left: bool,
    pub right: bool,
    pub forward: bool,
    pub backward: bool,
}

/// The way that "forward" points along the z axis. It goes with the framing
/// of the camera.
#[derive(Clone, Copy, Debug, PartialEq, Eq, Structural)]
pub enum ForwardAxis {
    /// Forward increases z.
    PositiveZ,
    /// Forward decreases z.
    NegativeZ,
}

/// How the avatar moves: `speed` position units per time unit, and the way
/// that forward points.
#[derive(Clone, Copy, Debug, PartialEq, Eq, Structural)]
pub struct MotionConfig {
    pub speed: u32,
    pub forward: ForwardAxis,
}

/// Where the avatar stands: at a position within `AVATAR_RANGE` of the
/// origin on each axis. Every value of this type is valid.
#[derive(Clone, Copy, Debug, PartialEq, Eq)]
pub struct AvatarState {
    position: Position,
}

/// Where the camera stands above the ground plane.
#[derive(Clone, Copy, Debug, PartialEq, Eq, Structural)]
pub struct CameraState {
    pub position: Position,
}

/// The constant offset from the avatar to the camera.
#[derive(Clone, Copy, Debug, PartialEq, Eq, Structural)]
pub struct CameraFollowOffset {
    pub dx: i64,
    pub dz: i64,
}

/// Why the avatar could not take its step.
#[derive(Clone, Copy, Debug, PartialEq, Eq, Structural)]
pub enum MotionError {
    /// The step would carry the avatar beyond `AVATAR_RANGE`.
    AvatarOutOfRange,
}

/// What `MotionError::message` says of each error.
pub open spec fn message_of(error: MotionError) -> Seq<char> {
    match error {
        MotionError::AvatarOutOfRange => "the avatar would leave the range of coordinates"@,
    }
}

impl MotionError {
    /// A sentence that says why the step could not be taken.
    pub fn message(&self) -> (text: &'static str)
        ensures
            text@ == message_of(*self),
    {
        match self {
            MotionError::AvatarOutOfRange => "the avatar would leave the range of coordinates",
        }
    }
}

impl View for AvatarState {
    type V = Position;

    closed spec fn view(&self) -> Position {
        self.position
    }
}

impl AvatarState {
    /// What holds of every avatar state.
    #[verifier::type_invariant]
    pub open spec fn valid(self) -> bool {
        self@.in_range()
    }

    /// The avatar at `(x, z)`, or `None` when that lies beyond
    /// `AVATAR_RANGE`.
    pub fn new(x: i128, z: i128) -> (made: Option<AvatarState>)
        ensures
            made is Some <==> reachable(x as int) && reachable(z as int),
            made matches Some(state) ==> state@ == (Position { x, z }),
    {
        if -AVATAR_RANGE <= x && x <= AVATAR_RANGE && -AVATAR_RANGE <= z && z <= AVATAR_RANGE {
            Some(AvatarState { position: Position { x, z } })
        } else {
            None
        }
    }

    /// The avatar at a point of the scenery.
    pub fn at(point: Point) -> (state: AvatarState)
        ensures
            state@ == Position::at(point.x as int, point.z as int),
    {
        AvatarState { position: Position { x: point.x as i128, z: point.z as i128 } }
    }

    /// Where the avatar stands.
    pub fn position(&self) -> (position: Position)
        ensures
            position == self@,
            position.in_range(),
    {
        proof {
            use_type_invariant(self);
        }
        self.position
    }
}

/// The direction along one axis: `+1` if only the positive input is held,
/// `-1` if only the negative one is, `0` if both or neither are.
pub open spec fn axis_direction(negative: bool, positive: bool) -> int {
    (if positive {
        1int
    } else {
        0int
    }) - (if negative {
        1int
    } else {
        0int
    })
}

/// How far a coordinate moves in `dt` time units at `speed` in the
/// direction `direction`.
pub open spec fn displacement(direction: int, speed: int, dt: int) -> int {
    direction * (speed * dt)
}

impl InputState {
    /// The direction along x: right is positive, left is negative.
    pub open spec fn direction_x(self) -> int {
        axis_direction(self.left, self.right)
    }

    /// The direction along z, where forward points as `forward` says.
    pub open spec fn direction_z(self, forward: ForwardAxis) -> int {
        match forward {
            ForwardAxis::PositiveZ => axis_direction(self.backward, self.forward),
            ForwardAxis::NegativeZ => axis_direction(self.forward, self.backward),
        }
    }

    /// The state in which no input is held.
    pub open spec fn idle() -> InputState {
        InputState { left: false, right: false, forward: false, backward: false }
    }

    /// The state in which no input is held.
    pub fn none() -> (input: InputState)
        ensures
            input == InputState::idle(),
    {
        InputState { left: false, right: false, forward: false, backward: false }
    }

    /// The direction that the held inputs give, along x and along z.
    pub fn direction(&self, forward: ForwardAxis) -> (direction: (i8, i8))
        ensures
            direction.0 == self.direction_x(),
            direction.1 == self.direction_z(forward),
    {
        let along_x: i8 = axis(self.left, self.right);
        let along_z: i8 = match forward {
            ForwardAxis::PositiveZ => axis(self.backward, self.forward),
            ForwardAxis::NegativeZ => axis(self.forward, self.backward),
        };
        (along_x, along_z)
    }
}

/// The direction along one axis from its two inputs.
fn axis(negative: bool, positive: bool) -> (direction: i8)
    ensures
        direction == axis_direction(negative, positive),
        -1 <= direction <= 1,
{
    let up: i8 = if positive {
        1
    } else {
        0
    };
    let down: i8 = if negative {
        1
    } else {
        0
    };
    up - down
}

/// The x coordinate that a step from `position` aims at.
pub open spec fn target_x(
    position: Position,
    input: InputState,
    config: MotionConfig,
    dt: u64,
) -> int {
    position.x + displacement(input.direction_x(), config.speed as int, dt as int)
}

/// The z coordinate that a step from `position` aims at.
pub open spec fn target_z(
    position: Position,
    input: InputState,
    config: MotionConfig,
    dt: u64,
) -> int {
    position.z + displacement(input.direction_z(config.forward), config.speed as int, dt as int)
}

/// Where the avatar stands after one step of `dt` time units under `input`:
/// each coordinate moves by direction times speed times `dt`, with no bound
/// but `AVATAR_RANGE`.
pub open spec fn step_spec(
    position: Position,
    input: InputState,
    config: MotionConfig,
    dt: u64,
) -> Result<Position, MotionError> {
    let x = target_x(position, input, config, dt);
    let z = target_z(position, input, config, dt);
    if reachable(x) && reachable(z) {
        Ok(Position::at(x, z))
    } else {
        Err(MotionError::AvatarOutOfRange)
    }
}

/// The camera that follows an avatar at `position`: it stands at `offset`
/// from the avatar.
pub open spec fn follow_spec(position: Position, offset: CameraFollowOffset) -> CameraState {
    CameraState { position: Position::at(position.x + offset.dx, position.z + offset.dz) }
}

/// Where the avatar stands after one tick: where its step brings it, or
/// where it stood if it could not take the step.
pub open spec fn avatar_after_tick(
    position: Position,
    input: InputState,
    config: MotionConfig,
    dt: u64,
) -> Position {
    match step_spec(position, input, config, dt) {
        Ok(moved) => moved,
        Err(_) => position,
    }
}

/// The camera after one tick in which the avatar came to stand at `avatar`:
/// a camera follows the avatar, wherever it stood before, and no camera
/// stays no camera.
pub open spec fn camera_after_tick(
    avatar: Position,
    camera: Option<CameraState>,
    offset: CameraFollowOffset,
) -> Option<CameraState> {
    match camera {
        None => None,
        Some(_) => Some(follow_spec(avatar, offset)),
    }
}

/// Moves one coordinate, or gives `None` when the avatar cannot stand at
/// the result.
fn advance(coordinate: i128, direction: i8, speed: u32, dt: u64) -> (moved: Option<i128>)
    requires
        reachable(coordinate as int),
        -1 <= direction <= 1,
    ensures
        moved == if reachable(
            coordinate + displacement(direction as int, speed as int, dt as int),
        ) {
            Some((coordinate + displacement(direction as int, speed as int, dt as int)) as i128)
        } else {
            None::<i128>
        },
{
    assert(0 <= speed * dt <= 0x1_0000_0000 * 0x1_0000_0000_0000_0000) by (nonlinear_arith)
        requires
            0 <= speed <= 0xffff_ffff,
            0 <= dt <= 0xffff_ffff_ffff_ffff,
    ;
    let travel: i128 = (speed as i128) * (dt as i128);
    assert(-travel <= direction * travel <= travel) by (nonlinear_arith)
        requires
            -1 <= direction <= 1,
            0 <= travel,
    ;
    let target: i128 = coordinate + (direction as i128) * travel;
    if target < -AVATAR_RANGE || target > AVATAR_RANGE {
        None
    } else {
        Some(target)
    }
}

/// Takes one step of `dt` time units under `input` and returns the avatar's
/// new state. Opposite inputs cancel. The step fails, with
/// `MotionError::AvatarOutOfRange`, exactly when it would carry the avatar
/// beyond `AVATAR_RANGE`.
pub fn step(
    state: &AvatarState,
    input: &InputState,
    config: &MotionConfig,
    dt: u64,
) -> (stepped: Result<AvatarState, MotionError>)
    ensures
        match step_spec(state@, *input, *config, dt) {
            Ok(moved) => stepped matches Ok(next) && next@ == moved,
            Err(error) => stepped == Err::<AvatarState, MotionError>(error),
        },
        *input == InputState::idle() ==> stepped == Ok::<AvatarState, MotionError>(*state),
{
    let direction: (i8, i8) = input.direction(config.forward);
    proof {
        use_type_invariant(state);
        lemma_idle_step(state@, *config, dt);
    }
    match (
        advance(state.position.x, direction.0, config.speed, dt),
        advance(state.position.z, direction.1, config.speed, dt),
    ) {
        (Some(x), Some(z)) => Ok(AvatarState { position: Position { x, z } }),
        _ => Err(MotionError::AvatarOutOfRange),
    }
}

/// Places the camera at `offset` from `avatar`.
pub fn follow(avatar: &AvatarState, offset: &CameraFollowOffset) -> (followed: CameraState)
    ensures
        followed == follow_spec(avatar@, *offset),
        followed.position.x - avatar@.x == offset.dx,
        followed.position.z - avatar@.z == offset.dz,
{
    proof {
        use_type_invariant(avatar);
        lemma_follow_keeps_offset(avatar@, *offset);
    }
    CameraState {
        position: Position {
            x: avatar.position.x + (offset.dx as i128),
            z: avatar.position.z + (offset.dz as i128),
        },
    }
}

/// Takes one tick of `dt` time units: the avatar steps under `input`, and
/// the camera, if there is one, is then placed at `offset` from where the
/// avatar stands after the step. A missing camera is no error. Where the
/// avatar cannot take its step, it stays where it is, the camera is placed
/// at `offset` from there, and the tick reports the error.
pub fn tick(
    avatar: &mut AvatarState,
    camera: &mut Option<CameraState>,
    input: &InputState,
    config: &MotionConfig,
    offset: &CameraFollowOffset,
    dt: u64,
) -> (done: Result<(), MotionError>)
    ensures
        final(avatar)@ == avatar_after_tick(old(avatar)@, *input, *config, dt),
        *final(camera) == camera_after_tick(final(avatar)@, *old(camera), *offset),
        done is Ok <==> step_spec(old(avatar)@, *input, *config, dt) is Ok,
        done is Err ==> done == Err::<(), MotionError>(MotionError::AvatarOutOfRange),
        *final(camera) matches Some(followed) ==> {
            &&& followed.position.x - final(avatar)@.x == offset.dx
            &&& followed.position.z - final(avatar)@.z == offset.dz
        },
{
    let stepped: Result<AvatarState, MotionError> = step(avatar, input, config, dt);
    let done: Result<(), MotionError> = match stepped {
        Ok(moved) => {
            *avatar = moved;
            Ok(())
        },
        Err(error) => Err(error),
    };
    if camera.is_some() {
        *camera = Some(follow(avatar, offset));
    }
    done
}

} // verus!
