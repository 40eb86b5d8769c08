//! Keyboard state: which keys are held, and what the held keys ask of the
//! camera.

use vstd::prelude::*;

verus! {

/// Number of keys in the table.
pub const KEY_COUNT: usize = 188;

/// The identity of a physical key: a code below [`KEY_COUNT`].
#[derive(Debug, Clone, Copy, PartialEq, Eq)]
pub struct Key {
    code: usize,
}

impl View for Key {
    type V = int;

    closed spec fn view(&self) -> int {
        self.code as int
    }
}

impl Key {
    #[verifier::type_invariant]
    spec fn in_table(&self) -> bool {
        self.code < KEY_COUNT
    }

    /// The key with code `code`, if there is one.
    pub fn new(code: usize) -> (key: Option<Key>)
        ensures
            key is Some <==> code < KEY_COUNT,
            key matches Some(k) ==> k@ == code,
    {
        if code < KEY_COUNT {
            Some(Key { code })
        } else {
            None
        }
    }

    /// The code of the key.
    pub fn code(&self) -> (code: usize)
        ensures
            code == self@,
            code < KEY_COUNT,
    {
        proof {
            use_type_invariant(self);
        }
        self.code
    }
}

/// For each key, whether it is held down.
#[derive(Debug, Clone, PartialEq, Eq)]
pub struct KeyStates {
    pressed: [bool; 188],
}

impl View for KeyStates {
    type V = Seq<bool>;

    /// One entry for each key code.
    closed spec fn view(&self) -> Seq<bool> {
        self.pressed@
    }
}

impl KeyStates {
    /// The table has one entry for each key.
    pub proof fn lemma_one_entry_per_key(&self)
        ensures
            self@.len() == KEY_COUNT,
    {
    }

    /// A table in which no key is held.
    pub fn new() -> (keys: KeyStates)
        ensures
            keys@ == Seq::new(KEY_COUNT as nat, |i: int| false),
    {
        let keys = KeyStates { pressed: [false;188] };
        assert(keys@ =~= Seq::new(KEY_COUNT as nat, |i: int| false));
        keys
    }

    /// Whether `key` is held.
    pub fn is_pressed(&self, key: Key) -> (pressed: bool)
        ensures
            pressed == self@[key@],
    {
        self.pressed[key.code()]
    }

    /// Records that `key` is held, or that it is not.
    pub fn set(&mut self, key: Key, pressed: bool)
        ensures
            final(self)@ == old(self)@.update(key@, pressed),
    {
        let code: usize = key.code();
        self.pressed[code] = pressed;
        assert(self@ =~= old(self)@.update(key@, pressed));
    }
}

/// The keys that steer the camera and the loop.
#[derive(Debug, Clone, Copy, PartialEq, Eq)]
pub struct Controls {
    /// Moves the camera along its forward vector.
    pub forward: Key,
    /// Moves the camera against its forward vector.
    pub back: Key,
    /// Moves the camera along its right vector, which is the forward
    /// vector of the yaw angle plus a quarter turn.
    pub strafe_right: Key,
    /// Moves the camera against its right vector.
    pub strafe_left: Key,
    /// Turns the camera towards larger yaw angles.
    pub turn_left: Key,
    /// Turns the camera towards smaller yaw angles.
    pub turn_right: Key,
    /// Asks for a restart with vertical synchronisation toggled.
    pub restart: Key,
}

/// The sense in which something moves along an axis.
#[derive(Debug, Clone, Copy, PartialEq, Eq, Structural)]
pub enum Sense {
    /// Against the axis.
    Negative,
    /// Not at all.
    Still,
    /// Along the axis.
    Positive,
}

/// What the held keys ask of the camera in one frame.
#[derive(Debug, Clone, Copy, PartialEq, Eq, Structural)]
pub struct Motion {
    /// Along or against the forward vector.
    pub advance: Sense,
    /// Along or against the right vector.
    pub strafe: Sense,
    /// Towards larger or smaller yaw angles.
    pub turn: Sense,
}

/// Position of the camera at start-up, in world units along x, y and z.
pub const INITIAL_POSITION: (i32, i32, i32) = (0, 0, -5);

/// Yaw angle of the camera at start-up, in degrees.
pub const INITIAL_YAW: i32 = 0;

/// Distance in world units that the camera moves in one second.
pub const MOVE_SPEED: u32 = 3;

/// Degrees that the camera turns in one second.
pub const TURN_SPEED: u32 = 120;

/// The sense chosen by two opposing keys: the first wins when both are
/// held.
pub open spec fn sense_of(first: bool, second: bool) -> Sense {
    if first {
        Sense::Positive
    } else if second {
        Sense::Negative
    } else {
        Sense::Still
    }
}

/// The motion that `keys` ask for under `controls`. On each axis one
/// direction wins: forward over back, right over left, left turn over
/// right turn.
pub open spec fn motion_of(keys: Seq<bool>, controls: Controls) -> Motion {
    Motion {
        advance: sense_of(keys[controls.forward@], keys[controls.back@]),
        strafe: sense_of(keys[controls.strafe_right@], keys[controls.strafe_left@]),
        turn: sense_of(keys[controls.turn_left@], keys[controls.turn_right@]),
    }
}

fn sense(first: bool, second: bool) -> (s: Sense)
    ensures
        s == sense_of(first, second),
{
    if first {
        Sense::Positive
    } else if second {
        Sense::Negative
    } else {
        Sense::Still
    }
}

/// The motion that the held keys ask for.
pub fn motion(keys: &KeyStates, controls: &Controls) -> (m: Motion)
    ensures
        m == motion_of(keys@, *controls),
{
    Motion {
        advance: sense(keys.is_pressed(controls.forward), keys.is_pressed(controls.back)),
        strafe: sense(
            keys.is_pressed(controls.strafe_right),
            keys.is_pressed(controls.strafe_left),
        ),
        turn: sense(keys.is_pressed(controls.turn_left), keys.is_pressed(controls.turn_right)),
    }
}

/// While the forward key is held the camera advances, whether or not the
/// back key is held too: opposing keys never cancel.
pub proof fn lemma_forward_wins(keys: Seq<bool>, controls: Controls)
    requires
        keys[controls.forward@],
    ensures
        motion_of(keys, controls).advance == Sense::Positive,
{
}

/// With only the back key of the two held, the camera retreats; with
/// neither, it does not move along its forward vector.
pub proof fn lemma_back_only_without_forward(keys: Seq<bool>, controls: Controls)
    requires
        !keys[controls.forward@],
    ensures
        keys[controls.back@] ==> motion_of(keys, controls).advance == Sense::Negative,
        !keys[controls.back@] ==> motion_of(keys, controls).advance == Sense::Still,
{
}

/// Number of nanoseconds in a second.
pub const NANOS_PER_SECOND: u64 = 1_000_000_000;

/// How far something that moves at `speed` units a second in the sense
/// `sense` gets in `nanos` nanoseconds, in billionths of a unit.
pub open spec fn covered(sense: Sense, speed: u32, nanos: u64) -> int {
    match sense {
        Sense::Positive => speed * nanos,
        Sense::Still => 0,
        Sense::Negative => -(speed * nanos),
    }
}

/// How far the camera gets in `nanos` nanoseconds of moving, in
/// billionths of a world unit: speed times time, whatever the frame rate.
pub fn travel(nanos: u64) -> (distance: u128)
    ensures
        distance == MOVE_SPEED * nanos,
{
    assert(MOVE_SPEED * nanos <= 0xFFFF_FFFF * 0xFFFF_FFFF_FFFF_FFFF) by (nonlinear_arith)
        requires
            MOVE_SPEED <= 0xFFFF_FFFF,
            nanos <= 0xFFFF_FFFF_FFFF_FFFF,
    ;
    MOVE_SPEED as u128 * nanos as u128
}

/// How far the camera turns in `nanos` nanoseconds of turning, in
/// billionths of a degree.
pub fn rotation(nanos: u64) -> (angle: u128)
    ensures
        angle == TURN_SPEED * nanos,
{
    assert(TURN_SPEED * nanos <= 0xFFFF_FFFF * 0xFFFF_FFFF_FFFF_FFFF) by (nonlinear_arith)
        requires
            TURN_SPEED <= 0xFFFF_FFFF,
            nanos <= 0xFFFF_FFFF_FFFF_FFFF,
    ;
    TURN_SPEED as u128 * nanos as u128
}

/// While the forward key is held for `nanos` nanoseconds, the camera moves
/// along its forward vector by exactly its speed times that time, whether
/// or not the back key is held too.
pub proof fn lemma_forward_moves_by_speed_times_time(
    keys: Seq<bool>,
    controls: Controls,
    nanos: u64,
)
    requires
        keys[controls.forward@],
    ensures
        motion_of(keys, controls).advance == Sense::Positive,
        covered(motion_of(keys, controls).advance, MOVE_SPEED, nanos) == MOVE_SPEED * nanos,
        nanos > 0 ==> covered(motion_of(keys, controls).advance, MOVE_SPEED, nanos) > 0,
{
    assert(nanos > 0 ==> MOVE_SPEED * nanos > 0) by (nonlinear_arith);
}

} // verus!
