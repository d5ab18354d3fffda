//! What the user asks for in one frame: keys, held buttons and the speeds
//! that follow from them.
//!
//! The host polls the keyboard and the controller once per frame and hands
//! the snapshot over as plain flags. This module turns the flags into the
//! logical controls of the free camera and into a plan of which motions
//! apply; the host does the arithmetic of the motions.

use vstd::prelude::*;
use crate::scalar::Scalar;

verus! {

/// The pattern of `2.0`: the turning speed while the precise modifier is held.
pub const PRECISE_PAN_SPEED_BITS: u32 = 0x4000_0000;

/// The pattern of `5.0`: the moving speed while the precise modifier is held.
pub const PRECISE_MOVE_SPEED_BITS: u32 = 0x40a0_0000;

/// The pattern of `0.5`: the turning speed while the careful modifier is held.
pub const CAREFUL_PAN_SPEED_BITS: u32 = 0x3f00_0000;

/// The pattern of `0.2`: the moving speed while the careful modifier is held.
pub const CAREFUL_MOVE_SPEED_BITS: u32 = 0x3e4c_cccd;

/// The pattern of `1.0`: both speeds while no modifier is held.
pub const NORMAL_SPEED_BITS: u32 = 0x3f80_0000;

/// The pattern of `8000.0`: a stick's deflection is divided by this, over the
/// turning speed, to give the change of an angle in one frame.
pub const PAN_DIVISOR_BITS: u32 = 0x45fa_0000;

/// The pattern of `10.0`: a stick's deflection is divided by this, over the
/// moving speed, to give the distance moved in one frame.
pub const MOVE_DIVISOR_BITS: u32 = 0x4120_0000;

/// The pattern of `5.0`: the height gained or lost in one frame, times the
/// moving speed, while a shoulder button is held.
pub const VERTICAL_STEP_BITS: u32 = 0x40a0_0000;

/// The pattern of `0.1`: the roll gained or lost in one frame, in radians,
/// while the roll control is held.
pub const ROLL_STEP_BITS: u32 = 0x3dcc_cccd;

/// The pattern of `100.0`: how far in front of the camera the point lies that
/// the camera is said to look at.
pub const LOOK_DISTANCE_BITS: u32 = 0x42c8_0000;

/// The keys of one frame: a flag is set where the key went down since the
/// last poll. `focused` says whether the game's window has the keyboard.
#[derive(Clone, Copy, Debug, PartialEq, Eq, Structural)]
pub struct KeySnapshot {
    pub focused: bool,
    pub f4: bool,
    pub minus: bool,
    pub subtract: bool,
    pub plus: bool,
    pub add: bool,
    pub zero: bool,
    pub numpad0: bool,
    pub one: bool,
    pub numpad1: bool,
    pub two: bool,
    pub numpad2: bool,
    pub eight: bool,
    pub numpad8: bool,
    pub nine: bool,
    pub numpad9: bool,
    pub back: bool,
    pub delete: bool,
}

/// The logical controls of one frame.
#[derive(Clone, Copy, Debug, PartialEq, Eq, Structural)]
pub struct Controls {
    pub toggle_freecam: bool,
    pub speed_down: bool,
    pub speed_up: bool,
    pub lock_camera: bool,
    pub add_keyframe: bool,
    pub duration_down: bool,
    pub duration_up: bool,
    pub remove_last: bool,
    pub clear_keyframes: bool,
    pub start_playback: bool,
}

/// The direction of a stepwise change.
#[derive(Clone, Copy, Debug, PartialEq, Eq, Structural)]
pub enum Step {
    Down,
    Up,
}

/// The buttons of the controller that are held in one frame.
#[derive(Clone, Copy, Debug, PartialEq, Eq, Structural)]
pub struct HeldButtons {
    pub left_trigger: bool,
    pub right_trigger: bool,
    pub left_shoulder: bool,
    pub right_shoulder: bool,
    pub dpad_up: bool,
    pub dpad_down: bool,
}

/// How fast the camera turns and moves.
#[derive(Clone, Copy, Debug, PartialEq, Eq, Structural)]
pub enum SpeedModifier {
    /// Turning twice, moving five times as fast.
    Precise,
    /// Turning half, moving a fifth as fast.
    Careful,
    /// Both as they are.
    Normal,
}

/// Which motions apply in one frame.
#[derive(Clone, Copy, Debug, PartialEq, Eq, Structural)]
pub struct MotionPlan {
    /// The speeds of this frame.
    pub modifier: SpeedModifier,
    /// Whether the left stick moves the camera. The right stick always turns it.
    pub translate: bool,
    /// Whether the camera gains height.
    pub raise: bool,
    /// Whether the camera loses height.
    pub lower: bool,
    /// Whether the roll grows.
    pub roll_up: bool,
    /// Whether the roll shrinks.
    pub roll_down: bool,
}

impl KeySnapshot {
    /// The snapshot of a frame in which no key went down.
    pub fn idle() -> (r: KeySnapshot)
        ensures
            r.focused,
            Controls::of(r) == Controls::nothing(),
    {
        KeySnapshot {
            focused: true,
            f4: false,
            minus: false,
            subtract: false,
            plus: false,
            add: false,
            zero: false,
            numpad0: false,
            one: false,
            numpad1: false,
            two: false,
            numpad2: false,
            eight: false,
            numpad8: false,
            nine: false,
            numpad9: false,
            back: false,
            delete: false,
        }
    }
}

impl Controls {
    /// The controls of a frame in which nothing is asked for.
    pub open spec fn nothing() -> Controls {
        Controls {
            toggle_freecam: false,
            speed_down: false,
            speed_up: false,
            lock_camera: false,
            add_keyframe: false,
            duration_down: false,
            duration_up: false,
            remove_last: false,
            clear_keyframes: false,
            start_playback: false,
        }
    }

    /// The controls that a key snapshot stands for. A key counts only while
    /// the game's window has the keyboard; a digit of the number row and the
    /// same digit of the number pad are one control.
    pub open spec fn of(keys: KeySnapshot) -> Controls {
        Controls {
            toggle_freecam: keys.focused && keys.f4,
            speed_down: keys.focused && (keys.minus || keys.subtract),
            speed_up: keys.focused && (keys.plus || keys.add),
            lock_camera: keys.focused && (keys.zero || keys.numpad0),
            add_keyframe: keys.focused && (keys.one || keys.numpad1),
            duration_down: keys.focused && (keys.eight || keys.numpad8),
            duration_up: keys.focused && (keys.nine || keys.numpad9),
            remove_last: keys.focused && keys.back,
            clear_keyframes: keys.focused && keys.delete,
            start_playback: keys.focused && (keys.two || keys.numpad2),
        }
    }

    /// The change of the scene's speed that the controls ask for. Slower
    /// wins over faster.
    pub open spec fn speed_step(self) -> Option<Step> {
        if self.speed_down {
            Some(Step::Down)
        } else if self.speed_up {
            Some(Step::Up)
        } else {
            None
        }
    }

    /// The change of the path's duration that the controls ask for. Shorter
    /// wins over longer.
    pub open spec fn duration_step(self) -> Option<Step> {
        if self.duration_down {
            Some(Step::Down)
        } else if self.duration_up {
            Some(Step::Up)
        } else {
            None
        }
    }

    /// The controls of a frame in which nothing is asked for.
    pub fn none() -> (r: Controls)
        ensures
            r == Controls::nothing(),
    {
        Controls {
            toggle_freecam: false,
            speed_down: false,
            speed_up: false,
            lock_camera: false,
            add_keyframe: false,
            duration_down: false,
            duration_up: false,
            remove_last: false,
            clear_keyframes: false,
            start_playback: false,
        }
    }

    /// Reads the controls off a key snapshot.
    pub fn from_keys(keys: &KeySnapshot) -> (r: Controls)
        ensures
            r == Controls::of(*keys),
    {
        Controls {
            toggle_freecam: keys.focused && keys.f4,
            speed_down: keys.focused && (keys.minus || keys.subtract),
            speed_up: keys.focused && (keys.plus || keys.add),
            lock_camera: keys.focused && (keys.zero || keys.numpad0),
            add_keyframe: keys.focused && (keys.one || keys.numpad1),
            duration_down: keys.focused && (keys.eight || keys.numpad8),
            duration_up: keys.focused && (keys.nine || keys.numpad9),
            remove_last: keys.focused && keys.back,
            clear_keyframes: keys.focused && keys.delete,
            start_playback: keys.focused && (keys.two || keys.numpad2),
        }
    }

    /// The change of the scene's speed that the controls ask for.
    pub fn speed_request(&self) -> (r: Option<Step>)
        ensures
            r == self.speed_step(),
    {
        if self.speed_down {
            Some(Step::Down)
        } else if self.speed_up {
            Some(Step::Up)
        } else {
            None
        }
    }

    /// The change of the path's duration that the controls ask for.
    pub fn duration_request(&self) -> (r: Option<Step>)
        ensures
            r == self.duration_step(),
    {
        if self.duration_down {
            Some(Step::Down)
        } else if self.duration_up {
            Some(Step::Up)
        } else {
            None
        }
    }
}

impl HeldButtons {
    /// The speeds that the held buttons ask for. The left trigger wins over
    /// the right one.
    pub open spec fn modifier(self) -> SpeedModifier {
        if self.left_trigger {
            SpeedModifier::Precise
        } else if self.right_trigger {
            SpeedModifier::Careful
        } else {
            SpeedModifier::Normal
        }
    }

    /// The motions of a frame. While the camera's position is locked, the
    /// left stick and the shoulder buttons do nothing; turning and rolling
    /// stay free.
    pub open spec fn motion(self, movement_locked: bool) -> MotionPlan {
        MotionPlan {
            modifier: self.modifier(),
            translate: !movement_locked,
            raise: !movement_locked && self.left_shoulder,
            lower: !movement_locked && self.right_shoulder,
            roll_up: self.dpad_up,
            roll_down: self.dpad_down,
        }
    }

    /// No button held.
    pub fn released() -> (r: HeldButtons)
        ensures
            r.modifier() == SpeedModifier::Normal,
            r.motion(false) == (MotionPlan {
                modifier: SpeedModifier::Normal,
                translate: true,
                raise: false,
                lower: false,
                roll_up: false,
                roll_down: false,
            }),
    {
        HeldButtons {
            left_trigger: false,
            right_trigger: false,
            left_shoulder: false,
            right_shoulder: false,
            dpad_up: false,
            dpad_down: false,
        }
    }

    /// The speeds that the held buttons ask for.
    pub fn speed_modifier(&self) -> (r: SpeedModifier)
        ensures
            r == self.modifier(),
    {
        if self.left_trigger {
            SpeedModifier::Precise
        } else if self.right_trigger {
            SpeedModifier::Careful
        } else {
            SpeedModifier::Normal
        }
    }

    /// The motions of a frame.
    pub fn plan_motion(&self, movement_locked: bool) -> (r: MotionPlan)
        ensures
            r == self.motion(movement_locked),
    {
        MotionPlan {
            modifier: self.speed_modifier(),
            translate: !movement_locked,
            raise: !movement_locked && self.left_shoulder,
            lower: !movement_locked && self.right_shoulder,
            roll_up: self.dpad_up,
            roll_down: self.dpad_down,
        }
    }
}

impl SpeedModifier {
    /// The pattern of the factor on the turning speed.
    pub open spec fn pan_bits(self) -> u32 {
        match self {
            SpeedModifier::Precise => PRECISE_PAN_SPEED_BITS,
            SpeedModifier::Careful => CAREFUL_PAN_SPEED_BITS,
            SpeedModifier::Normal => NORMAL_SPEED_BITS,
        }
    }

    /// The pattern of the factor on the moving speed.
    pub open spec fn move_bits(self) -> u32 {
        match self {
            SpeedModifier::Precise => PRECISE_MOVE_SPEED_BITS,
            SpeedModifier::Careful => CAREFUL_MOVE_SPEED_BITS,
            SpeedModifier::Normal => NORMAL_SPEED_BITS,
        }
    }

    /// The factor on the turning speed: 2 when precise, 0.5 when careful, else 1.
    pub fn pan_speed(self) -> (r: Scalar)
        ensures
            r.bits == self.pan_bits(),
    {
        match self {
            SpeedModifier::Precise => Scalar { bits: PRECISE_PAN_SPEED_BITS },
            SpeedModifier::Careful => Scalar { bits: CAREFUL_PAN_SPEED_BITS },
            SpeedModifier::Normal => Scalar { bits: NORMAL_SPEED_BITS },
        }
    }

    /// The factor on the moving speed: 5 when precise, 0.2 when careful, else 1.
    pub fn move_speed(self) -> (r: Scalar)
        ensures
            r.bits == self.move_bits(),
    {
        match self {
            SpeedModifier::Precise => Scalar { bits: PRECISE_MOVE_SPEED_BITS },
            SpeedModifier::Careful => Scalar { bits: CAREFUL_MOVE_SPEED_BITS },
            SpeedModifier::Normal => Scalar { bits: NORMAL_SPEED_BITS },
        }
    }
}

} // verus!
