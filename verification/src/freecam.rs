//! The free camera's state and its transitions.
//!
//! A [`Freecam`] holds what the camera remembers between frames: whether it
//! is on, its angles and position, the recorded keyframes and where playback
//! stands. Every transition is a method; what it does is stated over
//! [`FreecamView`], the state as mathematical values.
//!
//! The camera is in one of three modes, see [`CameraMode`]. It is switched
//! on and off by the user, and while it is on a recorded path may drive it:
//! a camera that is off plays no path.
//! Two latches live beside the mode: `awaiting_initial_sync`, set when the
//! camera is switched on and cleared by the first synchronisation with the
//! game's camera, and `event_params_initialized`, the same for a cutscene.
//!
//! Numbers that need rounding arithmetic come in from the host: the angles
//! after a turn, the clock after a tick, the dot products of neighbouring
//! orientations. What this module decides on them it decides by comparing.

use vstd::prelude::*;
use crate::controls::Controls;
use crate::controls::Step;
use crate::curve::copy_nodes;
use crate::curve::interpolate;
use crate::curve::planned;
use crate::curve::segment_in_domain;
use crate::curve::CurvePlan;
use crate::curve::BSPLINE_DEGREE_QUADRATIC;
use crate::node::FreecamNode;
use crate::node::Quaternion;
use crate::node::Vector3;
use crate::path_file::decode_path;
use crate::path_file::decoded;
use crate::path_file::count_of;
use crate::path_file::encode_path;
use crate::path_file::encoded;
use crate::path_file::well_formed;
use crate::path_file::ByteOrder;
use crate::path_file::PathFileError;
use crate::scalar::lemma_larger_reaches_floor;
use crate::scalar::lemma_opposite_mirrors;
use crate::scalar::Scalar;
use crate::scalar::ONE_BITS;
use crate::scalar::ZERO_BITS;

verus! {

/// The pattern of `0.1`: the step by which the scene's speed is changed.
pub const FREQUENCY_SPEED_TICK_BITS: u32 = 0x3dcc_cccd;

/// The pattern of `3.0`: the seconds that a path takes before it is changed.
pub const NODE_PATH_DEFAULT_TIME_BITS: u32 = 0x4040_0000;

/// The pattern of `0.25`: the step by which a path's duration is changed,
/// and the shortest duration a path can have.
pub const NODE_PATH_STEP_BITS: u32 = 0x3e80_0000;

/// The three modes of the camera.
#[derive(Clone, Copy, Debug, PartialEq, Eq, Structural)]
pub enum CameraMode {
    /// The game's own camera shows the scene.
    Inactive,
    /// The user flies the camera.
    ActiveFree,
    /// A recorded path drives the camera.
    ActivePlayingPath,
}

/// Three angles in radians: pan about the vertical axis, then pitch, then roll.
#[derive(Clone, Copy, Debug, PartialEq, Eq, Structural)]
pub struct EulerAngles {
    pub pan: Scalar,
    pub pitch: Scalar,
    pub roll: Scalar,
}

/// The point the camera looks at and the direction that is up for it.
#[derive(Clone, Copy, Debug, PartialEq, Eq, Structural)]
pub struct LookFrame {
    pub lookat_pos: Vector3,
    pub up_vec: Vector3,
}

/// Where the camera is and how it is turned, after the motions of a frame.
#[derive(Clone, Copy, Debug, PartialEq, Eq, Structural)]
pub struct ViewState {
    pub angles: EulerAngles,
    pub camera_pos: Vector3,
    pub frame: LookFrame,
}

/// What is read off one of the game's cameras to start from: its angles and
/// position, and the same orientation as a quaternion.
#[derive(Clone, Copy, Debug, PartialEq, Eq, Structural)]
pub struct Baseline {
    pub angles: EulerAngles,
    pub position: Vector3,
    pub rot: Quaternion,
}

/// The path's clock after a tick, as the host computed it.
#[derive(Clone, Copy, Debug, PartialEq, Eq, Structural)]
pub struct PathClock {
    /// The seconds played so far plus the seconds of this frame.
    pub elapsed: Scalar,
    /// The seconds played, after they were capped at the duration, over the duration.
    pub percent: Scalar,
    /// For a spline, the whole part of the time in the knot domain.
    pub segment: usize,
}

/// What the host computes ahead of the path's controls.
#[derive(Clone, Copy, Debug, PartialEq, Eq, Structural)]
pub struct PathReadings {
    /// The camera's orientation, made from its three angles.
    pub rot: Quaternion,
    /// The path's duration less one step.
    pub shorter: Scalar,
    /// The path's duration plus one step.
    pub longer: Scalar,
}

/// What became of the request to take the last keyframe away.
#[derive(Clone, Copy, Debug, PartialEq, Eq, Structural)]
pub enum RemoveOutcome {
    NotAsked,
    /// The keyframe with this number, counted from one, was taken away.
    Removed { number: usize, node: FreecamNode },
    AlreadyEmpty,
}

/// What became of the request to take all keyframes away.
#[derive(Clone, Copy, Debug, PartialEq, Eq, Structural)]
pub enum ClearOutcome {
    NotAsked,
    /// This many keyframes were taken away.
    Cleared { count: usize },
    AlreadyEmpty,
}

/// What the path's controls did in one frame.
#[derive(Clone, Copy, Debug, PartialEq, Eq, Structural)]
pub struct PathOutcome {
    /// The number, counted from one, of the keyframe that was added.
    pub added: Option<usize>,
    /// The path's new duration, if it was changed.
    pub duration: Option<Scalar>,
    pub removed: RemoveOutcome,
    pub cleared: ClearOutcome,
    /// Whether playback is to start: it was asked for and there is a keyframe.
    pub start: bool,
}

/// What one frame's controls did, and what is left for the host to do.
#[derive(Clone, Copy, Debug, PartialEq, Eq, Structural)]
pub struct FrameOutcome {
    /// Whether the camera was switched, and to what: the host locks the
    /// game's camera when the free camera comes on and frees it when it goes off.
    pub switched: Option<bool>,
    /// The change of the scene's speed that was asked for.
    pub speed: Option<Step>,
    /// Whether the position lock was switched, and to what.
    pub locked: Option<bool>,
    /// What the path's controls did; `None` while the camera is off.
    pub path: Option<PathOutcome>,
}

/// What is to be done to a cutscene's camera in one frame.
#[derive(Clone, Copy, Debug, PartialEq, Eq, Structural)]
pub enum EventAction {
    /// Nothing: the game's camera is left alone.
    Skip,
    /// The free camera writes the view and the roll. With `from_path`, the
    /// last pose of the path is applied before the motions of the frame.
    Drive { captured: bool, from_path: bool },
    /// The free camera went off during the cutscene: the pose that was
    /// captured when it came on is written back, once.
    Restore { pose: FreecamNode },
}

/// The state of the free camera as mathematical values.
pub struct FreecamView {
    pub mode: CameraMode,
    pub awaiting_initial_sync: bool,
    pub movement_locked: bool,
    pub event_params_initialized: bool,
    pub pan: Scalar,
    pub pitch: Scalar,
    pub roll: Scalar,
    pub camera_pos: Vector3,
    pub lookat_pos: Vector3,
    pub up_vec: Vector3,
    pub nodes: Seq<FreecamNode>,
    pub node_path_time: Scalar,
    pub node_path_current: Scalar,
    pub node_path_percent: Scalar,
    pub last_interp: FreecamNode,
    pub return_node: FreecamNode,
}

/// The dot product of the keyframe `i - 1`, as it leaves the sign
/// correction, with the keyframe `i`, as it is recorded. `dots[k]` is the
/// dot product of the orientations `k` and `k + 1` as they are recorded;
/// flipping one factor of a dot product flips the product's sign and
/// nothing else.
pub open spec fn dot_with_corrected(dots: Seq<Scalar>, i: nat) -> Scalar
    recommends
        1 <= i <= dots.len(),
    decreases i, 0nat,
{
    if i >= 1 && flips(dots, (i - 1) as nat) {
        dots[i - 1].opposite()
    } else {
        dots[i - 1]
    }
}

/// Whether the orientation of the keyframe `i` is flipped by the sign
/// correction. The first keyframe stays. A later one is flipped when its
/// dot product with the keyframe before it, as that one leaves the
/// correction, is below zero.
pub open spec fn flips(dots: Seq<Scalar>, i: nat) -> bool
    decreases i, 1nat,
{
    if i == 0 || i > dots.len() {
        false
    } else {
        dot_with_corrected(dots, i).less(Scalar { bits: ZERO_BITS })
    }
}

/// The keyframes after the sign correction: positions stay, and the
/// orientations that [`flips`] names are written with the opposite sign.
pub open spec fn corrected(nodes: Seq<FreecamNode>, dots: Seq<Scalar>) -> Seq<FreecamNode> {
    Seq::new(
        nodes.len(),
        |i: int|
            if flips(dots, i as nat) {
                nodes[i].flipped()
            } else {
                nodes[i]
            },
    )
}

/// The dot product of the keyframes `i` and `i + 1` after a correction, as
/// far as its sign goes: the recorded product, with its sign flipped when
/// exactly one of the two keyframes was flipped.
pub open spec fn dot_after(dots: Seq<Scalar>, i: int) -> Scalar
    recommends
        0 <= i < dots.len(),
{
    if flips(dots, i as nat) != flips(dots, (i + 1) as nat) {
        dots[i].opposite()
    } else {
        dots[i]
    }
}

/// Whether there is one dot product for every pair of neighbours.
pub open spec fn dots_fit(nodes: Seq<FreecamNode>, dots: Seq<Scalar>) -> bool {
    dots.len() + 1 == nodes.len() || (nodes.len() == 0 && dots.len() == 0)
}

impl FreecamView {
    /// What holds of every state: the path's duration is a number and at
    /// least one step, so never zero or below, and the fraction played is
    /// within `[0, 1]`.
    pub open spec fn inv(self) -> bool {
        &&& self.node_path_time.at_least(Scalar { bits: NODE_PATH_STEP_BITS })
        &&& self.node_path_percent.at_least(Scalar { bits: ZERO_BITS })
        &&& (Scalar { bits: ONE_BITS }).at_least(self.node_path_percent)
    }

    /// The state a camera starts in: off, at the origin, no keyframes.
    pub open spec fn initial() -> FreecamView {
        FreecamView {
            mode: CameraMode::Inactive,
            awaiting_initial_sync: false,
            movement_locked: false,
            event_params_initialized: false,
            pan: Scalar { bits: ZERO_BITS },
            pitch: Scalar { bits: ZERO_BITS },
            roll: Scalar { bits: ZERO_BITS },
            camera_pos: Vector3::origin(),
            lookat_pos: Vector3::origin(),
            up_vec: Vector3::vertical(),
            nodes: Seq::empty(),
            node_path_time: Scalar { bits: NODE_PATH_DEFAULT_TIME_BITS },
            node_path_current: Scalar { bits: ZERO_BITS },
            node_path_percent: Scalar { bits: ZERO_BITS },
            last_interp: FreecamNode::rest(),
            return_node: FreecamNode::rest(),
        }
    }

    /// Whether the camera is on.
    pub open spec fn active(self) -> bool {
        !(self.mode is Inactive)
    }

    /// Whether a path drives the camera.
    pub open spec fn playing_path(self) -> bool {
        self.mode is ActivePlayingPath
    }

    /// Switched on: a camera that was off is now flown by the user, and the
    /// first synchronisation is owed.
    pub open spec fn enabled(self) -> FreecamView {
        FreecamView {
            mode: if self.mode is Inactive {
                CameraMode::ActiveFree
            } else {
                self.mode
            },
            awaiting_initial_sync: true,
            ..self
        }
    }

    /// Switched off, from either active mode: a path that was played is
    /// played no longer. Nothing else changes.
    pub open spec fn disabled(self) -> FreecamView {
        FreecamView { mode: CameraMode::Inactive, ..self }
    }

    /// Switched to the other side.
    pub open spec fn toggled(self) -> FreecamView {
        if self.active() {
            self.disabled()
        } else {
            self.enabled()
        }
    }

    /// The position lock switched to the other side.
    pub open spec fn lock_toggled(self) -> FreecamView {
        FreecamView { movement_locked: !self.movement_locked, ..self }
    }

    /// The path's duration set to `seconds`, but to no less than one step.
    pub open spec fn with_path_time(self, seconds: Scalar) -> FreecamView {
        FreecamView {
            node_path_time: seconds.larger(Scalar { bits: NODE_PATH_STEP_BITS }),
            ..self
        }
    }

    /// A keyframe appended: the camera's position with the orientation `rot`.
    pub open spec fn with_node_added(self, rot: Quaternion) -> FreecamView {
        FreecamView {
            nodes: self.nodes.push(FreecamNode { trans: self.camera_pos, rot }),
            ..self
        }
    }

    /// The last keyframe taken away, if there is one.
    pub open spec fn without_last_node(self) -> FreecamView {
        if self.nodes.len() > 0 {
            FreecamView { nodes: self.nodes.drop_last(), ..self }
        } else {
            self
        }
    }

    /// All keyframes taken away.
    pub open spec fn without_nodes(self) -> FreecamView {
        FreecamView { nodes: Seq::empty(), ..self }
    }

    /// The keyframe `index` taken away, if there is one.
    pub open spec fn without_node(self, index: int) -> FreecamView {
        if 0 <= index < self.nodes.len() {
            FreecamView { nodes: self.nodes.remove(index), ..self }
        } else {
            self
        }
    }

    /// The keyframe `index` replaced, if there is one.
    pub open spec fn with_node(self, index: int, node: FreecamNode) -> FreecamView {
        if 0 <= index < self.nodes.len() {
            FreecamView { nodes: self.nodes.update(index, node), ..self }
        } else {
            self
        }
    }

    /// All keyframes replaced.
    pub open spec fn with_nodes(self, nodes: Seq<FreecamNode>) -> FreecamView {
        FreecamView { nodes, ..self }
    }

    /// The keyframes' orientations sign-corrected.
    pub open spec fn rotation_corrected(self, dots: Seq<Scalar>) -> FreecamView {
        FreecamView { nodes: corrected(self.nodes, dots), ..self }
    }

    /// Playback started from the beginning, if the camera is on and there
    /// is a keyframe: otherwise nothing changes, and no path is played.
    pub open spec fn playback_started(self, dots: Seq<Scalar>) -> FreecamView {
        if self.nodes.len() > 0 && self.active() {
            FreecamView {
                node_path_current: Scalar { bits: ZERO_BITS },
                nodes: corrected(self.nodes, dots),
                mode: CameraMode::ActivePlayingPath,
                ..self
            }
        } else {
            self
        }
    }

    /// Playback paused if it runs, resumed if it does not; a path that was
    /// played to its end is resumed from the beginning. Without a keyframe,
    /// or while the camera is off, nothing changes.
    pub open spec fn playback_toggled(self, dots: Seq<Scalar>) -> FreecamView {
        if self.nodes.len() == 0 || !self.active() {
            self
        } else if self.playing_path() {
            FreecamView { mode: CameraMode::ActiveFree, ..self }
        } else {
            FreecamView {
                node_path_current: if self.node_path_current.at_least(self.node_path_time) {
                    Scalar { bits: ZERO_BITS }
                } else {
                    self.node_path_current
                },
                nodes: corrected(self.nodes, dots),
                mode: CameraMode::ActivePlayingPath,
                ..self
            }
        }
    }

    /// The mode after playback ended.
    pub open spec fn mode_after_playback(self) -> CameraMode {
        if self.mode is ActivePlayingPath {
            CameraMode::ActiveFree
        } else {
            self.mode
        }
    }

    /// Playback stopped and rewound.
    pub open spec fn playback_stopped(self) -> FreecamView {
        FreecamView {
            mode: self.mode_after_playback(),
            node_path_current: Scalar { bits: ZERO_BITS },
            node_path_percent: if self.nodes.len() > 0 {
                Scalar { bits: ZERO_BITS }
            } else {
                self.node_path_percent
            },
            ..self
        }
    }

    /// One tick of the path's clock. The seconds played are capped at the
    /// duration, and playback ends when they reach it, or when there are
    /// fewer than two keyframes.
    pub open spec fn ticked(self, clock: PathClock) -> FreecamView {
        let current = clock.elapsed.smaller(self.node_path_time);
        FreecamView {
            node_path_current: current,
            node_path_percent: clock.percent.unit_clamped(),
            mode: if self.nodes.len() >= 2 && !current.at_least(self.node_path_time) {
                self.mode
            } else {
                self.mode_after_playback()
            },
            ..self
        }
    }

    /// The angles replaced.
    pub open spec fn with_angles(self, angles: EulerAngles) -> FreecamView {
        FreecamView { pan: angles.pan, pitch: angles.pitch, roll: angles.roll, ..self }
    }

    /// The outcome of a frame's motions taken over. While the position is
    /// locked, the position stays.
    pub open spec fn with_view(self, view: ViewState) -> FreecamView {
        FreecamView {
            pan: view.angles.pan,
            pitch: view.angles.pitch,
            roll: view.angles.roll,
            camera_pos: if self.movement_locked {
                self.camera_pos
            } else {
                view.camera_pos
            },
            lookat_pos: view.frame.lookat_pos,
            up_vec: view.frame.up_vec,
            ..self
        }
    }

    /// A pose of the path taken over: the camera stands where the pose
    /// stands, and the pose is remembered as the last one of the path.
    pub open spec fn with_interp(
        self,
        payload: FreecamNode,
        angles: EulerAngles,
        frame: LookFrame,
    ) -> FreecamView {
        FreecamView {
            pan: angles.pan,
            pitch: angles.pitch,
            roll: angles.roll,
            camera_pos: payload.trans,
            lookat_pos: frame.lookat_pos,
            up_vec: frame.up_vec,
            last_interp: payload,
            ..self
        }
    }

    /// The first synchronisation after the camera was switched on: the
    /// baseline is taken over if the game's camera could be read, and the
    /// latch is cleared either way. Without the latch nothing changes.
    pub open spec fn initial_synced(self, baseline: Option<Baseline>) -> FreecamView {
        if !self.awaiting_initial_sync {
            self
        } else {
            match baseline {
                Some(b) => FreecamView {
                    pan: b.angles.pan,
                    pitch: b.angles.pitch,
                    roll: b.angles.roll,
                    camera_pos: b.position,
                    return_node: FreecamNode { trans: b.position, rot: b.rot },
                    awaiting_initial_sync: false,
                    ..self
                },
                None => FreecamView { awaiting_initial_sync: false, ..self },
            }
        }
    }

    /// What is done to a cutscene's camera, given what was read off it;
    /// `None` stands for a frame without such a camera.
    pub open spec fn event_action(self, camera: Option<Baseline>) -> EventAction {
        if camera is None {
            EventAction::Skip
        } else if self.active() {
            EventAction::Drive {
                captured: !self.event_params_initialized,
                from_path: self.playing_path(),
            }
        } else if self.event_params_initialized {
            EventAction::Restore { pose: self.return_node }
        } else {
            EventAction::Skip
        }
    }

    /// The state after a frame of a cutscene. When the free camera is on and
    /// the latch is clear, the baseline is captured and the latch set; when
    /// it is off and the latch is set, the camera returns to where the
    /// captured pose stands and the latch is cleared.
    pub open spec fn event_ticked(self, camera: Option<Baseline>) -> FreecamView {
        match camera {
            None => self,
            Some(b) => if self.active() {
                if self.event_params_initialized {
                    self
                } else {
                    FreecamView {
                        pan: b.angles.pan,
                        pitch: b.angles.pitch,
                        roll: b.angles.roll,
                        camera_pos: b.position,
                        return_node: FreecamNode { trans: b.position, rot: b.rot },
                        event_params_initialized: true,
                        ..self
                    }
                }
            } else if self.event_params_initialized {
                FreecamView {
                    camera_pos: self.return_node.trans,
                    event_params_initialized: false,
                    ..self
                }
            } else {
                self
            },
        }
    }

    /// The state after the path's controls of one frame: a keyframe is
    /// added, the duration changed, the last keyframe taken away, all
    /// keyframes taken away, in this order, each if asked for.
    pub open spec fn path_updated(self, controls: Controls, readings: PathReadings) -> FreecamView {
        let a = if controls.add_keyframe {
            self.with_node_added(readings.rot)
        } else {
            self
        };
        let b = match controls.duration_step() {
            Some(Step::Down) => a.with_path_time(readings.shorter),
            Some(Step::Up) => a.with_path_time(readings.longer),
            None => a,
        };
        let c = if controls.remove_last {
            b.without_last_node()
        } else {
            b
        };
        if controls.clear_keyframes {
            c.without_nodes()
        } else {
            c
        }
    }

    /// What the path's controls of one frame did.
    pub open spec fn path_outcome(self, controls: Controls, readings: PathReadings) -> PathOutcome {
        let after_add: int = if controls.add_keyframe {
            (self.nodes.len() + 1) as int
        } else {
            self.nodes.len() as int
        };
        let after_remove: int = if controls.remove_last && after_add > 0 {
            after_add - 1
        } else {
            after_add
        };
        let after_clear: int = if controls.clear_keyframes {
            0
        } else {
            after_remove
        };
        PathOutcome {
            added: if controls.add_keyframe {
                Some(after_add as usize)
            } else {
                None
            },
            duration: match controls.duration_step() {
                Some(Step::Down) => Some(readings.shorter.larger(Scalar { bits: NODE_PATH_STEP_BITS })),
                Some(Step::Up) => Some(readings.longer.larger(Scalar { bits: NODE_PATH_STEP_BITS })),
                None => None,
            },
            removed: if !controls.remove_last {
                RemoveOutcome::NotAsked
            } else if after_add == 0 {
                RemoveOutcome::AlreadyEmpty
            } else {
                RemoveOutcome::Removed {
                    number: after_add as usize,
                    node: if controls.add_keyframe {
                        FreecamNode { trans: self.camera_pos, rot: readings.rot }
                    } else {
                        self.nodes.last()
                    },
                }
            },
            cleared: if !controls.clear_keyframes {
                ClearOutcome::NotAsked
            } else if after_remove == 0 {
                ClearOutcome::AlreadyEmpty
            } else {
                ClearOutcome::Cleared { count: after_remove as usize }
            },
            start: controls.start_playback && after_clear > 0,
        }
    }

    /// The state after one frame's controls: the camera is switched if asked
    /// for; then, while it is on, the position lock is switched if asked for
    /// and the path's controls are served.
    pub open spec fn updated(self, controls: Controls, readings: PathReadings) -> FreecamView {
        let a = if controls.toggle_freecam {
            self.toggled()
        } else {
            self
        };
        if a.active() {
            let b = if controls.lock_camera {
                a.lock_toggled()
            } else {
                a
            };
            b.path_updated(controls, readings)
        } else {
            a
        }
    }

    /// What one frame's controls did.
    pub open spec fn frame_outcome(self, controls: Controls, readings: PathReadings) -> FrameOutcome {
        let a = if controls.toggle_freecam {
            self.toggled()
        } else {
            self
        };
        FrameOutcome {
            switched: if controls.toggle_freecam {
                Some(a.active())
            } else {
                None
            },
            speed: if a.active() {
                controls.speed_step()
            } else {
                None
            },
            locked: if a.active() && controls.lock_camera {
                Some(!a.movement_locked)
            } else {
                None
            },
            path: if a.active() {
                Some(a.path_outcome(controls, readings))
            } else {
                None
            },
        }
    }
}

/// The free camera.
pub struct Freecam {
    mode: CameraMode,
    awaiting_initial_sync: bool,
    movement_locked: bool,
    event_params_initialized: bool,
    pan: Scalar,
    pitch: Scalar,
    roll: Scalar,
    camera_pos: Vector3,
    lookat_pos: Vector3,
    up_vec: Vector3,
    nodes: Vec<FreecamNode>,
    timer: PathTimer,
    last_interp: FreecamNode,
    return_node: FreecamNode,
}

/// The path's clock: how long the path takes, how much of it was played.
struct PathTimer {
    time: Scalar,
    current: Scalar,
    percent: Scalar,
}

impl PathTimer {
    #[verifier::type_invariant]
    closed spec fn type_inv(self) -> bool {
        &&& self.time.at_least(Scalar { bits: NODE_PATH_STEP_BITS })
        &&& self.percent.at_least(Scalar { bits: ZERO_BITS })
        &&& (Scalar { bits: ONE_BITS }).at_least(self.percent)
    }

    fn new() -> (r: PathTimer)
        ensures
            r.time == (Scalar { bits: NODE_PATH_DEFAULT_TIME_BITS }),
            r.current == (Scalar { bits: ZERO_BITS }),
            r.percent == (Scalar { bits: ZERO_BITS }),
    {
        PathTimer {
            time: Scalar { bits: NODE_PATH_DEFAULT_TIME_BITS },
            current: Scalar::zero(),
            percent: Scalar::zero(),
        }
    }

    fn set_time(&mut self, seconds: Scalar)
        ensures
            final(self).time == seconds.larger(Scalar { bits: NODE_PATH_STEP_BITS }),
            final(self).current == old(self).current,
            final(self).percent == old(self).percent,
    {
        proof {
            use_type_invariant(&*self);
            lemma_larger_reaches_floor(seconds, Scalar { bits: NODE_PATH_STEP_BITS });
        }
        self.time = seconds.max(Scalar { bits: NODE_PATH_STEP_BITS });
    }

    fn set_current(&mut self, seconds: Scalar)
        ensures
            final(self).time == old(self).time,
            final(self).current == seconds,
            final(self).percent == old(self).percent,
    {
        proof {
            use_type_invariant(&*self);
        }
        self.current = seconds;
    }

    fn set_percent(&mut self, percent: Scalar)
        ensures
            final(self).time == old(self).time,
            final(self).current == old(self).current,
            final(self).percent == percent.unit_clamped(),
    {
        proof {
            use_type_invariant(&*self);
        }
        self.percent = percent.clamp_unit();
    }
}

impl View for Freecam {
    type V = FreecamView;

    closed spec fn view(&self) -> FreecamView {
        FreecamView {
            mode: self.mode,
            awaiting_initial_sync: self.awaiting_initial_sync,
            movement_locked: self.movement_locked,
            event_params_initialized: self.event_params_initialized,
            pan: self.pan,
            pitch: self.pitch,
            roll: self.roll,
            camera_pos: self.camera_pos,
            lookat_pos: self.lookat_pos,
            up_vec: self.up_vec,
            nodes: self.nodes@,
            node_path_time: self.timer.time,
            node_path_current: self.timer.current,
            node_path_percent: self.timer.percent,
            last_interp: self.last_interp,
            return_node: self.return_node,
        }
    }
}

impl Freecam {
    /// A camera in its first state.
    pub fn new() -> (r: Freecam)
        ensures
            r@ == FreecamView::initial(),
            r@.inv(),
    {
        Freecam {
            mode: CameraMode::Inactive,
            awaiting_initial_sync: false,
            movement_locked: false,
            event_params_initialized: false,
            pan: Scalar::zero(),
            pitch: Scalar::zero(),
            roll: Scalar::zero(),
            camera_pos: Vector3::zero(),
            lookat_pos: Vector3::zero(),
            up_vec: Vector3::unit_y(),
            nodes: Vec::new(),
            timer: PathTimer::new(),
            last_interp: FreecamNode::default(),
            return_node: FreecamNode::default(),
        }
    }

    /// Whether the camera is on.
    pub fn check_active(&self) -> (r: bool)
        ensures
            r == self@.active(),
    {
        match self.mode {
            CameraMode::Inactive => false,
            _ => true,
        }
    }

    /// The mode.
    pub fn mode(&self) -> (r: CameraMode)
        ensures
            r == self@.mode,
    {
        self.mode
    }

    /// Whether the first synchronisation after switching on is still owed.
    pub fn is_awaiting_initial_sync(&self) -> (r: bool)
        ensures
            r == self@.awaiting_initial_sync,
    {
        self.awaiting_initial_sync
    }

    /// Whether the position is locked.
    pub fn is_movement_locked(&self) -> (r: bool)
        ensures
            r == self@.movement_locked,
    {
        self.movement_locked
    }

    /// Whether a cutscene's baseline was captured and not yet given back.
    pub fn is_event_params_initialized(&self) -> (r: bool)
        ensures
            r == self@.event_params_initialized,
    {
        self.event_params_initialized
    }

    /// Whether a path is being played.
    pub fn is_playing_path(&self) -> (r: bool)
        ensures
            r == self@.playing_path(),
    {
        match self.mode {
            CameraMode::ActivePlayingPath => true,
            _ => false,
        }
    }

    /// The three angles.
    pub fn angles(&self) -> (r: EulerAngles)
        ensures
            r == (EulerAngles { pan: self@.pan, pitch: self@.pitch, roll: self@.roll }),
    {
        EulerAngles { pan: self.pan, pitch: self.pitch, roll: self.roll }
    }

    /// The roll.
    pub fn get_roll(&self) -> (r: Scalar)
        ensures
            r == self@.roll,
    {
        self.roll
    }

    /// Where the camera stands.
    pub fn camera_pos(&self) -> (r: Vector3)
        ensures
            r == self@.camera_pos,
    {
        self.camera_pos
    }

    /// The point the camera looks at.
    pub fn lookat_pos(&self) -> (r: Vector3)
        ensures
            r == self@.lookat_pos,
    {
        self.lookat_pos
    }

    /// The direction that is up for the camera.
    pub fn up_vec(&self) -> (r: Vector3)
        ensures
            r == self@.up_vec,
    {
        self.up_vec
    }

    /// The recorded keyframes.
    pub fn nodes(&self) -> (r: &Vec<FreecamNode>)
        ensures
            r@ == self@.nodes,
    {
        &self.nodes
    }

    /// How many keyframes are recorded.
    pub fn node_count(&self) -> (r: usize)
        ensures
            r == self@.nodes.len(),
    {
        self.nodes.len()
    }

    /// The seconds a path takes: a number, and never below one step.
    pub fn node_path_time(&self) -> (r: Scalar)
        ensures
            r == self@.node_path_time,
            r.at_least(Scalar { bits: NODE_PATH_STEP_BITS }),
            (Scalar { bits: ZERO_BITS }).less(r),
    {
        proof {
            use_type_invariant(&self.timer);
        }
        self.timer.time
    }

    /// The seconds of the path that were played.
    pub fn node_path_current(&self) -> (r: Scalar)
        ensures
            r == self@.node_path_current,
    {
        self.timer.current
    }

    /// The fraction of the path that was played, within `[0, 1]`.
    pub fn node_path_percent(&self) -> (r: Scalar)
        ensures
            r == self@.node_path_percent,
            r.at_least(Scalar { bits: ZERO_BITS }),
            (Scalar { bits: ONE_BITS }).at_least(r),
    {
        proof {
            use_type_invariant(&self.timer);
        }
        self.timer.percent
    }

    /// The last pose that a path gave.
    pub fn last_interp(&self) -> (r: FreecamNode)
        ensures
            r == self@.last_interp,
    {
        self.last_interp
    }

    /// The pose that was captured to return to.
    pub fn return_node(&self) -> (r: FreecamNode)
        ensures
            r == self@.return_node,
    {
        self.return_node
    }

    /// Switches the camera on. The caller locks the game's camera.
    pub fn enable_freecam_mode(&mut self)
        ensures
            final(self)@ == old(self)@.enabled(),
    {
        if !self.check_active() {
            self.mode = CameraMode::ActiveFree;
        }
        self.awaiting_initial_sync = true;
    }

    /// Switches the camera off. The caller frees the game's camera.
    pub fn disable_freecam_mode(&mut self)
        ensures
            final(self)@ == old(self)@.disabled(),
    {
        self.mode = CameraMode::Inactive;
    }

    /// Switches the camera to the other side and says whether it is on now.
    pub fn toggle_freecam_mode(&mut self) -> (now_active: bool)
        ensures
            final(self)@ == old(self)@.toggled(),
            now_active == !old(self)@.active(),
            now_active == final(self)@.active(),
    {
        if self.check_active() {
            self.disable_freecam_mode();
            false
        } else {
            self.enable_freecam_mode();
            true
        }
    }

    /// Switches the position lock to the other side if `pressed`, and says
    /// whether the position is locked now.
    pub fn lock_camera_position(&mut self, pressed: bool) -> (locked: bool)
        ensures
            final(self)@ == if pressed {
                old(self)@.lock_toggled()
            } else {
                old(self)@
            },
            locked == final(self)@.movement_locked,
    {
        if pressed {
            self.movement_locked = !self.movement_locked;
        }
        self.movement_locked
    }

    /// Sets the path's duration to `seconds`, but to no less than one step;
    /// a NaN gives one step. Returns the new duration.
    pub fn change_node_path_time(&mut self, seconds: Scalar) -> (r: Scalar)
        ensures
            final(self)@ == old(self)@.with_path_time(seconds),
            r == final(self)@.node_path_time,
            r.at_least(Scalar { bits: NODE_PATH_STEP_BITS }),
    {
        proof {
            lemma_larger_reaches_floor(seconds, Scalar { bits: NODE_PATH_STEP_BITS });
        }
        self.timer.set_time(seconds);
        self.timer.time
    }

    /// Appends a keyframe: the camera's position with the orientation
    /// `rot`, which the caller makes from the camera's angles. Returns the
    /// keyframe's number, counted from one.
    pub fn add_camera_node(&mut self, rot: Quaternion) -> (number: usize)
        ensures
            final(self)@ == old(self)@.with_node_added(rot),
            number == final(self)@.nodes.len(),
    {
        let node: FreecamNode = FreecamNode::new(self.camera_pos, rot);
        self.nodes.push(node);
        self.nodes.len()
    }

    /// Takes the last keyframe away and returns it; `None`, and no change,
    /// when there is none.
    pub fn remove_last_node(&mut self) -> (r: Option<FreecamNode>)
        ensures
            final(self)@ == old(self)@.without_last_node(),
            r == if old(self)@.nodes.len() > 0 {
                Some(old(self)@.nodes.last())
            } else {
                None
            },
    {
        let r: Option<FreecamNode> = self.nodes.pop();
        proof {
            if old(self)@.nodes.len() > 0 {
                assert(self.nodes@ =~= old(self)@.nodes.drop_last());
            }
        }
        r
    }

    /// Takes all keyframes away and returns how many there were.
    pub fn clear_nodes(&mut self) -> (count: usize)
        ensures
            final(self)@ == old(self)@.without_nodes(),
            count == old(self)@.nodes.len(),
    {
        let count: usize = self.nodes.len();
        self.nodes.clear();
        count
    }

    /// Takes the keyframe `index` away and returns it; `None`, and no
    /// change, when there is no such keyframe.
    pub fn remove_node(&mut self, index: usize) -> (r: Option<FreecamNode>)
        ensures
            final(self)@ == old(self)@.without_node(index as int),
            r == if index < old(self)@.nodes.len() {
                Some(old(self)@.nodes[index as int])
            } else {
                None
            },
    {
        if index < self.nodes.len() {
            let node: FreecamNode = self.nodes.remove(index);
            Some(node)
        } else {
            None
        }
    }

    /// Moves the keyframe `index` to `trans`; says whether there is such a keyframe.
    pub fn set_node_translation(&mut self, index: usize, trans: Vector3) -> (found: bool)
        ensures
            found == (index < old(self)@.nodes.len()),
            found ==> final(self)@ == old(self)@.with_node(
                index as int,
                FreecamNode { trans, rot: old(self)@.nodes[index as int].rot },
            ),
            !found ==> final(self)@ == old(self)@,
    {
        if index < self.nodes.len() {
            let rot: Quaternion = self.nodes[index].rot;
            self.nodes[index] = FreecamNode { trans, rot };
            true
        } else {
            false
        }
    }

    /// Turns the keyframe `index` to `rot`; says whether there is such a keyframe.
    pub fn set_node_rotation(&mut self, index: usize, rot: Quaternion) -> (found: bool)
        ensures
            found == (index < old(self)@.nodes.len()),
            found ==> final(self)@ == old(self)@.with_node(
                index as int,
                FreecamNode { trans: old(self)@.nodes[index as int].trans, rot },
            ),
            !found ==> final(self)@ == old(self)@,
    {
        if index < self.nodes.len() {
            let trans: Vector3 = self.nodes[index].trans;
            self.nodes[index] = FreecamNode { trans, rot };
            true
        } else {
            false
        }
    }

    /// The sign correction: goes through the keyframes in order and, where
    /// the dot product of an orientation with the one before it is below
    /// zero, writes the orientation with the opposite sign, so that a path
    /// never turns the long way round. The one before is taken as the
    /// correction left it.
    ///
    /// `dots[k]` is the dot product of the orientations `k` and `k + 1` as
    /// they are recorded now. Where the orientation before was flipped, the
    /// product with it is the recorded one with the opposite sign.
    pub fn correct_node_rotation(&mut self, dots: &Vec<Scalar>)
        requires
            dots_fit(old(self)@.nodes, dots@),
        ensures
            final(self)@ == old(self)@.rotation_corrected(dots@),
    {
        let len: usize = self.nodes.len();
        let mut flipped: bool = false;
        let mut i: usize = 1;
        while i < len
            invariant
                len == self.nodes@.len(),
                len == old(self)@.nodes.len(),
                dots_fit(old(self)@.nodes, dots@),
                1 <= i,
                i <= len || len == 0,
                flipped == flips(dots@, (i - 1) as nat),
                forall|k: int| 0 <= k < i && k < len ==> self.nodes@[k] == corrected(old(self)@.nodes, dots@)[k],
                forall|k: int| i <= k < len ==> self.nodes@[k] == old(self)@.nodes[k],
                self.mode == old(self).mode,
                self.awaiting_initial_sync == old(self).awaiting_initial_sync,
                self.movement_locked == old(self).movement_locked,
                self.event_params_initialized == old(self).event_params_initialized,
                self.pan == old(self).pan,
                self.pitch == old(self).pitch,
                self.roll == old(self).roll,
                self.camera_pos == old(self).camera_pos,
                self.lookat_pos == old(self).lookat_pos,
                self.up_vec == old(self).up_vec,
                self.timer == old(self).timer,
                self.last_interp == old(self).last_interp,
                self.return_node == old(self).return_node,
            decreases len - i,
        {
            let dot: Scalar = dots[i - 1];
            let flip: bool = if flipped {
                dot.is_positive()
            } else {
                dot.is_negative()
            };
            proof {
                lemma_opposite_mirrors(dot);
                assert(flip == flips(dots@, i as nat));
            }
            if flip {
                let node: FreecamNode = self.nodes[i];
                self.nodes[i] = node.with_rot_negated();
            }
            flipped = flip;
            i = i + 1;
        }
        proof {
            assert(self.nodes@ =~= corrected(old(self)@.nodes, dots@));
        }
    }

    /// Starts playback from the beginning, after the sign correction.
    /// Without a keyframe, or while the camera is off, nothing happens, and
    /// no path is played. Says whether playback was started.
    pub fn start_playback(&mut self, dots: &Vec<Scalar>) -> (started: bool)
        requires
            dots_fit(old(self)@.nodes, dots@),
        ensures
            final(self)@ == old(self)@.playback_started(dots@),
            started == (old(self)@.nodes.len() > 0 && old(self)@.active()),
            started == final(self)@.playing_path() || old(self)@.playing_path(),
            old(self)@.nodes.len() == 0 ==> final(self)@ == old(self)@,
    {
        if self.nodes.len() > 0 && self.check_active() {
            self.timer.set_current(Scalar::zero());
            self.correct_node_rotation(dots);
            self.mode = CameraMode::ActivePlayingPath;
            true
        } else {
            false
        }
    }

    /// Pauses playback if it runs and resumes it if it does not.
    pub fn toggle_playback(&mut self, dots: &Vec<Scalar>)
        requires
            dots_fit(old(self)@.nodes, dots@),
        ensures
            final(self)@ == old(self)@.playback_toggled(dots@),
    {
        if self.nodes.len() > 0 && self.check_active() {
            if self.is_playing_path() {
                self.mode = CameraMode::ActiveFree;
            } else {
                if self.timer.current.ge(self.timer.time) {
                    self.timer.set_current(Scalar::zero());
                }
                self.correct_node_rotation(dots);
                self.mode = CameraMode::ActivePlayingPath;
            }
        }
    }

    /// Stops playback and rewinds the path. With a keyframe, returns the
    /// curve to show the path's first pose along; its spline segment is the
    /// first one.
    pub fn stop_playback(&mut self) -> (plan: Option<CurvePlan>)
        ensures
            final(self)@ == old(self)@.playback_stopped(),
            match plan {
                Some(p) => old(self)@.nodes.len() > 0 && p@ == planned(
                    old(self)@.nodes,
                    BSPLINE_DEGREE_QUADRATIC,
                ),
                None => old(self)@.nodes.len() == 0,
            },
    {
        if self.is_playing_path() {
            self.mode = CameraMode::ActiveFree;
        }
        self.timer.set_current(Scalar::zero());
        if self.nodes.len() > 0 {
            self.timer.set_percent(Scalar::zero());
            Some(interpolate(&self.nodes, BSPLINE_DEGREE_QUADRATIC))
        } else {
            None
        }
    }

    /// Advances the path by one tick and chooses the curve for its pose.
    ///
    /// The seconds played become `clock.elapsed`, capped at the duration;
    /// the fraction played becomes `clock.percent`, brought into `[0, 1]`.
    /// Playback ends when there are fewer than two keyframes, or when the
    /// seconds played reach the duration. The keyframes stay as they are.
    pub fn camera_path_tick(&mut self, clock: PathClock) -> (plan: CurvePlan)
        requires
            old(self)@.nodes.len() >= 4 ==> segment_in_domain(
                BSPLINE_DEGREE_QUADRATIC as nat,
                old(self)@.nodes.len(),
                clock.segment as nat,
            ),
        ensures
            final(self)@ == old(self)@.ticked(clock),
            plan@ == planned(old(self)@.nodes, clock.segment),
    {
        let current: Scalar = clock.elapsed.min(self.timer.time);
        let finished: bool = current.ge(self.timer.time);
        self.timer.set_current(current);
        self.timer.set_percent(clock.percent);
        let plan: CurvePlan = interpolate(&self.nodes, clock.segment);
        if (plan.ends_playback() || finished) && self.is_playing_path() {
            self.mode = CameraMode::ActiveFree;
        }
        plan
    }

    /// Takes over three angles.
    pub fn store_angles(&mut self, angles: EulerAngles)
        ensures
            final(self)@ == old(self)@.with_angles(angles),
    {
        self.pan = angles.pan;
        self.pitch = angles.pitch;
        self.roll = angles.roll;
    }

    /// Takes over the outcome of a frame's motions. While the position is
    /// locked, the camera stays where it is.
    pub fn store_view(&mut self, view: ViewState)
        ensures
            final(self)@ == old(self)@.with_view(view),
    {
        self.pan = view.angles.pan;
        self.pitch = view.angles.pitch;
        self.roll = view.angles.roll;
        if !self.movement_locked {
            self.camera_pos = view.camera_pos;
        }
        self.lookat_pos = view.frame.lookat_pos;
        self.up_vec = view.frame.up_vec;
    }

    /// Takes over a pose that a path gave: the camera stands where the pose
    /// stands, its angles and look frame are those the caller derived from
    /// the pose, and the pose is remembered.
    pub fn set_position_from_interp(
        &mut self,
        payload: FreecamNode,
        angles: EulerAngles,
        frame: LookFrame,
    )
        ensures
            final(self)@ == old(self)@.with_interp(payload, angles, frame),
    {
        self.pan = angles.pan;
        self.pitch = angles.pitch;
        self.roll = angles.roll;
        self.camera_pos = payload.trans;
        self.lookat_pos = frame.lookat_pos;
        self.up_vec = frame.up_vec;
        self.last_interp = payload;
    }

    /// Takes over the last pose that a path gave, once more.
    pub fn set_position_from_last_interp(&mut self, angles: EulerAngles, frame: LookFrame)
        ensures
            final(self)@ == old(self)@.with_interp(old(self)@.last_interp, angles, frame),
    {
        let payload: FreecamNode = self.last_interp;
        self.set_position_from_interp(payload, angles, frame);
    }

    /// The first synchronisation with the game's camera after the free
    /// camera was switched on. `baseline` is what was read off the game's
    /// camera, or `None` when there is none to read. Says whether a
    /// baseline was taken over.
    pub fn sync_initial_state(&mut self, baseline: Option<Baseline>) -> (captured: bool)
        ensures
            final(self)@ == old(self)@.initial_synced(baseline),
            captured == (old(self)@.awaiting_initial_sync && baseline is Some),
            !final(self)@.awaiting_initial_sync,
    {
        if self.awaiting_initial_sync {
            self.awaiting_initial_sync = false;
            match baseline {
                Some(b) => {
                    self.pan = b.angles.pan;
                    self.pitch = b.angles.pitch;
                    self.roll = b.angles.roll;
                    self.camera_pos = b.position;
                    self.return_node = FreecamNode::new(b.position, b.rot);
                    true
                },
                None => false,
            }
        } else {
            false
        }
    }

    /// One frame of a cutscene. `camera` is what was read off the
    /// cutscene's camera, or `None` when the cutscene has none.
    pub fn event_tick(&mut self, camera: Option<Baseline>) -> (action: EventAction)
        ensures
            final(self)@ == old(self)@.event_ticked(camera),
            action == old(self)@.event_action(camera),
    {
        match camera {
            None => EventAction::Skip,
            Some(b) => {
                if self.check_active() {
                    let captured: bool = !self.event_params_initialized;
                    if captured {
                        self.pan = b.angles.pan;
                        self.pitch = b.angles.pitch;
                        self.roll = b.angles.roll;
                        self.camera_pos = b.position;
                        self.return_node = FreecamNode::new(b.position, b.rot);
                        self.event_params_initialized = true;
                    }
                    EventAction::Drive { captured, from_path: self.is_playing_path() }
                } else if self.event_params_initialized {
                    let pose: FreecamNode = self.return_node;
                    self.camera_pos = pose.trans;
                    self.event_params_initialized = false;
                    EventAction::Restore { pose }
                } else {
                    EventAction::Skip
                }
            },
        }
    }

    /// Serves the path's controls of one frame: adds a keyframe, changes
    /// the duration, takes the last keyframe away, takes all keyframes
    /// away, each if asked for, and says whether playback is to start.
    pub fn update_camera_path(&mut self, controls: &Controls, readings: &PathReadings) -> (outcome:
        PathOutcome)
        ensures
            final(self)@ == old(self)@.path_updated(*controls, *readings),
            outcome == old(self)@.path_outcome(*controls, *readings),
            outcome.start == (controls.start_playback && final(self)@.nodes.len() > 0),
    {
        let added: Option<usize> = if controls.add_keyframe {
            Some(self.add_camera_node(readings.rot))
        } else {
            None
        };
        let duration: Option<Scalar> = match controls.duration_request() {
            Some(Step::Down) => Some(self.change_node_path_time(readings.shorter)),
            Some(Step::Up) => Some(self.change_node_path_time(readings.longer)),
            None => None,
        };
        let removed: RemoveOutcome = if controls.remove_last {
            let number: usize = self.nodes.len();
            match self.remove_last_node() {
                Some(node) => RemoveOutcome::Removed { number, node },
                None => RemoveOutcome::AlreadyEmpty,
            }
        } else {
            RemoveOutcome::NotAsked
        };
        let cleared: ClearOutcome = if controls.clear_keyframes {
            let count: usize = self.clear_nodes();
            if count > 0 {
                ClearOutcome::Cleared { count }
            } else {
                ClearOutcome::AlreadyEmpty
            }
        } else {
            ClearOutcome::NotAsked
        };
        let start: bool = controls.start_playback && self.nodes.len() > 0;
        PathOutcome { added, duration, removed, cleared, start }
    }

    /// Serves one frame's controls: switches the camera if asked for; then,
    /// while it is on, passes on the request for the scene's speed,
    /// switches the position lock if asked for, and serves the path's
    /// controls. What needs the host is in the outcome.
    pub fn update(&mut self, controls: &Controls, readings: &PathReadings) -> (outcome: FrameOutcome)
        ensures
            final(self)@ == old(self)@.updated(*controls, *readings),
            outcome == old(self)@.frame_outcome(*controls, *readings),
    {
        let switched: Option<bool> = if controls.toggle_freecam {
            Some(self.toggle_freecam_mode())
        } else {
            None
        };
        if self.check_active() {
            let speed: Option<Step> = controls.speed_request();
            let locked: Option<bool> = if controls.lock_camera {
                Some(self.lock_camera_position(true))
            } else {
                None
            };
            let path: PathOutcome = self.update_camera_path(controls, readings);
            FrameOutcome { switched, speed, locked, path: Some(path) }
        } else {
            FrameOutcome { switched, speed: None, locked: None, path: None }
        }
    }

    /// Reads a saved path. See [`decode_path`].
    pub fn read(buf: &[u8], order: ByteOrder) -> (r: Result<Vec<FreecamNode>, PathFileError>)
        ensures
            match r {
                Ok(nodes) => well_formed(buf@, order) && nodes@ == decoded(
                    buf@,
                    order,
                    count_of(buf@, order) as nat,
                ),
                Err(PathFileError::MissingCount { found }) => buf@.len() < 4 && found == buf@.len(),
                Err(PathFileError::Truncated { count, found }) => buf@.len() >= 4 && count
                    == count_of(buf@, order) && found == buf@.len() && buf@.len() < 4 + 28 * count,
                Err(PathFileError::TooManyNodes { .. }) => false,
            },
    {
        decode_path(buf, order)
    }

    /// Writes the recorded keyframes in their saved form. See [`encode_path`].
    pub fn write(&self, order: ByteOrder) -> (r: Result<Vec<u8>, PathFileError>)
        ensures
            match r {
                Ok(bytes) => self@.nodes.len() <= u32::MAX && bytes@ == encoded(self@.nodes, order),
                Err(e) => self@.nodes.len() > u32::MAX && e == (PathFileError::TooManyNodes {
                    len: self@.nodes.len() as usize,
                }),
            },
    {
        encode_path(&self.nodes, order)
    }

    /// Replaces the recorded keyframes by those of a saved path. When the
    /// bytes are no saved path, the keyframes stay as they are.
    pub fn load_path(&mut self, buf: &[u8], order: ByteOrder) -> (r: Result<usize, PathFileError>)
        ensures
            match r {
                Ok(count) => well_formed(buf@, order) && count == count_of(buf@, order)
                    && final(self)@ == old(self)@.with_nodes(
                    decoded(buf@, order, count_of(buf@, order) as nat),
                ),
                Err(PathFileError::MissingCount { found }) => buf@.len() < 4 && found == buf@.len()
                    && final(self)@ == old(self)@,
                Err(PathFileError::Truncated { count, found }) => buf@.len() >= 4 && count
                    == count_of(buf@, order) && found == buf@.len() && buf@.len() < 4 + 28 * count
                    && final(self)@ == old(self)@,
                Err(PathFileError::TooManyNodes { .. }) => false,
            },
    {
        match decode_path(buf, order) {
            Ok(nodes) => {
                let count: usize = nodes.len();
                self.nodes = nodes;
                Ok(count)
            },
            Err(e) => Err(e),
        }
    }

    /// A copy of the recorded keyframes.
    pub fn clone_nodes(&self) -> (r: Vec<FreecamNode>)
        ensures
            r@ == self@.nodes,
    {
        copy_nodes(&self.nodes)
    }
}

impl Default for Freecam {
    fn default() -> (r: Freecam)
        ensures
            r@ == FreecamView::initial(),
    {
        Freecam::new()
    }
}

} // verus!
