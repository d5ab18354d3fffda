//! Who writes the view in a frame: the free camera or the game's own camera.
//!
//! The game has a camera of its own in each of its three modes. While the
//! free camera is off, the game's camera runs as if the free camera were
//! not there. While it is on, the free camera writes the view and the roll
//! in every frame in which the game's camera can be found, and the game's
//! own update of that camera is held back. A camera that cannot be found is
//! no error: nothing is written in that frame.

use vstd::prelude::*;
use crate::freecam::Freecam;

verus! {

/// The mode of the game, named after the camera that shows it.
#[derive(Clone, Copy, Debug, PartialEq, Eq, PartialOrd, Ord, Structural)]
pub enum CameraState {
    /// The player walks about.
    Field,
    /// A cutscene plays.
    Event,
    /// A battle is fought.
    Battle,
}

/// Who writes the view in a frame.
#[derive(Clone, Copy, Debug, PartialEq, Eq, Structural)]
pub enum Authority {
    /// The game's own camera runs as it would without the free camera.
    Native,
    /// The free camera writes the view and the roll.
    Freecam,
    /// The free camera is on, but the game's camera cannot be found:
    /// nothing is written, and the game's update stays held back.
    Nobody,
}

/// Who writes the view, given whether the free camera is on and whether the
/// game's camera can be found. The rule is the same in all three modes.
pub open spec fn authority_of(state: CameraState, active: bool, camera_present: bool) -> Authority {
    if !active {
        Authority::Native
    } else if camera_present {
        Authority::Freecam
    } else {
        Authority::Nobody
    }
}

/// Whether the game's own update runs in a frame. In the field and in a
/// battle it runs only while the free camera is off. A cutscene always
/// runs on: only its camera commands are held back, see
/// [`event_command_suppressed`].
pub open spec fn native_update_runs_spec(state: CameraState, active: bool) -> bool {
    match state {
        CameraState::Event => true,
        _ => !active,
    }
}

/// Whether a free camera is there and on. `None` stands for a game in which
/// the free camera was not set up yet.
pub open spec fn active_spec(freecam: Option<&Freecam>) -> bool {
    match freecam {
        Some(cam) => cam@.active(),
        None => false,
    }
}

/// Whether a free camera is there and on.
pub fn check_active(freecam: Option<&Freecam>) -> (r: bool)
    ensures
        r == active_spec(freecam),
{
    match freecam {
        Some(cam) => cam.check_active(),
        None => false,
    }
}

/// The free camera, if it is there and on.
pub fn get_active(freecam: Option<&Freecam>) -> (r: Option<&Freecam>)
    ensures
        r == if active_spec(freecam) {
            freecam
        } else {
            None
        },
{
    match freecam {
        Some(cam) => {
            if cam.check_active() {
                Some(cam)
            } else {
                None
            }
        },
        None => None,
    }
}

/// Who writes the view in a frame.
pub fn arbitrate(state: CameraState, freecam: Option<&Freecam>, camera_present: bool) -> (r:
    Authority)
    ensures
        r == authority_of(state, active_spec(freecam), camera_present),
        r is Native <==> !active_spec(freecam),
        r is Freecam <==> active_spec(freecam) && camera_present,
{
    if !check_active(freecam) {
        Authority::Native
    } else if camera_present {
        Authority::Freecam
    } else {
        Authority::Nobody
    }
}

/// Whether the game's own update runs in a frame.
pub fn native_update_runs(state: CameraState, freecam: Option<&Freecam>) -> (r: bool)
    ensures
        r == native_update_runs_spec(state, active_spec(freecam)),
{
    match state {
        CameraState::Event => true,
        _ => !check_active(freecam),
    }
}

/// Whether a cutscene's command to move or set its camera is held back:
/// while the free camera is on, the command reports that it is done and
/// does nothing.
pub fn event_command_suppressed(freecam: Option<&Freecam>) -> (r: bool)
    ensures
        r == active_spec(freecam),
{
    check_active(freecam)
}

/// In every mode exactly one of three things holds: the game's camera runs,
/// the free camera writes, or nothing is written. The game's camera runs
/// exactly while the free camera is off.
pub proof fn lemma_one_authority(state: CameraState, active: bool, camera_present: bool)
    ensures
        authority_of(state, active, camera_present) is Native <==> !active,
        authority_of(state, active, camera_present) is Freecam <==> active && camera_present,
        authority_of(state, active, camera_present) is Nobody <==> active && !camera_present,
        !(state is Event) ==> (native_update_runs_spec(state, active) <==> authority_of(
            state,
            active,
            camera_present,
        ) is Native),
{
}

} // verus!
