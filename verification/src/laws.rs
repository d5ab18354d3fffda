//! What holds of the free camera across its transitions.

use vstd::prelude::*;
use crate::controls::Controls;
use crate::curve::planned;
use crate::curve::CurvePlanView;
use crate::freecam::corrected;
use crate::freecam::dot_after;
use crate::freecam::dot_with_corrected;
use crate::freecam::flips;
use crate::freecam::Baseline;
use crate::freecam::EventAction;
use crate::freecam::FrameOutcome;
use crate::freecam::FreecamView;
use crate::freecam::PathClock;
use crate::freecam::PathReadings;
use crate::freecam::ViewState;
use crate::freecam::NODE_PATH_STEP_BITS;
use crate::node::FreecamNode;
use crate::scalar::lemma_larger_reaches_floor;
use crate::scalar::lemma_opposite_mirrors;
use crate::scalar::Scalar;
use crate::scalar::ZERO_BITS;

verus! {

/// After a sign correction no pair of neighbours has a dot product below
/// zero: the product of a pair is the recorded one, mirrored when exactly
/// one of the two keyframes was flipped, and that is never negative.
pub proof fn lemma_corrected_pairs_agree(dots: Seq<Scalar>, i: int)
    requires
        0 <= i < dots.len(),
    ensures
        !dot_after(dots, i).less(Scalar { bits: ZERO_BITS }),
{
    lemma_opposite_mirrors(dots[i]);
    assert(flips(dots, (i + 1) as nat) == dot_with_corrected(dots, (i + 1) as nat).less(
        Scalar { bits: ZERO_BITS },
    ));
}

/// No flip is called for by dot products of which none is below zero.
pub proof fn lemma_no_flip_without_negative_dot(dots: Seq<Scalar>, i: nat)
    requires
        forall|k: int| 0 <= k < dots.len() ==> !(#[trigger] dots[k]).less(Scalar { bits: ZERO_BITS }),
    ensures
        !flips(dots, i),
    decreases i,
{
    if i > 0 && i <= dots.len() {
        lemma_no_flip_without_negative_dot(dots, (i - 1) as nat);
    }
}

/// A sign correction changes nothing when no dot product is below zero.
pub proof fn lemma_correction_keeps_aligned(nodes: Seq<FreecamNode>, dots: Seq<Scalar>)
    requires
        forall|k: int| 0 <= k < dots.len() ==> !(#[trigger] dots[k]).less(Scalar { bits: ZERO_BITS }),
    ensures
        corrected(nodes, dots) == nodes,
{
    assert forall|i: int| 0 <= i < nodes.len() implies corrected(nodes, dots)[i] == nodes[i] by {
        lemma_no_flip_without_negative_dot(dots, i as nat);
    }
    assert(corrected(nodes, dots) =~= nodes);
}

/// The sign correction settles: a second correction, run on the outcome of
/// the first, flips nothing.
///
/// `again` holds the dot products of the corrected keyframes. All that is
/// asked of them is that each is below zero exactly when the recorded
/// product, mirrored for a pair of which one keyframe was flipped, is.
pub proof fn lemma_sign_correction_settles(
    nodes: Seq<FreecamNode>,
    dots: Seq<Scalar>,
    again: Seq<Scalar>,
)
    requires
        again.len() == dots.len(),
        forall|k: int|
            0 <= k < dots.len() ==> (#[trigger] again[k]).less(Scalar { bits: ZERO_BITS })
                == dot_after(dots, k).less(Scalar { bits: ZERO_BITS }),
    ensures
        corrected(corrected(nodes, dots), again) == corrected(nodes, dots),
{
    assert forall|k: int| 0 <= k < again.len() implies !(#[trigger] again[k]).less(
        Scalar { bits: ZERO_BITS },
    ) by {
        lemma_corrected_pairs_agree(dots, k);
    }
    lemma_correction_keeps_aligned(corrected(nodes, dots), again);
}

/// A sign correction keeps every position and the number of keyframes, and
/// leaves each orientation as it is or written with the opposite sign.
pub proof fn lemma_correction_keeps_poses(nodes: Seq<FreecamNode>, dots: Seq<Scalar>)
    ensures
        corrected(nodes, dots).len() == nodes.len(),
        nodes.len() > 0 ==> corrected(nodes, dots)[0] == nodes[0],
        forall|i: int|
            0 <= i < nodes.len() ==> {
                &&& (#[trigger] corrected(nodes, dots)[i]).trans == nodes[i].trans
                &&& (corrected(nodes, dots)[i].rot == nodes[i].rot || corrected(nodes, dots)[i].rot
                    == nodes[i].rot.opposite())
            },
{
}

/// The first synchronisation happens once for each time the camera is
/// switched on: the frame after switching on clears the latch, and in later
/// frames, whatever they do short of switching the camera, the latch stays
/// clear and a synchronisation changes nothing.
pub proof fn lemma_initial_sync_once(
    v: FreecamView,
    first: Option<Baseline>,
    controls: Controls,
    readings: PathReadings,
    clock: PathClock,
    view: ViewState,
    second: Option<Baseline>,
)
    requires
        !controls.toggle_freecam,
    ensures
        v.enabled().awaiting_initial_sync,
        !v.enabled().initial_synced(first).awaiting_initial_sync,
        first matches Some(b) ==> {
            let s = v.enabled().initial_synced(first);
            &&& s.pan == b.angles.pan
            &&& s.pitch == b.angles.pitch
            &&& s.roll == b.angles.roll
            &&& s.camera_pos == b.position
            &&& s.return_node == (FreecamNode { trans: b.position, rot: b.rot })
        },
        ({
            let later = v.enabled().initial_synced(first).updated(controls, readings).ticked(
                clock,
            ).with_view(view);
            !later.awaiting_initial_sync && later.initial_synced(second) == later
        }),
{
    let s = v.enabled().initial_synced(first);
    let a = s.updated(controls, readings);
    assert(!a.awaiting_initial_sync);
}

/// While the camera is off, a frame's controls change nothing unless they
/// switch the camera on.
pub proof fn lemma_controls_wait_for_activation(
    v: FreecamView,
    controls: Controls,
    readings: PathReadings,
)
    requires
        !v.active(),
        !controls.toggle_freecam,
    ensures
        v.updated(controls, readings) == v,
        v.frame_outcome(controls, readings) == (FrameOutcome {
            switched: None,
            speed: None,
            locked: None,
            path: None,
        }),
{
}

/// A cutscene's baseline is captured once and given back once.
///
/// The first frame of a cutscene in which the camera is on captures what
/// was read off the cutscene's camera and remembers it as the pose to
/// return to; later frames leave it alone, whatever is read. The first
/// frame after the camera went off returns the camera to where that pose
/// stands and forgets the capture; later frames do nothing, and the next
/// activation captures anew.
pub proof fn lemma_event_baseline_once(
    v: FreecamView,
    first: Baseline,
    later: Option<Baseline>,
    after: Baseline,
)
    requires
        v.active(),
        !v.event_params_initialized,
    ensures
        ({
            let captured = v.event_ticked(Some(first));
            let given_back = captured.disabled().event_ticked(Some(after));
            &&& v.event_action(Some(first)) == (EventAction::Drive {
                captured: true,
                from_path: v.playing_path(),
            })
            &&& captured.event_params_initialized
            &&& captured.return_node == (FreecamNode { trans: first.position, rot: first.rot })
            &&& captured.camera_pos == first.position
            &&& captured.event_ticked(later) == captured
            &&& captured.event_action(None) is Skip
            &&& captured.disabled().event_action(Some(after)) == (EventAction::Restore {
                pose: captured.return_node,
            })
            &&& !given_back.event_params_initialized
            &&& given_back.camera_pos == first.position
            &&& given_back.event_ticked(later) == given_back
            &&& given_back.event_action(later) is Skip
            &&& given_back.enabled().event_action(Some(after)) == (EventAction::Drive {
                captured: true,
                from_path: false,
            })
        }),
{
}

/// A path without keyframes is never played: asking for playback changes
/// nothing, and a tick ends a playback that was left running.
pub proof fn lemma_empty_path_never_plays(v: FreecamView, dots: Seq<Scalar>, clock: PathClock)
    requires
        v.nodes.len() == 0,
    ensures
        v.playback_started(dots) == v,
        v.playback_toggled(dots) == v,
        !v.ticked(clock).playing_path(),
        planned(v.nodes, clock.segment) == CurvePlanView::Empty,
{
}

/// One keyframe is held: whatever the time, the pose is that keyframe, and
/// playing it ends at once.
pub proof fn lemma_single_keyframe_held(v: FreecamView, clock: PathClock)
    requires
        v.nodes.len() == 1,
    ensures
        planned(v.nodes, clock.segment) == (CurvePlanView::Hold { node: v.nodes[0] }),
        !v.ticked(clock).playing_path(),
{
}

/// The modes change as follows, and in no other way.
///
/// - Switching on a camera that is off gives a camera that the user flies,
///   with the first synchronisation owed.
/// - Switching off gives a camera that is off, from either active mode.
/// - Starting playback takes a camera that is on to playing a path when
///   there is a keyframe, and changes nothing otherwise.
/// - Stopping, and a tick that finds fewer than two keyframes or the
///   duration reached, take a playing camera back to flying.
/// - Nothing but switching changes whether the camera is on.
pub proof fn lemma_mode_transitions(v: FreecamView, dots: Seq<Scalar>, clock: PathClock)
    ensures
        v.mode is Inactive ==> v.toggled().mode is ActiveFree && v.toggled().awaiting_initial_sync,
        !(v.mode is Inactive) ==> v.toggled().mode is Inactive,
        v.disabled().mode is Inactive,
        v.active() && v.nodes.len() > 0 ==> v.playback_started(dots).mode is ActivePlayingPath,
        !(v.active() && v.nodes.len() > 0) ==> v.playback_started(dots) == v,
        v.playback_stopped().mode == v.mode_after_playback(),
        v.playback_stopped().active() == v.active(),
        !v.playback_stopped().playing_path(),
        v.ticked(clock).active() == v.active(),
        v.ticked(clock).playing_path() == (v.playing_path() && v.nodes.len() >= 2
            && !v.ticked(clock).node_path_current.at_least(v.node_path_time)),
        v.playback_toggled(dots).active() == v.active(),
        v.active() && v.nodes.len() > 0 ==> v.playback_toggled(dots).playing_path()
            != v.playing_path(),
{
}

/// Every transition keeps what holds of every state: the path's duration
/// stays a number of at least one step, and the fraction played stays
/// within `[0, 1]`.
pub proof fn lemma_transitions_keep_inv(
    v: FreecamView,
    controls: Controls,
    readings: PathReadings,
    clock: PathClock,
    seconds: Scalar,
    dots: Seq<Scalar>,
    view: ViewState,
    baseline: Option<Baseline>,
)
    requires
        v.inv(),
    ensures
        FreecamView::initial().inv(),
        v.toggled().inv(),
        v.lock_toggled().inv(),
        v.with_path_time(seconds).inv(),
        v.path_updated(controls, readings).inv(),
        v.updated(controls, readings).inv(),
        v.playback_started(dots).inv(),
        v.playback_toggled(dots).inv(),
        v.playback_stopped().inv(),
        v.ticked(clock).inv(),
        v.with_view(view).inv(),
        v.initial_synced(baseline).inv(),
        v.event_ticked(baseline).inv(),
        (Scalar { bits: ZERO_BITS }).less(v.with_path_time(seconds).node_path_time),
{
    let step = Scalar { bits: NODE_PATH_STEP_BITS };
    lemma_larger_reaches_floor(seconds, step);
    lemma_larger_reaches_floor(readings.shorter, step);
    lemma_larger_reaches_floor(readings.longer, step);
}

/// While a path plays, the seconds played stay below the duration: a tick
/// that reaches the duration ends the playback.
pub proof fn lemma_playing_stays_below_duration(v: FreecamView, clock: PathClock)
    requires
        v.inv(),
    ensures
        v.node_path_time.at_least(v.ticked(clock).node_path_current)
            || v.ticked(clock).node_path_current.nan(),
        v.ticked(clock).playing_path() ==> !v.ticked(clock).node_path_current.at_least(
            v.node_path_time,
        ),
{
}

} // verus!
