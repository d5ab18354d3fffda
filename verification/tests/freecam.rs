use p5r_freecam::controls::{Controls, KeySnapshot, Step};
use p5r_freecam::curve::{BlendStep, CurvePlan};
use p5r_freecam::freecam::{
    Baseline, CameraMode, ClearOutcome, EulerAngles, EventAction, FrameOutcome, Freecam,
    LookFrame, PathClock, PathOutcome, PathReadings, RemoveOutcome, ViewState,
};
use p5r_freecam::node::{FreecamNode, Quaternion, Vector3};
use p5r_freecam::path_file::{ByteOrder, PathFileError};
use p5r_freecam::scalar::Scalar;

fn s(x: f32) -> Scalar {
    Scalar::from_bits(x.to_bits())
}

fn f(x: Scalar) -> f32 {
    f32::from_bits(x.to_bits())
}

fn v3(x: f32, y: f32, z: f32) -> Vector3 {
    Vector3::new(s(x), s(y), s(z))
}

fn quat(x: f32, y: f32, z: f32, w: f32) -> Quaternion {
    Quaternion::new(s(x), s(y), s(z), s(w))
}

fn ident() -> Quaternion {
    quat(0.0, 0.0, 0.0, 1.0)
}

fn angles(pan: f32, pitch: f32, roll: f32) -> EulerAngles {
    EulerAngles { pan: s(pan), pitch: s(pitch), roll: s(roll) }
}

fn dot(a: &Quaternion, b: &Quaternion) -> f32 {
    f(a.x) * f(b.x) + f(a.y) * f(b.y) + f(a.z) * f(b.z) + f(a.w) * f(b.w)
}

/// The dot products of neighbouring orientations, as they are recorded.
fn dots_of(cam: &Freecam) -> Vec<Scalar> {
    let nodes = cam.nodes();
    let mut dots = Vec::new();
    for i in 1..nodes.len() {
        dots.push(s(dot(&nodes[i - 1].rot, &nodes[i].rot)));
    }
    dots
}

fn readings(cam: &Freecam, rot: Quaternion) -> PathReadings {
    let time = f(cam.node_path_time());
    PathReadings { rot, shorter: s(time - 0.25), longer: s(time + 0.25) }
}

/// The clock after a frame of `delta` seconds, as a host computes it.
fn clock_after(cam: &Freecam, delta: f32) -> PathClock {
    let time = f(cam.node_path_time());
    let elapsed = f(cam.node_path_current()) + delta;
    let percent = elapsed.min(time) / time;
    let len = cam.node_count();
    let segment = if len >= 4 {
        (percent.min(0.999) * (len - 2) as f32 + 2.0) as usize
    } else {
        0
    };
    PathClock { elapsed: s(elapsed), percent: s(percent), segment }
}

fn place(cam: &mut Freecam, x: f32, y: f32, z: f32) {
    let a = cam.angles();
    cam.store_view(ViewState {
        angles: a,
        camera_pos: v3(x, y, z),
        frame: LookFrame { lookat_pos: cam.lookat_pos(), up_vec: cam.up_vec() },
    });
}

fn with_square() -> Freecam {
    let mut cam = Freecam::new();
    for p in [[0.0, 0.0, 0.0], [1.0, 0.0, 0.0], [1.0, 1.0, 0.0], [0.0, 1.0, 0.0]] {
        place(&mut cam, p[0], p[1], p[2]);
        cam.add_camera_node(ident());
    }
    cam
}

fn pressed(set: fn(&mut Controls)) -> Controls {
    let mut c = Controls::none();
    set(&mut c);
    c
}

#[test]
fn new_camera_is_off_at_the_origin() {
    let cam = Freecam::new();
    assert!(!cam.check_active());
    assert_eq!(cam.mode(), CameraMode::Inactive);
    assert!(!cam.is_awaiting_initial_sync());
    assert!(!cam.is_movement_locked());
    assert!(!cam.is_event_params_initialized());
    assert!(!cam.is_playing_path());
    assert_eq!(cam.angles(), angles(0.0, 0.0, 0.0));
    assert_eq!(cam.get_roll(), s(0.0));
    assert_eq!(cam.camera_pos(), v3(0.0, 0.0, 0.0));
    assert_eq!(cam.lookat_pos(), v3(0.0, 0.0, 0.0));
    assert_eq!(cam.up_vec(), v3(0.0, 1.0, 0.0));
    assert_eq!(cam.node_count(), 0);
    assert!(cam.nodes().is_empty());
    assert_eq!(cam.node_path_time(), s(3.0));
    assert_eq!(cam.node_path_current(), s(0.0));
    assert_eq!(cam.node_path_percent(), s(0.0));
    assert_eq!(cam.last_interp(), FreecamNode::default());
    assert_eq!(cam.return_node(), FreecamNode::default());
}

#[test]
fn default_camera_is_a_new_camera() {
    let cam = Freecam::default();
    assert_eq!(cam.mode(), CameraMode::Inactive);
    assert_eq!(cam.node_path_time(), s(3.0));
    assert_eq!(cam.up_vec(), v3(0.0, 1.0, 0.0));
}

#[test]
fn enabling_sets_the_latch_and_disabling_keeps_it() {
    let mut cam = Freecam::new();
    cam.enable_freecam_mode();
    assert_eq!(cam.mode(), CameraMode::ActiveFree);
    assert!(cam.check_active());
    assert!(cam.is_awaiting_initial_sync());
    cam.disable_freecam_mode();
    assert_eq!(cam.mode(), CameraMode::Inactive);
    assert!(cam.is_awaiting_initial_sync());
}

#[test]
fn toggling_switches_between_off_and_flying() {
    let mut cam = Freecam::new();
    assert!(cam.toggle_freecam_mode());
    assert_eq!(cam.mode(), CameraMode::ActiveFree);
    assert!(!cam.toggle_freecam_mode());
    assert_eq!(cam.mode(), CameraMode::Inactive);
    assert!(cam.toggle_freecam_mode());
    assert_eq!(cam.mode(), CameraMode::ActiveFree);
}

#[test]
fn switching_off_while_a_path_plays_ends_the_playing() {
    let mut cam = with_square();
    cam.enable_freecam_mode();
    let dots = dots_of(&cam);
    assert!(cam.start_playback(&dots));
    assert_eq!(cam.mode(), CameraMode::ActivePlayingPath);
    cam.disable_freecam_mode();
    assert_eq!(cam.mode(), CameraMode::Inactive);
    assert!(!cam.is_playing_path());
    cam.enable_freecam_mode();
    assert_eq!(cam.mode(), CameraMode::ActiveFree);
}

#[test]
fn enabling_a_playing_camera_keeps_it_playing() {
    let mut cam = with_square();
    cam.enable_freecam_mode();
    let dots = dots_of(&cam);
    cam.start_playback(&dots);
    cam.sync_initial_state(None);
    cam.enable_freecam_mode();
    assert_eq!(cam.mode(), CameraMode::ActivePlayingPath);
    assert!(cam.is_awaiting_initial_sync());
}

#[test]
fn initial_sync_happens_once_per_activation() {
    let mut cam = Freecam::new();
    cam.toggle_freecam_mode();
    assert!(cam.is_awaiting_initial_sync());
    let first = Baseline {
        angles: angles(0.5, -0.25, 0.125),
        position: v3(10.0, 20.0, 30.0),
        rot: quat(0.1, 0.2, 0.3, 0.9),
    };
    assert!(cam.sync_initial_state(Some(first)));
    assert!(!cam.is_awaiting_initial_sync());
    assert_eq!(cam.angles(), angles(0.5, -0.25, 0.125));
    assert_eq!(cam.camera_pos(), v3(10.0, 20.0, 30.0));
    assert_eq!(
        cam.return_node(),
        FreecamNode::new(v3(10.0, 20.0, 30.0), quat(0.1, 0.2, 0.3, 0.9))
    );
    let second = Baseline {
        angles: angles(9.0, 9.0, 9.0),
        position: v3(9.0, 9.0, 9.0),
        rot: quat(9.0, 9.0, 9.0, 9.0),
    };
    assert!(!cam.sync_initial_state(Some(second)));
    assert!(!cam.is_awaiting_initial_sync());
    assert_eq!(cam.angles(), angles(0.5, -0.25, 0.125));
    assert_eq!(cam.camera_pos(), v3(10.0, 20.0, 30.0));
    assert_eq!(
        cam.return_node(),
        FreecamNode::new(v3(10.0, 20.0, 30.0), quat(0.1, 0.2, 0.3, 0.9))
    );
}

#[test]
fn initial_sync_without_a_camera_clears_the_latch_and_takes_nothing() {
    let mut cam = Freecam::new();
    cam.enable_freecam_mode();
    assert!(!cam.sync_initial_state(None));
    assert!(!cam.is_awaiting_initial_sync());
    assert_eq!(cam.angles(), angles(0.0, 0.0, 0.0));
    assert_eq!(cam.return_node(), FreecamNode::default());
    let late = Baseline {
        angles: angles(1.0, 1.0, 1.0),
        position: v3(1.0, 1.0, 1.0),
        rot: ident(),
    };
    assert!(!cam.sync_initial_state(Some(late)));
    assert_eq!(cam.angles(), angles(0.0, 0.0, 0.0));
}

#[test]
fn activation_anew_syncs_anew() {
    let mut cam = Freecam::new();
    cam.enable_freecam_mode();
    cam.sync_initial_state(None);
    cam.disable_freecam_mode();
    cam.enable_freecam_mode();
    let b = Baseline { angles: angles(1.0, 2.0, 3.0), position: v3(4.0, 5.0, 6.0), rot: ident() };
    assert!(cam.sync_initial_state(Some(b)));
    assert_eq!(cam.angles(), angles(1.0, 2.0, 3.0));
}

#[test]
fn lock_is_toggled_only_when_pressed() {
    let mut cam = Freecam::new();
    assert!(!cam.lock_camera_position(false));
    assert!(!cam.is_movement_locked());
    assert!(cam.lock_camera_position(true));
    assert!(cam.is_movement_locked());
    assert!(cam.lock_camera_position(false));
    assert!(!cam.lock_camera_position(true));
    assert!(!cam.is_movement_locked());
}

#[test]
fn locked_camera_turns_but_stays_in_place() {
    let mut cam = Freecam::new();
    place(&mut cam, 1.0, 2.0, 3.0);
    cam.lock_camera_position(true);
    cam.store_view(ViewState {
        angles: angles(0.3, 0.2, 0.1),
        camera_pos: v3(7.0, 8.0, 9.0),
        frame: LookFrame { lookat_pos: v3(1.0, 1.0, 1.0), up_vec: v3(0.0, 0.0, 1.0) },
    });
    assert_eq!(cam.camera_pos(), v3(1.0, 2.0, 3.0));
    assert_eq!(cam.angles(), angles(0.3, 0.2, 0.1));
    assert_eq!(cam.lookat_pos(), v3(1.0, 1.0, 1.0));
    assert_eq!(cam.up_vec(), v3(0.0, 0.0, 1.0));
    cam.lock_camera_position(true);
    cam.store_view(ViewState {
        angles: angles(0.3, 0.2, 0.1),
        camera_pos: v3(7.0, 8.0, 9.0),
        frame: LookFrame { lookat_pos: v3(1.0, 1.0, 1.0), up_vec: v3(0.0, 0.0, 1.0) },
    });
    assert_eq!(cam.camera_pos(), v3(7.0, 8.0, 9.0));
}

#[test]
fn store_angles_replaces_the_angles_only() {
    let mut cam = Freecam::new();
    place(&mut cam, 1.0, 2.0, 3.0);
    cam.store_angles(angles(0.1, 0.2, 0.3));
    assert_eq!(cam.angles(), angles(0.1, 0.2, 0.3));
    assert_eq!(cam.get_roll(), s(0.3));
    assert_eq!(cam.camera_pos(), v3(1.0, 2.0, 3.0));
}

#[test]
fn path_duration_is_floored_at_one_step() {
    let mut cam = Freecam::new();
    assert_eq!(cam.change_node_path_time(s(3.25)), s(3.25));
    assert_eq!(cam.node_path_time(), s(3.25));
    assert_eq!(cam.change_node_path_time(s(0.25)), s(0.25));
    assert_eq!(cam.change_node_path_time(s(0.0)), s(0.25));
    assert_eq!(cam.change_node_path_time(s(-5.0)), s(0.25));
    assert_eq!(cam.change_node_path_time(s(f32::NAN)), s(0.25));
    assert_eq!(cam.change_node_path_time(s(f32::NEG_INFINITY)), s(0.25));
    assert_eq!(cam.change_node_path_time(s(0.2499)), s(0.25));
    assert_eq!(cam.change_node_path_time(s(100.0)), s(100.0));
    assert_eq!(cam.node_path_time(), s(100.0));
}

#[test]
fn path_duration_steps_down_to_the_floor_and_no_further() {
    let mut cam = Freecam::new();
    let mut seen = Vec::new();
    for _ in 0..14 {
        let t = f(cam.node_path_time());
        seen.push(f(cam.change_node_path_time(s(t - 0.25))));
    }
    assert_eq!(
        seen,
        vec![2.75, 2.5, 2.25, 2.0, 1.75, 1.5, 1.25, 1.0, 0.75, 0.5, 0.25, 0.25, 0.25, 0.25]
    );
    assert!(f(cam.node_path_time()) > 0.0);
}

#[test]
fn add_camera_node_records_the_position_and_the_orientation() {
    let mut cam = Freecam::new();
    place(&mut cam, 1.0, 2.0, 3.0);
    assert_eq!(cam.add_camera_node(quat(0.0, 0.6, 0.0, 0.8)), 1);
    place(&mut cam, 4.0, 5.0, 6.0);
    assert_eq!(cam.add_camera_node(ident()), 2);
    assert_eq!(
        cam.nodes(),
        &vec![
            FreecamNode::new(v3(1.0, 2.0, 3.0), quat(0.0, 0.6, 0.0, 0.8)),
            FreecamNode::new(v3(4.0, 5.0, 6.0), ident()),
        ]
    );
    assert_eq!(cam.clone_nodes(), cam.nodes().clone());
}

#[test]
fn remove_last_node_on_an_empty_path_does_nothing() {
    let mut cam = Freecam::new();
    assert_eq!(cam.remove_last_node(), None);
    assert_eq!(cam.node_count(), 0);
}

#[test]
fn remove_last_node_takes_the_last() {
    let mut cam = with_square();
    assert_eq!(cam.remove_last_node(), Some(FreecamNode::new(v3(0.0, 1.0, 0.0), ident())));
    assert_eq!(cam.node_count(), 3);
    assert_eq!(cam.nodes()[2], FreecamNode::new(v3(1.0, 1.0, 0.0), ident()));
}

#[test]
fn clear_nodes_takes_all() {
    let mut cam = with_square();
    assert_eq!(cam.clear_nodes(), 4);
    assert_eq!(cam.node_count(), 0);
    assert_eq!(cam.clear_nodes(), 0);
}

#[test]
fn remove_node_takes_the_one_named() {
    let mut cam = with_square();
    assert_eq!(cam.remove_node(1), Some(FreecamNode::new(v3(1.0, 0.0, 0.0), ident())));
    assert_eq!(cam.node_count(), 3);
    assert_eq!(cam.nodes()[1], FreecamNode::new(v3(1.0, 1.0, 0.0), ident()));
    assert_eq!(cam.remove_node(3), None);
    assert_eq!(cam.remove_node(usize::MAX), None);
    assert_eq!(cam.node_count(), 3);
}

#[test]
fn keyframes_can_be_edited_in_place() {
    let mut cam = with_square();
    assert!(cam.set_node_translation(2, v3(9.0, 8.0, 7.0)));
    assert!(cam.set_node_rotation(2, quat(1.0, 0.0, 0.0, 0.0)));
    assert_eq!(cam.nodes()[2], FreecamNode::new(v3(9.0, 8.0, 7.0), quat(1.0, 0.0, 0.0, 0.0)));
    assert_eq!(cam.nodes()[1], FreecamNode::new(v3(1.0, 0.0, 0.0), ident()));
    assert!(!cam.set_node_translation(4, v3(0.0, 0.0, 0.0)));
    assert!(!cam.set_node_rotation(4, ident()));
    assert_eq!(cam.node_count(), 4);
}

fn turning() -> Freecam {
    let mut cam = Freecam::new();
    cam.add_camera_node(quat(0.0, 0.0, 0.0, 1.0));
    cam.add_camera_node(quat(0.0, 0.0, 0.0, -1.0));
    cam.add_camera_node(quat(0.0, 0.6, 0.0, 0.8));
    cam.add_camera_node(quat(0.0, -0.8, 0.0, -0.6));
    cam.add_camera_node(quat(1.0, 0.0, 0.0, 0.0));
    cam
}

/// The correction as it reads: each orientation against the one before it,
/// as that one was left.
fn corrected_by_hand(nodes: &Vec<FreecamNode>) -> Vec<FreecamNode> {
    let mut out = nodes.clone();
    for i in 1..out.len() {
        if dot(&out[i - 1].rot, &out[i].rot) < 0.0 {
            out[i] = out[i].with_rot_negated();
        }
    }
    out
}

#[test]
fn sign_correction_flips_what_points_away() {
    let mut cam = turning();
    let before = cam.clone_nodes();
    let dots = dots_of(&cam);
    cam.correct_node_rotation(&dots);
    assert_eq!(
        cam.nodes(),
        &vec![
            FreecamNode::new(v3(0.0, 0.0, 0.0), quat(0.0, 0.0, 0.0, 1.0)),
            FreecamNode::new(v3(0.0, 0.0, 0.0), quat(-0.0, -0.0, -0.0, 1.0)),
            FreecamNode::new(v3(0.0, 0.0, 0.0), quat(0.0, 0.6, 0.0, 0.8)),
            FreecamNode::new(v3(0.0, 0.0, 0.0), quat(-0.0, 0.8, -0.0, 0.6)),
            FreecamNode::new(v3(0.0, 0.0, 0.0), quat(1.0, 0.0, 0.0, 0.0)),
        ]
    );
    assert_eq!(cam.nodes(), &corrected_by_hand(&before));
}

#[test]
fn sign_correction_agrees_with_the_correction_by_hand() {
    let mut seed: u32 = 12345;
    let mut next = move || {
        seed = seed.wrapping_mul(1664525).wrapping_add(1013904223);
        ((seed >> 8) as f32 / 8388608.0) - 1.0
    };
    for len in 0..12usize {
        for _ in 0..20 {
            let mut cam = Freecam::new();
            for _ in 0..len {
                cam.add_camera_node(quat(next(), next(), next(), next()));
            }
            let before = cam.clone_nodes();
            let dots = dots_of(&cam);
            cam.correct_node_rotation(&dots);
            assert_eq!(cam.nodes(), &corrected_by_hand(&before));
            for i in 1..len {
                assert!(dot(&cam.nodes()[i - 1].rot, &cam.nodes()[i].rot) >= 0.0);
            }
        }
    }
}

#[test]
fn sign_correction_twice_changes_nothing_the_second_time() {
    let mut cam = turning();
    let dots = dots_of(&cam);
    cam.correct_node_rotation(&dots);
    let once = cam.clone_nodes();
    let again = dots_of(&cam);
    for d in &again {
        assert!(!d.is_negative());
    }
    cam.correct_node_rotation(&again);
    assert_eq!(cam.nodes(), &once);
}

#[test]
fn sign_correction_leaves_short_paths_alone() {
    let mut cam = Freecam::new();
    cam.correct_node_rotation(&vec![]);
    assert_eq!(cam.node_count(), 0);
    cam.add_camera_node(quat(0.0, 0.0, 0.0, -1.0));
    cam.correct_node_rotation(&vec![]);
    assert_eq!(cam.nodes(), &vec![FreecamNode::new(v3(0.0, 0.0, 0.0), quat(0.0, 0.0, 0.0, -1.0))]);
}

#[test]
fn sign_correction_ignores_a_dot_that_is_no_number() {
    let mut cam = Freecam::new();
    cam.add_camera_node(ident());
    cam.add_camera_node(quat(f32::NAN, 0.0, 0.0, 1.0));
    let before = cam.clone_nodes();
    let dots = dots_of(&cam);
    assert!(dots[0].is_nan());
    cam.correct_node_rotation(&dots);
    assert_eq!(cam.nodes(), &before);
}

#[test]
fn starting_playback_on_an_empty_path_does_nothing() {
    let mut cam = Freecam::new();
    cam.enable_freecam_mode();
    assert!(!cam.start_playback(&vec![]));
    assert!(!cam.is_playing_path());
    assert_eq!(cam.mode(), CameraMode::ActiveFree);
    cam.toggle_playback(&vec![]);
    assert!(!cam.is_playing_path());
    let out = cam.update(&pressed(|c| c.start_playback = true), &readings(&cam, ident()));
    assert_eq!(out.path.unwrap().start, false);
    assert!(!cam.is_playing_path());
}

#[test]
fn starting_playback_rewinds_and_corrects() {
    let mut cam = turning();
    cam.enable_freecam_mode();
    let mut hand = cam.clone_nodes();
    hand = corrected_by_hand(&hand);
    let c = clock_after(&cam, 1.0);
    cam.camera_path_tick(c);
    assert_eq!(cam.node_path_current(), s(1.0));
    let dots = dots_of(&cam);
    assert!(cam.start_playback(&dots));
    assert_eq!(cam.mode(), CameraMode::ActivePlayingPath);
    assert_eq!(cam.node_path_current(), s(0.0));
    assert_eq!(cam.nodes(), &hand);
}

#[test]
fn playback_does_not_start_while_the_camera_is_off() {
    let mut cam = with_square();
    let dots = dots_of(&cam);
    assert!(!cam.start_playback(&dots));
    assert_eq!(cam.mode(), CameraMode::Inactive);
    cam.toggle_playback(&dots);
    assert_eq!(cam.mode(), CameraMode::Inactive);
}

#[test]
fn toggle_playback_pauses_and_resumes() {
    let mut cam = with_square();
    cam.enable_freecam_mode();
    let dots = dots_of(&cam);
    cam.toggle_playback(&dots);
    assert_eq!(cam.mode(), CameraMode::ActivePlayingPath);
    let c = clock_after(&cam, 1.0);
    cam.camera_path_tick(c);
    cam.toggle_playback(&dots);
    assert_eq!(cam.mode(), CameraMode::ActiveFree);
    assert_eq!(cam.node_path_current(), s(1.0));
    cam.toggle_playback(&dots);
    assert_eq!(cam.mode(), CameraMode::ActivePlayingPath);
    assert_eq!(cam.node_path_current(), s(1.0));
}

#[test]
fn toggle_playback_after_the_end_starts_over() {
    let mut cam = with_square();
    cam.enable_freecam_mode();
    let dots = dots_of(&cam);
    cam.toggle_playback(&dots);
    let c = clock_after(&cam, 5.0);
    cam.camera_path_tick(c);
    assert_eq!(cam.mode(), CameraMode::ActiveFree);
    assert_eq!(cam.node_path_current(), s(3.0));
    cam.toggle_playback(&dots);
    assert_eq!(cam.mode(), CameraMode::ActivePlayingPath);
    assert_eq!(cam.node_path_current(), s(0.0));
}

#[test]
fn stop_playback_rewinds_and_shows_the_first_pose() {
    let mut cam = with_square();
    cam.enable_freecam_mode();
    let dots = dots_of(&cam);
    cam.start_playback(&dots);
    let c = clock_after(&cam, 1.5);
    cam.camera_path_tick(c);
    assert_eq!(cam.node_path_percent(), s(0.5));
    let plan = cam.stop_playback();
    assert_eq!(cam.mode(), CameraMode::ActiveFree);
    assert_eq!(cam.node_path_current(), s(0.0));
    assert_eq!(cam.node_path_percent(), s(0.0));
    assert_eq!(
        plan,
        Some(CurvePlan::Spline {
            nodes: cam.clone_nodes(),
            segment: 2,
            steps: vec![
                BlendStep { index: 2, span: 2 },
                BlendStep { index: 1, span: 2 },
                BlendStep { index: 2, span: 1 },
            ],
        })
    );
}

#[test]
fn stop_playback_on_an_empty_path_shows_nothing() {
    let mut cam = Freecam::new();
    assert_eq!(cam.stop_playback(), None);
    assert_eq!(cam.node_path_current(), s(0.0));
    assert!(!cam.is_playing_path());
}

#[test]
fn four_keyframes_over_four_seconds_tick_by_tick() {
    let mut cam = with_square();
    assert_eq!(cam.change_node_path_time(s(4.0)), s(4.0));
    cam.enable_freecam_mode();
    let dots = dots_of(&cam);
    assert!(cam.start_playback(&dots));
    assert_eq!(cam.node_path_percent(), s(0.0));
    let mut seen = Vec::new();
    for tick in 1..=4 {
        assert!(cam.is_playing_path(), "before tick {}", tick);
        let c = clock_after(&cam, 1.0);
        let plan = cam.camera_path_tick(c);
        assert!(plan.has_pose());
        seen.push((f(cam.node_path_current()), f(cam.node_path_percent()), cam.is_playing_path()));
    }
    assert_eq!(
        seen,
        vec![(1.0, 0.25, true), (2.0, 0.5, true), (3.0, 0.75, true), (4.0, 1.0, false)]
    );
    assert_eq!(cam.mode(), CameraMode::ActiveFree);
}

#[test]
fn tick_caps_the_seconds_played_at_the_duration() {
    let mut cam = with_square();
    cam.enable_freecam_mode();
    let dots = dots_of(&cam);
    cam.start_playback(&dots);
    let c = clock_after(&cam, 10.0);
    cam.camera_path_tick(c);
    assert_eq!(cam.node_path_current(), s(3.0));
    assert_eq!(cam.node_path_percent(), s(1.0));
    assert!(!cam.is_playing_path());
}

#[test]
fn tick_brings_the_fraction_into_the_unit_interval() {
    let mut cam = with_square();
    cam.camera_path_tick(PathClock { elapsed: s(1.0), percent: s(7.0), segment: 2 });
    assert_eq!(cam.node_path_percent(), s(1.0));
    cam.camera_path_tick(PathClock { elapsed: s(1.0), percent: s(-7.0), segment: 2 });
    assert_eq!(cam.node_path_percent(), s(0.0));
    cam.camera_path_tick(PathClock { elapsed: s(1.0), percent: s(f32::NAN), segment: 2 });
    assert_eq!(cam.node_path_percent(), s(1.0));
    cam.camera_path_tick(PathClock { elapsed: s(f32::NAN), percent: s(0.5), segment: 2 });
    assert_eq!(cam.node_path_current(), s(3.0));
}

#[test]
fn tick_on_an_empty_path_ends_playback_without_a_pose() {
    let mut cam = with_square();
    cam.enable_freecam_mode();
    let dots = dots_of(&cam);
    cam.start_playback(&dots);
    cam.clear_nodes();
    assert!(cam.is_playing_path());
    let c = clock_after(&cam, 0.1);
    let plan = cam.camera_path_tick(c);
    assert_eq!(plan, CurvePlan::Empty);
    assert!(!cam.is_playing_path());
    assert_eq!(cam.mode(), CameraMode::ActiveFree);
}

#[test]
fn tick_on_one_keyframe_holds_it_and_ends_playback() {
    let mut cam = Freecam::new();
    place(&mut cam, 1.0, 2.0, 3.0);
    cam.add_camera_node(ident());
    cam.enable_freecam_mode();
    assert!(cam.start_playback(&vec![]));
    let c = clock_after(&cam, 0.1);
    let plan = cam.camera_path_tick(c);
    assert_eq!(plan, CurvePlan::Hold { node: FreecamNode::new(v3(1.0, 2.0, 3.0), ident()) });
    assert!(!cam.is_playing_path());
}

#[test]
fn tick_leaves_an_idle_camera_idle() {
    let mut cam = with_square();
    let c = clock_after(&cam, 1.0);
    cam.camera_path_tick(c);
    assert_eq!(cam.mode(), CameraMode::Inactive);
    cam.enable_freecam_mode();
    let c = clock_after(&cam, 1.0);
    cam.camera_path_tick(c);
    assert_eq!(cam.mode(), CameraMode::ActiveFree);
    assert_eq!(cam.node_path_current(), s(2.0));
}

#[test]
fn pose_of_a_path_is_taken_over_and_remembered() {
    let mut cam = Freecam::new();
    let payload = FreecamNode::new(v3(1.0, 2.0, 3.0), quat(0.0, 0.6, 0.0, 0.8));
    cam.set_position_from_interp(
        payload,
        angles(0.1, 0.2, 0.3),
        LookFrame { lookat_pos: v3(4.0, 5.0, 6.0), up_vec: v3(0.0, 1.0, 0.0) },
    );
    assert_eq!(cam.camera_pos(), v3(1.0, 2.0, 3.0));
    assert_eq!(cam.angles(), angles(0.1, 0.2, 0.3));
    assert_eq!(cam.lookat_pos(), v3(4.0, 5.0, 6.0));
    assert_eq!(cam.last_interp(), payload);
    place(&mut cam, 0.0, 0.0, 0.0);
    cam.set_position_from_last_interp(
        angles(0.4, 0.5, 0.6),
        LookFrame { lookat_pos: v3(7.0, 8.0, 9.0), up_vec: v3(1.0, 0.0, 0.0) },
    );
    assert_eq!(cam.camera_pos(), v3(1.0, 2.0, 3.0));
    assert_eq!(cam.angles(), angles(0.4, 0.5, 0.6));
    assert_eq!(cam.up_vec(), v3(1.0, 0.0, 0.0));
    assert_eq!(cam.last_interp(), payload);
}

fn event_reading() -> Baseline {
    Baseline {
        angles: angles(-1.0, 0.25, 0.0),
        position: v3(5.0, 6.0, 7.0),
        rot: quat(0.0, 0.6, 0.0, 0.8),
    }
}

#[test]
fn cutscene_without_a_camera_is_skipped() {
    let mut cam = Freecam::new();
    cam.enable_freecam_mode();
    assert_eq!(cam.event_tick(None), EventAction::Skip);
    assert!(!cam.is_event_params_initialized());
}

#[test]
fn cutscene_with_the_camera_off_is_left_alone() {
    let mut cam = Freecam::new();
    assert_eq!(cam.event_tick(Some(event_reading())), EventAction::Skip);
    assert!(!cam.is_event_params_initialized());
    assert_eq!(cam.camera_pos(), v3(0.0, 0.0, 0.0));
}

#[test]
fn cutscene_captures_its_baseline_once() {
    let mut cam = Freecam::new();
    cam.enable_freecam_mode();
    assert_eq!(
        cam.event_tick(Some(event_reading())),
        EventAction::Drive { captured: true, from_path: false }
    );
    assert!(cam.is_event_params_initialized());
    assert_eq!(cam.angles(), angles(-1.0, 0.25, 0.0));
    assert_eq!(cam.camera_pos(), v3(5.0, 6.0, 7.0));
    assert_eq!(cam.return_node(), FreecamNode::new(v3(5.0, 6.0, 7.0), quat(0.0, 0.6, 0.0, 0.8)));
    place(&mut cam, 1.0, 1.0, 1.0);
    let other = Baseline { angles: angles(9.0, 9.0, 9.0), position: v3(9.0, 9.0, 9.0), rot: ident() };
    assert_eq!(
        cam.event_tick(Some(other)),
        EventAction::Drive { captured: false, from_path: false }
    );
    assert_eq!(cam.camera_pos(), v3(1.0, 1.0, 1.0));
    assert_eq!(cam.return_node(), FreecamNode::new(v3(5.0, 6.0, 7.0), quat(0.0, 0.6, 0.0, 0.8)));
}

#[test]
fn cutscene_follows_a_playing_path() {
    let mut cam = with_square();
    cam.enable_freecam_mode();
    let dots = dots_of(&cam);
    cam.start_playback(&dots);
    assert_eq!(
        cam.event_tick(Some(event_reading())),
        EventAction::Drive { captured: true, from_path: true }
    );
}

#[test]
fn cutscene_gets_its_camera_back_once() {
    let mut cam = Freecam::new();
    cam.enable_freecam_mode();
    cam.event_tick(Some(event_reading()));
    place(&mut cam, 1.0, 1.0, 1.0);
    cam.disable_freecam_mode();
    assert_eq!(
        cam.event_tick(Some(event_reading())),
        EventAction::Restore { pose: FreecamNode::new(v3(5.0, 6.0, 7.0), quat(0.0, 0.6, 0.0, 0.8)) }
    );
    assert_eq!(cam.camera_pos(), v3(5.0, 6.0, 7.0));
    assert!(!cam.is_event_params_initialized());
    assert_eq!(cam.event_tick(Some(event_reading())), EventAction::Skip);
    cam.enable_freecam_mode();
    assert_eq!(
        cam.event_tick(Some(event_reading())),
        EventAction::Drive { captured: true, from_path: false }
    );
}

#[test]
fn controls_do_nothing_to_the_path_while_the_camera_is_off() {
    let mut cam = Freecam::new();
    let mut c = Controls::none();
    c.add_keyframe = true;
    c.lock_camera = true;
    c.speed_down = true;
    c.start_playback = true;
    let out = cam.update(&c, &readings(&cam, ident()));
    assert_eq!(out, FrameOutcome { switched: None, speed: None, locked: None, path: None });
    assert_eq!(cam.node_count(), 0);
    assert!(!cam.is_movement_locked());
}

#[test]
fn toggle_key_switches_before_the_other_controls_are_served() {
    let mut cam = Freecam::new();
    let mut c = Controls::none();
    c.toggle_freecam = true;
    c.add_keyframe = true;
    c.speed_up = true;
    let out = cam.update(&c, &readings(&cam, quat(0.0, 0.6, 0.0, 0.8)));
    assert_eq!(out.switched, Some(true));
    assert_eq!(out.speed, Some(Step::Up));
    assert_eq!(out.locked, None);
    assert_eq!(out.path.unwrap().added, Some(1));
    assert!(cam.check_active());
    assert!(cam.is_awaiting_initial_sync());
    assert_eq!(cam.node_count(), 1);
    let out = cam.update(&c, &readings(&cam, ident()));
    assert_eq!(out, FrameOutcome { switched: Some(false), speed: None, locked: None, path: None });
    assert_eq!(cam.node_count(), 1);
}

#[test]
fn idle_frame_changes_nothing() {
    let mut cam = with_square();
    cam.enable_freecam_mode();
    let out = cam.update(&Controls::none(), &readings(&cam, ident()));
    assert_eq!(
        out,
        FrameOutcome {
            switched: None,
            speed: None,
            locked: None,
            path: Some(PathOutcome {
                added: None,
                duration: None,
                removed: RemoveOutcome::NotAsked,
                cleared: ClearOutcome::NotAsked,
                start: false,
            }),
        }
    );
    assert_eq!(cam.node_count(), 4);
    assert_eq!(cam.node_path_time(), s(3.0));
}

#[test]
fn lock_key_switches_the_lock_while_the_camera_is_on() {
    let mut cam = Freecam::new();
    cam.enable_freecam_mode();
    let c = pressed(|c| c.lock_camera = true);
    assert_eq!(cam.update(&c, &readings(&cam, ident())).locked, Some(true));
    assert!(cam.is_movement_locked());
    assert_eq!(cam.update(&c, &readings(&cam, ident())).locked, Some(false));
    assert!(!cam.is_movement_locked());
}

#[test]
fn slower_wins_over_faster() {
    let mut cam = Freecam::new();
    cam.enable_freecam_mode();
    let mut c = Controls::none();
    c.speed_down = true;
    c.speed_up = true;
    c.duration_down = true;
    c.duration_up = true;
    let out = cam.update(&c, &readings(&cam, ident()));
    assert_eq!(out.speed, Some(Step::Down));
    assert_eq!(out.path.unwrap().duration, Some(s(2.75)));
    assert_eq!(cam.node_path_time(), s(2.75));
    let out = cam.update(&pressed(|c| c.duration_up = true), &readings(&cam, ident()));
    assert_eq!(out.path.unwrap().duration, Some(s(3.0)));
}

#[test]
fn path_controls_are_served_in_their_order() {
    let mut cam = Freecam::new();
    cam.enable_freecam_mode();
    place(&mut cam, 1.0, 2.0, 3.0);
    let mut c = Controls::none();
    c.add_keyframe = true;
    c.remove_last = true;
    let out = cam.update_camera_path(&c, &readings(&cam, ident()));
    assert_eq!(out.added, Some(1));
    assert_eq!(
        out.removed,
        RemoveOutcome::Removed { number: 1, node: FreecamNode::new(v3(1.0, 2.0, 3.0), ident()) }
    );
    assert_eq!(out.cleared, ClearOutcome::NotAsked);
    assert_eq!(cam.node_count(), 0);

    let out = cam.update_camera_path(&pressed(|c| c.remove_last = true), &readings(&cam, ident()));
    assert_eq!(out.removed, RemoveOutcome::AlreadyEmpty);
    let out =
        cam.update_camera_path(&pressed(|c| c.clear_keyframes = true), &readings(&cam, ident()));
    assert_eq!(out.cleared, ClearOutcome::AlreadyEmpty);

    let mut cam = with_square();
    let mut c = Controls::none();
    c.add_keyframe = true;
    c.remove_last = true;
    c.clear_keyframes = true;
    c.start_playback = true;
    let out = cam.update_camera_path(&c, &readings(&cam, ident()));
    assert_eq!(out.added, Some(5));
    assert_eq!(out.cleared, ClearOutcome::Cleared { count: 4 });
    assert!(!out.start);
    assert_eq!(cam.node_count(), 0);
}

#[test]
fn play_key_asks_for_playback_when_there_is_a_keyframe() {
    let mut cam = Freecam::new();
    cam.enable_freecam_mode();
    let mut c = Controls::none();
    c.add_keyframe = true;
    c.start_playback = true;
    let out = cam.update(&c, &readings(&cam, ident()));
    assert!(out.path.unwrap().start);
    assert!(!cam.is_playing_path());
    let dots = dots_of(&cam);
    assert!(cam.start_playback(&dots));
    assert!(cam.is_playing_path());
}

#[test]
fn keys_become_controls() {
    let mut k = KeySnapshot::idle();
    assert_eq!(Controls::from_keys(&k), Controls::none());
    k.numpad1 = true;
    k.nine = true;
    k.subtract = true;
    k.numpad2 = true;
    k.back = true;
    let c = Controls::from_keys(&k);
    assert!(c.add_keyframe && c.duration_up && c.speed_down && c.start_playback && c.remove_last);
    assert!(!c.toggle_freecam && !c.lock_camera && !c.duration_down && !c.speed_up);
    assert!(!c.clear_keyframes);
    assert_eq!(c.speed_request(), Some(Step::Down));
    assert_eq!(c.duration_request(), Some(Step::Up));
    k.focused = false;
    assert_eq!(Controls::from_keys(&k), Controls::none());
}

#[test]
fn camera_saves_and_loads_its_path() {
    let mut cam = with_square();
    cam.set_node_rotation(1, quat(0.0, 0.6, 0.0, 0.8));
    let saved = cam.write(ByteOrder::Little).unwrap();
    assert_eq!(saved.len(), 4 + 4 * 28);
    assert_eq!(Freecam::read(&saved, ByteOrder::Little), Ok(cam.clone_nodes()));
    let mut other = Freecam::new();
    other.add_camera_node(ident());
    assert_eq!(other.load_path(&saved, ByteOrder::Little), Ok(4));
    assert_eq!(other.nodes(), cam.nodes());
}

#[test]
fn failed_load_leaves_the_keyframes_untouched() {
    let mut cam = with_square();
    let before = cam.clone_nodes();
    assert_eq!(
        cam.load_path(&[2, 0, 0, 0, 1, 2, 3], ByteOrder::Little),
        Err(PathFileError::Truncated { count: 2, found: 7 })
    );
    assert_eq!(cam.nodes(), &before);
    assert_eq!(
        cam.load_path(&[2, 0], ByteOrder::Little),
        Err(PathFileError::MissingCount { found: 2 })
    );
    assert_eq!(cam.nodes(), &before);
    assert_eq!(cam.load_path(&[0, 0, 0, 0], ByteOrder::Little), Ok(0));
    assert_eq!(cam.node_count(), 0);
}
