use curling_game::camera::{desired_camera_mode, tracked_stone, CameraState};
use curling_game::components::{CameraMode, Phase};
use curling_game::scalar::{Point3, Position, Scalar};

fn s(x: f32) -> Scalar {
    Scalar { bits: x.to_bits() }
}

fn f(v: Scalar) -> f32 {
    f32::from_bits(v.bits)
}

#[test]
fn camera_starts_in_skip_view() {
    let camera = CameraState::default();
    assert_eq!(camera.mode, CameraMode::SkipView);
    assert_eq!(f(camera.target_position.y), 17.375 + 1.829 + 2.0);
    assert_eq!(f(camera.target_position.z), 1.7);
    assert_eq!(f(camera.target_look_at.y), 17.375);
    assert_eq!(f(camera.transition_progress), 1.0);
    assert_eq!(f(camera.transition_duration), 0.5);
    assert_eq!(f(camera.follow_camera_height), 0.8);
    assert!(!camera.stone_crossed_hog);
}

#[test]
fn each_phase_has_its_view() {
    assert_eq!(desired_camera_mode(Phase::CallingShot, CameraMode::Overhead, false), CameraMode::Overhead);
    assert_eq!(desired_camera_mode(Phase::CallingShot, CameraMode::FollowStone, false), CameraMode::SkipView);
    assert_eq!(desired_camera_mode(Phase::Aiming, CameraMode::SkipView, false), CameraMode::ThrowingView);
    assert_eq!(desired_camera_mode(Phase::StoneMoving, CameraMode::ThrowingView, false), CameraMode::FollowStone);
    assert_eq!(desired_camera_mode(Phase::StoneMoving, CameraMode::FollowStone, true), CameraMode::HouseOverhead);
    assert_eq!(desired_camera_mode(Phase::Resolve, CameraMode::FollowStone, false), CameraMode::HouseOverhead);
    assert_eq!(desired_camera_mode(Phase::ShowingScore, CameraMode::SkipView, false), CameraMode::HouseOverhead);
    assert_eq!(desired_camera_mode(Phase::Ended, CameraMode::HouseOverhead, false), CameraMode::SkipView);
}

#[test]
fn switching_view_restarts_the_transition() {
    let mut camera = CameraState::default();
    assert!(camera.update_mode(Phase::Aiming, None));
    assert_eq!(camera.mode, CameraMode::ThrowingView);
    assert_eq!(f(camera.transition_progress), 0.0);
    assert_eq!(f(camera.transition_duration), 1.0);
    camera.transition_progress = s(0.4);
    assert!(!camera.update_mode(Phase::Aiming, None));
    assert_eq!(f(camera.transition_progress), 0.4);
}

#[test]
fn follow_view_switches_to_house_after_far_hog() {
    let mut camera = CameraState::default();
    camera.mode = CameraMode::ThrowingView;
    camera.follow_camera_height = s(1.4);
    assert!(camera.update_mode(Phase::StoneMoving, Some(s(-10.0))));
    assert_eq!(camera.mode, CameraMode::FollowStone);
    assert_eq!(f(camera.follow_camera_height), 0.8);
    assert_eq!(f(camera.transition_duration), 0.3);
    assert!(!camera.update_mode(Phase::StoneMoving, Some(s(5.0))));
    assert_eq!(camera.mode, CameraMode::FollowStone);
    // Past the far hog line (17.375 - 6.4) the camera moves over the house.
    assert!(camera.update_mode(Phase::StoneMoving, Some(s(11.5))));
    assert_eq!(camera.mode, CameraMode::HouseOverhead);
    assert!(camera.stone_crossed_hog);
    assert_eq!(f(camera.transition_duration), 1.5);
}

#[test]
fn view_button_swaps_skip_and_overhead_while_calling() {
    let mut camera = CameraState::default();
    camera.toggle_view(Phase::CallingShot);
    assert_eq!(camera.mode, CameraMode::Overhead);
    assert_eq!(f(camera.transition_progress), 0.0);
    assert_eq!(f(camera.transition_duration), 0.5);
    camera.toggle_view(Phase::CallingShot);
    assert_eq!(camera.mode, CameraMode::SkipView);
    let before = camera;
    camera.toggle_view(Phase::Aiming);
    assert_eq!(camera, before);
}

#[test]
fn camera_tracks_thrown_stone_or_first_moving_one() {
    let entities = vec![4, 9, 9, 2];
    let speeds = vec![s(0.05), s(0.3), s(0.0), s(2.0)];
    assert_eq!(tracked_stone(Some(9), &entities, &speeds), Some(1));
    assert_eq!(tracked_stone(Some(7), &entities, &speeds), None);
    assert_eq!(tracked_stone(None, &entities, &speeds), Some(1));
    let still = vec![s(0.1), s(0.0), s(0.05), s(0.1)];
    assert_eq!(tracked_stone(None, &entities, &still), None);
}

#[test]
fn each_view_points_the_camera() {
    let broom = Position { x: s(0.4), y: s(17.0) };
    let mut camera = CameraState::default();
    camera.mode = CameraMode::Overhead;
    camera.update_targets(broom, None);
    assert_eq!((f(camera.target_position.y), f(camera.target_position.z)), (17.375, 12.0));
    camera.mode = CameraMode::ThrowingView;
    camera.update_targets(broom, None);
    assert_eq!(f(camera.target_position.y), -17.375 - 1.829 - 1.5);
    assert_eq!(f(camera.target_position.z), 1.0);
    assert_eq!((f(camera.target_look_at.x), f(camera.target_look_at.y)), (0.4, 17.0));
    camera.mode = CameraMode::HouseOverhead;
    camera.update_targets(broom, None);
    let center = ((17.375f32 - 6.40) + (17.375 + 1.829)) * 0.5;
    assert_eq!(f(camera.target_position.y), center);
    assert_eq!(f(camera.target_position.z), 12.0);
    assert_eq!(f(camera.target_look_at.y), center);
    // Following with no stone leaves the targets as they were.
    let before = camera;
    camera.mode = CameraMode::FollowStone;
    camera.update_targets(broom, None);
    assert_eq!(camera.target_position, before.target_position);
    let follow = (
        Point3 { x: s(0.1), y: s(-5.0), z: s(0.9) },
        Point3 { x: s(0.1), y: s(10.0), z: s(0.0) },
    );
    camera.update_targets(broom, Some(follow));
    assert_eq!((camera.target_position, camera.target_look_at), follow);
}
