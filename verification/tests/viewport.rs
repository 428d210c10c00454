use atom_model::viewport::{camera_role, viewport_for, CameraRole, Viewport};

#[test]
fn camera_names_map_to_roles() {
    assert_eq!(camera_role("MainCamera"), Some(CameraRole::Main));
    assert_eq!(camera_role("GameViewCamera"), Some(CameraRole::GameView));
}

#[test]
fn other_names_have_no_role() {
    assert_eq!(camera_role(""), None);
    assert_eq!(camera_role("Core"), None);
    assert_eq!(camera_role("Electron"), None);
    assert_eq!(camera_role("maincamera"), None);
    assert_eq!(camera_role("MainCamera "), None);
    assert_eq!(camera_role("GameView"), None);
}

#[test]
fn main_camera_covers_the_window() {
    assert_eq!(
        viewport_for(CameraRole::Main, 1280, 720),
        Viewport { x: 0, y: 0, width: 1280, height: 720 }
    );
    assert_eq!(
        viewport_for(CameraRole::Main, u32::MAX, 0),
        Viewport { x: 0, y: 0, width: u32::MAX, height: 0 }
    );
}

#[test]
fn game_view_is_a_third_against_the_far_edge() {
    assert_eq!(
        viewport_for(CameraRole::GameView, 1280, 720),
        Viewport { x: 854, y: 0, width: 426, height: 240 }
    );
    assert_eq!(
        viewport_for(CameraRole::GameView, 900, 600),
        Viewport { x: 600, y: 0, width: 300, height: 200 }
    );
}

#[test]
fn game_view_rounds_down() {
    assert_eq!(
        viewport_for(CameraRole::GameView, 2, 5),
        Viewport { x: 2, y: 0, width: 0, height: 1 }
    );
    assert_eq!(
        viewport_for(CameraRole::GameView, 0, 0),
        Viewport { x: 0, y: 0, width: 0, height: 0 }
    );
    assert_eq!(
        viewport_for(CameraRole::GameView, u32::MAX, u32::MAX),
        Viewport { x: 2_863_311_530, y: 0, width: 1_431_655_765, height: 1_431_655_765 }
    );
}

#[test]
fn viewports_stay_inside_the_window() {
    for (w, h) in [(1u32, 1u32), (3, 3), (640, 480), (1920, 1080), (7, 100_000)] {
        for role in [CameraRole::Main, CameraRole::GameView] {
            let v = viewport_for(role, w, h);
            assert!(v.x as u64 + v.width as u64 <= w as u64);
            assert!(v.y as u64 + v.height as u64 <= h as u64);
        }
    }
}
