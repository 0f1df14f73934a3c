use game_core::{
    App, AudioSources, CameraConfig, CameraMotion, CameraStrategy, Config, Cursor, OrbitConfig, Point,
    Screen, VolumeSettings, Window,
};

fn config() -> Config {
    Config {
        camera: CameraConfig {
            edge_margin: 20,
            speed_floor: 100,
            max_speed: 5000,
            rotate_speed: 10,
            zoom_speed: 500,
            min_height: 5000,
            max_height: 40000,
        },
        player: OrbitConfig { zoom_min: 2000, zoom_max: 15000, fov: 70 },
    }
}

fn app(strategy: CameraStrategy) -> App {
    let sources = AudioSources { btn_hover: 1, btn_press: 2, steps: vec![], explore: vec![10], combat: vec![20] };
    App::new(strategy, config(), VolumeSettings { music: 800, sfx: 600 }, sources)
}

fn window(x: i32, y: i32) -> Vec<Window> {
    vec![Window { width: 800, height: 600, cursor: Some(Cursor { x, y }) }]
}

#[test]
fn cursor_at_left_margin_pans_at_factor_one() {
    let a = app(CameraStrategy::TopDown);
    assert_eq!(a.camera_mouse_pan(0, &window(20, 300)), CameraMotion::Pan { left: 1, forward: 0, speed: 5000 });
}

#[test]
fn cursor_beyond_far_edge_uses_the_floor() {
    let a = app(CameraStrategy::TopDown);
    assert_eq!(a.camera_mouse_pan(0, &window(900, 300)), CameraMotion::Pan { left: -1, forward: 0, speed: 50000 });
}

#[test]
fn cursor_halfway_into_margin_doubles_speed() {
    let a = app(CameraStrategy::TopDown);
    assert_eq!(a.camera_mouse_pan(0, &window(10, 300)), CameraMotion::Pan { left: 1, forward: 0, speed: 10000 });
    assert_eq!(a.camera_mouse_pan(0, &window(790, 300)), CameraMotion::Pan { left: -1, forward: 0, speed: 10000 });
}

#[test]
fn corner_pans_diagonally_with_vertical_depth() {
    let a = app(CameraStrategy::TopDown);
    // 5 px from the top edge and 15 px from the left: the top edge sets the factor.
    assert_eq!(a.camera_mouse_pan(0, &window(15, 5)), CameraMotion::Pan { left: 1, forward: 1, speed: 20000 });
    assert_eq!(a.camera_mouse_pan(0, &window(400, 595)), CameraMotion::Pan { left: 0, forward: -1, speed: 20000 });
}

#[test]
fn cursor_at_exact_edge_is_floored() {
    let a = app(CameraStrategy::TopDown);
    assert_eq!(a.camera_mouse_pan(0, &window(0, 300)), CameraMotion::Pan { left: 1, forward: 0, speed: 50000 });
}

#[test]
fn cursor_in_the_middle_does_not_pan() {
    let a = app(CameraStrategy::TopDown);
    assert_eq!(a.camera_mouse_pan(0, &window(400, 300)), CameraMotion::Idle);
}

#[test]
fn missing_window_cursor_or_camera_skips_the_tick() {
    let mut a = app(CameraStrategy::TopDown);
    assert_eq!(a.camera_mouse_pan(0, &vec![]), CameraMotion::Idle);
    let two = vec![window(0, 0)[0], window(0, 0)[0]];
    assert_eq!(a.camera_mouse_pan(0, &two), CameraMotion::Idle);
    let away = vec![Window { width: 800, height: 600, cursor: None }];
    assert_eq!(a.camera_mouse_pan(0, &away), CameraMotion::Idle);
    a.cameras.clear();
    assert_eq!(a.camera_mouse_pan(0, &window(0, 0)), CameraMotion::Idle);
    assert_eq!(a.camera_zoom(10000, 1), None);
}

#[test]
fn rotate_mode_turns_by_drag() {
    let mut a = app(CameraStrategy::TopDown);
    a.camera_to_rotate();
    assert_eq!(a.camera_mouse_pan(-7, &window(0, 0)), CameraMotion::Rotate { yaw: -70 });
    a.camera_to_move();
    assert_eq!(a.camera_mouse_pan(-7, &window(400, 300)), CameraMotion::Idle);
}

#[test]
fn zoom_moves_against_scroll_within_bounds() {
    let a = app(CameraStrategy::TopDown);
    assert_eq!(a.camera_zoom(10000, 2), Some(9000));
    assert_eq!(a.camera_zoom(10000, -4), Some(12000));
    assert_eq!(a.camera_zoom(10000, 100), Some(5000));
    assert_eq!(a.camera_zoom(10000, -1000), Some(40000));
}

#[test]
fn zoom_sequence_stays_in_range() {
    let a = app(CameraStrategy::TopDown);
    let mut h = 39000;
    for d in [-5, -5, 3, 100, -1, i32::MAX, i32::MIN, 7] {
        h = a.camera_zoom(h, d).unwrap();
        assert!((5000..=40000).contains(&h));
    }
}

#[test]
fn orbit_attaches_once_and_detaches() {
    let mut a = app(CameraStrategy::ThirdPerson);
    a.go_to(Screen::Gameplay);
    let orbit = a.cameras[0].orbit.unwrap();
    assert_eq!((orbit.zoom_min, orbit.zoom_max, orbit.fov), (2000, 15000, 70));
    assert!(orbit.cursor_lock_active);
    assert!(a.cameras[0].kinematic_body);
    a.toggle_cam_cursor();
    a.add_tpv_cam();
    assert!(!a.cameras[0].orbit.unwrap().cursor_lock_active);
    a.rm_tpv_cam();
    assert!(a.cameras[0].orbit.is_none());
    assert!(!a.cameras[0].kinematic_body);
}

#[test]
fn top_down_strategy_attaches_no_orbit() {
    let mut a = app(CameraStrategy::TopDown);
    a.go_to(Screen::Gameplay);
    assert!(a.cameras[0].orbit.is_none());
}

#[test]
fn follow_point_sits_above_and_behind() {
    let mut a = app(CameraStrategy::TopDown);
    let players = vec![Point { x: 1000, y: 0, z: -3000 }];
    assert_eq!(a.sync_camera_to_player(&players), Some(Point { x: 1000, y: 20000, z: 17000 }));
    assert_eq!(a.sync_camera_to_player(&vec![]), None);
    a.toggle_pause();
    assert_eq!(a.sync_camera_to_player(&players), None);
}

#[test]
fn narrow_window_pans_toward_the_nearer_edge() {
    let a = app(CameraStrategy::TopDown);
    let narrow = |x: i32| vec![Window { width: 10, height: 600, cursor: Some(Cursor { x, y: 300 }) }];
    // Past the far edge, though inside the left margin: the floor factor.
    assert_eq!(a.camera_mouse_pan(0, &narrow(15)), CameraMotion::Pan { left: -1, forward: 0, speed: 50000 });
    assert_eq!(a.camera_mouse_pan(0, &narrow(10)), CameraMotion::Pan { left: -1, forward: 0, speed: 50000 });
    // Nearer the left edge: 3 px deep, factor 150.
    assert_eq!(a.camera_mouse_pan(0, &narrow(3)), CameraMotion::Pan { left: 1, forward: 0, speed: 33333 });
}
