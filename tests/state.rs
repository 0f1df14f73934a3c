use game_core::{
    add_modal_ctx, add_player_ctx, rm_modal_ctx, rm_player_ctx, ActionKind, ActionOutput, App, AudioSources,
    CameraConfig, CameraMode, CameraStrategy, Config, Entity, GameState, InputEntity, Modal, MoodType, Moods,
    OrbitConfig, Pan, RotateToggle, Screen, SunCycle, VolumeSettings,
};

#[test]
fn game_state_defaults() {
    let s = GameState::default();
    assert!(s.modals.is_empty());
    assert_eq!(s.last_screen, Screen::Title);
    assert_eq!(s.current_mood, MoodType::Exploration);
    assert_eq!(s.camera_mode, CameraMode::Move);
    assert!(s.diagnostics);
    assert!(!s.debug_ui && !s.paused && !s.muted);
    assert_eq!(Screen::default(), Screen::Splash);
}

#[test]
fn reset_keeps_flags_and_camera_mode() {
    let mut s = GameState::default();
    s.modals.push(Modal::Main);
    s.paused = true;
    s.muted = true;
    s.debug_ui = true;
    s.camera_mode = CameraMode::Rotate;
    s.reset();
    assert!(s.modals.is_empty());
    assert!(!s.paused && !s.muted);
    assert!(s.debug_ui && s.diagnostics);
    assert_eq!(s.camera_mode, CameraMode::Rotate);
}

#[test]
fn moods_table() {
    let mut m = Moods::new();
    assert_eq!(m.get(MoodType::Combat), None);
    m.insert(MoodType::Combat, Entity(4));
    assert_eq!(m.get(MoodType::Combat), Some(Entity(4)));
    assert_eq!(m.get(MoodType::Exploration), None);
}

#[test]
fn new_app_has_input_entity_and_camera() {
    let config = Config {
        camera: CameraConfig { edge_margin: 20, speed_floor: 100, max_speed: 1, rotate_speed: 1, zoom_speed: 1, min_height: 0, max_height: 10 },
        player: OrbitConfig { zoom_min: 1, zoom_max: 2, fov: 60 },
    };
    let sources = AudioSources { btn_hover: 0, btn_press: 0, steps: vec![], explore: vec![1], combat: vec![2] };
    let a = App::new(CameraStrategy::TopDown, config, VolumeSettings { music: 5, sfx: 6 }, sources);
    assert_eq!(a.screen, Screen::Splash);
    assert_eq!(a.inputs.len(), 1);
    assert!(a.inputs[0].modal_ctx);
    assert_eq!(a.inputs[0].modal_actions[0], ActionKind::NavigateModal);
    assert_eq!(a.cameras.len(), 1);
    assert_ne!(a.cameras[0].entity, a.inputs[0].entity);
}

#[test]
fn player_context_binds_gameplay_and_camera_actions() {
    let mut e = InputEntity {
        entity: Entity(9),
        player_ctx: false,
        modal_ctx: false,
        modal_priority: None,
        player_actions: vec![],
        modal_actions: vec![],
    };
    add_player_ctx(&mut e);
    assert!(e.player_ctx);
    assert_eq!(e.player_actions.len(), 10);
    assert_eq!(e.player_actions[0], Pan::KIND);
    assert_eq!(e.modal_actions, vec![ActionKind::ScrollZoom, RotateToggle::KIND]);
    rm_player_ctx(&mut e);
    assert!(!e.player_ctx && e.player_actions.is_empty());
    add_modal_ctx(&mut e);
    assert_eq!(e.modal_priority, Some(1));
    assert_eq!(e.modal_actions.len(), 7);
    rm_modal_ctx(&mut e);
    assert!(e.modal_actions.is_empty() && e.modal_priority.is_none());
    assert_eq!(Pan::OUTPUT, ActionOutput::Axis2);
}

#[test]
fn sun_cycle_names() {
    assert_eq!(SunCycle::DayNight.as_str(), "DayNight");
    assert_eq!(SunCycle::Nimbus.as_str(), "Nimbus");
}
