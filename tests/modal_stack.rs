use game_core::{
    click_pop_modal, click_spawn_settings, click_to_menu, ActionKind, App, AudioSources,
    CameraConfig, CameraStrategy, Config, InputContext, Modal, OrbitConfig, Screen, VolumeSettings,
};

fn config() -> Config {
    Config {
        camera: CameraConfig {
            edge_margin: 20,
            speed_floor: 100,
            max_speed: 5000,
            rotate_speed: 10,
            zoom_speed: 500,
            min_height: 5000,
            max_height: 40000,
        },
        player: OrbitConfig { zoom_min: 2000, zoom_max: 15000, fov: 70 },
    }
}

fn sources() -> AudioSources {
    AudioSources { btn_hover: 1, btn_press: 2, steps: vec![3, 4], explore: vec![10, 11], combat: vec![20] }
}

fn in_gameplay(strategy: CameraStrategy) -> App {
    let mut app = App::new(strategy, config(), VolumeSettings { music: 800, sfx: 600 }, sources());
    app.go_to(Screen::Title);
    app.go_to(Screen::Gameplay);
    app
}

fn cursor_locked(app: &App) -> Option<bool> {
    app.cameras[0].orbit.map(|o| o.cursor_lock_active)
}

#[test]
fn menu_settings_and_back_scenario() {
    let mut app = in_gameplay(CameraStrategy::ThirdPerson);
    assert!(app.overlays.is_empty());
    assert!(!app.state.paused);

    app.add_new_modal(Modal::Main);
    assert_eq!(app.overlays.len(), 1);
    assert_eq!(app.overlays[0].modal, Modal::Main);
    assert!(app.state.paused);
    assert!(app.clock_paused);

    app.add_new_modal(Modal::Settings);
    assert_eq!(app.overlays.len(), 1);
    assert_eq!(app.overlays[0].modal, Modal::Settings);
    assert_eq!(app.state.modals, vec![Modal::Main, Modal::Settings]);
    assert!(app.state.paused);

    app.pop_modal();
    assert_eq!(app.overlays.len(), 1);
    assert_eq!(app.overlays[0].modal, Modal::Main);
    assert_eq!(app.state.modals, vec![Modal::Main]);

    app.pop_modal();
    assert!(app.overlays.is_empty());
    assert!(app.state.modals.is_empty());
    assert!(!app.state.paused);
    assert!(!app.clock_paused);
}

#[test]
fn push_outside_gameplay_does_nothing() {
    let mut app = App::new(CameraStrategy::TopDown, config(), VolumeSettings { music: 800, sfx: 600 }, sources());
    app.go_to(Screen::Title);
    app.add_new_modal(Modal::Main);
    assert!(app.state.modals.is_empty());
    assert!(app.overlays.is_empty());
    assert!(!app.state.paused);
    app.pop_modal();
    assert!(app.state.modals.is_empty());
}

#[test]
fn main_menu_round_trip_restores_pause_and_cursor() {
    let mut app = in_gameplay(CameraStrategy::ThirdPerson);
    let before = cursor_locked(&app);
    assert_eq!(before, Some(true));
    app.add_new_modal(Modal::Main);
    assert_eq!(cursor_locked(&app), Some(false));
    app.pop_modal();
    assert_eq!(cursor_locked(&app), before);
    assert!(!app.state.paused);
}

#[test]
fn opening_menu_switches_input_context() {
    let mut app = in_gameplay(CameraStrategy::TopDown);
    app.switch_input_ctx(InputContext::Gameplay);
    assert!(app.inputs[0].player_ctx);
    assert!(!app.inputs[0].modal_ctx);
    app.add_new_modal(Modal::Main);
    assert!(app.inputs[0].modal_ctx);
    assert!(!app.inputs[0].player_ctx);
    assert!(app.inputs[0].player_actions.is_empty());
    assert_eq!(app.inputs[0].modal_priority, Some(1));
    app.pop_modal();
    assert!(app.inputs[0].player_ctx);
    assert!(!app.inputs[0].modal_ctx);
    assert!(app.inputs[0].player_actions.contains(&ActionKind::Escape));
}

#[test]
fn back_opens_menu_then_pops_one_level() {
    let mut app = in_gameplay(CameraStrategy::TopDown);
    app.trigger_menu_toggle_on_esc();
    assert_eq!(app.state.modals, vec![Modal::Main]);
    click_spawn_settings(&mut app);
    assert_eq!(app.state.modals, vec![Modal::Main, Modal::Settings]);
    app.trigger_menu_toggle_on_esc();
    assert_eq!(app.state.modals, vec![Modal::Main]);
    assert_eq!(app.overlays.len(), 1);
    assert_eq!(app.overlays[0].modal, Modal::Main);
    app.trigger_menu_toggle_on_esc();
    assert!(app.state.modals.is_empty());
    assert!(app.overlays.is_empty());
}

#[test]
fn back_outside_gameplay_is_ignored() {
    let mut app = App::new(CameraStrategy::TopDown, config(), VolumeSettings { music: 800, sfx: 600 }, sources());
    app.trigger_menu_toggle_on_esc();
    assert!(app.state.modals.is_empty());
}

#[test]
fn settings_pushed_on_empty_stack_does_not_pause() {
    let mut app = in_gameplay(CameraStrategy::ThirdPerson);
    click_spawn_settings(&mut app);
    assert!(!app.state.paused);
    assert_eq!(cursor_locked(&app), Some(true));
    click_pop_modal(&mut app);
    assert!(!app.state.paused);
    assert_eq!(cursor_locked(&app), Some(true));
}

#[test]
fn already_paused_game_stays_paused_when_menu_opens() {
    let mut app = in_gameplay(CameraStrategy::TopDown);
    app.toggle_pause();
    assert!(app.state.paused);
    app.add_new_modal(Modal::Main);
    assert!(app.state.paused);
    assert!(app.clock_paused);
}

#[test]
fn clear_modals_keeps_the_stack() {
    let mut app = in_gameplay(CameraStrategy::TopDown);
    app.add_new_modal(Modal::Main);
    app.clear_modals();
    assert!(app.overlays.is_empty());
    assert_eq!(app.state.modals, vec![Modal::Main]);
}

#[test]
fn toggle_pause_mirrors_clock_and_icon() {
    let mut app = in_gameplay(CameraStrategy::TopDown);
    assert_eq!(app.pause_icon.map(|i| i.visible), Some(false));
    app.toggle_pause();
    assert!(app.state.paused);
    assert!(app.clock_paused);
    assert_eq!(app.pause_icon.map(|i| i.visible), Some(true));
    app.toggle_pause();
    assert!(!app.state.paused);
    assert!(!app.clock_paused);
    assert_eq!(app.pause_icon.map(|i| i.visible), Some(false));
}

#[test]
fn toggle_mute_silences_and_restores_buses() {
    let mut app = in_gameplay(CameraStrategy::TopDown);
    assert_eq!((app.buses.music, app.buses.sfx), (800, 600));
    app.toggle_mute();
    assert!(app.state.muted);
    assert_eq!((app.buses.music, app.buses.sfx), (0, 0));
    assert_eq!(app.mute_icon.map(|i| i.visible), Some(true));
    app.toggle_mute();
    assert!(!app.state.muted);
    assert_eq!((app.buses.music, app.buses.sfx), (800, 600));
    assert_eq!(app.mute_icon.map(|i| i.visible), Some(false));
}

#[test]
fn main_menu_button_returns_to_title_and_resets() {
    let mut app = in_gameplay(CameraStrategy::ThirdPerson);
    app.add_new_modal(Modal::Main);
    app.toggle_mute();
    click_to_menu(&mut app);
    assert_eq!(app.screen, Screen::Title);
    assert_eq!(app.state.last_screen, Screen::Gameplay);
    assert!(app.state.modals.is_empty());
    assert!(!app.state.paused);
    assert!(!app.state.muted);
    assert!(app.overlays.is_empty());
    assert!(app.pause_icon.is_none());
    assert!(app.cameras[0].orbit.is_none());
    assert!(!app.cameras[0].kinematic_body);
    assert!(app.music.iter().all(|t| t.paused));
}

#[test]
fn overlays_get_fresh_entities() {
    let mut app = in_gameplay(CameraStrategy::TopDown);
    app.add_new_modal(Modal::Main);
    let first = app.overlays[0].entity;
    app.add_new_modal(Modal::Settings);
    assert_ne!(app.overlays[0].entity, first);
}

#[test]
fn main_menu_round_trip_keeps_an_earlier_pause() {
    let mut app = in_gameplay(CameraStrategy::ThirdPerson);
    app.toggle_pause();
    app.add_new_modal(Modal::Main);
    assert!(app.state.paused);
    assert_eq!(cursor_locked(&app), Some(false));
    app.pop_modal();
    assert!(app.state.paused);
    assert!(app.clock_paused);
    assert_eq!(cursor_locked(&app), Some(true));
}

#[test]
fn settings_round_trip_keeps_an_earlier_pause() {
    let mut app = in_gameplay(CameraStrategy::ThirdPerson);
    app.toggle_pause();
    click_spawn_settings(&mut app);
    click_pop_modal(&mut app);
    assert!(app.state.paused);
    assert_eq!(cursor_locked(&app), Some(true));
}
