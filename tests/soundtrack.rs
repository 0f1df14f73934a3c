use game_core::{
    App, AudioSources, CameraConfig, CameraStrategy, Config, Fade, MoodType, OrbitConfig, Screen,
    VolumeSettings, FADE_TIME,
};

fn app() -> App {
    let config = Config {
        camera: CameraConfig {
            edge_margin: 20,
            speed_floor: 100,
            max_speed: 5000,
            rotate_speed: 10,
            zoom_speed: 500,
            min_height: 5000,
            max_height: 40000,
        },
        player: OrbitConfig { zoom_min: 2000, zoom_max: 15000, fov: 70 },
    };
    let sources = AudioSources { btn_hover: 1, btn_press: 2, steps: vec![], explore: vec![10, 11, 12], combat: vec![20, 21] };
    let mut a = App::new(CameraStrategy::TopDown, config, VolumeSettings { music: 800, sfx: 600 }, sources);
    a.go_to(Screen::Gameplay);
    a
}

#[test]
fn entering_gameplay_starts_one_exploration_track() {
    let a = app();
    assert_eq!(a.music.len(), 1);
    assert!([10, 11, 12].contains(&a.music[0].handle));
    assert_eq!(a.music[0].volume, 800);
    assert_eq!(a.music[0].fade, Fade::Steady);
}

#[test]
fn random_mood_change_picks_from_the_pool() {
    let mut a = app();
    a.change_mood(MoodType::Combat);
    assert_eq!(a.state.current_mood, MoodType::Combat);
    assert!([20, 21].contains(&a.music.last().unwrap().handle));
}

#[test]
fn mood_change_crossfades() {
    let mut a = app();
    a.change_mood_to(MoodType::Combat, 20);
    assert_eq!(a.music.len(), 2);
    assert_eq!(a.music[0].fade, Fade::Out);
    assert_eq!((a.music[1].handle, a.music[1].volume, a.music[1].fade), (20, 0, Fade::In));
    a.tick_fades(500);
    assert_eq!(a.music[0].volume, 600);
    assert_eq!(a.music[1].volume, 200);
    a.tick_fades(1500);
    assert_eq!(a.music.len(), 1);
    assert_eq!((a.music[0].handle, a.music[0].volume, a.music[0].fade), (20, 800, Fade::Steady));
}

#[test]
fn exploration_combat_exploration_settles_to_one_track() {
    let mut a = app();
    a.change_mood_to(MoodType::Combat, 21);
    a.tick_fades(700);
    a.change_mood_to(MoodType::Exploration, 11);
    assert!(a.music[..a.music.len() - 1].iter().all(|t| t.fade == Fade::Out));
    a.tick_fades(FADE_TIME);
    assert_eq!(a.music.len(), 1);
    assert_eq!(a.music[0].handle, 11);
    assert_eq!(a.music[0].fade, Fade::Steady);
    assert_eq!(a.state.current_mood, MoodType::Exploration);
}

#[test]
fn leaving_gameplay_pauses_music() {
    let mut a = app();
    a.go_to(Screen::Title);
    assert_eq!(a.music.len(), 1);
    assert!(a.music[0].paused);
}

#[test]
fn shortest_tick_still_moves_both_fades() {
    let mut a = app();
    a.change_mood_to(MoodType::Combat, 20);
    a.tick_fades(1);
    assert_eq!(a.music[1].volume, 1);
    assert_eq!(a.music[0].volume, 799);
}

#[test]
fn quiet_music_fades_at_frame_rate_within_fade_time() {
    let config = app().config;
    let sources = AudioSources { btn_hover: 1, btn_press: 2, steps: vec![], explore: vec![10], combat: vec![20] };
    let mut a = App::new(CameraStrategy::TopDown, config, VolumeSettings { music: 100, sfx: 600 }, sources);
    a.go_to(Screen::Gameplay);
    a.change_mood_to(MoodType::Combat, 20);
    a.tick_fades(16);
    assert_eq!(a.music[0].volume, 99);
    assert_eq!(a.music[1].volume, 1);
    for _ in 1..125 {
        a.tick_fades(16);
    }
    assert_eq!(a.music.len(), 1);
    assert_eq!((a.music[0].handle, a.music[0].volume, a.music[0].fade), (20, 100, Fade::Steady));
}
