//! Runtime state coordination for a 3D exploration game: the screen and
//! modal-overlay stack, the camera controller decisions and the mood-driven
//! soundtrack crossfade, all over an explicit registry of entities.

pub mod app;
pub mod camera;
pub mod entity;
pub mod gameplay;
pub mod input;
pub mod mood;
pub mod states;

pub use app::{App, AppView};
pub use camera::{
    follow_point, lemma_pan_factor_at_margin, lemma_pan_factor_beyond_edge, lemma_pan_speed_bounded, axis_dir, axis_depth, half, lemma_zoom_stays_in_range,
    speed_factor, spawn_camera, CameraConfig, CameraMotion, CameraStrategy, Config, Cursor, OrbitCamera,
    OrbitConfig, Point, SceneCamera, Window,
};
pub use entity::{next_handle, Entity};
pub use gameplay::{
    click_pop_modal, click_spawn_settings, click_to_menu, lemma_back_pushes_or_pops, lemma_menu_round_trip,
    lemma_initial_overlays_match, lemma_overlays_follow_top, lemma_pop_keeps_overlays_matching,
    lemma_push_keeps_overlays_matching, shown, without_kinds, Icon, ModalOp,
    Overlay,
};
pub use input::{
    add_modal_ctx, add_player_ctx, rm_modal_ctx, rm_player_ctx, ActionKind, ActionOutput, Attack,
    Crouch, Dash, Escape, InputContext, InputEntity, Jump, LeftTab, Mute, Navigate,
    NavigateModal, Pan, Pause, RightTab, RotateToggle, ScrollZoom, Select, Sprint, InputEntityView,
    camera_bindings, modal_bindings, player_bindings, spawn_ctx, switch_ctx,
};
pub use mood::{
    after_fades, fading_out, lemma_fade_never_stalls, lemma_mood_change_settles,
    lemma_mood_round_trip_settles, paused_all, ramp_level, ramp_step, AudioSources, AudioSourcesView,
    Buses, Fade, MusicTrack, VolumeSettings, FADE_TIME,
};
pub use states::{CameraMode, GameState, GameStateView, Modal, MoodType, Moods, Screen, SunCycle};
