//! Shared game state and the enums that name screens, moods, modals and
//! camera sub-modes.
use vstd::prelude::*;
use crate::app::{App, AppView};
use crate::entity::Entity;

verus! {

/// The game's top-level screens; exactly one is active at a time.
#[derive(Clone, Copy, Debug, PartialEq, Eq, Hash, Structural)]
pub enum Screen {
    Splash,
    Loading,
    Tutorial,
    Credits,
    Settings,
    Title,
    Gameplay,
}

impl Default for Screen {
    fn default() -> (r: Screen)
        ensures
            r == Screen::Splash,
    {
        Screen::Splash
    }
}

/// The gameplay mood that selects which pool of music plays.
#[derive(Clone, Copy, Debug, PartialEq, Eq, Hash, Structural)]
pub enum MoodType {
    Exploration,
    Combat,
}

impl Default for MoodType {
    fn default() -> (r: MoodType)
        ensures
            r == MoodType::Exploration,
    {
        MoodType::Exploration
    }
}

/// What a pointer drag does to the free camera: pan it or rotate it.
#[derive(Clone, Copy, Debug, PartialEq, Eq, Hash, Structural)]
pub enum CameraMode {
    Move,
    Rotate,
}

impl Default for CameraMode {
    fn default() -> (r: CameraMode)
        ensures
            r == CameraMode::Move,
    {
        CameraMode::Move
    }
}

/// An overlay that can be stacked on top of gameplay.
#[derive(Clone, Copy, Debug, PartialEq, Eq, Hash, Structural)]
pub enum Modal {
    Main,
    Settings,
}

/// The process-wide state that the screen stack, the camera and the
/// soundtrack read and change.
#[derive(Debug)]
pub struct GameState {
    /// The modal stack, top last. Only meaningful during gameplay.
    pub modals: Vec<Modal>,
    pub last_screen: Screen,
    pub current_mood: MoodType,
    /// Whether a drag pans or rotates the free camera.
    pub camera_mode: CameraMode,
    pub diagnostics: bool,
    pub debug_ui: bool,
    pub paused: bool,
    pub muted: bool,
}

/// The mathematical value of a [`GameState`].
pub struct GameStateView {
    pub modals: Seq<Modal>,
    pub last_screen: Screen,
    pub current_mood: MoodType,
    pub camera_mode: CameraMode,
    pub diagnostics: bool,
    pub debug_ui: bool,
    pub paused: bool,
    pub muted: bool,
}

impl View for GameState {
    type V = GameStateView;

    open spec fn view(&self) -> GameStateView {
        GameStateView {
            modals: self.modals@,
            last_screen: self.last_screen,
            current_mood: self.current_mood,
            camera_mode: self.camera_mode,
            diagnostics: self.diagnostics,
            debug_ui: self.debug_ui,
            paused: self.paused,
            muted: self.muted,
        }
    }
}

impl GameStateView {
    /// The state a process starts with.
    pub open spec fn initial() -> GameStateView {
        GameStateView {
            modals: Seq::empty(),
            last_screen: Screen::Title,
            current_mood: MoodType::Exploration,
            camera_mode: CameraMode::Move,
            diagnostics: true,
            debug_ui: false,
            paused: false,
            muted: false,
        }
    }

    /// The state after returning to the title screen: no modals, neither
    /// paused nor muted, everything else kept.
    pub open spec fn after_reset(self) -> GameStateView {
        GameStateView { modals: Seq::empty(), paused: false, muted: false, ..self }
    }
}

impl Default for GameState {
    fn default() -> (r: GameState)
        ensures
            r@ == GameStateView::initial(),
    {
        GameState {
            modals: Vec::new(),
            last_screen: Screen::Title,
            current_mood: MoodType::Exploration,
            camera_mode: CameraMode::Move,
            diagnostics: true,
            debug_ui: false,
            paused: false,
            muted: false,
        }
    }
}

impl GameState {
    /// Clears the modal stack and the paused and muted flags; diagnostics,
    /// debug and camera flags are kept.
    pub fn reset(&mut self)
        ensures
            final(self)@ == old(self)@.after_reset(),
    {
        self.modals.clear();
        self.paused = false;
        self.muted = false;
        assert(self.modals@ =~= Seq::<Modal>::empty());
    }
}

} // verus!

verus! {

/// The music entity currently playing for each mood, if any.
#[derive(Clone, Copy, Debug, PartialEq, Eq, Hash, Structural)]
pub struct Moods {
    pub exploration: Option<Entity>,
    pub combat: Option<Entity>,
}

impl Moods {
    /// The entries as a map from mood to entity.
    pub open spec fn view_map(self) -> Map<MoodType, Entity> {
        let explore = match self.exploration {
            Some(e) => Map::empty().insert(MoodType::Exploration, e),
            None => Map::empty(),
        };
        match self.combat {
            Some(e) => explore.insert(MoodType::Combat, e),
            None => explore,
        }
    }

    pub fn new() -> (r: Moods)
        ensures
            r.view_map() == Map::<MoodType, Entity>::empty(),
    {
        let r = Moods { exploration: None, combat: None };
        r
    }

    pub fn get(&self, mood: MoodType) -> (r: Option<Entity>)
        ensures
            r == (if self.view_map().contains_key(mood) {
                Some(self.view_map()[mood])
            } else {
                None
            }),
    {
        match mood {
            MoodType::Exploration => self.exploration,
            MoodType::Combat => self.combat,
        }
    }

    pub fn insert(&mut self, mood: MoodType, e: Entity)
        ensures
            final(self).view_map() == old(self).view_map().insert(mood, e),
    {
        match mood {
            MoodType::Exploration => self.exploration = Some(e),
            MoodType::Combat => self.combat = Some(e),
        }
        assert(self.view_map() =~= old(self).view_map().insert(mood, e));
    }
}

} // verus!

verus! {

/// Installs the shared game state and the mood table at their start values.
pub fn plugin(app: &mut App)
    ensures
        final(app)@ == (AppView { state: GameStateView::initial(), moods: Moods { exploration: None, combat: None }, ..old(app)@ }),
{
    app.state = GameState::default();
    app.moods = Moods { exploration: None, combat: None };
}

} // verus!

verus! {

/// How the sky cycles over the scene.
#[derive(Clone, Copy, Debug, PartialEq, Eq, Hash, Structural)]
pub enum SunCycle {
    DayNight,
    Nimbus,
}

impl SunCycle {
    /// The cycle's display name.
    pub fn as_str(&self) -> (r: &'static str)
        ensures
            *self == SunCycle::DayNight ==> r@ == "DayNight"@,
            *self == SunCycle::Nimbus ==> r@ == "Nimbus"@,
    {
        match self {
            SunCycle::DayNight => "DayNight",
            SunCycle::Nimbus => "Nimbus",
        }
    }
}

} // verus!
