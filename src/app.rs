//! The explicit registry that holds the shared state, the resources and
//! the entities of one running game.
use vstd::prelude::*;
use crate::camera::{CameraStrategy, Config, SceneCamera};
use crate::entity::{next_handle, Entity};
use crate::gameplay::{Icon, Overlay};
use crate::input::{InputEntity, InputEntityView};
use crate::mood::{paused_all, AudioSources, AudioSourcesView, Buses, MusicTrack, VolumeSettings};
use crate::states::{GameState, GameStateView, Moods, MoodType, Screen};

verus! {

/// One running game: its active screen, shared state, read-only resources
/// and every entity that this core spawns or reads.
#[derive(Debug)]
pub struct App {
    pub screen: Screen,
    pub strategy: CameraStrategy,
    pub config: Config,
    pub settings: VolumeSettings,
    pub sources: AudioSources,
    pub state: GameState,
    pub moods: Moods,
    /// The handle the next spawned entity receives.
    pub next_entity: u64,
    /// Displayed modal overlay entities.
    pub overlays: Vec<Overlay>,
    pub pause_icon: Option<Icon>,
    pub mute_icon: Option<Icon>,
    /// Whether the virtual clock that drives gameplay time is stopped.
    pub clock_paused: bool,
    /// Whether opening the menu that is up paused the game, so that
    /// closing it must resume.
    pub menu_paused: bool,
    pub buses: Buses,
    pub inputs: Vec<InputEntity>,
    pub cameras: Vec<SceneCamera>,
    pub music: Vec<MusicTrack>,
}

/// The mathematical value of an [`App`].
pub struct AppView {
    pub screen: Screen,
    pub strategy: CameraStrategy,
    pub config: Config,
    pub settings: VolumeSettings,
    pub sources: AudioSourcesView,
    pub state: GameStateView,
    pub moods: Moods,
    pub next_entity: u64,
    pub overlays: Seq<Overlay>,
    pub pause_icon: Option<Icon>,
    pub mute_icon: Option<Icon>,
    pub clock_paused: bool,
    pub menu_paused: bool,
    pub buses: Buses,
    pub inputs: Seq<InputEntityView>,
    pub cameras: Seq<SceneCamera>,
    pub music: Seq<MusicTrack>,
}

impl View for App {
    type V = AppView;

    open spec fn view(&self) -> AppView {
        AppView {
            screen: self.screen,
            strategy: self.strategy,
            config: self.config,
            settings: self.settings,
            sources: self.sources@,
            state: self.state@,
            moods: self.moods,
            next_entity: self.next_entity,
            overlays: self.overlays@,
            pause_icon: self.pause_icon,
            mute_icon: self.mute_icon,
            clock_paused: self.clock_paused,
            menu_paused: self.menu_paused,
            buses: self.buses,
            inputs: self.inputs@.map_values(|e: InputEntity| e@),
            cameras: self.cameras@,
            music: self.music@,
        }
    }
}

impl AppView {
    /// The handle that the next spawn hands out.
    pub open spec fn fresh(self) -> Entity {
        Entity(self.next_entity)
    }

    /// The registry after one handle has been handed out.
    pub open spec fn after_spawn(self) -> AppView {
        AppView { next_entity: next_handle(self.next_entity), ..self }
    }
}

impl App {
    /// Hands out the next entity handle.
    pub fn spawn(&mut self) -> (e: Entity)
        ensures
            e == old(self)@.fresh(),
            final(self)@ == old(self)@.after_spawn(),
    {
        let e = Entity(self.next_entity);
        if self.next_entity == u64::MAX {
            self.next_entity = 0;
        } else {
            self.next_entity = self.next_entity + 1;
        }
        e
    }
}

} // verus!

verus! {

impl AppView {
    /// Leaving gameplay: music paused, the orbit behaviour detached, the
    /// gameplay-only entities (overlays, icons) despawned and the modal
    /// stack emptied.
    pub open spec fn with_gameplay_exited(self) -> AppView {
        let a = if self.strategy == CameraStrategy::ThirdPerson { self.with_orbit_detached() } else { self };
        AppView {
            music: paused_all(a.music),
            overlays: Seq::empty(),
            pause_icon: None,
            mute_icon: None,
            state: GameStateView { modals: Seq::empty(), ..a.state },
            menu_paused: false,
            ..a
        }
    }

    /// Entering gameplay: the icons spawned, `track` started, and the orbit
    /// behaviour attached under the third-person strategy.
    pub open spec fn with_gameplay_entered(self, track: u64) -> AppView {
        let a = self.with_gameplay_ui().with_music_started(track);
        if self.strategy == CameraStrategy::ThirdPerson { a.with_orbit_attached() } else { a }
    }

    /// The active screen set to `next`, remembering the one left.
    pub open spec fn with_screen(self, next: Screen) -> AppView {
        AppView { screen: next, state: GameStateView { last_screen: self.screen, ..self.state }, ..self }
    }

    /// The state after moving to screen `next`, where `track` is the music
    /// started if gameplay is entered.
    pub open spec fn after_go_to(self, next: Screen, track: u64) -> AppView {
        let leaving = self.screen == Screen::Gameplay && next != Screen::Gameplay;
        let entering = self.screen != Screen::Gameplay && next == Screen::Gameplay;
        let a = if leaving { self.with_gameplay_exited() } else { self };
        let b = a.with_screen(next);
        if entering { b.with_gameplay_entered(track) } else { b }
    }

    /// A freshly started game, before any screen change.
    pub open spec fn initial(
        strategy: CameraStrategy,
        config: Config,
        settings: VolumeSettings,
        sources: AudioSourcesView,
    ) -> AppView {
        AppView {
            screen: Screen::Splash,
            strategy,
            config,
            settings,
            sources,
            state: GameStateView::initial(),
            moods: Moods { exploration: None, combat: None },
            next_entity: 2,
            overlays: Seq::empty(),
            pause_icon: None,
            mute_icon: None,
            clock_paused: false,
            menu_paused: false,
            buses: Buses { music: settings.music, sfx: settings.sfx },
            inputs: seq![InputEntityView::bare(Entity(0)).with_modal_ctx()],
            cameras: seq![SceneCamera { entity: Entity(1), orbit: None, kinematic_body: false }],
            music: Seq::empty(),
        }
    }
}

impl App {
    /// Starts a game on the splash screen: the shared state and mood table
    /// at their start values, the input entity in the modal context, and
    /// the scene camera.
    pub fn new(strategy: CameraStrategy, config: Config, settings: VolumeSettings, sources: AudioSources) -> (r: App)
        ensures
            r@ == AppView::initial(strategy, config, settings, sources@),
    {
        let mut app = App {
            screen: Screen::Splash,
            strategy,
            config,
            settings,
            sources,
            state: GameState::default(),
            moods: Moods::new(),
            next_entity: 0,
            overlays: Vec::new(),
            pause_icon: None,
            mute_icon: None,
            clock_paused: false,
            menu_paused: false,
            buses: Buses { music: settings.music, sfx: settings.sfx },
            inputs: Vec::new(),
            cameras: Vec::new(),
            music: Vec::new(),
        };
        crate::states::plugin(&mut app);
        crate::input::plugin(&mut app);
        crate::camera::plugin(&mut app);
        assert(app@.inputs =~= seq![InputEntityView::bare(Entity(0)).with_modal_ctx()]);
        assert(app@.cameras =~= seq![SceneCamera { entity: Entity(1), orbit: None, kinematic_body: false }]);
        assert(app@.overlays =~= Seq::<Overlay>::empty());
        assert(app@.music =~= Seq::<MusicTrack>::empty());
        app
    }

    fn exit_gameplay(&mut self)
        ensures
            final(self)@ == old(self)@.with_gameplay_exited(),
    {
        if self.strategy == CameraStrategy::ThirdPerson {
            self.rm_tpv_cam();
        }
        self.stop_soundtrack();
        self.overlays = Vec::new();
        self.pause_icon = None;
        self.mute_icon = None;
        self.state.modals = Vec::new();
        self.menu_paused = false;
        assert(self@.overlays =~= Seq::<Overlay>::empty());
        assert(self@.state.modals =~= Seq::<crate::states::Modal>::empty());
    }

    /// Enters gameplay with `track` as the first music.
    fn enter_gameplay(&mut self, track: u64)
        ensures
            final(self)@ == old(self)@.with_gameplay_entered(track),
    {
        self.spawn_gameplay_ui();
        self.start_soundtrack_with(track);
        if self.strategy == CameraStrategy::ThirdPerson {
            self.add_tpv_cam();
        }
    }

    fn set_screen(&mut self, next: Screen)
        ensures
            final(self)@ == old(self)@.with_screen(next),
    {
        self.state.last_screen = self.screen;
        self.screen = next;
    }

    /// Moves to screen `next` with `track` as the music started if gameplay
    /// is entered: leaving gameplay runs its exit hooks, entering it runs
    /// its enter hooks.
    pub fn go_to_with(&mut self, next: Screen, track: u64)
        ensures
            final(self)@ == old(self)@.after_go_to(next, track),
    {
        let was = self.screen;
        if was == Screen::Gameplay && next != Screen::Gameplay {
            self.exit_gameplay();
        }
        self.set_screen(next);
        if was != Screen::Gameplay && next == Screen::Gameplay {
            self.enter_gameplay(track);
        }
    }

    /// Moves to screen `next`; on entering gameplay the music is picked at
    /// random from the exploration pool.
    pub fn go_to(&mut self, next: Screen)
        requires
            old(self).screen != Screen::Gameplay && next == Screen::Gameplay ==> old(self)@.sources.wf(),
        ensures
            exists|t: u64|
                (old(self).screen != Screen::Gameplay && next == Screen::Gameplay
                    ==> old(self)@.sources.explore.contains(t))
                    && final(self)@ == old(self)@.after_go_to(next, t),
    {
        if self.screen != Screen::Gameplay && next == Screen::Gameplay {
            let t = crate::mood::pick(&self.sources, MoodType::Exploration);
            self.go_to_with(next, t);
        } else {
            self.go_to_with(next, 0);
            assert(self@ == old(self)@.after_go_to(next, 0));
        }
    }
}

} // verus!
