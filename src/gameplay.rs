//! The gameplay screen: the modal overlay stack, pausing and muting.
use vstd::prelude::*;
use crate::app::{App, AppView};
use crate::entity::{next_handle, Entity};
use crate::input::{switch_ctx, InputContext, InputEntity};
use crate::mood::Buses;
use crate::states::{GameStateView, Modal, Screen};

verus! {

/// A displayed modal overlay entity.
#[derive(Clone, Copy, Debug, PartialEq, Eq, Hash, Structural)]
pub struct Overlay {
    pub entity: Entity,
    pub modal: Modal,
}

/// An on-screen indicator entity, such as the pause or mute icon.
#[derive(Clone, Copy, Debug, PartialEq, Eq, Hash, Structural)]
pub struct Icon {
    pub entity: Entity,
    pub visible: bool,
}

/// The overlays of `s` whose modal is not among `kinds`, in order.
pub open spec fn without_kinds(s: Seq<Overlay>, kinds: Seq<Modal>) -> Seq<Overlay>
    decreases s.len(),
{
    if s.len() == 0 {
        s
    } else {
        let rest = without_kinds(s.drop_last(), kinds);
        if kinds.contains(s.last().modal) {
            rest
        } else {
            rest.push(s.last())
        }
    }
}

/// `icon`, if present, with its visibility set to `visible`.
pub open spec fn shown(icon: Option<Icon>, visible: bool) -> Option<Icon> {
    match icon {
        Some(i) => Some(Icon { visible, ..i }),
        None => None,
    }
}

impl AppView {
    /// At most one overlay is displayed, and it is the top of the stack:
    /// none while the stack is empty, exactly the top's otherwise.
    pub open spec fn overlays_match_top(self) -> bool {
        if self.state.modals.len() == 0 {
            self.overlays.len() == 0
        } else {
            self.overlays.len() == 1 && self.overlays[0].modal == self.state.modals.last()
        }
    }

    /// Switches the one input entity to `ctx`; with none, or more than one,
    /// nothing changes.
    pub open spec fn with_input_context(self, ctx: InputContext) -> AppView {
        if self.inputs.len() == 1 {
            AppView { inputs: self.inputs.update(0, self.inputs[0].switched_to(ctx)), ..self }
        } else {
            self
        }
    }

    /// Sets the paused flag, and mirrors it on the clock and the pause icon.
    pub open spec fn with_paused(self, paused: bool) -> AppView {
        AppView {
            state: GameStateView { paused, ..self.state },
            clock_paused: paused,
            pause_icon: shown(self.pause_icon, paused),
            ..self
        }
    }

    /// Flips the paused flag, mirrored on the clock and the pause icon.
    pub open spec fn with_pause_toggled(self) -> AppView {
        self.with_paused(!self.state.paused)
    }

    /// Flips the muted flag: muting silences both buses and shows the mute
    /// icon; unmuting restores the configured levels and hides it.
    pub open spec fn with_mute_toggled(self) -> AppView {
        let muted = !self.state.muted;
        AppView {
            state: GameStateView { muted, ..self.state },
            buses: if muted {
                Buses { music: 0, sfx: 0 }
            } else {
                Buses { music: self.settings.music, sfx: self.settings.sfx }
            },
            mute_icon: shown(self.mute_icon, muted),
            ..self
        }
    }

    /// Despawns the overlay of every modal on the stack; the stack itself
    /// is kept.
    pub open spec fn with_overlays_cleared(self) -> AppView {
        AppView { overlays: without_kinds(self.overlays, self.state.modals), ..self }
    }

    /// Spawns the overlay for `m`.
    pub open spec fn with_overlay_spawned(self, m: Modal) -> AppView {
        AppView {
            overlays: self.overlays.push(Overlay { entity: self.fresh(), modal: m }),
            next_entity: next_handle(self.next_entity),
            ..self
        }
    }

    /// Opening a menu onto an empty stack: the modal input context, and for
    /// the main menu, paused time (remembering whether this paused it) and a
    /// flipped cursor capture.
    pub open spec fn with_menu_opened(self, m: Modal) -> AppView {
        let a = self.with_input_context(InputContext::Modal);
        if m == Modal::Main {
            let b = if a.state.paused {
                AppView { menu_paused: false, ..a }
            } else {
                AppView { menu_paused: true, ..a.with_pause_toggled() }
            };
            b.with_cursor_toggled()
        } else {
            AppView { menu_paused: false, ..a }
        }
    }

    /// Closing the last menu, of kind `m`: the gameplay input context, time
    /// resumed if opening the menu paused it, and for the main menu, cursor
    /// capture flipped back. This undoes what opening the menu did.
    pub open spec fn with_menu_closed(self, m: Modal) -> AppView {
        let a = self.with_input_context(InputContext::Gameplay);
        let b = if a.menu_paused { a.with_paused(false) } else { a };
        let c = AppView { menu_paused: false, ..b };
        if m == Modal::Main {
            c.with_cursor_toggled()
        } else {
            c
        }
    }

    /// The side effects that precede a push of `m`: those of opening the
    /// menu when the stack is empty, none otherwise.
    pub open spec fn prepared_for(self, m: Modal) -> AppView {
        if self.state.modals.len() == 0 {
            self.with_menu_opened(m)
        } else {
            self
        }
    }

    /// `m` pushed onto the modal stack, with nothing else changed.
    pub open spec fn with_modal_pushed(self, m: Modal) -> AppView {
        AppView { state: GameStateView { modals: self.state.modals.push(m), ..self.state }, ..self }
    }

    /// The state after pushing `m`: outside gameplay nothing changes.
    pub open spec fn after_push_modal(self, m: Modal) -> AppView {
        if self.screen != Screen::Gameplay {
            self
        } else {
            self.prepared_for(m).with_overlays_cleared().with_overlay_spawned(m).with_modal_pushed(m)
        }
    }

    /// The state after popping the top modal: outside gameplay nothing
    /// changes.
    pub open spec fn after_pop_modal(self) -> AppView {
        if self.screen != Screen::Gameplay {
            self
        } else {
            let top = self.state.modals.last();
            let rest = self.state.modals.drop_last();
            let a = AppView {
                state: GameStateView { modals: rest, ..self.state },
                overlays: without_kinds(self.overlays, seq![top]),
                ..self
            };
            if rest.len() > 0 {
                a.with_overlay_spawned(rest.last())
            } else {
                a.with_menu_closed(top)
            }
        }
    }

    /// The state after a back action: during gameplay an empty stack gets
    /// the main menu, otherwise the top modal is popped.
    pub open spec fn after_back(self) -> AppView {
        if self.screen != Screen::Gameplay {
            self
        } else if self.state.modals.len() == 0 {
            self.after_push_modal(Modal::Main)
        } else {
            self.after_pop_modal()
        }
    }
}

proof fn lemma_single_overlay_cleared(o: Overlay, kinds: Seq<Modal>)
    requires
        kinds.contains(o.modal),
    ensures
        without_kinds(seq![o], kinds) == Seq::<Overlay>::empty(),
{
    let s = seq![o];
    assert(s.drop_last() =~= Seq::<Overlay>::empty());
    assert(s.last() == o);
    assert(without_kinds(s.drop_last(), kinds) =~= Seq::<Overlay>::empty());
}

/// Pushing a modal keeps the displayed overlay in step with the top of the
/// stack.
pub proof fn lemma_push_keeps_overlays_matching(v: AppView, m: Modal)
    requires
        v.overlays_match_top(),
    ensures
        v.after_push_modal(m).overlays_match_top(),
{
    if v.screen == Screen::Gameplay {
        let modals = v.state.modals;
        if modals.len() > 0 {
            assert(modals.contains(modals.last())) by {
                assert(modals[modals.len() - 1] == modals.last());
            }
            assert(v.overlays =~= seq![v.overlays[0]]);
            lemma_single_overlay_cleared(v.overlays[0], modals);
        }
    }
}

/// Popping a modal keeps the displayed overlay in step with the top of the
/// stack.
pub proof fn lemma_pop_keeps_overlays_matching(v: AppView)
    requires
        v.overlays_match_top(),
        v.screen == Screen::Gameplay ==> v.state.modals.len() > 0,
    ensures
        v.after_pop_modal().overlays_match_top(),
{
    if v.screen == Screen::Gameplay {
        let top = v.state.modals.last();
        assert(seq![top].contains(top)) by {
            assert(seq![top][0] == top);
        }
        assert(v.overlays =~= seq![v.overlays[0]]);
        lemma_single_overlay_cleared(v.overlays[0], seq![top]);
    }
}

/// Pushing a modal and popping it straight away gives back the paused flag
/// and the cursor capture that were there before, whether or not the game
/// was paused.
pub proof fn lemma_menu_round_trip(v: AppView, m: Modal)
    ensures
        v.after_push_modal(m).after_pop_modal().state.paused == v.state.paused,
        v.after_push_modal(m).after_pop_modal().cameras == v.cameras,
{
    let w = v.after_push_modal(m);
    if v.screen == Screen::Gameplay {
        assert(w.state.modals.drop_last() =~= v.state.modals);
        if v.state.modals.len() == 0 && v.cameras.len() == 1 && m == Modal::Main {
            let c = v.cameras[0];
            assert(c.cursor_toggled().cursor_toggled() == c);
            assert(v.cameras.update(0, c.cursor_toggled()).update(0, c) =~= v.cameras);
        }
    }
}

/// During gameplay a back action either pushes the main menu onto an empty
/// stack or pops exactly one level, never both.
pub proof fn lemma_back_pushes_or_pops(v: AppView)
    requires
        v.screen == Screen::Gameplay,
    ensures
        v.state.modals.len() == 0 ==> v.after_back().state.modals == seq![Modal::Main],
        v.state.modals.len() > 0 ==> v.after_back().state.modals == v.state.modals.drop_last(),
{
    if v.state.modals.len() == 0 {
        assert(v.state.modals.push(Modal::Main) =~= seq![Modal::Main]);
    }
}

/// Whether `m` is on `modals`.
fn holds(modals: &Vec<Modal>, m: Modal) -> (r: bool)
    ensures
        r == modals@.contains(m),
{
    let mut i: usize = 0;
    while i < modals.len()
        invariant
            i <= modals@.len(),
            forall|j: int| 0 <= j < i ==> modals@[j] != m,
        decreases modals@.len() - i,
    {
        if modals[i] == m {
            return true;
        }
        i = i + 1;
    }
    false
}

/// The overlays of `s` whose modal is not on `kinds`.
fn retain_other_kinds(s: &Vec<Overlay>, kinds: &Vec<Modal>) -> (r: Vec<Overlay>)
    ensures
        r@ == without_kinds(s@, kinds@),
{
    let mut kept: Vec<Overlay> = Vec::new();
    let mut i: usize = 0;
    while i < s.len()
        invariant
            i <= s@.len(),
            kept@ == without_kinds(s@.take(i as int), kinds@),
        decreases s@.len() - i,
    {
        let o = s[i];
        assert(s@.take(i + 1).drop_last() =~= s@.take(i as int));
        if !holds(kinds, o.modal) {
            kept.push(o);
        }
        i = i + 1;
    }
    assert(s@.take(s@.len() as int) =~= s@);
    kept
}

impl App {
    /// Switches the one input entity to `ctx`.
    pub fn switch_input_ctx(&mut self, ctx: InputContext)
        ensures
            final(self)@ == old(self)@.with_input_context(ctx),
    {
        if self.inputs.len() == 1 {
            match self.inputs.pop() {
                Some(e) => {
                    let mut e = e;
                    switch_ctx(&mut e, ctx);
                    self.inputs.push(e);
                    assert(self.inputs@.map_values(|x: InputEntity| x@) =~= old(self)@.inputs.update(
                        0,
                        old(self)@.inputs[0].switched_to(ctx),
                    ));
                },
                None => {},
            }
        }
    }

    /// Flips the paused flag and mirrors it on the virtual clock and the
    /// pause icon.
    pub fn toggle_pause(&mut self)
        ensures
            final(self)@ == old(self)@.with_pause_toggled(),
    {
        let paused = !self.state.paused;
        self.set_paused(paused);
    }

    fn set_paused(&mut self, paused: bool)
        ensures
            final(self)@ == old(self)@.with_paused(paused),
    {
        self.state.paused = paused;
        self.clock_paused = paused;
        match self.pause_icon {
            Some(i) => self.pause_icon = Some(Icon { visible: paused, ..i }),
            None => {},
        }
    }

    /// Flips the muted flag: muting silences the music and effect buses and
    /// shows the mute icon, unmuting restores the configured levels and
    /// hides it.
    pub fn toggle_mute(&mut self)
        ensures
            final(self)@ == old(self)@.with_mute_toggled(),
    {
        let muted = !self.state.muted;
        if muted {
            self.buses = Buses { music: 0, sfx: 0 };
        } else {
            self.buses = Buses { music: self.settings.music, sfx: self.settings.sfx };
        }
        match self.mute_icon {
            Some(i) => self.mute_icon = Some(Icon { visible: muted, ..i }),
            None => {},
        }
        self.state.muted = muted;
    }

    /// Despawns the overlay of every modal on the stack without popping it.
    pub fn clear_modals(&mut self)
        ensures
            final(self)@ == old(self)@.with_overlays_cleared(),
    {
        self.overlays = retain_other_kinds(&self.overlays, &self.state.modals);
    }

    fn despawn_overlays_of(&mut self, m: Modal)
        ensures
            final(self)@ == (AppView { overlays: without_kinds(old(self)@.overlays, seq![m]), ..old(self)@ }),
    {
        let mut kinds: Vec<Modal> = Vec::new();
        kinds.push(m);
        assert(kinds@ =~= seq![m]);
        self.overlays = retain_other_kinds(&self.overlays, &kinds);
    }

    /// Pushes `m` onto the modal stack; outside gameplay this does nothing.
    ///
    /// Pushing onto an empty stack opens the menu: input switches to the
    /// modal context, and for the main menu time is paused (unless it
    /// already is) and cursor capture is flipped. Every displayed overlay
    /// of a stacked modal is then despawned and the overlay of `m` spawned,
    /// so only the top's overlay is ever displayed.
    pub fn add_new_modal(&mut self, m: Modal)
        ensures
            final(self)@ == old(self)@.after_push_modal(m),
            old(self)@.overlays_match_top() ==> final(self)@.overlays_match_top(),
    {
        if self.screen != Screen::Gameplay {
            return;
        }
        self.prepare_for(m);
        self.clear_modals();
        self.spawn_overlay(m);
        self.push_top(m);
        proof {
            if old(self)@.overlays_match_top() {
                lemma_push_keeps_overlays_matching(old(self)@, m);
            }
        }
    }

    /// Pops the top modal and despawns its overlay; outside gameplay this
    /// does nothing. During gameplay the stack must not be empty.
    ///
    /// If a modal is left, its overlay is spawned again. If none is left,
    /// input returns to the gameplay context, time runs again if opening the
    /// menu paused it, and if the last modal was the main menu, cursor
    /// capture is flipped back.
    pub fn pop_modal(&mut self)
        requires
            old(self).screen == Screen::Gameplay ==> old(self).state.modals.len() > 0,
        ensures
            final(self)@ == old(self)@.after_pop_modal(),
            old(self)@.overlays_match_top() ==> final(self)@.overlays_match_top(),
    {
        if self.screen != Screen::Gameplay {
            return;
        }
        let top = self.state.modals.pop().unwrap();
        self.despawn_overlays_of(top);
        let n = self.state.modals.len();
        if n > 0 {
            let next = self.state.modals[n - 1];
            self.spawn_overlay(next);
        } else {
            self.close_menu(top);
        }
        proof {
            if old(self)@.overlays_match_top() {
                lemma_pop_keeps_overlays_matching(old(self)@);
            }
        }
    }

    /// Reacts to the back action: during gameplay, opens the main menu when
    /// no modal is up, and otherwise pops one level.
    pub fn trigger_menu_toggle_on_esc(&mut self)
        ensures
            final(self)@ == old(self)@.after_back(),
            old(self)@.overlays_match_top() ==> final(self)@.overlays_match_top(),
    {
        if self.screen != Screen::Gameplay {
            return;
        }
        if self.state.modals.len() == 0 {
            self.add_new_modal(Modal::Main);
        } else {
            self.pop_modal();
        }
    }

    fn prepare_for(&mut self, m: Modal)
        ensures
            final(self)@ == old(self)@.prepared_for(m),
    {
        if self.state.modals.len() == 0 {
            self.open_menu(m);
        }
    }

    fn push_top(&mut self, m: Modal)
        ensures
            final(self)@ == old(self)@.with_modal_pushed(m),
    {
        self.state.modals.push(m);
    }

    fn open_menu(&mut self, m: Modal)
        ensures
            final(self)@ == old(self)@.with_menu_opened(m),
    {
        self.switch_input_ctx(InputContext::Modal);
        if m == Modal::Main {
            if self.state.paused {
                self.menu_paused = false;
            } else {
                self.toggle_pause();
                self.menu_paused = true;
            }
            self.toggle_cam_cursor();
        } else {
            self.menu_paused = false;
        }
    }

    fn close_menu(&mut self, m: Modal)
        ensures
            final(self)@ == old(self)@.with_menu_closed(m),
    {
        self.switch_input_ctx(InputContext::Gameplay);
        if self.menu_paused {
            self.set_paused(false);
        }
        self.menu_paused = false;
        if m == Modal::Main {
            self.toggle_cam_cursor();
        }
    }

    fn spawn_overlay(&mut self, m: Modal)
        ensures
            final(self)@ == old(self)@.with_overlay_spawned(m),
    {
        let entity = self.spawn();
        self.overlays.push(Overlay { entity, modal: m });
    }
}

} // verus!

verus! {

impl AppView {
    /// The pause and mute icons spawned, both hidden.
    pub open spec fn with_gameplay_ui(self) -> AppView {
        let second = next_handle(self.next_entity);
        AppView {
            pause_icon: Some(Icon { entity: self.fresh(), visible: false }),
            mute_icon: Some(Icon { entity: Entity(second), visible: false }),
            next_entity: next_handle(second),
            ..self
        }
    }

    /// The shared state reset as on a return to the title screen.
    pub open spec fn with_state_reset(self) -> AppView {
        AppView { state: self.state.after_reset(), ..self }
    }
}

impl App {
    /// On entering gameplay, spawns the hidden pause and mute icons.
    pub fn spawn_gameplay_ui(&mut self)
        ensures
            final(self)@ == old(self)@.with_gameplay_ui(),
    {
        let pause = self.spawn();
        let mute = self.spawn();
        self.pause_icon = Some(Icon { entity: pause, visible: false });
        self.mute_icon = Some(Icon { entity: mute, visible: false });
    }
}

/// The menu's "back" button: pops the top modal.
pub fn click_pop_modal(app: &mut App)
    requires
        old(app).screen == Screen::Gameplay ==> old(app).state.modals.len() > 0,
    ensures
        final(app)@ == old(app)@.after_pop_modal(),
{
    app.pop_modal();
}

/// The menu's "settings" button: pushes the settings modal.
pub fn click_spawn_settings(app: &mut App)
    ensures
        final(app)@ == old(app)@.after_push_modal(Modal::Settings),
{
    app.add_new_modal(Modal::Settings);
}

/// The menu's "main menu" button: input goes to the modal context, the game
/// returns to the title screen, and the shared state is reset.
pub fn click_to_menu(app: &mut App)
    ensures
        exists|t: u64|
            final(app)@ == old(app)@.with_input_context(InputContext::Modal).after_go_to(
                Screen::Title,
                t,
            ).with_state_reset(),
{
    app.switch_input_ctx(InputContext::Modal);
    app.go_to(Screen::Title);
    app.state.reset();
}

} // verus!

verus! {

/// One call on the modal stack.
#[derive(Clone, Copy, Debug, PartialEq, Eq, Hash, Structural)]
pub enum ModalOp {
    Push(Modal),
    Pop,
}

impl AppView {
    /// The state after applying `ops` in order.
    pub open spec fn after_ops(self, ops: Seq<ModalOp>) -> AppView
        decreases ops.len(),
    {
        if ops.len() == 0 {
            self
        } else {
            let w = self.after_ops(ops.drop_last());
            match ops.last() {
                ModalOp::Push(m) => w.after_push_modal(m),
                ModalOp::Pop => w.after_pop_modal(),
            }
        }
    }

    /// Every pop in `ops` meets its precondition: during gameplay it finds a
    /// modal on the stack.
    pub open spec fn ops_allowed(self, ops: Seq<ModalOp>) -> bool {
        forall|i: int|
            0 <= i < ops.len() && #[trigger] ops[i] == ModalOp::Pop ==> {
                let w = self.after_ops(ops.take(i));
                w.screen == Screen::Gameplay ==> w.state.modals.len() > 0
            }
    }
}

/// Over any run of pushes and pops that starts with the displayed overlay
/// matching the top of the stack, at most one overlay is displayed
/// afterwards, and it is the top's.
pub proof fn lemma_overlays_follow_top(v: AppView, ops: Seq<ModalOp>)
    requires
        v.overlays_match_top(),
        v.ops_allowed(ops),
    ensures
        v.after_ops(ops).overlays_match_top(),
    decreases ops.len(),
{
    if ops.len() > 0 {
        let prefix = ops.drop_last();
        assert forall|i: int| 0 <= i < prefix.len() && #[trigger] prefix[i] == ModalOp::Pop implies {
            let w = v.after_ops(prefix.take(i));
            w.screen == Screen::Gameplay ==> w.state.modals.len() > 0
        } by {
            assert(prefix.take(i) =~= ops.take(i));
            assert(ops[i] == prefix[i]);
        }
        lemma_overlays_follow_top(v, prefix);
        let w = v.after_ops(prefix);
        match ops.last() {
            ModalOp::Push(m) => lemma_push_keeps_overlays_matching(w, m),
            ModalOp::Pop => {
                let k = ops.len() - 1;
                assert(ops.take(k) =~= prefix);
                assert(ops[k] == ModalOp::Pop);
                lemma_pop_keeps_overlays_matching(w);
            },
        }
    }
}

/// A new game starts with no modal and no overlay.
pub proof fn lemma_initial_overlays_match(
    strategy: crate::camera::CameraStrategy,
    config: crate::camera::Config,
    settings: crate::mood::VolumeSettings,
    sources: crate::mood::AudioSourcesView,
)
    ensures
        AppView::initial(strategy, config, settings, sources).overlays_match_top(),
{
}

} // verus!
