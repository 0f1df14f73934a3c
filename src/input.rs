//! Logical input actions and the input contexts that bind them.
//!
//! Which device button drives which action is the input collaborator's
//! concern; this module records which actions each context makes available
//! on an entity, and switches an entity between the gameplay and modal
//! contexts.
use vstd::prelude::*;
use crate::app::{App, AppView};
use crate::entity::Entity;

verus! {

/// Every logical action the game reacts to.
#[derive(Clone, Copy, Debug, PartialEq, Eq, Hash, Structural)]
pub enum ActionKind {
    Navigate,
    Pan,
    ScrollZoom,
    RotateToggle,
    Attack,
    Jump,
    Sprint,
    Dash,
    Crouch,
    Pause,
    Mute,
    Escape,
    NavigateModal,
    Select,
    RightTab,
    LeftTab,
}

/// The value an action reports when it fires.
#[derive(Clone, Copy, Debug, PartialEq, Eq, Hash, Structural)]
pub enum ActionOutput {
    /// A pressed / released state.
    Button,
    /// A two-dimensional axis, such as a stick or a pointer motion.
    Axis2,
}

/// Moves the player or a menu cursor.
pub struct Navigate;

/// Drags the free camera.
pub struct Pan;

/// Zooms the free camera.
pub struct ScrollZoom;

/// Switches a drag between panning and rotating while held.
pub struct RotateToggle;

pub struct Attack;

pub struct Jump;

pub struct Sprint;

pub struct Dash;

pub struct Crouch;

/// Toggles the pause state.
pub struct Pause;

/// Toggles the mute state.
pub struct Mute;

/// Backs out of a menu, or opens the main menu.
pub struct Escape;

/// Moves the selection inside a modal.
pub struct NavigateModal;

pub struct Select;

pub struct RightTab;

pub struct LeftTab;

impl Navigate {
    pub const KIND: ActionKind = ActionKind::Navigate;
    pub const OUTPUT: ActionOutput = ActionOutput::Axis2;
}

impl Pan {
    pub const KIND: ActionKind = ActionKind::Pan;
    pub const OUTPUT: ActionOutput = ActionOutput::Axis2;
}

impl ScrollZoom {
    pub const KIND: ActionKind = ActionKind::ScrollZoom;
    pub const OUTPUT: ActionOutput = ActionOutput::Axis2;
}

impl RotateToggle {
    pub const KIND: ActionKind = ActionKind::RotateToggle;
    pub const OUTPUT: ActionOutput = ActionOutput::Button;
}

impl Attack {
    pub const KIND: ActionKind = ActionKind::Attack;
    pub const OUTPUT: ActionOutput = ActionOutput::Button;
}

impl Jump {
    pub const KIND: ActionKind = ActionKind::Jump;
    pub const OUTPUT: ActionOutput = ActionOutput::Button;
}

impl Sprint {
    pub const KIND: ActionKind = ActionKind::Sprint;
    pub const OUTPUT: ActionOutput = ActionOutput::Button;
}

impl Dash {
    pub const KIND: ActionKind = ActionKind::Dash;
    pub const OUTPUT: ActionOutput = ActionOutput::Button;
}

impl Crouch {
    pub const KIND: ActionKind = ActionKind::Crouch;
    pub const OUTPUT: ActionOutput = ActionOutput::Button;
}

impl Pause {
    pub const KIND: ActionKind = ActionKind::Pause;
    pub const OUTPUT: ActionOutput = ActionOutput::Button;
}

impl Mute {
    pub const KIND: ActionKind = ActionKind::Mute;
    pub const OUTPUT: ActionOutput = ActionOutput::Button;
}

impl Escape {
    pub const KIND: ActionKind = ActionKind::Escape;
    pub const OUTPUT: ActionOutput = ActionOutput::Button;
}

impl NavigateModal {
    pub const KIND: ActionKind = ActionKind::NavigateModal;
    pub const OUTPUT: ActionOutput = ActionOutput::Axis2;
}

impl Select {
    pub const KIND: ActionKind = ActionKind::Select;
    pub const OUTPUT: ActionOutput = ActionOutput::Button;
}

impl RightTab {
    pub const KIND: ActionKind = ActionKind::RightTab;
    pub const OUTPUT: ActionOutput = ActionOutput::Button;
}

impl LeftTab {
    pub const KIND: ActionKind = ActionKind::LeftTab;
    pub const OUTPUT: ActionOutput = ActionOutput::Button;
}

/// The two input contexts: one active during play, one while a menu is up.
#[derive(Clone, Copy, Debug, PartialEq, Eq, Hash, Structural)]
pub enum InputContext {
    Gameplay,
    Modal,
}

/// An entity that carries input contexts, with the actions each context
/// has bound on it.
#[derive(Debug)]
pub struct InputEntity {
    pub entity: Entity,
    pub player_ctx: bool,
    pub modal_ctx: bool,
    /// Priority of the modal context over others, while it is attached.
    pub modal_priority: Option<u32>,
    pub player_actions: Vec<ActionKind>,
    pub modal_actions: Vec<ActionKind>,
}

pub struct InputEntityView {
    pub entity: Entity,
    pub player_ctx: bool,
    pub modal_ctx: bool,
    pub modal_priority: Option<u32>,
    pub player_actions: Seq<ActionKind>,
    pub modal_actions: Seq<ActionKind>,
}

impl View for InputEntity {
    type V = InputEntityView;

    open spec fn view(&self) -> InputEntityView {
        InputEntityView {
            entity: self.entity,
            player_ctx: self.player_ctx,
            modal_ctx: self.modal_ctx,
            modal_priority: self.modal_priority,
            player_actions: self.player_actions@,
            modal_actions: self.modal_actions@,
        }
    }
}

/// The actions that the gameplay context binds, in binding order.
pub open spec fn player_bindings() -> Seq<ActionKind> {
    seq![
        ActionKind::Pan,
        ActionKind::Navigate,
        ActionKind::Crouch,
        ActionKind::Jump,
        ActionKind::Dash,
        ActionKind::Sprint,
        ActionKind::Attack,
        ActionKind::Pause,
        ActionKind::Mute,
        ActionKind::Escape,
    ]
}

/// The free-camera actions that are bound beside the gameplay context.
pub open spec fn camera_bindings() -> Seq<ActionKind> {
    seq![ActionKind::ScrollZoom, ActionKind::RotateToggle]
}

/// The actions that the modal context binds, in binding order.
pub open spec fn modal_bindings() -> Seq<ActionKind> {
    seq![
        ActionKind::NavigateModal,
        ActionKind::Select,
        ActionKind::RightTab,
        ActionKind::LeftTab,
        ActionKind::Escape,
    ]
}

impl InputEntityView {
    /// A fresh entity that carries no context yet.
    pub open spec fn bare(entity: Entity) -> InputEntityView {
        InputEntityView {
            entity,
            player_ctx: false,
            modal_ctx: false,
            modal_priority: None,
            player_actions: Seq::empty(),
            modal_actions: Seq::empty(),
        }
    }

    pub open spec fn with_player_ctx(self) -> InputEntityView {
        InputEntityView {
            player_ctx: true,
            player_actions: self.player_actions + player_bindings(),
            modal_actions: self.modal_actions + camera_bindings(),
            ..self
        }
    }

    pub open spec fn without_player_ctx(self) -> InputEntityView {
        InputEntityView { player_ctx: false, player_actions: Seq::empty(), ..self }
    }

    pub open spec fn with_modal_ctx(self) -> InputEntityView {
        InputEntityView {
            modal_ctx: true,
            modal_priority: Some(1),
            modal_actions: self.modal_actions + modal_bindings(),
            ..self
        }
    }

    pub open spec fn without_modal_ctx(self) -> InputEntityView {
        InputEntityView {
            modal_ctx: false,
            modal_priority: None,
            modal_actions: Seq::empty(),
            ..self
        }
    }

    /// The entity after switching to `ctx`: the other context is removed if
    /// present, and `ctx` is attached unless it already is.
    pub open spec fn switched_to(self, ctx: InputContext) -> InputEntityView {
        match ctx {
            InputContext::Modal => {
                let a = if self.player_ctx { self.without_player_ctx() } else { self };
                if a.modal_ctx { a } else { a.with_modal_ctx() }
            },
            InputContext::Gameplay => {
                let a = if self.modal_ctx { self.without_modal_ctx() } else { self };
                if a.player_ctx { a } else { a.with_player_ctx() }
            },
        }
    }
}

/// Attaches the gameplay context to `e` and binds its actions, together
/// with the free-camera actions.
pub fn add_player_ctx(e: &mut InputEntity)
    ensures
        final(e)@ == old(e)@.with_player_ctx(),
{
    e.player_ctx = true;
    e.player_actions.push(ActionKind::Pan);
    e.player_actions.push(ActionKind::Navigate);
    e.player_actions.push(ActionKind::Crouch);
    e.player_actions.push(ActionKind::Jump);
    e.player_actions.push(ActionKind::Dash);
    e.player_actions.push(ActionKind::Sprint);
    e.player_actions.push(ActionKind::Attack);
    e.player_actions.push(ActionKind::Pause);
    e.player_actions.push(ActionKind::Mute);
    e.player_actions.push(ActionKind::Escape);
    e.modal_actions.push(ActionKind::ScrollZoom);
    e.modal_actions.push(ActionKind::RotateToggle);
    assert(e.player_actions@ =~= old(e).player_actions@ + player_bindings());
    assert(e.modal_actions@ =~= old(e).modal_actions@ + camera_bindings());
}

/// Detaches the gameplay context from `e` and drops the actions it bound.
pub fn rm_player_ctx(e: &mut InputEntity)
    ensures
        final(e)@ == old(e)@.without_player_ctx(),
{
    e.player_ctx = false;
    e.player_actions.clear();
    assert(e.player_actions@ =~= Seq::<ActionKind>::empty());
}

/// Attaches the modal context to `e`, above other contexts, and binds its
/// actions.
pub fn add_modal_ctx(e: &mut InputEntity)
    ensures
        final(e)@ == old(e)@.with_modal_ctx(),
{
    e.modal_ctx = true;
    e.modal_priority = Some(1);
    e.modal_actions.push(ActionKind::NavigateModal);
    e.modal_actions.push(ActionKind::Select);
    e.modal_actions.push(ActionKind::RightTab);
    e.modal_actions.push(ActionKind::LeftTab);
    e.modal_actions.push(ActionKind::Escape);
    assert(e.modal_actions@ =~= old(e).modal_actions@ + modal_bindings());
}

/// Detaches the modal context from `e` and drops the actions it bound.
pub fn rm_modal_ctx(e: &mut InputEntity)
    ensures
        final(e)@ == old(e)@.without_modal_ctx(),
{
    e.modal_ctx = false;
    e.modal_priority = None;
    e.modal_actions.clear();
    assert(e.modal_actions@ =~= Seq::<ActionKind>::empty());
}

/// Switches `e` to `ctx`.
pub fn switch_ctx(e: &mut InputEntity, ctx: InputContext)
    ensures
        final(e)@ == old(e)@.switched_to(ctx),
{
    match ctx {
        InputContext::Modal => {
            if e.player_ctx {
                rm_player_ctx(e);
            }
            if !e.modal_ctx {
                add_modal_ctx(e);
            }
        },
        InputContext::Gameplay => {
            if e.modal_ctx {
                rm_modal_ctx(e);
            }
            if !e.player_ctx {
                add_player_ctx(e);
            }
        },
    }
}

} // verus!

verus! {

/// Spawns the input entity, in the modal context.
pub fn spawn_ctx(app: &mut App)
    ensures
        final(app)@ == (AppView {
            inputs: old(app)@.inputs.push(InputEntityView::bare(old(app)@.fresh()).with_modal_ctx()),
            ..old(app)@.after_spawn()
        }),
{
    let entity = app.spawn();
    let mut e = InputEntity {
        entity,
        player_ctx: false,
        modal_ctx: false,
        modal_priority: None,
        player_actions: Vec::new(),
        modal_actions: Vec::new(),
    };
    add_modal_ctx(&mut e);
    app.inputs.push(e);
    assert(app@.inputs =~= old(app)@.inputs.push(InputEntityView::bare(old(app)@.fresh()).with_modal_ctx()));
}

/// Sets up input at startup: spawns the input entity.
pub fn plugin(app: &mut App)
    ensures
        final(app)@ == (AppView {
            inputs: old(app)@.inputs.push(InputEntityView::bare(old(app)@.fresh()).with_modal_ctx()),
            ..old(app)@.after_spawn()
        }),
{
    spawn_ctx(app);
}

} // verus!
