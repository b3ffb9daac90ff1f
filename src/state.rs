use crate::collider::CollideEvent;
use vstd::prelude::*;

verus! {

/// The two screens of the game.
#[derive(Clone, Copy, Debug, Hash, PartialEq, Eq, Structural)]
pub enum AppState {
    Menu,
    Game,
}

/// What the pointer is doing with the play button.
#[derive(Clone, Copy, Debug, PartialEq, Eq, Structural)]
pub enum ButtonInteraction {
    Clicked,
    Hovered,
    Idle,
}

/// The colour the play button is drawn in.
#[derive(Clone, Copy, Debug, PartialEq, Eq, Structural)]
pub enum ButtonShade {
    Normal,
    Active,
}

/// The button is drawn in its normal colour when idle, and highlighted while
/// hovered or clicked.
pub fn button_shade(interaction: ButtonInteraction) -> (r: ButtonShade)
    ensures
        r == (if interaction == ButtonInteraction::Idle {
            ButtonShade::Normal
        } else {
            ButtonShade::Active
        }),
{
    match interaction {
        ButtonInteraction::Idle => ButtonShade::Normal,
        _ => ButtonShade::Active,
    }
}

pub open spec fn any_click(interactions: Seq<ButtonInteraction>) -> bool {
    exists|i: int| 0 <= i < interactions.len() && interactions[i] == ButtonInteraction::Clicked
}

/// The state after the menu has seen this frame's button interactions: a
/// click starts the game, anything else leaves the state as it was.
pub fn menu(state: AppState, interactions: &Vec<ButtonInteraction>) -> (r: AppState)
    ensures
        r == (if any_click(interactions@) {
            AppState::Game
        } else {
            state
        }),
{
    let mut i: usize = 0;
    while i < interactions.len()
        invariant
            i <= interactions.len(),
            forall|k: int| 0 <= k < i ==> interactions@[k] != ButtonInteraction::Clicked,
        decreases interactions.len() - i,
    {
        if interactions[i] == ButtonInteraction::Clicked {
            return AppState::Game;
        }
        i = i + 1;
    }
    state
}

/// Whether the event names `entity` as one of its two colliders.
pub open spec fn involves(event: CollideEvent, entity: u64) -> bool {
    event.entity1 == entity || event.entity2 == entity
}

pub open spec fn plane_hit(plane: u64, events: Seq<CollideEvent>) -> bool {
    exists|i: int| 0 <= i < events.len() && involves(events[i], plane)
}

/// The state after the plane has seen this frame's collisions: one that
/// involves the plane ends the run and returns to the menu.
pub fn detect_collision(state: AppState, plane: u64, events: &Vec<CollideEvent>) -> (r: AppState)
    ensures
        r == (if plane_hit(plane, events@) {
            AppState::Menu
        } else {
            state
        }),
{
    let mut i: usize = 0;
    while i < events.len()
        invariant
            i <= events.len(),
            forall|k: int| 0 <= k < i ==> !involves(#[trigger] events@[k], plane),
        decreases events.len() - i,
    {
        let event = &events[i];
        if event.entity1 == plane || event.entity2 == plane {
            return AppState::Menu;
        }
        i = i + 1;
    }
    state
}

} // verus!
