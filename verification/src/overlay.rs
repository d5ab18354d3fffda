//! What the free camera remembers of the game's screen: which panels it has
//! taken hold of, and how far the debug window has come.
//!
//! A panel is taken hold of once, in the first frame in which the game has
//! it. The debug window is opened in the first frame, then updated in every
//! frame until an update says that it was closed; it is not opened again.

use vstd::prelude::*;
use crate::controls::Step;
use crate::scalar::Scalar;
use crate::scalar::ZERO_BITS;

verus! {

/// One flag for each panel of the game's screen that is hidden while the
/// free camera is on.
#[derive(Clone, Copy, Debug, PartialEq, Eq, Structural)]
pub struct Panels {
    pub panel_map: bool,
    pub date_draw: bool,
    pub mission_draw: bool,
    pub battle_party_panel: bool,
    pub roadmap: bool,
    pub casino_coin: bool,
}

/// How far the debug window has come.
#[derive(Clone, Copy, Debug, PartialEq, Eq, Structural)]
pub enum WindowPhase {
    /// The window was not opened yet.
    Unopened,
    /// The window is open.
    Open,
    /// The window was closed, and stays so.
    Closed,
}

/// What is done to the debug window in one frame.
#[derive(Clone, Copy, Debug, PartialEq, Eq, Structural)]
pub enum WindowAction {
    /// The window is opened.
    Init,
    /// The window is updated.
    Update,
    /// The window is left alone.
    Nothing,
}

/// What an update of the debug window came to.
#[derive(Clone, Copy, Debug, PartialEq, Eq, Structural)]
pub enum WindowResult {
    /// The window is still open.
    StillOpen,
    /// The user closed the window: it is shut down.
    Closed,
    /// The update failed. The window stays open.
    Failed,
}

/// Where the speed of the scene is changed.
#[derive(Clone, Copy, Debug, PartialEq, Eq, Structural)]
pub enum FrequencyTarget {
    /// In the battle that is being fought.
    Battle,
    /// In the scene that is shown.
    Scene,
    /// Nowhere.
    Nothing,
}

impl Panels {
    /// No panel.
    pub open spec fn none() -> Panels {
        Panels {
            panel_map: false,
            date_draw: false,
            mission_draw: false,
            battle_party_panel: false,
            roadmap: false,
            casino_coin: false,
        }
    }

    /// The panels of `self` and those of `other`.
    pub open spec fn union(self, other: Panels) -> Panels {
        Panels {
            panel_map: self.panel_map || other.panel_map,
            date_draw: self.date_draw || other.date_draw,
            mission_draw: self.mission_draw || other.mission_draw,
            battle_party_panel: self.battle_party_panel || other.battle_party_panel,
            roadmap: self.roadmap || other.roadmap,
            casino_coin: self.casino_coin || other.casino_coin,
        }
    }

    /// The panels of `self` that are not in `other`.
    pub open spec fn without(self, other: Panels) -> Panels {
        Panels {
            panel_map: self.panel_map && !other.panel_map,
            date_draw: self.date_draw && !other.date_draw,
            mission_draw: self.mission_draw && !other.mission_draw,
            battle_party_panel: self.battle_party_panel && !other.battle_party_panel,
            roadmap: self.roadmap && !other.roadmap,
            casino_coin: self.casino_coin && !other.casino_coin,
        }
    }

    /// No panel.
    pub fn empty() -> (r: Panels)
        ensures
            r == Panels::none(),
    {
        Panels {
            panel_map: false,
            date_draw: false,
            mission_draw: false,
            battle_party_panel: false,
            roadmap: false,
            casino_coin: false,
        }
    }

    /// Takes hold of the panels that the game has in this frame and that
    /// are not held yet. `found` says which panels the game has. Returns
    /// the panels that are to be taken hold of now.
    pub fn update_ui_element_visibility(&mut self, found: &Panels) -> (fresh: Panels)
        ensures
            fresh == found.without(*old(self)),
            *final(self) == old(self).union(*found),
    {
        let fresh: Panels = Panels {
            panel_map: found.panel_map && !self.panel_map,
            date_draw: found.date_draw && !self.date_draw,
            mission_draw: found.mission_draw && !self.mission_draw,
            battle_party_panel: found.battle_party_panel && !self.battle_party_panel,
            roadmap: found.roadmap && !self.roadmap,
            casino_coin: found.casino_coin && !self.casino_coin,
        };
        self.panel_map = self.panel_map || found.panel_map;
        self.date_draw = self.date_draw || found.date_draw;
        self.mission_draw = self.mission_draw || found.mission_draw;
        self.battle_party_panel = self.battle_party_panel || found.battle_party_panel;
        self.roadmap = self.roadmap || found.roadmap;
        self.casino_coin = self.casino_coin || found.casino_coin;
        fresh
    }
}

impl WindowPhase {
    /// What is done to the window in a frame that finds it in this phase.
    pub open spec fn action(self) -> WindowAction {
        match self {
            WindowPhase::Unopened => WindowAction::Init,
            WindowPhase::Open => WindowAction::Update,
            WindowPhase::Closed => WindowAction::Nothing,
        }
    }

    /// The phase after the frame's action, before its result is known: a
    /// window counts as opened once opening it was tried, whether or not
    /// that went well.
    pub open spec fn after_action(self) -> WindowPhase {
        match self {
            WindowPhase::Unopened => WindowPhase::Open,
            other => other,
        }
    }

    /// The phase after an update of an open window came to `result`.
    pub open spec fn after_update(self, result: WindowResult) -> WindowPhase {
        if self is Open && result is Closed {
            WindowPhase::Closed
        } else {
            self
        }
    }

    /// Begins a frame: says what to do to the window and moves on.
    pub fn begin_frame(&mut self) -> (action: WindowAction)
        ensures
            action == old(self).action(),
            *final(self) == old(self).after_action(),
    {
        match *self {
            WindowPhase::Unopened => {
                *self = WindowPhase::Open;
                WindowAction::Init
            },
            WindowPhase::Open => WindowAction::Update,
            WindowPhase::Closed => WindowAction::Nothing,
        }
    }

    /// Takes note of what an update came to, and says whether the window
    /// is to be shut down now.
    pub fn finish_update(&mut self, result: WindowResult) -> (shut_down: bool)
        ensures
            *final(self) == old(self).after_update(result),
            shut_down == (*old(self) is Open && result is Closed),
    {
        match (*self, result) {
            (WindowPhase::Open, WindowResult::Closed) => {
                *self = WindowPhase::Closed;
                true
            },
            _ => false,
        }
    }
}

/// A window that was closed is never opened or updated again.
pub proof fn lemma_closed_window_stays_closed(result: WindowResult)
    ensures
        WindowPhase::Closed.action() is Nothing,
        WindowPhase::Closed.after_action() is Closed,
        WindowPhase::Closed.after_update(result) is Closed,
        WindowPhase::Unopened.after_action().action() is Update,
{
}

/// Where the speed of the scene is changed. A battle that is being fought
/// takes the change, if its speed can be found; without a battle the scene
/// that is shown takes it.
pub open spec fn frequency_target_of(
    battle_present: bool,
    battle_frequency_present: bool,
    scene_present: bool,
) -> FrequencyTarget {
    if battle_present {
        if battle_frequency_present {
            FrequencyTarget::Battle
        } else {
            FrequencyTarget::Nothing
        }
    } else if scene_present {
        FrequencyTarget::Scene
    } else {
        FrequencyTarget::Nothing
    }
}

/// Where the speed of the scene is changed.
pub fn frequency_target(
    battle_present: bool,
    battle_frequency_present: bool,
    scene_present: bool,
) -> (r: FrequencyTarget)
    ensures
        r == frequency_target_of(battle_present, battle_frequency_present, scene_present),
{
    if battle_present {
        if battle_frequency_present {
            FrequencyTarget::Battle
        } else {
            FrequencyTarget::Nothing
        }
    } else if scene_present {
        FrequencyTarget::Scene
    } else {
        FrequencyTarget::Nothing
    }
}

/// The new speed of the scene: `stepped`, which is the old speed one step
/// down or up, but no less than zero.
pub fn change_frequency_speed(stepped: Scalar) -> (r: Scalar)
    ensures
        r == stepped.larger(Scalar { bits: ZERO_BITS }),
        r.at_least(Scalar { bits: ZERO_BITS }),
{
    stepped.max(Scalar { bits: ZERO_BITS })
}

/// Whether a step makes the scene slower.
pub fn is_slower(step: Step) -> (r: bool)
    ensures
        r == (step is Down),
{
    match step {
        Step::Down => true,
        Step::Up => false,
    }
}

} // verus!
