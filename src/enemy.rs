use vstd::prelude::*;
use crate::animation::Status;
use crate::combat::{Combatant, Cooldown, FULL_HEALTH};

verus! {

/// Whether an enemy is chasing, and whom. `target` is the host's handle of
/// the body that entered the detection region last.
#[derive(Clone, Copy, Debug, PartialEq, Eq, Structural)]
pub enum Pursuit {
    Dormant,
    Pursuing { target: u64 },
}

/// An enemy character: its combat state and its pursuit state.
#[derive(Clone, Copy, Debug, PartialEq, Eq, Structural)]
pub struct Enemy {
    pub combat: Combatant,
    pub pursuit: Pursuit,
}

impl Enemy {
    pub open spec fn wf(self) -> bool {
        self.combat.wf()
    }

    /// The locomotion status that pursuit implies.
    pub open spec fn status_of(p: Pursuit) -> Status {
        match p {
            Pursuit::Dormant => Status::Idle,
            Pursuit::Pursuing { .. } => Status::Walk,
        }
    }

    pub open spec fn clip_of(p: Pursuit) -> &'static str {
        match p {
            Pursuit::Dormant => "idle",
            Pursuit::Pursuing { .. } => "walk",
        }
    }

    /// A dormant enemy at full health.
    pub fn new() -> (e: Enemy)
        ensures
            e.wf(),
            e.pursuit == Pursuit::Dormant,
            e.combat == (Combatant {
                health: FULL_HEALTH,
                dead: false,
                cooldown: Cooldown::Idle,
                in_contact: false,
            }),
    {
        Enemy { combat: Combatant::new(), pursuit: Pursuit::Dormant }
    }

    /// A body entered the detection region: the enemy chases it, replacing
    /// any target it had.
    pub fn on_player_entered_detection_area(&mut self, body: u64)
        ensures
            *final(self) == (Enemy { pursuit: Pursuit::Pursuing { target: body }, ..*old(self) }),
    {
        self.pursuit = Pursuit::Pursuing { target: body };
    }

    /// A body left the detection region: the enemy stops.
    pub fn on_player_exited_detection_area(&mut self)
        ensures
            *final(self) == (Enemy { pursuit: Pursuit::Dormant, ..*old(self) }),
    {
        self.pursuit = Pursuit::Dormant;
    }

    /// The body to move toward on this tick, if any. A dormant enemy stays
    /// where it is.
    pub fn chase_target(&self) -> (t: Option<u64>)
        ensures
            t == (match self.pursuit {
                Pursuit::Dormant => None,
                Pursuit::Pursuing { target } => Some(target),
            }),
    {
        match self.pursuit {
            Pursuit::Dormant => None,
            Pursuit::Pursuing { target } => Some(target),
        }
    }

    /// Idle while dormant, walking while pursuing.
    pub fn status(&self) -> (s: Status)
        ensures
            s == Self::status_of(self.pursuit),
    {
        match self.pursuit {
            Pursuit::Dormant => Status::Idle,
            Pursuit::Pursuing { .. } => Status::Walk,
        }
    }

    /// The clip to play: `walk` while pursuing, `idle` while dormant.
    pub fn animate(&self) -> (name: &'static str)
        ensures
            name == Self::clip_of(self.pursuit),
    {
        match self.pursuit {
            Pursuit::Dormant => "idle",
            Pursuit::Pursuing { .. } => "walk",
        }
    }

    /// The enemy takes a hit; returns whether it died and has to be removed.
    pub fn on_hit(&mut self) -> (died: bool)
        requires
            old(self).wf(),
        ensures
            final(self).combat == old(self).combat.hit(),
            final(self).pursuit == old(self).pursuit,
            final(self).wf(),
            died == old(self).combat.dies_of_hit(),
    {
        self.combat.take_hit()
    }
}

} // verus!
