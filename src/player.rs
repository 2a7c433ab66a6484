use vstd::prelude::*;
use crate::animation::{select, selection_of, AnimationRequest, Status};
use crate::combat::{Combatant, Cooldown, Strike, FULL_HEALTH};
use crate::direction::{facing_of, resolve, Direction, InputReading};
use crate::enemy::Enemy;

verus! {

/// The player character: its combat state and the last real facing it
/// resolved, which idle poses keep.
#[derive(Clone, Copy, Debug, PartialEq, Eq, Structural)]
pub struct Player {
    pub combat: Combatant,
    pub facing: Direction,
}

impl Player {
    pub open spec fn wf(self) -> bool {
        self.combat.wf()
    }

    /// A player at full health that has not faced anywhere yet.
    pub fn new() -> (p: Player)
        ensures
            p.wf(),
            p.facing == Direction::Idle,
            p.combat == (Combatant {
                health: FULL_HEALTH,
                dead: false,
                cooldown: Cooldown::Idle,
                in_contact: false,
            }),
    {
        Player { combat: Combatant::new(), facing: Direction::Idle }
    }

    /// Reads this tick's movement input: resolves its facing, remembers it
    /// when it is a real one, and returns the clip to play.
    pub fn get_input(&mut self, reading: &InputReading) -> (req: AnimationRequest)
        ensures
            ({
                let s = selection_of(facing_of(*reading), Status::Walk, old(self).facing);
                &&& req == s.request
                &&& *final(self) == (Player { facing: s.memory, ..*old(self) })
            }),
    {
        let d = resolve(reading);
        let s = select(d, Status::Walk, self.facing);
        self.facing = s.memory;
        s.request
    }

    /// The player takes a hit; returns whether it died and has to be removed.
    pub fn on_hit(&mut self) -> (died: bool)
        requires
            old(self).wf(),
        ensures
            final(self).combat == old(self).combat.hit(),
            final(self).facing == old(self).facing,
            final(self).wf(),
            died == old(self).combat.dies_of_hit(),
    {
        self.combat.take_hit()
    }

    /// An enemy's damage region begins to overlap the player's hitbox.
    pub fn on_enemy_enter_hitbox(&mut self, enemy: &mut Enemy) -> (s: Strike)
        requires
            old(self).wf(),
            old(enemy).wf(),
        ensures
            (final(enemy).combat, final(self).combat) == old(enemy).combat.after_contact_begin(
                old(self).combat,
            ),
            s == old(enemy).combat.strike_on(old(self).combat),
            final(enemy).pursuit == old(enemy).pursuit,
            final(self).facing == old(self).facing,
            final(self).wf(),
            final(enemy).wf(),
    {
        enemy.combat.contact_begin(&mut self.combat)
    }

    /// An enemy's damage region stops overlapping the player's hitbox.
    pub fn on_enemy_exit_hitbox(&mut self, enemy: &mut Enemy)
        ensures
            *final(enemy) == (Enemy {
                combat: Combatant { in_contact: false, ..old(enemy).combat },
                ..*old(enemy)
            }),
            *final(self) == *old(self),
    {
        enemy.combat.contact_end();
    }

    /// An enemy's cooldown fired while it may still be touching the player.
    pub fn on_enemy_attack_reset(&mut self, enemy: &mut Enemy) -> (s: Strike)
        requires
            old(self).wf(),
            old(enemy).wf(),
        ensures
            (final(enemy).combat, final(self).combat) == old(
                enemy,
            ).combat.after_cooldown_expired(old(self).combat),
            s == old(enemy).combat.strike_on_expiry(old(self).combat),
            final(enemy).pursuit == old(enemy).pursuit,
            final(self).facing == old(self).facing,
            final(self).wf(),
            final(enemy).wf(),
    {
        enemy.combat.cooldown_expired(&mut self.combat)
    }

    /// The attack input was released: when permitted, every enemy whose
    /// hitbox overlaps the attack range takes one hit (see `Combatant::attack`).
    pub fn on_attack_pressed(&mut self, targets: &mut Vec<Combatant>) -> (deaths: Option<Vec<bool>>)
        requires
            old(self).wf(),
            forall|i: int| 0 <= i < old(targets)@.len() ==> old(targets)@[i].wf(),
        ensures
            old(self).combat.may_attack(old(targets)@) ==> {
                &&& final(self).combat == (Combatant {
                    cooldown: Cooldown::Cooling,
                    ..old(self).combat
                })
                &&& final(targets)@.len() == old(targets)@.len()
                &&& forall|i: int|
                    0 <= i < old(targets)@.len() ==> #[trigger] final(targets)@[i]
                        == old(targets)@[i].hit()
                &&& deaths matches Some(d) && d@.len() == old(targets)@.len() && forall|i: int|
                    0 <= i < d@.len() ==> #[trigger] d@[i] == old(targets)@[i].dies_of_hit()
            },
            !old(self).combat.may_attack(old(targets)@) ==> {
                &&& final(self).combat == old(self).combat
                &&& final(targets)@ == old(targets)@
                &&& deaths is None
            },
            final(self).facing == old(self).facing,
            final(self).wf(),
            forall|i: int| 0 <= i < final(targets)@.len() ==> #[trigger] final(targets)@[i].wf(),
    {
        self.combat.attack(targets)
    }
}

} // verus!
