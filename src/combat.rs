use vstd::prelude::*;

verus! {

/// Health every character starts with.
pub const FULL_HEALTH: i32 = 100;

/// Health taken by one hit.
pub const HIT_DAMAGE: i32 = 10;

/// State of an attacker's cooldown timer.
#[derive(Clone, Copy, Debug, PartialEq, Eq, Structural)]
pub enum Cooldown {
    /// The cooldown has elapsed: attacks are permitted.
    Idle,
    /// A countdown is running: attacks are suppressed.
    Cooling,
}

/// The combat state that a character owns: its health, whether it has died,
/// its own attack cooldown, and whether a defender is in contact with its
/// damage region (so that each cooldown expiry lands another hit).
#[derive(Clone, Copy, Debug, PartialEq, Eq, Structural)]
pub struct Combatant {
    pub health: i32,
    pub dead: bool,
    pub cooldown: Cooldown,
    pub in_contact: bool,
}

/// What one combat event did to the defender.
#[derive(Clone, Copy, Debug, PartialEq, Eq, Structural)]
pub enum Strike {
    /// No hit was applied.
    Held,
    /// One hit was applied and the attacker's cooldown started; when
    /// `defender_died`, the defender has to be removed from the world.
    Landed { defender_died: bool },
}

impl Combatant {
    /// A living character has health left; only a dead one may be at or below
    /// zero.
    pub open spec fn wf(self) -> bool {
        !self.dead ==> self.health > 0
    }

    /// The character after one hit: a living one loses `HIT_DAMAGE` and dies
    /// when its health reaches zero or below; a dead one is left as it is.
    pub open spec fn hit(self) -> Combatant {
        if self.dead {
            self
        } else {
            Combatant {
                health: (self.health - HIT_DAMAGE) as i32,
                dead: self.health - HIT_DAMAGE <= 0,
                ..self
            }
        }
    }

    /// Whether a hit on `self` is the one that kills it.
    pub open spec fn dies_of_hit(self) -> bool {
        !self.dead && self.health - HIT_DAMAGE <= 0
    }

    /// An attacker may strike a defender when both are alive and the
    /// attacker's cooldown has elapsed.
    pub open spec fn may_strike(self, defender: Combatant) -> bool {
        !self.dead && self.cooldown == Cooldown::Idle && !defender.dead
    }

    /// The strike reported for an attempt of `self` on `defender`.
    pub open spec fn strike_on(self, defender: Combatant) -> Strike {
        if self.may_strike(defender) {
            Strike::Landed { defender_died: defender.dies_of_hit() }
        } else {
            Strike::Held
        }
    }

    /// Attacker and defender after an attempt: a permitted strike hits the
    /// defender and starts the attacker's cooldown; otherwise nothing changes.
    pub open spec fn after_strike(self, defender: Combatant) -> (Combatant, Combatant) {
        if self.may_strike(defender) {
            (Combatant { cooldown: Cooldown::Cooling, ..self }, defender.hit())
        } else {
            (self, defender)
        }
    }

    /// Overlap begins: contact is armed, then a strike is attempted.
    pub open spec fn after_contact_begin(self, defender: Combatant) -> (Combatant, Combatant) {
        Combatant { in_contact: true, ..self }.after_strike(defender)
    }

    /// The cooldown expires: a running countdown returns to `Idle`, and while
    /// contact is armed a strike follows at once. With no countdown running
    /// nothing happens.
    pub open spec fn after_cooldown_expired(self, defender: Combatant) -> (Combatant, Combatant) {
        if self.cooldown == Cooldown::Idle {
            (self, defender)
        } else {
            let ready = Combatant { cooldown: Cooldown::Idle, ..self };
            if ready.in_contact {
                ready.after_strike(defender)
            } else {
                (ready, defender)
            }
        }
    }

    /// The strike reported when the cooldown expires.
    pub open spec fn strike_on_expiry(self, defender: Combatant) -> Strike {
        if self.cooldown == Cooldown::Cooling && self.in_contact {
            Combatant { cooldown: Cooldown::Idle, ..self }.strike_on(defender)
        } else {
            Strike::Held
        }
    }

    /// A character at full health, alive, with its cooldown elapsed and no
    /// contact.
    pub fn new() -> (c: Combatant)
        ensures
            c.wf(),
            c == (Combatant {
                health: FULL_HEALTH,
                dead: false,
                cooldown: Cooldown::Idle,
                in_contact: false,
            }),
    {
        Combatant { health: FULL_HEALTH, dead: false, cooldown: Cooldown::Idle, in_contact: false }
    }

    /// A character with the given health, dead when that is zero or below.
    pub fn with_health(health: i32) -> (c: Combatant)
        ensures
            c.wf(),
            c == (Combatant {
                health,
                dead: health <= 0,
                cooldown: Cooldown::Idle,
                in_contact: false,
            }),
    {
        Combatant { health, dead: health <= 0, cooldown: Cooldown::Idle, in_contact: false }
    }

    /// Applies one hit. Returns whether this hit killed the character, in
    /// which case it has to be removed; a dead character is left unchanged and
    /// never reports a second death.
    pub fn take_hit(&mut self) -> (died: bool)
        requires
            old(self).wf(),
        ensures
            *final(self) == old(self).hit(),
            final(self).wf(),
            died == old(self).dies_of_hit(),
    {
        if self.dead {
            false
        } else {
            self.health = self.health - HIT_DAMAGE;
            self.dead = self.health <= 0;
            self.dead
        }
    }

    fn strike(&mut self, defender: &mut Combatant) -> (s: Strike)
        requires
            old(self).wf(),
            old(defender).wf(),
        ensures
            (*final(self), *final(defender)) == old(self).after_strike(*old(defender)),
            s == old(self).strike_on(*old(defender)),
    {
        if !self.dead && matches!(self.cooldown, Cooldown::Idle) && !defender.dead {
            let died = defender.take_hit();
            self.cooldown = Cooldown::Cooling;
            Strike::Landed { defender_died: died }
        } else {
            Strike::Held
        }
    }

    /// The defender's vulnerable region begins to overlap this attacker's
    /// damage region. Contact is armed; if the cooldown has elapsed one hit
    /// lands and the cooldown starts, else the event is absorbed.
    pub fn contact_begin(&mut self, defender: &mut Combatant) -> (s: Strike)
        requires
            old(self).wf(),
            old(defender).wf(),
        ensures
            (*final(self), *final(defender)) == old(self).after_contact_begin(*old(defender)),
            s == old(self).strike_on(*old(defender)),
            final(self).in_contact,
            final(defender).wf(),
    {
        self.in_contact = true;
        self.strike(defender)
    }

    /// The overlap ends: later expiries land no hit. A running countdown
    /// keeps running.
    pub fn contact_end(&mut self)
        ensures
            *final(self) == (Combatant { in_contact: false, ..*old(self) }),
    {
        self.in_contact = false;
    }

    /// This attacker's cooldown timer fired.
    pub fn cooldown_expired(&mut self, defender: &mut Combatant) -> (s: Strike)
        requires
            old(self).wf(),
            old(defender).wf(),
        ensures
            (*final(self), *final(defender)) == old(self).after_cooldown_expired(*old(defender)),
            s == old(self).strike_on_expiry(*old(defender)),
            final(defender).wf(),
    {
        match self.cooldown {
            Cooldown::Idle => Strike::Held,
            Cooldown::Cooling => {
                self.cooldown = Cooldown::Idle;
                if self.in_contact {
                    self.strike(defender)
                } else {
                    Strike::Held
                }
            },
        }
    }

    /// An attack input is honoured when the attacker is alive, its cooldown
    /// has elapsed and at least one target overlaps its attack range.
    pub open spec fn may_attack(self, targets: Seq<Combatant>) -> bool {
        !self.dead && self.cooldown == Cooldown::Idle && targets.len() > 0
    }

    /// Attack input: when permitted, every overlapping target takes one hit in
    /// the same tick and the cooldown starts; the result holds, for each target
    /// in order, whether that hit killed it. Otherwise the input is dropped
    /// (`None`) and nothing changes.
    pub fn attack(&mut self, targets: &mut Vec<Combatant>) -> (deaths: Option<Vec<bool>>)
        requires
            old(self).wf(),
            forall|i: int| 0 <= i < old(targets)@.len() ==> old(targets)@[i].wf(),
        ensures
            old(self).may_attack(old(targets)@) ==> {
                &&& *final(self) == (Combatant { cooldown: Cooldown::Cooling, ..*old(self) })
                &&& final(targets)@.len() == old(targets)@.len()
                &&& forall|i: int|
                    0 <= i < old(targets)@.len() ==> #[trigger] final(targets)@[i]
                        == old(targets)@[i].hit()
                &&& deaths matches Some(d) && d@.len() == old(targets)@.len() && forall|i: int|
                    0 <= i < d@.len() ==> #[trigger] d@[i] == old(targets)@[i].dies_of_hit()
            },
            !old(self).may_attack(old(targets)@) ==> {
                &&& *final(self) == *old(self)
                &&& final(targets)@ == old(targets)@
                &&& deaths is None
            },
            forall|i: int| 0 <= i < final(targets)@.len() ==> #[trigger] final(targets)@[i].wf(),
    {
        if self.dead || matches!(self.cooldown, Cooldown::Cooling) || targets.len() == 0 {
            return None;
        }
        let mut deaths: Vec<bool> = Vec::new();
        let n = targets.len();
        let mut i: usize = 0;
        while i < n
            invariant
                n == old(targets)@.len(),
                targets@.len() == n,
                0 <= i <= n,
                deaths@.len() == i,
                forall|k: int| 0 <= k < i ==> #[trigger] targets@[k] == old(targets)@[k].hit(),
                forall|k: int| i <= k < n ==> #[trigger] targets@[k] == old(targets)@[k],
                forall|k: int| 0 <= k < i ==> #[trigger] deaths@[k] == old(targets)@[k].dies_of_hit(),
                forall|k: int| 0 <= k < n ==> old(targets)@[k].wf(),
                forall|k: int| 0 <= k < n ==> #[trigger] targets@[k].wf(),
            decreases n - i,
        {
            let mut t = targets[i];
            let died = t.take_hit();
            targets.set(i, t);
            deaths.push(died);
            i = i + 1;
        }
        self.cooldown = Cooldown::Cooling;
        Some(deaths)
    }
}

/// Attacker, defender and the number of hits landed after `n` successive
/// cooldown expiries, with no other event in between.
pub open spec fn after_expiries(a: Combatant, d: Combatant, n: nat) -> (Combatant, Combatant, nat)
    decreases n,
{
    if n == 0 {
        (a, d, 0)
    } else {
        let (a1, d1) = a.after_cooldown_expired(d);
        let landed: nat = if a.strike_on_expiry(d) is Landed {
            1
        } else {
            0
        };
        let (a2, d2, k) = after_expiries(a1, d1, (n - 1) as nat);
        (a2, d2, k + landed)
    }
}

/// How many of `n` successive hits on `c` report a death.
pub open spec fn removals(c: Combatant, n: nat) -> nat
    decreases n,
{
    if n == 0 {
        0
    } else {
        (if c.dies_of_hit() {
            1nat
        } else {
            0nat
        }) + removals(c.hit(), (n - 1) as nat)
    }
}

/// From an elapsed cooldown, overlap beginning lands exactly one hit and
/// starts the cooldown; overlap beginning again while it is cooling lands no
/// further hit.
pub proof fn lemma_cooldown_exclusive(attacker: Combatant, defender: Combatant)
    requires
        attacker.wf(),
        defender.wf(),
        !attacker.dead,
        !defender.dead,
        attacker.cooldown == Cooldown::Idle,
    ensures
        ({
            let (a1, d1) = attacker.after_contact_begin(defender);
            &&& attacker.strike_on(defender) is Landed
            &&& d1 == defender.hit()
            &&& d1.health == defender.health - HIT_DAMAGE
            &&& a1.cooldown == Cooldown::Cooling
            &&& a1.strike_on(d1) == Strike::Held
            &&& a1.after_contact_begin(d1) == (a1, d1)
        }),
{
}

/// While contact stays armed, `n` cooldown expiries land exactly `n` hits,
/// one each, provided the defender lives to take the last of them.
pub proof fn lemma_sustained_contact(attacker: Combatant, defender: Combatant, n: nat)
    requires
        attacker.wf(),
        defender.wf(),
        !attacker.dead,
        attacker.in_contact,
        attacker.cooldown == Cooldown::Cooling,
        !defender.dead,
        defender.health > HIT_DAMAGE * (n - 1),
    ensures
        ({
            let (a, d, hits) = after_expiries(attacker, defender, n);
            &&& hits == n
            &&& d.health == defender.health - HIT_DAMAGE * n
            &&& a == attacker
        }),
    decreases n,
{
    if n > 0 {
        let (a1, d1) = attacker.after_cooldown_expired(defender);
        assert(a1 == attacker);
        assert(d1 == defender.hit());
        if n > 1 {
            lemma_sustained_contact(a1, d1, (n - 1) as nat);
        }
    }
}

/// A dead character never reports a death again.
pub proof fn lemma_dead_stays_removed(c: Combatant, n: nat)
    requires
        c.dead,
    ensures
        removals(c, n) == 0,
    decreases n,
{
    if n > 0 {
        lemma_dead_stays_removed(c.hit(), (n - 1) as nat);
    }
}

/// However many hits a character takes, at most one of them reports its
/// death, so it is removed at most once.
pub proof fn lemma_removed_at_most_once(c: Combatant, n: nat)
    requires
        c.wf(),
    ensures
        removals(c, n) <= 1,
    decreases n,
{
    if n > 0 {
        if c.dies_of_hit() {
            lemma_dead_stays_removed(c.hit(), (n - 1) as nat);
        } else {
            lemma_removed_at_most_once(c.hit(), (n - 1) as nat);
        }
    }
}

/// A living character with no more health than one hit takes reaches zero
/// or below on the next hit, dies, and of any run of hits starting there
/// exactly one reports its death.
pub proof fn lemma_death_boundary(c: Combatant, n: nat)
    requires
        c.wf(),
        !c.dead,
        c.health <= HIT_DAMAGE,
        n >= 1,
    ensures
        c.hit().health <= 0,
        c.hit().dead,
        c.dies_of_hit(),
        removals(c, n) == 1,
{
    lemma_dead_stays_removed(c.hit(), (n - 1) as nat);
}

} // verus!
