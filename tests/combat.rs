use melee_core::combat::{Combatant, Cooldown, Strike, FULL_HEALTH, HIT_DAMAGE};
use melee_core::enemy::{Enemy, Pursuit};
use melee_core::player::Player;

#[test]
fn new_combatant_is_full_and_ready() {
    let c = Combatant::new();
    assert_eq!(c.health, FULL_HEALTH);
    assert_eq!(c.health, 100);
    assert!(!c.dead);
    assert_eq!(c.cooldown, Cooldown::Idle);
    assert!(!c.in_contact);
    assert_eq!(HIT_DAMAGE, 10);
}

#[test]
fn hit_takes_ten() {
    let mut c = Combatant::new();
    assert!(!c.take_hit());
    assert_eq!(c.health, 90);
}

#[test]
fn death_at_health_ten_removed_once() {
    let mut c = Combatant::with_health(10);
    assert!(c.take_hit());
    assert!(c.health <= 0);
    assert!(c.dead);
    assert!(!c.take_hit());
    assert!(!c.take_hit());
    assert_eq!(c.health, 0);
}

#[test]
fn with_nonpositive_health_is_dead() {
    let mut c = Combatant::with_health(0);
    assert!(c.dead);
    assert!(!c.take_hit());
    assert_eq!(c.health, 0);
}

#[test]
fn enemy_attacks_once_then_cooldown_blocks() {
    let mut player = Player::new();
    let mut enemy = Enemy::new();
    let s = player.on_enemy_enter_hitbox(&mut enemy);
    assert_eq!(s, Strike::Landed { defender_died: false });
    assert_eq!(player.combat.health, 90);
    assert_eq!(enemy.combat.cooldown, Cooldown::Cooling);
    let s = player.on_enemy_enter_hitbox(&mut enemy);
    assert_eq!(s, Strike::Held);
    assert_eq!(player.combat.health, 90);
}

#[test]
fn sustained_contact_hits_once_per_expiry() {
    let mut player = Player::new();
    let mut enemy = Enemy::new();
    player.on_enemy_enter_hitbox(&mut enemy);
    for _ in 0..5 {
        let s = player.on_enemy_attack_reset(&mut enemy);
        assert_eq!(s, Strike::Landed { defender_died: false });
        assert_eq!(enemy.combat.cooldown, Cooldown::Cooling);
    }
    assert_eq!(player.combat.health, 100 - 6 * 10);
}

#[test]
fn exit_disarms_but_keeps_cooldown() {
    let mut player = Player::new();
    let mut enemy = Enemy::new();
    player.on_enemy_enter_hitbox(&mut enemy);
    player.on_enemy_exit_hitbox(&mut enemy);
    assert_eq!(enemy.combat.cooldown, Cooldown::Cooling);
    assert!(!enemy.combat.in_contact);
    assert_eq!(player.on_enemy_attack_reset(&mut enemy), Strike::Held);
    assert_eq!(enemy.combat.cooldown, Cooldown::Idle);
    assert_eq!(player.combat.health, 90);
    // A stray expiry with no countdown running does nothing.
    assert_eq!(player.on_enemy_attack_reset(&mut enemy), Strike::Held);
    assert_eq!(player.combat.health, 90);
}

#[test]
fn contact_kills_and_stops() {
    let mut player = Player::new();
    player.combat = Combatant::with_health(20);
    let mut enemy = Enemy::new();
    assert_eq!(player.on_enemy_enter_hitbox(&mut enemy), Strike::Landed { defender_died: false });
    assert_eq!(player.on_enemy_attack_reset(&mut enemy), Strike::Landed { defender_died: true });
    assert!(player.combat.dead);
    assert_eq!(player.on_enemy_attack_reset(&mut enemy), Strike::Held);
    assert_eq!(player.combat.health, 0);
}

#[test]
fn player_attack_hits_every_target() {
    let mut player = Player::new();
    let mut targets = vec![Combatant::new(), Combatant::with_health(10), Combatant::with_health(35)];
    let deaths = player.on_attack_pressed(&mut targets).unwrap();
    assert_eq!(deaths, vec![false, true, false]);
    assert_eq!(targets[0].health, 90);
    assert_eq!(targets[1].health, 0);
    assert_eq!(targets[2].health, 25);
    assert_eq!(player.combat.cooldown, Cooldown::Cooling);
    // Cooling: the next press is dropped.
    assert_eq!(player.on_attack_pressed(&mut targets), None);
    assert_eq!(targets[0].health, 90);
}

#[test]
fn player_attack_without_targets_is_dropped() {
    let mut player = Player::new();
    let mut targets: Vec<Combatant> = Vec::new();
    assert_eq!(player.on_attack_pressed(&mut targets), None);
    assert_eq!(player.combat.cooldown, Cooldown::Idle);
}

#[test]
fn dead_attacker_does_nothing() {
    let mut attacker = Combatant::with_health(0);
    let mut defender = Combatant::new();
    assert_eq!(attacker.contact_begin(&mut defender), Strike::Held);
    assert_eq!(defender.health, 100);
    let mut targets = vec![Combatant::new()];
    assert_eq!(attacker.attack(&mut targets), None);
}

#[test]
fn enemy_on_hit_reports_death() {
    let mut enemy = Enemy::new();
    for _ in 0..9 {
        assert!(!enemy.on_hit());
    }
    assert!(enemy.on_hit());
    assert!(!enemy.on_hit());
    assert_eq!(enemy.pursuit, Pursuit::Dormant);
}
