use melee_core::animation::Status;
use melee_core::enemy::{Enemy, Pursuit};

#[test]
fn dormant_enemy_stays_put() {
    let e = Enemy::new();
    assert_eq!(e.pursuit, Pursuit::Dormant);
    assert_eq!(e.chase_target(), None);
    assert_eq!(e.status(), Status::Idle);
    assert_eq!(e.animate(), "idle");
}

#[test]
fn target_entering_starts_pursuit() {
    let mut e = Enemy::new();
    e.on_player_entered_detection_area(7);
    assert_eq!(e.pursuit, Pursuit::Pursuing { target: 7 });
    assert_eq!(e.chase_target(), Some(7));
    assert_eq!(e.status(), Status::Walk);
    assert_eq!(e.animate(), "walk");
}

#[test]
fn last_entered_target_wins() {
    let mut e = Enemy::new();
    e.on_player_entered_detection_area(7);
    e.on_player_entered_detection_area(9);
    assert_eq!(e.chase_target(), Some(9));
}

#[test]
fn target_leaving_stops_pursuit() {
    let mut e = Enemy::new();
    e.on_player_entered_detection_area(7);
    e.on_player_exited_detection_area();
    assert_eq!(e.chase_target(), None);
    assert_eq!(e.animate(), "idle");
}
