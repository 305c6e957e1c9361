use unsteel_chez::event::EventType;
use unsteel_chez::player::{Fart, Laser, Player, PlayerSound, PLAYER_MAX_HP};

#[test]
fn player_starts_full() {
    let p = Player::new();
    assert_eq!(p.get_hp(), 100);
    assert_eq!(p.fart_power, 100);
    assert!(!p.get_dead());
    assert_eq!(PLAYER_MAX_HP, 100);
}

#[test]
fn fart_costs_ten_and_blocks_regeneration() {
    let mut p = Player::new();
    assert!(p.update(false, true));
    assert_eq!(p.fart_power, 90);
    assert_eq!(p.fart_cooldown, 89);
    for _ in 0..89 {
        assert!(!p.update(false, false));
        assert_eq!(p.fart_power, if p.fart_cooldown == 0 { 91 } else { 90 });
    }
    assert_eq!(p.fart_cooldown, 0);
    assert_eq!(p.fart_power, 91);
    p.update(false, false);
    assert_eq!(p.fart_power, 92);
}

#[test]
fn fart_power_never_below_zero() {
    let mut p = Player::new();
    p.fart_power = 4;
    assert!(p.update(false, true));
    assert_eq!(p.fart_power, 0);
    p.fart_power = 0;
    assert!(!p.update(false, true));
}

#[test]
fn kill_trigger_kills() {
    let mut p = Player::new();
    p.update(true, false);
    assert!(p.get_dead());
    assert_eq!(p.get_hp(), 100);
}

#[test]
fn hits_take_ten_with_cooldown() {
    let mut p = Player::new();
    assert_eq!(p.give_event(EventType::KillPlayer), Some(PlayerSound::Ow));
    assert_eq!(p.get_hp(), 90);
    assert_eq!(p.give_event(EventType::KillPlayer), None);
    assert_eq!(p.get_hp(), 90);
    for _ in 0..20 {
        p.update(false, false);
    }
    assert_eq!(p.give_event(EventType::KillPlayer), Some(PlayerSound::Ow));
    assert_eq!(p.get_hp(), 80);
}

#[test]
fn tenth_hit_kills() {
    let mut p = Player::new();
    for i in 0..10 {
        p.dammit_cooldown = 0;
        p.give_event(EventType::KillPlayer);
        assert_eq!(p.get_dead(), i == 9);
    }
    assert_eq!(p.get_hp(), 0);
}

#[test]
fn health_pickup_is_capped() {
    let mut p = Player::new();
    p.lovecraft = 70;
    assert_eq!(p.give_event(EventType::HpGrab), Some(PlayerSound::Hp));
    assert_eq!(p.get_hp(), 90);
    assert_eq!(p.give_event(EventType::HpGrab), None);
    p.lovecraft_cooldown = 0;
    p.give_event(EventType::HpGrab);
    assert_eq!(p.get_hp(), 100);
    assert_eq!(p.give_event(EventType::Pickup), None);
}

#[test]
fn fart_cloud_lives_fifty_frames() {
    let mut f = Fart::new();
    for _ in 0..49 {
        assert!(f.update(false));
        assert!(!f.dead);
    }
    assert!(f.update(false));
    assert!(f.dead);
    assert!(!f.update(false));
    assert_eq!(f.lifetime, 0);
}

#[test]
fn fart_cloud_dies_on_wall_but_moves_once_more() {
    let mut f = Fart::new();
    assert!(f.update(true));
    assert!(f.dead);
    assert_eq!(f.lifetime, 49);
}

#[test]
fn laser_lifetime() {
    let mut l = Laser::new(2);
    assert!(l.update());
    assert!(!l.dead);
    assert!(l.update());
    assert!(l.dead);
    assert!(!l.update());
    let mut z = Laser::new(0);
    assert!(z.update());
    assert!(z.dead);
    assert_eq!(z.duration, -1);
}

#[test]
fn dead_player_stays_dead() {
    let mut p = Player::new();
    p.update(true, false);
    assert!(p.get_dead());
    p.give_event(EventType::HpGrab);
    p.update(false, true);
    assert!(p.get_dead());
}

#[test]
fn dead_projectiles_stay_put() {
    let mut f = Fart::new();
    for _ in 0..50 {
        assert!(f.update(false));
    }
    assert!(f.dead);
    let before = f;
    assert!(!f.update(true));
    assert_eq!(f, before);
    let mut l = Laser::new(3);
    for _ in 0..3 {
        assert!(l.update());
    }
    assert!(l.dead);
    let before = l;
    assert!(!l.update());
    assert_eq!(l, before);
}
