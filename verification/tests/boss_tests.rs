use unsteel_chez::boss::{
    fire_duration_for, get_fire_duration, get_target_firetime, BossEvent, DrawPlan, Eye, GobloronBoss, Nip, PartLook,
};
use unsteel_chez::event::EventType;

fn quiet_eye() -> Eye {
    Eye {
        hp: 50,
        dead: false,
        damage_cool: 0,
        fire_cool: 500,
        warmup_cool: 300,
        warming_up: false,
        firing_duration: 150,
        firing: false,
        target_firetime: 0,
    }
}

#[test]
fn eye_new_starts_cooling_down() {
    let e = Eye::new();
    assert_eq!(e.hp, 50);
    assert!(!e.dead);
    assert_eq!(e.damage_cool, 10);
    assert_eq!(e.fire_cool, 500);
    assert_eq!(e.warmup_cool, 300);
    assert!(!e.warming_up && !e.firing);
    assert!([150, 300, 450].contains(&e.firing_duration));
    assert!(0 <= e.target_firetime && e.target_firetime < 300);
}

#[test]
fn fire_durations_are_multiples_of_150() {
    assert_eq!(fire_duration_for(1), 150);
    assert_eq!(fire_duration_for(2), 300);
    assert_eq!(fire_duration_for(3), 450);
    for _ in 0..50 {
        assert!([150, 300, 450].contains(&get_fire_duration()));
    }
}

#[test]
fn eye_hurt_lands_once_per_cooldown() {
    let mut e = quiet_eye();
    e.hurt(1);
    assert_eq!(e.hp, 49);
    assert_eq!(e.damage_cool, 10);
    e.hurt(1);
    assert_eq!(e.hp, 49);
    for _ in 0..10 {
        e.update_with_roll(1);
    }
    assert_eq!(e.damage_cool, 0);
    e.hurt(5);
    assert_eq!(e.hp, 44);
}

#[test]
fn eye_dies_when_hp_runs_out() {
    let mut e = quiet_eye();
    e.hp = 1;
    e.hurt(1);
    assert_eq!(e.hp, 0);
    assert!(e.dead);
    let before = e;
    let r = e.update_with_roll(2);
    assert_eq!(e, before);
    assert_eq!(r.laser, None);
    assert!(!r.angle_advanced && !r.angle_reset);
    e.hurt(1);
    assert_eq!(e, before);
}

#[test]
fn eye_cools_warms_fires_and_stops() {
    let mut e = quiet_eye();
    e.fire_cool = 1;
    let r = e.update_with_roll(1);
    assert_eq!(e.fire_cool, 0);
    assert!(!e.warming_up);
    assert_eq!(r.laser, None);
    e.update_with_roll(1);
    assert!(e.warming_up);
    e.warmup_cool = 1;
    e.update_with_roll(1);
    assert_eq!(e.warmup_cool, 0);
    assert!(e.warming_up && !e.firing);
    // warm-up over: the laser starts with the full firing duration
    let r = e.update_with_roll(1);
    assert_eq!(r.laser, Some(150));
    assert!(r.angle_advanced && !r.angle_reset);
    assert!(e.firing && !e.warming_up);
    assert_eq!(e.warmup_cool, 300);
    assert_eq!(e.fire_cool, 500);
    assert_eq!(e.firing_duration, 149);
    for _ in 0..149 {
        let r = e.update_with_roll(1);
        assert_eq!(r.laser, None);
        assert!(r.angle_advanced);
    }
    assert_eq!(e.firing_duration, 0);
    assert!(e.firing);
    let r = e.update_with_roll(3);
    assert!(r.angle_advanced && r.angle_reset);
    assert!(!e.firing);
    assert_eq!(e.firing_duration, 450);
    assert_eq!(e.fire_cool, 500 - 150);
}

#[test]
fn eye_draw_plan() {
    let mut e = quiet_eye();
    assert_eq!(e.draw(), DrawPlan { look: PartLook::Normal, warmup_marker: false, laser_beam: false });
    e.warming_up = true;
    e.damage_cool = 3;
    assert_eq!(e.draw(), DrawPlan { look: PartLook::Damaged, warmup_marker: true, laser_beam: false });
    e.dead = true;
    assert_eq!(e.draw(), DrawPlan { look: PartLook::Dead, warmup_marker: false, laser_beam: false });
}

#[test]
fn nip_new_and_cool_down_step() {
    let mut n = Nip::new();
    assert_eq!(n.hp, 20);
    assert_eq!(n.fire_cool, 10000);
    assert_eq!(n.firing_duration, 100);
    n.update_with_roll(7);
    assert_eq!(n.fire_cool, 9993);
    assert_eq!(n.damage_cool, 9);
    n.update_with_roll(0);
    assert_eq!(n.fire_cool, 9993);
}

#[test]
fn nip_overshoots_then_warms_up_and_fires() {
    let mut n = Nip::new();
    n.fire_cool = 4;
    n.update_with_roll(10);
    assert_eq!(n.fire_cool, -6);
    n.update_with_roll(10);
    assert!(n.warming_up);
    n.warmup_cool = 0;
    n.spawned_laser = true;
    n.update_with_roll(10);
    assert!(n.firing && !n.warming_up);
    assert_eq!(n.fire_cool, 10000);
    assert_eq!(n.firing_duration, 99);
    n.firing_duration = 0;
    n.update_with_roll(10);
    assert!(!n.firing);
    assert!(!n.spawned_laser);
    assert_eq!(n.firing_duration, 100);
}

#[test]
fn nip_hurt_and_random_update() {
    let mut n = Nip::new();
    n.hurt(3);
    assert_eq!(n.hp, 20);
    n.damage_cool = 0;
    n.hurt(3);
    assert_eq!(n.hp, 17);
    let before = n.fire_cool;
    n.update();
    assert!(n.fire_cool <= before && n.fire_cool >= before - 10);
}

#[test]
fn boss_new_has_ninety_hp() {
    let b = GobloronBoss::new();
    assert_eq!(b.get_hp(), 90);
    assert!(!b.get_dead());
    assert_eq!(b.left_nip, Nip::new());
}

#[test]
fn boss_spits_goblin_on_low_roll() {
    let mut b = GobloronBoss::new();
    b.eye = quiet_eye();
    let r = b.update_with_rolls(1, 0, 0, 2);
    assert_eq!(r.event, Some(BossEvent::SpawnGoblin));
    assert_eq!(BossEvent::SpawnGoblin.kind(), EventType::SpawnGoblin);
    let r = b.update_with_rolls(1, 0, 0, 3);
    assert_eq!(r.event, None);
}

#[test]
fn boss_left_nip_cools_one_faster() {
    let mut b = GobloronBoss::new();
    b.update_with_rolls(1, 5, 5, 1000);
    assert_eq!(b.left_nip.fire_cool, 10000 - 6);
    assert_eq!(b.right_nip.fire_cool, 10000 - 5);
}

#[test]
fn boss_nip_laser_once_per_firing() {
    let mut b = GobloronBoss::new();
    b.eye = quiet_eye();
    b.left_nip.firing = true;
    b.left_nip.firing_duration = 50;
    let r = b.update_with_rolls(1, 0, 0, 0);
    assert_eq!(r.event, Some(BossEvent::LeftNipLaser { duration: 49 }));
    assert_eq!(BossEvent::LeftNipLaser { duration: 49 }.kind(), EventType::Laser);
    assert!(b.left_nip.spawned_laser);
    let r = b.update_with_rolls(1, 0, 0, 1000);
    assert_eq!(r.event, None);
    // the right nipple waits for a frame in which nothing else was raised
    b.right_nip.firing = true;
    b.right_nip.firing_duration = 10;
    let r = b.update_with_rolls(1, 0, 0, 1000);
    assert_eq!(r.event, Some(BossEvent::RightNipLaser { duration: 9 }));
}

#[test]
fn boss_eye_laser_comes_first() {
    let mut b = GobloronBoss::new();
    b.eye = quiet_eye();
    b.eye.warming_up = true;
    b.eye.warmup_cool = 0;
    b.left_nip.firing = true;
    let r = b.update_with_rolls(1, 0, 0, 0);
    assert_eq!(r.event, Some(BossEvent::EyeLaser { duration: 150 }));
    assert!(r.eye_angle_advanced);
    assert!(!b.left_nip.spawned_laser);
    let r = b.update_with_rolls(1, 0, 0, 0);
    assert_eq!(r.event, Some(BossEvent::LeftNipLaser { duration: 98 }));
}

#[test]
fn boss_damage_goes_to_first_overlapping_part() {
    let mut b = GobloronBoss::new();
    b.eye.damage_cool = 0;
    b.left_nip.damage_cool = 0;
    b.right_nip.damage_cool = 0;
    b.give_event(EventType::Damage, true, true, true);
    assert_eq!((b.eye.hp, b.right_nip.hp, b.left_nip.hp), (49, 20, 20));
    b.give_event(EventType::Damage, false, true, true);
    assert_eq!((b.eye.hp, b.right_nip.hp, b.left_nip.hp), (49, 19, 20));
    b.give_event(EventType::Damage, false, false, true);
    assert_eq!((b.eye.hp, b.right_nip.hp, b.left_nip.hp), (49, 19, 19));
    b.give_event(EventType::Pickup, true, true, true);
    assert_eq!(b.get_hp(), 87);
}

#[test]
fn boss_dies_with_its_last_part() {
    let mut b = GobloronBoss::new();
    b.eye.hp = 0;
    b.eye.dead = true;
    b.left_nip.hp = 0;
    b.left_nip.dead = true;
    b.right_nip.damage_cool = 0;
    b.right_nip.hp = 1;
    b.update_with_rolls(1, 0, 0, 1000);
    assert!(!b.dead);
    b.right_nip.damage_cool = 0;
    b.give_event(EventType::Damage, false, true, false);
    assert!(b.right_nip.dead);
    assert!(!b.dead);
    // the frame in which the boss dies may still spit out a goblin
    let r = b.update_with_rolls(1, 0, 0, 0);
    assert!(b.dead);
    assert_eq!(r.event, Some(BossEvent::SpawnGoblin));
    assert_eq!(b.get_hp(), 0);
    let before = b;
    let r = b.update();
    assert_eq!(b, before);
    assert_eq!(r.event, None);
}

#[test]
fn boss_draw_and_random_update() {
    let mut b = GobloronBoss::new();
    let (e, l, r) = b.draw();
    assert_eq!(e.look, PartLook::Damaged);
    assert_eq!(l.look, PartLook::Damaged);
    assert_eq!(r.look, PartLook::Damaged);
    for _ in 0..20 {
        let rep = b.update();
        assert!(matches!(rep.event, None | Some(BossEvent::SpawnGoblin)));
    }
    assert_eq!(b.draw().0.look, PartLook::Normal);
}

#[test]
fn boss_never_heals() {
    let mut b = GobloronBoss::new();
    b.left_nip.hp = 0;
    b.left_nip.dead = true;
    let hp = b.get_hp();
    for _ in 0..30 {
        b.update_with_rolls(2, 10, 10, 500);
        assert_eq!(b.get_hp(), hp);
        assert!(b.left_nip.dead);
    }
    b.give_event(EventType::Damage, false, false, true);
    assert_eq!(b.get_hp(), hp);
    assert!(b.left_nip.dead);
    b.give_event(EventType::Damage, true, false, false);
    assert_eq!(b.get_hp(), hp - 1);
}

#[test]
fn target_firetime_below_warmup() {
    for _ in 0..50 {
        let t = get_target_firetime();
        assert!((0..300).contains(&t));
    }
}

#[test]
fn eye_lasers_last_a_drawn_duration() {
    let mut b = GobloronBoss::new();
    let mut eye_lasers = 0;
    for _ in 0..3000 {
        if let Some(BossEvent::EyeLaser { duration }) = b.update().event {
            assert!([150, 300, 450].contains(&duration));
            eye_lasers += 1;
        }
    }
    assert!(eye_lasers >= 1);
}
