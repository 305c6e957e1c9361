use unsteel_chez::contact::{enemy_give_data, fart_give_data, first_contact, player_give_data, Contact, Watcher};
use unsteel_chez::critters::{Dawn, Enemy};
use unsteel_chez::event::EventType;
use unsteel_chez::map_edit::PlaceMode;

#[test]
fn player_picks_up_first_touched() {
    let kinds = vec![
        Some(PlaceMode::SpawnPlayer),
        Some(PlaceMode::Projectile),
        Some(PlaceMode::Dawn),
        Some(PlaceMode::SpawnGoblin),
    ];
    let touching = vec![true, true, true, true];
    assert_eq!(
        player_give_data(&kinds, &touching),
        Some(Contact { index: 2, event: EventType::Pickup })
    );
    let touching = vec![true, true, false, true];
    assert_eq!(
        player_give_data(&kinds, &touching),
        Some(Contact { index: 3, event: EventType::KillPlayer })
    );
    let touching = vec![true, true, false, false];
    assert_eq!(player_give_data(&kinds, &touching), None);
}

#[test]
fn player_hit_by_laser() {
    let kinds = vec![Some(PlaceMode::SpawnPlayer), None, Some(PlaceMode::Laser)];
    assert_eq!(
        first_contact(Watcher::Player, &kinds, &vec![false, true, true]),
        Some(Contact { index: 2, event: EventType::KillPlayer })
    );
}

#[test]
fn fart_damages_goblins_and_boss() {
    let kinds = vec![Some(PlaceMode::SpawnPlayer), Some(PlaceMode::Dawn), Some(PlaceMode::SpawnGobloronBoss)];
    assert_eq!(
        fart_give_data(false, &kinds, &vec![true, true, true]),
        Some(Contact { index: 2, event: EventType::Damage })
    );
    assert_eq!(fart_give_data(true, &kinds, &vec![true, true, true]), None);
    assert_eq!(fart_give_data(false, &kinds, &vec![true, true, false]), None);
}

#[test]
fn goblin_laser_hit_beats_sighting() {
    let kinds = vec![Some(PlaceMode::SpawnPlayer), Some(PlaceMode::Laser), Some(PlaceMode::SpawnPlayer)];
    assert_eq!(
        enemy_give_data(&kinds, &vec![true, true, true]),
        Some(Contact { index: 1, event: EventType::Damage })
    );
    assert_eq!(
        enemy_give_data(&kinds, &vec![true, false, true]),
        Some(Contact { index: 2, event: EventType::PlayerSpotted })
    );
    assert_eq!(
        enemy_give_data(&kinds, &vec![true, false, false]),
        Some(Contact { index: 0, event: EventType::PlayerSpotted })
    );
    assert_eq!(enemy_give_data(&kinds, &vec![false, false, false]), None);
}

#[test]
fn goblin_chases_and_dies() {
    let mut e = Enemy::new();
    assert!(!e.give_event(EventType::PlayerSpotted, false, false));
    assert!(!e.has_target);
    assert!(e.give_event(EventType::PlayerSpotted, false, true));
    assert!(e.has_target);
    assert!(e.update_with_roll(false, true, 2));
    assert!(!e.update_with_roll(false, true, 3));
    assert!(!e.update_with_roll(false, false, 0));
    assert!(e.has_target);
    assert!(!e.update_with_roll(true, true, 50));
    assert!(!e.has_target);
    assert!(!e.update(false, true));
    assert!(!e.give_event(EventType::Damage, false, true));
    assert!(!e.dead);
    e.give_event(EventType::Damage, true, false);
    assert!(e.dead);
    assert_eq!(e.get_hp(), 1);
}

#[test]
fn soap_taken_by_pickup_inside() {
    let mut d = Dawn::new();
    d.give_event(EventType::Pickup, false);
    assert!(!d.dead);
    d.give_event(EventType::Damage, true);
    assert!(!d.dead);
    d.give_event(EventType::Pickup, true);
    assert!(d.dead);
}

#[test]
fn other_players_do_not_count() {
    let kinds = vec![Some(PlaceMode::Projectile), Some(PlaceMode::SpawnGoblin)];
    let touching = vec![true, true];
    let before = player_give_data(&kinds, &touching).map(|c| c.event);
    let kinds2 = vec![Some(PlaceMode::SpawnPlayer), Some(PlaceMode::Projectile), Some(PlaceMode::SpawnPlayer), Some(PlaceMode::SpawnGoblin)];
    let touching2 = vec![true, true, true, true];
    assert_eq!(player_give_data(&kinds2, &touching2).map(|c| c.event), before);
    assert_eq!(before, Some(EventType::KillPlayer));
}
