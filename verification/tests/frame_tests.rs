use unsteel_chez::event::EventType;
use unsteel_chez::frame::{despawn, remove_flagged, Despawn, EventQueue, FrameAction};
use unsteel_chez::map_edit::PlaceMode;

#[test]
fn fart_spawns_once_per_frame() {
    let mut q = EventQueue::new(vec![], true);
    let a = q.process_entity(Some(EventType::SpawnFart));
    assert_eq!(a, vec![FrameAction::Spawn(0), FrameAction::Deliver(0)]);
    assert_eq!(q.covered, vec![0]);
    let a = q.process_entity(None);
    assert_eq!(a, vec![FrameAction::Deliver(0)]);
    let a = q.process_entity(Some(EventType::Laser));
    assert_eq!(a, vec![FrameAction::Deliver(0), FrameAction::Spawn(1), FrameAction::Deliver(1)]);
    assert_eq!(q.events, vec![EventType::SpawnFart, EventType::Laser]);
    assert_eq!(q.covered, vec![0, 1]);
}

#[test]
fn win_ends_the_look() {
    let mut q = EventQueue::new(vec![EventType::Win, EventType::SpawnFart], true);
    let a = q.process_entity(None);
    assert_eq!(a, vec![FrameAction::Win]);
    assert!(q.covered.is_empty());
}

#[test]
fn every_event_is_delivered_in_order() {
    let mut q = EventQueue::new(vec![EventType::Damage, EventType::PlayerSpotted], true);
    let a = q.process_entity(Some(EventType::HpGrab));
    let delivered: Vec<usize> = a
        .iter()
        .filter_map(|x| match x {
            FrameAction::Deliver(i) => Some(*i),
            _ => None,
        })
        .collect();
    assert_eq!(delivered, vec![0, 1, 2]);
    assert_eq!(a.len(), 3);
}

#[test]
fn goblin_spawns_on_every_look() {
    let mut q = EventQueue::new(vec![EventType::KillPlayer], true);
    let a = q.process_entity(Some(EventType::SpawnGoblin));
    assert_eq!(a, vec![FrameAction::Deliver(0), FrameAction::Spawn(1), FrameAction::Deliver(1)]);
    let a = q.process_entity(None);
    assert_eq!(a, vec![FrameAction::Deliver(0), FrameAction::Spawn(1), FrameAction::Deliver(1)]);
    assert!(q.covered.is_empty());
}

#[test]
fn removal_keeps_exactly_the_unflagged() {
    let mut v = vec!['a', 'b', 'c', 'd'];
    remove_flagged(&mut v, &vec![false, true, true, false]);
    assert_eq!(v, vec!['a', 'd']);
    let mut w = vec![1, 2, 3];
    remove_flagged(&mut w, &vec![false, false, false]);
    assert_eq!(w, vec![1, 2, 3]);
    let mut e: Vec<u8> = vec![];
    remove_flagged(&mut e, &vec![]);
    assert!(e.is_empty());
}

#[test]
fn despawn_removes_only_the_dead() {
    // player, goblin, laser, soap; the goblin and the laser are dead
    let kinds = vec![
        Some(PlaceMode::SpawnPlayer),
        Some(PlaceMode::SpawnGoblin),
        Some(PlaceMode::Laser),
        Some(PlaceMode::Dawn),
    ];
    let dead = vec![false, true, true, false];
    assert_eq!(despawn(&kinds, &dead), Despawn::Done);
    let mut entities = kinds.clone();
    remove_flagged(&mut entities, &dead);
    assert_eq!(entities, vec![Some(PlaceMode::SpawnPlayer), Some(PlaceMode::Dawn)]);
}

#[test]
fn despawn_player_death_and_boss_win() {
    let kinds = vec![Some(PlaceMode::SpawnPlayer), Some(PlaceMode::SpawnGoblin)];
    assert_eq!(despawn(&kinds, &vec![true, true]), Despawn::PlayerDied);
    let kinds = vec![
        Some(PlaceMode::SpawnPlayer),
        Some(PlaceMode::Projectile),
        Some(PlaceMode::SpawnGoblin),
        Some(PlaceMode::SpawnGobloronBoss),
    ];
    // a dead goblin does not make the living boss count as beaten
    assert_eq!(despawn(&kinds, &vec![false, true, true, false]), Despawn::Done);
    assert_eq!(despawn(&kinds, &vec![false, false, true, true]), Despawn::BossDefeated);
    assert_eq!(despawn(&vec![], &vec![]), Despawn::Done);
}

#[test]
fn test_run_hands_win_on() {
    let mut q = EventQueue::new(vec![EventType::Win, EventType::SpawnFart], false);
    let a = q.process_entity(None);
    assert_eq!(a, vec![FrameAction::Deliver(0), FrameAction::Spawn(1), FrameAction::Deliver(1)]);
}
