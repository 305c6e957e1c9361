use unsteel_chez::assets::{classify_asset, AssetKind};
use unsteel_chez::chance::{fart_sound_name, fart_sound_name_for};
use unsteel_chez::frame::remove_flagged;
use unsteel_chez::map_edit::{
    click_action, mouse_gate, removal_flags, select_mode, set_first, two_click, ClickAction, ModeKeys, MouseGate,
    PlaceMode,
};

fn chars(s: &str) -> Vec<char> {
    s.chars().collect()
}

fn none() -> ModeKeys {
    ModeKeys { key1: false, key2: false, key3: false, key4: false, key5: false, key6: false, key7: false, space: false }
}

#[test]
fn number_keys_choose_modes() {
    assert_eq!(select_mode(PlaceMode::Platform, ModeKeys { key3: true, ..none() }), (PlaceMode::Remove, false));
    assert_eq!(
        select_mode(PlaceMode::Platform, ModeKeys { key7: true, key2: true, space: true, ..none() }),
        (PlaceMode::Hitbox, false)
    );
    assert_eq!(select_mode(PlaceMode::Dawn, ModeKeys { space: true, ..none() }), (PlaceMode::Dawn, true));
    assert_eq!(select_mode(PlaceMode::Dawn, none()), (PlaceMode::Dawn, false));
    assert_eq!(select_mode(PlaceMode::Dawn, ModeKeys { key7: true, ..none() }), (PlaceMode::KillTrigger, false));
}

#[test]
fn mouse_cooldown() {
    assert_eq!(mouse_gate(true, true, false), MouseGate { click: true, pan: false, ready: false });
    assert_eq!(mouse_gate(false, true, true), MouseGate { click: false, pan: false, ready: true });
    assert_eq!(mouse_gate(true, false, true), MouseGate { click: false, pan: true, ready: false });
    assert_eq!(mouse_gate(true, false, false), MouseGate { click: false, pan: false, ready: true });
}

#[test]
fn two_clicks_make_a_rectangle() {
    let mut last: Option<(i32, i32)> = None;
    assert_eq!(two_click(&mut last, (1, 2)), None);
    assert_eq!(last, Some((1, 2)));
    assert_eq!(two_click(&mut last, (5, 7)), Some(((1, 2), (5, 7))));
    assert_eq!(last, None);
}

#[test]
fn click_actions() {
    assert_eq!(click_action(PlaceMode::Hitbox), ClickAction::PlaceHitbox);
    assert_eq!(click_action(PlaceMode::Remove), ClickAction::RemoveUnderCursor);
    assert_eq!(click_action(PlaceMode::Laser), ClickAction::Nothing);
}

#[test]
fn player_goes_first() {
    let mut v: Vec<u8> = vec![];
    set_first(&mut v, 1);
    assert_eq!(v, vec![1]);
    v.push(2);
    set_first(&mut v, 3);
    assert_eq!(v, vec![3, 2]);
}

#[test]
fn asset_names() {
    assert_eq!(classify_asset(&chars("dawn.png")), Some((AssetKind::Image, chars("dawn"))));
    assert_eq!(classify_asset(&chars("death.wav")), Some((AssetKind::Sound, chars("death"))));
    assert_eq!(classify_asset(&chars("a.b.png")), Some((AssetKind::Image, chars("a.b"))));
    assert_eq!(classify_asset(&chars(".png")), None);
    assert_eq!(classify_asset(&chars("readme")), None);
    assert_eq!(classify_asset(&chars("x.PNG")), None);
    assert_eq!(classify_asset(&chars("data")), None);
}

#[test]
fn fart_sound_names() {
    assert_eq!(fart_sound_name_for(0), chars("fart0"));
    assert_eq!(fart_sound_name_for(11), chars("fart11"));
    for _ in 0..30 {
        let n: String = fart_sound_name().iter().collect();
        let k: u32 = n.strip_prefix("fart").unwrap().parse().unwrap();
        assert!(k <= 11);
    }
}

#[test]
fn removal_never_takes_the_player() {
    assert_eq!(removal_flags(&vec![true, true, false, true]), vec![false, true, false, true]);
    assert!(removal_flags(&vec![]).is_empty());
    let mut es = vec!['p', 'g', 'd'];
    remove_flagged(&mut es, &removal_flags(&vec![true, true, true]));
    assert_eq!(es, vec!['p']);
}
