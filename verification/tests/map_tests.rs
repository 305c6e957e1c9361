use unsteel_chez::map_data::{
    collect_records, fields_read, kind_of_name, mode_name_chars, parse_map, save_text, LoadKind, Loader,
    SaveRecord,
};
use unsteel_chez::map_edit::PlaceMode;
use unsteel_chez::text::{lines, split_chars};

fn chars(s: &str) -> Vec<char> {
    s.chars().collect()
}

fn text(v: &Vec<char>) -> String {
    v.iter().collect()
}

#[test]
fn names_are_debug_names() {
    for (m, n) in [
        (PlaceMode::Platform, "Platform"),
        (PlaceMode::Hitbox, "Hitbox"),
        (PlaceMode::Remove, "Remove"),
        (PlaceMode::SpawnPlayer, "SpawnPlayer"),
        (PlaceMode::SpawnGoblin, "SpawnGoblin"),
        (PlaceMode::SpawnGobloronBoss, "SpawnGobloronBoss"),
        (PlaceMode::Dawn, "Dawn"),
        (PlaceMode::Trigger, "Trigger"),
        (PlaceMode::Laser, "Laser"),
        (PlaceMode::KillTrigger, "KillTrigger"),
        (PlaceMode::Projectile, "Projectile"),
    ] {
        assert_eq!(text(&mode_name_chars(m)), n);
        assert_eq!(text(&mode_name_chars(m)), format!("{:?}", m));
    }
}

#[test]
fn kind_names() {
    assert_eq!(kind_of_name(&chars("Platform"), Loader::Game), Some(LoadKind::Platform));
    assert_eq!(kind_of_name(&chars("CheeseTrigger"), Loader::Game), Some(LoadKind::CheeseTrigger));
    assert_eq!(kind_of_name(&chars("CheeseTrigger"), Loader::Editor), None);
    assert_eq!(kind_of_name(&chars("Projectile"), Loader::Game), None);
    assert_eq!(kind_of_name(&chars("platform"), Loader::Game), None);
    assert_eq!(fields_read(LoadKind::SpawnPlayer), 2);
    assert_eq!(fields_read(LoadKind::SpawnGobloronBoss), 0);
    assert_eq!(fields_read(LoadKind::Hitbox), 4);
}

#[test]
fn parse_a_map() {
    let t = chars("SpawnPlayer 10 20 0 0\r\nLaser 1 1 1 1\nPlatform 1.5 2 300 32\nSpawnGobloronBoss 0 0 0 0");
    let entries = parse_map(&t, Loader::Editor).unwrap();
    assert_eq!(entries.len(), 3);
    assert_eq!(entries[0].kind, LoadKind::SpawnPlayer);
    assert_eq!(entries[0].fields, vec![chars("10"), chars("20"), chars("0"), chars("0")]);
    assert_eq!(entries[1].kind, LoadKind::Platform);
    assert_eq!(entries[1].fields, vec![chars("1.5"), chars("2"), chars("300"), chars("32")]);
    assert_eq!(entries[2].kind, LoadKind::SpawnGobloronBoss);
}

#[test]
fn bad_line_is_refused() {
    let t = chars("Hitbox 1 2 3 4\nDawn 1 2 0\nPlatform 1 2 3 4\n");
    assert_eq!(parse_map(&t, Loader::Game).unwrap_err(), 1);
    let t = chars("Hitbox 1 2 3 4\n\n");
    assert_eq!(parse_map(&t, Loader::Game).unwrap_err(), 1);
    let t = chars("Hitbox 1 2 3\n");
    assert_eq!(parse_map(&t, Loader::Game).unwrap_err(), 0);
    // a doubled space makes an empty field, which still counts
    let t = chars("Hitbox  1 2 3\n");
    assert_eq!(parse_map(&t, Loader::Game).unwrap()[0].fields[0], chars(""));
    assert!(parse_map(&chars(""), Loader::Game).unwrap().is_empty());
}

#[test]
fn save_text_format() {
    let rs = vec![
        SaveRecord { mode: PlaceMode::SpawnPlayer, x: chars("3"), y: chars("4"), w: chars("0"), h: chars("0") },
        SaveRecord { mode: PlaceMode::Hitbox, x: chars("1.5"), y: chars("-2"), w: chars("30"), h: chars("40") },
    ];
    let t = save_text(&rs);
    assert_eq!(text(&t), "SpawnPlayer 3 4 0 0\nHitbox 1.5 -2 30 40\n");
    let back = parse_map(&t, Loader::Game).unwrap();
    assert_eq!(back.len(), 2);
    assert_eq!(back[1].kind, LoadKind::Hitbox);
    assert_eq!(back[1].fields, vec![chars("1.5"), chars("-2"), chars("30"), chars("40")]);
}

#[test]
fn save_collects_in_order_and_keeps_old_records() {
    let mut map_data: Vec<(PlaceMode, u32)> = vec![(PlaceMode::SpawnPlayer, 0)];
    let entities = vec![
        (Some(PlaceMode::SpawnPlayer), 1),
        (Some(PlaceMode::SpawnGoblin), 2),
        (None, 3),
        (Some(PlaceMode::Dawn), 4),
    ];
    collect_records(&mut map_data, &entities, &vec![5], &vec![6, 7], &vec![8]);
    assert_eq!(
        map_data,
        vec![
            (PlaceMode::SpawnPlayer, 0),
            (PlaceMode::SpawnGoblin, 2),
            (PlaceMode::Dawn, 4),
            (PlaceMode::Hitbox, 5),
            (PlaceMode::Platform, 6),
            (PlaceMode::Platform, 7),
            (PlaceMode::KillTrigger, 8),
        ]
    );
    collect_records(&mut map_data, &vec![], &vec![5], &vec![], &vec![]);
    assert_eq!(map_data.len(), 8);
}

#[test]
fn lines_like_a_reader() {
    let ls = lines(&chars("a\r\n\nb\r"));
    assert_eq!(ls, vec![chars("a"), chars(""), chars("b\r")]);
    assert!(lines(&chars("")).is_empty());
    assert_eq!(lines(&chars("\n")), vec![chars("")]);
    assert_eq!(split_chars(&chars(" x  y"), ' '), vec![chars(""), chars("x"), chars(""), chars("y")]);
}

#[test]
fn saved_map_loads_player_first() {
    let mut map_data: Vec<(PlaceMode, (i32, i32))> = vec![(PlaceMode::SpawnPlayer, (7, 8))];
    let entities = vec![(Some(PlaceMode::SpawnPlayer), (1, 1)), (Some(PlaceMode::SpawnGoblin), (2, 3))];
    collect_records(&mut map_data, &entities, &vec![(4, 5)], &vec![], &vec![]);
    let records: Vec<SaveRecord> = map_data
        .iter()
        .map(|(m, (x, y))| SaveRecord {
            mode: *m,
            x: chars(&x.to_string()),
            y: chars(&y.to_string()),
            w: chars("0"),
            h: chars("0"),
        })
        .collect();
    let back = parse_map(&save_text(&records), Loader::Editor).unwrap();
    assert_eq!(back.len(), 3);
    assert_eq!(back[0].kind, LoadKind::SpawnPlayer);
    assert_eq!(back[0].fields, vec![chars("7"), chars("8"), chars("0"), chars("0")]);
    assert_eq!(back[1].kind, LoadKind::SpawnGoblin);
    assert_eq!(back[2].kind, LoadKind::Hitbox);
}
