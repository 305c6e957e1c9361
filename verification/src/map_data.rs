//! The map data file: one record per line, a kind name and four numbers
//! (x, y, width, height) separated by single spaces. The numbers are written
//! and read by the caller; this module frames records into text and text
//! into records, and decides what each kind name stands for.

use crate::map_edit::PlaceMode;
use crate::text::{
    free_of, lemma_split_piece, lines, lines_of, split_chars, split_on, strip_cr, views,
};
use vstd::prelude::*;

verus! {

/// The name a place mode is written under.
pub open spec fn mode_name(m: PlaceMode) -> Seq<char> {
    match m {
        PlaceMode::Platform => seq!['P', 'l', 'a', 't', 'f', 'o', 'r', 'm'],
        PlaceMode::Hitbox => seq!['H', 'i', 't', 'b', 'o', 'x'],
        PlaceMode::Remove => seq!['R', 'e', 'm', 'o', 'v', 'e'],
        PlaceMode::SpawnPlayer => seq!['S', 'p', 'a', 'w', 'n', 'P', 'l', 'a', 'y', 'e', 'r'],
        PlaceMode::SpawnGoblin => seq!['S', 'p', 'a', 'w', 'n', 'G', 'o', 'b', 'l', 'i', 'n'],
        PlaceMode::SpawnGobloronBoss => seq!['S', 'p', 'a', 'w', 'n', 'G', 'o', 'b', 'l', 'o', 'r', 'o', 'n', 'B', 'o', 's', 's'],
        PlaceMode::Dawn => seq!['D', 'a', 'w', 'n'],
        PlaceMode::Trigger => seq!['T', 'r', 'i', 'g', 'g', 'e', 'r'],
        PlaceMode::Laser => seq!['L', 'a', 's', 'e', 'r'],
        PlaceMode::KillTrigger => seq!['K', 'i', 'l', 'l', 'T', 'r', 'i', 'g', 'g', 'e', 'r'],
        PlaceMode::Projectile => seq!['P', 'r', 'o', 'j', 'e', 'c', 't', 'i', 'l', 'e'],
    }
}

/// The name a place mode is written under (see `mode_name`).
pub fn mode_name_chars(m: PlaceMode) -> (r: Vec<char>)
    ensures
        r@ == mode_name(m),
{
    match m {
        PlaceMode::Platform => vec!['P', 'l', 'a', 't', 'f', 'o', 'r', 'm'],
        PlaceMode::Hitbox => vec!['H', 'i', 't', 'b', 'o', 'x'],
        PlaceMode::Remove => vec!['R', 'e', 'm', 'o', 'v', 'e'],
        PlaceMode::SpawnPlayer => vec!['S', 'p', 'a', 'w', 'n', 'P', 'l', 'a', 'y', 'e', 'r'],
        PlaceMode::SpawnGoblin => vec!['S', 'p', 'a', 'w', 'n', 'G', 'o', 'b', 'l', 'i', 'n'],
        PlaceMode::SpawnGobloronBoss => vec!['S', 'p', 'a', 'w', 'n', 'G', 'o', 'b', 'l', 'o', 'r', 'o', 'n', 'B', 'o', 's', 's'],
        PlaceMode::Dawn => vec!['D', 'a', 'w', 'n'],
        PlaceMode::Trigger => vec!['T', 'r', 'i', 'g', 'g', 'e', 'r'],
        PlaceMode::Laser => vec!['L', 'a', 's', 'e', 'r'],
        PlaceMode::KillTrigger => vec!['K', 'i', 'l', 'l', 'T', 'r', 'i', 'g', 'g', 'e', 'r'],
        PlaceMode::Projectile => vec!['P', 'r', 'o', 'j', 'e', 'c', 't', 'i', 'l', 'e'],
    }
}

/// The name of a cheese trigger record, which only the game's loader knows.
pub open spec fn cheese_trigger_name() -> Seq<char> {
    seq!['C', 'h', 'e', 'e', 's', 'e', 'T', 'r', 'i', 'g', 'g', 'e', 'r']
}

/// What a loaded record asks for.
#[derive(Clone, Copy, Debug, PartialEq, Eq)]
pub enum LoadKind {
    /// Place the player at (x, y).
    SpawnPlayer,
    /// Place a goblin at (x, y).
    SpawnGoblin,
    /// Place the boss (at its fixed place).
    SpawnGobloronBoss,
    /// Add a one-way platform (x, y, w, h).
    Platform,
    /// Add a wall hitbox (x, y, w, h).
    Hitbox,
    /// Place a soap bottle at (x, y).
    Dawn,
    /// Add a kill trigger (x, y, w, h).
    KillTrigger,
    /// Add a cheese trigger (x, y, w, h).
    CheeseTrigger,
}

/// Who reads the map: the game knows cheese triggers, the editor does not.
#[derive(Clone, Copy, Debug, PartialEq, Eq)]
pub enum Loader {
    Game,
    Editor,
}

/// What a record with the given kind name asks for; `None` for names the
/// loader passes over.
pub open spec fn load_kind(name: Seq<char>, loader: Loader) -> Option<LoadKind> {
    if name == mode_name(PlaceMode::SpawnPlayer) {
        Some(LoadKind::SpawnPlayer)
    } else     if name == mode_name(PlaceMode::SpawnGoblin) {
        Some(LoadKind::SpawnGoblin)
    } else     if name == mode_name(PlaceMode::SpawnGobloronBoss) {
        Some(LoadKind::SpawnGobloronBoss)
    } else     if name == mode_name(PlaceMode::Platform) {
        Some(LoadKind::Platform)
    } else     if name == mode_name(PlaceMode::Hitbox) {
        Some(LoadKind::Hitbox)
    } else     if name == mode_name(PlaceMode::Dawn) {
        Some(LoadKind::Dawn)
    } else     if name == mode_name(PlaceMode::KillTrigger) {
        Some(LoadKind::KillTrigger)
    } else  if name == cheese_trigger_name() && loader == Loader::Game {
        Some(LoadKind::CheeseTrigger)
    } else {
        None
    }
}

/// Whether two texts are equal.
pub fn chars_eq(a: &Vec<char>, b: &Vec<char>) -> (r: bool)
    ensures
        r == (a@ == b@),
{
    if a.len() != b.len() {
        return false;
    }
    let mut i: usize = 0;
    while i < a.len()
        invariant
            a.len() == b.len(),
            0 <= i <= a.len(),
            forall|j: int| 0 <= j < i ==> a@[j] == b@[j],
        decreases a.len() - i,
    {
        if a[i] != b[i] {
            return false;
        }
        i += 1;
    }
    assert(a@ =~= b@);
    true
}

/// What a record with the kind name `name` asks for (see `load_kind`).
pub fn kind_of_name(name: &Vec<char>, loader: Loader) -> (r: Option<LoadKind>)
    ensures
        r == load_kind(name@, loader),
{
    if chars_eq(name, &mode_name_chars(PlaceMode::SpawnPlayer)) {
        Some(LoadKind::SpawnPlayer)
    } else     if chars_eq(name, &mode_name_chars(PlaceMode::SpawnGoblin)) {
        Some(LoadKind::SpawnGoblin)
    } else     if chars_eq(name, &mode_name_chars(PlaceMode::SpawnGobloronBoss)) {
        Some(LoadKind::SpawnGobloronBoss)
    } else     if chars_eq(name, &mode_name_chars(PlaceMode::Platform)) {
        Some(LoadKind::Platform)
    } else     if chars_eq(name, &mode_name_chars(PlaceMode::Hitbox)) {
        Some(LoadKind::Hitbox)
    } else     if chars_eq(name, &mode_name_chars(PlaceMode::Dawn)) {
        Some(LoadKind::Dawn)
    } else     if chars_eq(name, &mode_name_chars(PlaceMode::KillTrigger)) {
        Some(LoadKind::KillTrigger)
    } else  if chars_eq(name, &vec!['C', 'h', 'e', 'e', 's', 'e', 'T', 'r', 'i', 'g', 'g', 'e', 'r']) && matches!(loader, Loader::Game) {
        Some(LoadKind::CheeseTrigger)
    } else {
        None
    }
}

/// How many of a record's numbers the loader reads: the position (2) for
/// things placed at a point, all four for rectangles, none for the boss.
pub open spec fn fields_read_spec(k: LoadKind) -> usize {
    match k {
        LoadKind::SpawnPlayer => 2,
        LoadKind::SpawnGoblin => 2,
        LoadKind::Dawn => 2,
        LoadKind::SpawnGobloronBoss => 0,
        _ => 4,
    }
}

/// How many of a record's numbers the loader reads (see `fields_read_spec`).
pub fn fields_read(k: LoadKind) -> (n: usize)
    ensures
        n == fields_read_spec(k),
{
    match k {
        LoadKind::SpawnPlayer => 2,
        LoadKind::SpawnGoblin => 2,
        LoadKind::Dawn => 2,
        LoadKind::SpawnGobloronBoss => 0,
        _ => 4,
    }
}


/// A loaded record: what it asks for and its four number fields, as text.
#[derive(Debug)]
pub struct MapEntry {
    pub kind: LoadKind,
    pub fields: Vec<Vec<char>>,
}

/// The abstract value of loaded records.
pub open spec fn entry_views(v: Seq<MapEntry>) -> Seq<(LoadKind, Seq<Seq<char>>)> {
    v.map_values(|e: MapEntry| (e.kind, views(e.fields@)))
}

/// Reading lines `i..`: the records they ask for, in order, or the index of
/// the first line that does not split into exactly five fields (the loader
/// gives up there).
pub open spec fn parse_from(ls: Seq<Seq<char>>, loader: Loader, i: int) -> Result<
    Seq<(LoadKind, Seq<Seq<char>>)>,
    int,
>
    decreases ls.len() - i,
{
    if i < 0 || i >= ls.len() {
        Ok(seq![])
    } else {
        let f = split_on(ls[i], ' ');
        if f.len() != 5 {
            Err(i)
        } else {
            match parse_from(ls, loader, i + 1) {
                Err(e) => Err(e),
                Ok(rest) => match load_kind(f[0], loader) {
                    Some(k) => Ok(seq![(k, f.subrange(1, 5))] + rest),
                    None => Ok(rest),
                },
            }
        }
    }
}

/// Reading a whole map text.
pub open spec fn parse_map_spec(text: Seq<char>, loader: Loader) -> Result<
    Seq<(LoadKind, Seq<Seq<char>>)>,
    int,
> {
    parse_from(lines_of(text), loader, 0)
}

/// Reads a map text into records. A line that does not split at single
/// spaces into exactly five fields is refused with its index (counting from
/// 0); lines with a kind name the loader does not know are passed over.
pub fn parse_map(text: &Vec<char>, loader: Loader) -> (r: Result<Vec<MapEntry>, usize>)
    ensures
        match r {
            Ok(v) => parse_map_spec(text@, loader) == Ok::<_, int>(entry_views(v@)),
            Err(i) => parse_map_spec(text@, loader) == Err::<Seq<(LoadKind, Seq<Seq<char>>)>, int>(
                i as int,
            ),
        },
{
    let ls = lines(text);
    let ghost lv = views(ls@);
    let mut out: Vec<MapEntry> = Vec::new();
    let mut i: usize = 0;
    while i < ls.len()
        invariant
            lv == views(ls@),
            lv == lines_of(text@),
            0 <= i <= ls.len(),
            parse_from(lv, loader, 0) == (match parse_from(lv, loader, i as int) {
                Ok(rest) => Ok(entry_views(out@) + rest),
                Err(e) => Err(e),
            }),
        decreases ls.len() - i,
    {
        let f = split_chars(&ls[i], ' ');
        assert(views(f@) == split_on(lv[i as int], ' '));
        if f.len() != 5 {
            return Err(i);
        }
        let kind = kind_of_name(&f[0], loader);
        let ghost before = entry_views(out@);
        match kind {
            Some(k) => {
                let mut fields: Vec<Vec<char>> = Vec::new();
                let mut f2 = f;
                let h = f2.pop().unwrap();
                let w = f2.pop().unwrap();
                let y = f2.pop().unwrap();
                let x = f2.pop().unwrap();
                fields.push(x);
                fields.push(y);
                fields.push(w);
                fields.push(h);
                assert(views(fields@) =~= split_on(lv[i as int], ' ').subrange(1, 5));
                out.push(MapEntry { kind: k, fields });
                assert(entry_views(out@) =~= before + seq![(k, split_on(lv[i as int], ' ').subrange(1, 5))]);
            },
            None => {},
        }
        proof {
            let fs = split_on(lv[i as int], ' ');
            let pre = match load_kind(fs[0], loader) {
                Some(k) => seq![(k, fs.subrange(1, 5))],
                None => Seq::<(LoadKind, Seq<Seq<char>>)>::empty(),
            };
            assert(views(f@)[0] == f@[0]@);
            assert(entry_views(out@) =~= before + pre);
            match parse_from(lv, loader, i + 1) {
                Ok(r) => {
                    assert(parse_from(lv, loader, i as int) == Ok::<_, int>(pre + r));
                    assert(before + (pre + r) =~= entry_views(out@) + r);
                },
                Err(e) => {
                    assert(parse_from(lv, loader, i as int) == Err::<Seq<(LoadKind, Seq<Seq<char>>)>, int>(e));
                },
            }
        }
        i += 1;
    }
    assert(entry_views(out@) + seq![] =~= entry_views(out@));
    Ok(out)
}


/// A record to save: its kind and its four numbers (x, y, width, height)
/// written out as text by the caller.
#[derive(Debug)]
pub struct SaveRecord {
    pub mode: PlaceMode,
    pub x: Vec<char>,
    pub y: Vec<char>,
    pub w: Vec<char>,
    pub h: Vec<char>,
}

/// The abstract value of records to save.
pub open spec fn record_views(v: Seq<SaveRecord>) -> Seq<(PlaceMode, Seq<Seq<char>>)> {
    v.map_values(|r: SaveRecord| (r.mode, seq![r.x@, r.y@, r.w@, r.h@]))
}

/// A record's line without its line feed: the kind name and the four
/// fields, separated by single spaces.
pub open spec fn record_body(mode: PlaceMode, fs: Seq<Seq<char>>) -> Seq<char> {
    mode_name(mode) + seq![' '] + fs[0] + seq![' '] + fs[1] + seq![' '] + fs[2] + seq![' '] + fs[3]
}

/// The text of a list of records: one line each, in order.
pub open spec fn save_text_of(rs: Seq<(PlaceMode, Seq<Seq<char>>)>) -> Seq<char>
    decreases rs.len(),
{
    if rs.len() == 0 {
        seq![]
    } else {
        save_text_of(rs.drop_last()) + record_body(rs.last().0, rs.last().1) + seq!['\n']
    }
}

fn push_all(out: &mut Vec<char>, src: &Vec<char>)
    ensures
        final(out)@ == old(out)@ + src@,
{
    let mut i: usize = 0;
    while i < src.len()
        invariant
            0 <= i <= src.len(),
            out@ == old(out)@ + src@.take(i as int),
        decreases src.len() - i,
    {
        out.push(src[i]);
        i += 1;
        assert(out@ =~= old(out)@ + src@.take(i as int));
    }
    assert(src@.take(i as int) =~= src@);
}

/// The line of one record (see `record_body`), with its line feed.
pub fn record_line(r: &SaveRecord) -> (t: Vec<char>)
    ensures
        t@ == record_body(r.mode, seq![r.x@, r.y@, r.w@, r.h@]) + seq!['\n'],
{
    let mut t = mode_name_chars(r.mode);
    t.push(' ');
    push_all(&mut t, &r.x);
    t.push(' ');
    push_all(&mut t, &r.y);
    t.push(' ');
    push_all(&mut t, &r.w);
    t.push(' ');
    push_all(&mut t, &r.h);
    t.push('\n');
    assert(t@ =~= record_body(r.mode, seq![r.x@, r.y@, r.w@, r.h@]) + seq!['\n']);
    t
}

/// The text of a list of records (see `save_text_of`).
pub fn save_text(records: &Vec<SaveRecord>) -> (t: Vec<char>)
    ensures
        t@ == save_text_of(record_views(records@)),
{
    let mut t: Vec<char> = Vec::new();
    let mut i: usize = 0;
    let ghost rv = record_views(records@);
    while i < records.len()
        invariant
            rv == record_views(records@),
            0 <= i <= records.len(),
            t@ == save_text_of(rv.take(i as int)),
        decreases records.len() - i,
    {
        let line = record_line(&records[i]);
        push_all(&mut t, &line);
        i += 1;
        proof {
            let tk = rv.take(i as int);
            assert(tk.drop_last() =~= rv.take(i - 1));
            assert(tk.last() == rv[i - 1]);
            assert(t@ =~= save_text_of(tk));
        }
    }
    assert(rv.take(i as int) =~= rv);
    t
}

/// The records an entity list contributes to a save: every entity with a
/// kind other than the player, with its rectangle.
pub open spec fn entity_records<R>(es: Seq<(Option<PlaceMode>, R)>) -> Seq<(PlaceMode, R)>
    decreases es.len(),
{
    if es.len() == 0 {
        seq![]
    } else {
        let rest = entity_records(es.drop_last());
        match es.last().0 {
            Some(t) => if t == PlaceMode::SpawnPlayer {
                rest
            } else {
                rest.push((t, es.last().1))
            },
            None => rest,
        }
    }
}

/// Rectangles tagged with a place mode.
pub open spec fn tagged<R>(mode: PlaceMode, rs: Seq<R>) -> Seq<(PlaceMode, R)> {
    rs.map_values(|r: R| (mode, r))
}

fn push_tagged<R: Copy>(out: &mut Vec<(PlaceMode, R)>, mode: PlaceMode, rs: &Vec<R>)
    ensures
        final(out)@ == old(out)@ + tagged(mode, rs@),
{
    let mut i: usize = 0;
    while i < rs.len()
        invariant
            0 <= i <= rs.len(),
            out@ == old(out)@ + tagged(mode, rs@.take(i as int)),
        decreases rs.len() - i,
    {
        out.push((mode, rs[i]));
        i += 1;
        assert(out@ =~= old(out)@ + tagged(mode, rs@.take(i as int)));
    }
    assert(rs@.take(i as int) =~= rs@);
}

/// Adds what a save writes to the editor's running record list: the
/// entities other than the player, then the wall hitboxes, the platforms
/// and the kill triggers. The list is never cleared between saves, so a
/// second save writes the first save's records again.
pub fn collect_records<R: Copy>(
    map_data: &mut Vec<(PlaceMode, R)>,
    entities: &Vec<(Option<PlaceMode>, R)>,
    hitboxes: &Vec<R>,
    platforms: &Vec<R>,
    triggers: &Vec<R>,
)
    ensures
        final(map_data)@ == old(map_data)@ + entity_records(entities@) + tagged(
            PlaceMode::Hitbox,
            hitboxes@,
        ) + tagged(PlaceMode::Platform, platforms@) + tagged(PlaceMode::KillTrigger, triggers@),
{
    let mut i: usize = 0;
    while i < entities.len()
        invariant
            0 <= i <= entities.len(),
            map_data@ == old(map_data)@ + entity_records(entities@.take(i as int)),
        decreases entities.len() - i,
    {
        let (kind, rect) = entities[i];
        assert(entities@.take(i + 1).drop_last() =~= entities@.take(i as int));
        match kind {
            Some(t) => {
                if t != PlaceMode::SpawnPlayer {
                    map_data.push((t, rect));
                }
            },
            None => {},
        }
        i += 1;
        assert(map_data@ =~= old(map_data)@ + entity_records(entities@.take(i as int)));
    }
    assert(entities@.take(i as int) =~= entities@);
    push_tagged(map_data, PlaceMode::Hitbox, hitboxes);
    push_tagged(map_data, PlaceMode::Platform, platforms);
    push_tagged(map_data, PlaceMode::KillTrigger, triggers);
}


/// A field that can be written into a record: no space, line feed or
/// carriage return.
pub open spec fn clean_field(f: Seq<char>) -> bool {
    free_of(f, ' ') && free_of(f, '\n') && free_of(f, '\r')
}

/// Records with four clean fields each.
pub open spec fn clean_records(rs: Seq<(PlaceMode, Seq<Seq<char>>)>) -> bool {
    forall|i: int|
        0 <= i < rs.len() ==> {
            &&& (#[trigger] rs[i]).1.len() == 4
            &&& forall|j: int| 0 <= j < 4 ==> clean_field(rs[i].1[j])
        }
}

/// What a record of the given place mode comes back as: walls, platforms,
/// kill triggers, the player, goblins, the boss and soap are read back;
/// removal marks, plain triggers, lasers and projectiles are passed over.
pub open spec fn mode_load_kind(m: PlaceMode) -> Option<LoadKind> {
    match m {
        PlaceMode::Platform => Some(LoadKind::Platform),
        PlaceMode::Hitbox => Some(LoadKind::Hitbox),
        PlaceMode::SpawnPlayer => Some(LoadKind::SpawnPlayer),
        PlaceMode::SpawnGoblin => Some(LoadKind::SpawnGoblin),
        PlaceMode::SpawnGobloronBoss => Some(LoadKind::SpawnGobloronBoss),
        PlaceMode::Dawn => Some(LoadKind::Dawn),
        PlaceMode::KillTrigger => Some(LoadKind::KillTrigger),
        _ => None,
    }
}

/// The records from `i` on that come back from a save, in order.
pub open spec fn expected_from(rs: Seq<(PlaceMode, Seq<Seq<char>>)>, i: int) -> Seq<
    (LoadKind, Seq<Seq<char>>),
>
    decreases rs.len() - i,
{
    if i < 0 || i >= rs.len() {
        seq![]
    } else {
        match mode_load_kind(rs[i].0) {
            Some(k) => seq![(k, rs[i].1)] + expected_from(rs, i + 1),
            None => expected_from(rs, i + 1),
        }
    }
}

/// Every kind name is a clean, non-empty field.
pub proof fn lemma_mode_name_clean(m: PlaceMode)
    ensures
        clean_field(mode_name(m)),
        mode_name(m).len() > 0,
{
}

/// The name a place mode is written under reads back as the kind that
/// `mode_load_kind` gives it, for both loaders.
pub proof fn lemma_name_reads_back(m: PlaceMode, loader: Loader)
    ensures
        load_kind(mode_name(m), loader) == mode_load_kind(m),
{
    assert(mode_name(m) != cheese_trigger_name()) by {
        if mode_name(m).len() == cheese_trigger_name().len() {
            assert(mode_name(m)[0] != cheese_trigger_name()[0]);
        }
    }
    match m {
        PlaceMode::SpawnPlayer => {},
        PlaceMode::SpawnGoblin => {
            assert(mode_name(m)[5] != mode_name(PlaceMode::SpawnPlayer)[5]);
        },
        PlaceMode::SpawnGobloronBoss => {},
        PlaceMode::Platform => {
            assert(mode_name(m)[0] != mode_name(PlaceMode::SpawnPlayer)[0]);
            assert(mode_name(m)[0] != mode_name(PlaceMode::SpawnGoblin)[0]);
        },
        PlaceMode::Hitbox => {},
        PlaceMode::Dawn => {},
        PlaceMode::KillTrigger => {
            assert(mode_name(m)[0] != mode_name(PlaceMode::SpawnPlayer)[0]);
            assert(mode_name(m)[0] != mode_name(PlaceMode::SpawnGoblin)[0]);
        },
        PlaceMode::Remove => {},
        PlaceMode::Trigger => {},
        PlaceMode::Laser => {},
        PlaceMode::Projectile => {
            assert(mode_name(m)[0] != mode_name(PlaceMode::SpawnPlayer)[0]);
            assert(mode_name(m)[0] != mode_name(PlaceMode::SpawnGoblin)[0]);
            assert(mode_name(m)[0] != mode_name(PlaceMode::KillTrigger)[0]);
        },
    }
}


/// The lines (without line feeds) a list of records is written as.
pub open spec fn bodies(rs: Seq<(PlaceMode, Seq<Seq<char>>)>) -> Seq<Seq<char>> {
    rs.map_values(|r: (PlaceMode, Seq<Seq<char>>)| record_body(r.0, r.1))
}

proof fn lemma_save_front(rs: Seq<(PlaceMode, Seq<Seq<char>>)>)
    requires
        rs.len() > 0,
    ensures
        save_text_of(rs) == record_body(rs[0].0, rs[0].1) + seq!['\n'] + save_text_of(rs.drop_first()),
    decreases rs.len(),
{
    if rs.len() == 1 {
        assert(rs.drop_last() =~= Seq::<(PlaceMode, Seq<Seq<char>>)>::empty());
        assert(rs.drop_first() =~= Seq::<(PlaceMode, Seq<Seq<char>>)>::empty());
        assert(save_text_of(rs.drop_last()) == Seq::<char>::empty());
        assert(save_text_of(rs.drop_first()) == Seq::<char>::empty());
        assert(rs.last() == rs[0]);
        assert(save_text_of(rs) =~= record_body(rs[0].0, rs[0].1) + seq!['\n']);
    } else {
        let d = rs.drop_last();
        lemma_save_front(d);
        assert(d.drop_first() =~= rs.drop_first().drop_last());
        assert(rs.drop_first().last() == rs.last());
        let l0 = record_body(rs[0].0, rs[0].1) + seq!['\n'];
        let ll = record_body(rs.last().0, rs.last().1) + seq!['\n'];
        assert(save_text_of(rs) =~= save_text_of(d) + ll);
        assert(save_text_of(rs.drop_first()) =~= save_text_of(d.drop_first()) + ll);
        assert(save_text_of(rs) =~= l0 + save_text_of(rs.drop_first()));
    }
}

proof fn lemma_body_clean(m: PlaceMode, fs: Seq<Seq<char>>)
    requires
        fs.len() == 4,
        forall|j: int| 0 <= j < 4 ==> clean_field(fs[j]),
    ensures
        free_of(record_body(m, fs), '\n'),
        free_of(record_body(m, fs), '\r'),
        record_body(m, fs).len() > 0,
        split_on(record_body(m, fs), ' ') == seq![mode_name(m)] + fs,
{
    lemma_mode_name_clean(m);
    let b = record_body(m, fs);
    assert(clean_field(fs[0]) && clean_field(fs[1]) && clean_field(fs[2]) && clean_field(fs[3]));
    assert forall|i: int| 0 <= i < b.len() implies b[i] != '\n' && b[i] != '\r' by {
        let n = mode_name(m).len() as int;
        let a0 = n + 1;
        let a1 = a0 + fs[0].len() + 1;
        let a2 = a1 + fs[1].len() + 1;
        let a3 = a2 + fs[2].len() + 1;
        if i < n {
            assert(b[i] == mode_name(m)[i]);
        } else if i < a0 {
        } else if i < a0 + fs[0].len() {
            assert(b[i] == fs[0][i - a0]);
        } else if i < a1 {
        } else if i < a1 + fs[1].len() {
            assert(b[i] == fs[1][i - a1]);
        } else if i < a2 {
        } else if i < a2 + fs[2].len() {
            assert(b[i] == fs[2][i - a2]);
        } else if i < a3 {
        } else {
            assert(b[i] == fs[3][i - a3]);
        }
    }
    let r3 = fs[3];
    let r2 = fs[2] + seq![' '] + r3;
    let r1 = fs[1] + seq![' '] + r2;
    let r0 = fs[0] + seq![' '] + r1;
    assert(b =~= mode_name(m) + seq![' '] + r0);
    lemma_split_piece(mode_name(m), ' ', r0);
    lemma_split_piece(fs[0], ' ', r1);
    lemma_split_piece(fs[1], ' ', r2);
    lemma_split_piece(fs[2], ' ', r3);
    lemma_split_piece(fs[3], ' ', r3);
    assert(seq![mode_name(m)] + (seq![fs[0]] + (seq![fs[1]] + (seq![fs[2]] + seq![fs[3]])))
        =~= seq![mode_name(m)] + fs);
}

proof fn lemma_split_save(rs: Seq<(PlaceMode, Seq<Seq<char>>)>)
    requires
        clean_records(rs),
    ensures
        split_on(save_text_of(rs), '\n') == bodies(rs) + seq![Seq::<char>::empty()],
    decreases rs.len(),
{
    if rs.len() == 0 {
        assert(bodies(rs) + seq![Seq::<char>::empty()] =~= seq![Seq::<char>::empty()]);
    } else {
        let rest = rs.drop_first();
        assert(clean_records(rest)) by {
            assert forall|i: int| 0 <= i < rest.len() implies {
                &&& (#[trigger] rest[i]).1.len() == 4
                &&& forall|j: int| 0 <= j < 4 ==> clean_field(rest[i].1[j])
            } by {
                assert(rest[i] == rs[i + 1]);
            }
        }
        lemma_split_save(rest);
        lemma_save_front(rs);
        assert(rs[0].1.len() == 4 && forall|j: int| 0 <= j < 4 ==> clean_field(rs[0].1[j]));
        lemma_body_clean(rs[0].0, rs[0].1);
        lemma_split_piece(record_body(rs[0].0, rs[0].1), '\n', save_text_of(rest));
        assert(bodies(rs) =~= seq![record_body(rs[0].0, rs[0].1)] + bodies(rest));
        assert(bodies(rs) + seq![Seq::<char>::empty()] =~= seq![record_body(rs[0].0, rs[0].1)] + (
        bodies(rest) + seq![Seq::<char>::empty()]));
    }
}

proof fn lemma_parse_bodies(rs: Seq<(PlaceMode, Seq<Seq<char>>)>, loader: Loader, i: int)
    requires
        clean_records(rs),
        0 <= i <= rs.len(),
    ensures
        parse_from(bodies(rs), loader, i) == Ok::<_, int>(expected_from(rs, i)),
    decreases rs.len() - i,
{
    if i < rs.len() {
        lemma_parse_bodies(rs, loader, i + 1);
        assert(rs[i].1.len() == 4 && forall|j: int| 0 <= j < 4 ==> clean_field(rs[i].1[j]));
        lemma_body_clean(rs[i].0, rs[i].1);
        lemma_name_reads_back(rs[i].0, loader);
        let f = split_on(bodies(rs)[i], ' ');
        assert(f == seq![mode_name(rs[i].0)] + rs[i].1);
        assert(f.subrange(1, 5) =~= rs[i].1);
    }
}

/// Saving a list of records and loading the text back gives, in order and
/// with their fields unchanged, the records whose mode the loader reads back
/// (see `mode_load_kind`), for both loaders, as long as no field holds a
/// space, a line feed or a carriage return.
pub proof fn lemma_save_then_load(rs: Seq<(PlaceMode, Seq<Seq<char>>)>, loader: Loader)
    requires
        clean_records(rs),
    ensures
        parse_map_spec(save_text_of(rs), loader) == Ok::<_, int>(expected_from(rs, 0)),
{
    lemma_split_save(rs);
    let p = split_on(save_text_of(rs), '\n');
    assert(p.drop_last() =~= bodies(rs));
    assert(p.last() =~= Seq::<char>::empty());
    assert forall|i: int| 0 <= i < bodies(rs).len() implies strip_cr(#[trigger] bodies(rs)[i]) == bodies(rs)[i] by {
        assert(rs[i].1.len() == 4 && forall|j: int| 0 <= j < 4 ==> clean_field(rs[i].1[j]));
        lemma_body_clean(rs[i].0, rs[i].1);
        let b = bodies(rs)[i];
        assert(b[b.len() - 1] != '\r');
    }
    assert(lines_of(save_text_of(rs)) =~= bodies(rs));
    lemma_parse_bodies(rs, loader, 0);
}


/// The player's record comes first and no other record is the player's.
pub open spec fn player_only_first<R>(rs: Seq<(PlaceMode, R)>) -> bool {
    &&& rs.len() > 0
    &&& rs[0].0 == PlaceMode::SpawnPlayer
    &&& forall|k: int| 1 <= k < rs.len() ==> (#[trigger] rs[k]).0 != PlaceMode::SpawnPlayer
}

proof fn lemma_entity_records_skip_player<R>(es: Seq<(Option<PlaceMode>, R)>)
    ensures
        forall|k: int|
            0 <= k < entity_records(es).len() ==> (#[trigger] entity_records(es)[k]).0
                != PlaceMode::SpawnPlayer,
    decreases es.len(),
{
    if es.len() > 0 {
        lemma_entity_records_skip_player(es.drop_last());
    }
}

/// A save keeps the player's record first and alone: the editor's record
/// list starts with the player's record, and what a save adds (entities
/// other than the player, walls, platforms, kill triggers) holds no other.
pub proof fn lemma_save_keeps_player_first<R>(
    map_data: Seq<(PlaceMode, R)>,
    entities: Seq<(Option<PlaceMode>, R)>,
    hitboxes: Seq<R>,
    platforms: Seq<R>,
    triggers: Seq<R>,
)
    requires
        player_only_first(map_data),
    ensures
        player_only_first(
            map_data + entity_records(entities) + tagged(PlaceMode::Hitbox, hitboxes) + tagged(
                PlaceMode::Platform,
                platforms,
            ) + tagged(PlaceMode::KillTrigger, triggers),
        ),
{
    lemma_entity_records_skip_player(entities);
    let er = entity_records(entities);
    let th = tagged(PlaceMode::Hitbox, hitboxes);
    let tp = tagged(PlaceMode::Platform, platforms);
    let tt = tagged(PlaceMode::KillTrigger, triggers);
    let all = map_data + er + th + tp + tt;
    assert forall|k: int| 1 <= k < all.len() implies (#[trigger] all[k]).0 != PlaceMode::SpawnPlayer by {
        let a = map_data.len() as int;
        let b = a + er.len();
        let c = b + th.len();
        let d = c + tp.len();
        if k < a {
            assert(all[k] == map_data[k]);
        } else if k < b {
            assert(all[k] == er[k - a]);
        } else if k < c {
            assert(all[k] == th[k - b]);
        } else if k < d {
            assert(all[k] == tp[k - c]);
        } else {
            assert(all[k] == tt[k - d]);
        }
    }
    assert(all[0] == map_data[0]);
}

proof fn lemma_expected_skip_player(rs: Seq<(PlaceMode, Seq<Seq<char>>)>, i: int)
    requires
        0 <= i <= rs.len(),
        forall|j: int| i <= j < rs.len() ==> (#[trigger] rs[j]).0 != PlaceMode::SpawnPlayer,
    ensures
        forall|k: int|
            0 <= k < expected_from(rs, i).len() ==> (#[trigger] expected_from(rs, i)[k]).0
                != LoadKind::SpawnPlayer,
    decreases rs.len() - i,
{
    if i < rs.len() {
        lemma_expected_skip_player(rs, i + 1);
        let rest = expected_from(rs, i + 1);
        assert(rs[i].0 != PlaceMode::SpawnPlayer);
        match mode_load_kind(rs[i].0) {
            Some(kk) => {
                assert forall|k: int| 0 <= k < expected_from(rs, i).len() implies (
                #[trigger] expected_from(rs, i)[k]).0 != LoadKind::SpawnPlayer by {
                    if k > 0 {
                        assert(expected_from(rs, i)[k] == rest[k - 1]);
                    }
                }
            },
            None => {},
        }
    }
}

/// A saved map loads with the player first and only once: when the saved
/// records hold the player's record first and alone (and their fields are
/// clean), the first record read back places the player at the saved
/// position and no later record places another.
pub proof fn lemma_saved_player_loads_first(rs: Seq<(PlaceMode, Seq<Seq<char>>)>, loader: Loader)
    requires
        clean_records(rs),
        player_only_first(rs),
    ensures
        parse_map_spec(save_text_of(rs), loader) matches Ok(v) && v.len() > 0 && v[0] == (
            LoadKind::SpawnPlayer,
            rs[0].1,
        ) && forall|k: int| 1 <= k < v.len() ==> (#[trigger] v[k]).0 != LoadKind::SpawnPlayer,
{
    lemma_save_then_load(rs, loader);
    lemma_expected_skip_player(rs, 1);
    let v = expected_from(rs, 0);
    let rest = expected_from(rs, 1);
    assert(v == seq![(LoadKind::SpawnPlayer, rs[0].1)] + rest);
    assert forall|k: int| 1 <= k < v.len() implies (#[trigger] v[k]).0 != LoadKind::SpawnPlayer by {
        assert(v[k] == rest[k - 1]);
    }
}

/// Whether a placed entity is written to a save: it has a kind, and is not
/// the player (whose record is kept first by the editor).
pub open spec fn saved_entity<R>(e: (Option<PlaceMode>, R)) -> bool {
    e.0 is Some && e.0 != Some(PlaceMode::SpawnPlayer)
}

/// The record of a saved entity: its kind and its rectangle.
pub open spec fn entity_record<R>(e: (Option<PlaceMode>, R)) -> (PlaceMode, R) {
    (e.0.unwrap(), e.1)
}

/// A save writes one record for every entity that has a kind other than the
/// player's, the boss included, with that kind and the entity's rectangle,
/// in the entities' order, and nothing else.
pub proof fn lemma_save_writes_every_entity<R>(es: Seq<(Option<PlaceMode>, R)>)
    ensures
        entity_records(es) == es.filter(|e: (Option<PlaceMode>, R)| saved_entity(e)).map_values(
            |e: (Option<PlaceMode>, R)| entity_record(e),
        ),
    decreases es.len(),
{
    reveal(Seq::filter);
    let p = |e: (Option<PlaceMode>, R)| saved_entity(e);
    let f = |e: (Option<PlaceMode>, R)| entity_record(e);
    if es.len() == 0 {
        assert(es.filter(p) =~= Seq::<(Option<PlaceMode>, R)>::empty());
        assert(es.filter(p).map_values(f) =~= Seq::<(PlaceMode, R)>::empty());
    } else {
        lemma_save_writes_every_entity(es.drop_last());
        let sub = es.drop_last().filter(p);
        if p(es.last()) {
            assert(es.filter(p) == sub.push(es.last()));
            assert(sub.push(es.last()).map_values(f) =~= sub.map_values(f).push(f(es.last())));
        } else {
            assert(es.filter(p) == sub);
        }
    }
}

} // verus!
