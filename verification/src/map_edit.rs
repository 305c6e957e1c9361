//! The kinds of things a map holds and the level editor's input rules: the
//! place mode chosen by the number keys, the two-click placement of
//! rectangles and the click cooldown.

use crate::frame::{keep_unflagged, lemma_keep_unflagged_first};
use crate::map_data::{entity_records, lemma_save_keeps_player_first, player_only_first, tagged};
use vstd::prelude::*;

verus! {

/// What the editor places, and the kind tag of entities and map records.
#[derive(Clone, Copy, PartialEq, Eq, Structural, Debug)]
pub enum PlaceMode {
    Platform,
    Hitbox,
    Remove,
    SpawnPlayer,
    SpawnGoblin,
    SpawnGobloronBoss,
    Dawn,
    Trigger,
    Laser,
    KillTrigger,
    Projectile,
}


/// The editor keys pressed in a frame.
#[derive(Clone, Copy, Debug, PartialEq, Eq)]
pub struct ModeKeys {
    pub key1: bool,
    pub key2: bool,
    pub key3: bool,
    pub key4: bool,
    pub key5: bool,
    pub key6: bool,
    pub key7: bool,
    pub space: bool,
}

/// The place mode after the keys of a frame, and whether to center the
/// camera on the player. The number keys choose, in this order of priority:
/// platform, hitbox, remove, player, goblin, soap, kill trigger; space
/// (counted only when no number key is pressed) centers the camera.
pub open spec fn mode_after_keys(current: PlaceMode, k: ModeKeys) -> (PlaceMode, bool) {
    if k.key1 {
        (PlaceMode::Platform, false)
    } else if k.key2 {
        (PlaceMode::Hitbox, false)
    } else if k.key3 {
        (PlaceMode::Remove, false)
    } else if k.key4 {
        (PlaceMode::SpawnPlayer, false)
    } else if k.key5 {
        (PlaceMode::SpawnGoblin, false)
    } else if k.key6 {
        (PlaceMode::Dawn, false)
    } else if k.key7 {
        (PlaceMode::KillTrigger, false)
    } else {
        (current, k.space)
    }
}

/// The place mode after the keys of a frame (see `mode_after_keys`).
pub fn select_mode(current: PlaceMode, k: ModeKeys) -> (r: (PlaceMode, bool))
    ensures
        r == mode_after_keys(current, k),
        k.key1 ==> r == (PlaceMode::Platform, false),
        !k.key1 && k.key2 ==> r == (PlaceMode::Hitbox, false),
        !k.key1 && !k.key2 && k.key3 ==> r == (PlaceMode::Remove, false),
        !k.key1 && !k.key2 && !k.key3 && k.key4 ==> r == (PlaceMode::SpawnPlayer, false),
        !k.key1 && !k.key2 && !k.key3 && !k.key4 && k.key5 ==> r == (PlaceMode::SpawnGoblin, false),
        !k.key1 && !k.key2 && !k.key3 && !k.key4 && !k.key5 && k.key6 ==> r == (PlaceMode::Dawn, false),
        !k.key1 && !k.key2 && !k.key3 && !k.key4 && !k.key5 && !k.key6 && k.key7 ==> r == (
            PlaceMode::KillTrigger,
            false,
        ),
        !k.key1 && !k.key2 && !k.key3 && !k.key4 && !k.key5 && !k.key6 && !k.key7 ==> r == (
            current,
            k.space,
        ),
{
    if k.key1 {
        (PlaceMode::Platform, false)
    } else if k.key2 {
        (PlaceMode::Hitbox, false)
    } else if k.key3 {
        (PlaceMode::Remove, false)
    } else if k.key4 {
        (PlaceMode::SpawnPlayer, false)
    } else if k.key5 {
        (PlaceMode::SpawnGoblin, false)
    } else if k.key6 {
        (PlaceMode::Dawn, false)
    } else if k.key7 {
        (PlaceMode::KillTrigger, false)
    } else {
        (current, k.space)
    }
}

/// What the editor does with the mouse in a frame.
#[derive(Clone, Copy, Debug, PartialEq, Eq)]
pub struct MouseGate {
    /// Carry out a click in the current mode.
    pub click: bool,
    /// Pan the camera by the mouse's horizontal movement.
    pub pan: bool,
    /// Whether mouse input counts in the next frame.
    pub ready: bool,
}

/// The mouse cooldown: after a frame with a click or a pan, the next frame
/// ignores the mouse, so that one press does not act twice.
pub open spec fn gate(ready: bool, left_pressed: bool, middle_down: bool) -> MouseGate {
    if ready {
        MouseGate { click: left_pressed, pan: middle_down, ready: !(left_pressed || middle_down) }
    } else {
        MouseGate { click: false, pan: false, ready: true }
    }
}

/// What the editor does with the mouse this frame (see `gate`).
pub fn mouse_gate(ready: bool, left_pressed: bool, middle_down: bool) -> (g: MouseGate)
    ensures
        g == gate(ready, left_pressed, middle_down),
{
    if ready {
        MouseGate { click: left_pressed, pan: middle_down, ready: !(left_pressed || middle_down) }
    } else {
        MouseGate { click: false, pan: false, ready: true }
    }
}

/// What a click does in a place mode.
#[derive(Clone, Copy, Debug, PartialEq, Eq)]
pub enum ClickAction {
    /// Mark a corner; the second corner adds a platform (32 high).
    PlacePlatform,
    /// Mark a corner; the second corner adds a wall hitbox with a platform
    /// on its top.
    PlaceHitbox,
    /// Mark a corner; the second corner adds a kill trigger.
    PlaceKillTrigger,
    /// Remove everything under the cursor.
    RemoveUnderCursor,
    /// Move the player to the cursor.
    MovePlayer,
    /// Add a goblin at the cursor.
    AddGoblin,
    /// Add a soap bottle at the cursor.
    AddDawn,
    /// Nothing.
    Nothing,
}

/// What a click does in the given place mode.
pub open spec fn click_action_spec(m: PlaceMode) -> ClickAction {
    match m {
        PlaceMode::Platform => ClickAction::PlacePlatform,
        PlaceMode::Hitbox => ClickAction::PlaceHitbox,
        PlaceMode::KillTrigger => ClickAction::PlaceKillTrigger,
        PlaceMode::Remove => ClickAction::RemoveUnderCursor,
        PlaceMode::SpawnPlayer => ClickAction::MovePlayer,
        PlaceMode::SpawnGoblin => ClickAction::AddGoblin,
        PlaceMode::Dawn => ClickAction::AddDawn,
        _ => ClickAction::Nothing,
    }
}

/// What a click does in the given place mode (see `click_action_spec`).
pub fn click_action(m: PlaceMode) -> (a: ClickAction)
    ensures
        a == click_action_spec(m),
{
    match m {
        PlaceMode::Platform => ClickAction::PlacePlatform,
        PlaceMode::Hitbox => ClickAction::PlaceHitbox,
        PlaceMode::KillTrigger => ClickAction::PlaceKillTrigger,
        PlaceMode::Remove => ClickAction::RemoveUnderCursor,
        PlaceMode::SpawnPlayer => ClickAction::MovePlayer,
        PlaceMode::SpawnGoblin => ClickAction::AddGoblin,
        PlaceMode::Dawn => ClickAction::AddDawn,
        _ => ClickAction::Nothing,
    }
}

/// Two-click placement: the first click marks a corner, the second gives
/// both corners and clears the mark.
pub fn two_click<P: Copy>(last: &mut Option<P>, at: P) -> (corners: Option<(P, P)>)
    ensures
        match *old(last) {
            Some(first) => corners == Some((first, at)) && *final(last) == None::<P>,
            None => corners == None::<(P, P)> && *final(last) == Some(at),
        },
{
    match *last {
        Some(first) => {
            *last = None;
            Some((first, at))
        },
        None => {
            *last = Some(at);
            None
        },
    }
}

/// Puts `x` first: replaces the first element, or adds `x` to an empty list.
/// The player is always the first entity.
pub fn set_first<T>(v: &mut Vec<T>, x: T)
    ensures
        old(v)@.len() > 0 ==> final(v)@ == old(v)@.update(0, x),
        old(v)@.len() == 0 ==> final(v)@ == seq![x],
{
    if v.len() > 0 {
        v.set(0, x);
    } else {
        v.push(x);
        assert(v@ =~= seq![x]);
    }
}

/// The mouse never acts in two frames running: after a frame in which a
/// click or a pan was carried out, the next frame ignores the mouse whatever
/// is pressed, and the frame after that listens again.
pub proof fn lemma_mouse_rests_after_acting(
    ready: bool,
    left: bool,
    middle: bool,
    next_left: bool,
    next_middle: bool,
)
    ensures
        gate(ready, left, middle).click || gate(ready, left, middle).pan ==> {
            let g2 = gate(gate(ready, left, middle).ready, next_left, next_middle);
            &&& !g2.click
            &&& !g2.pan
            &&& g2.ready
        },
{
}

/// The entities a removal click takes: those under the cursor (`hit`),
/// except the player, who is always the first entity and is never removed.
pub open spec fn editor_removal(hit: Seq<bool>) -> Seq<bool> {
    Seq::new(hit.len(), |k: int| k != 0 && hit[k])
}

/// The entities a removal click takes (see `editor_removal`).
pub fn removal_flags(hit: &Vec<bool>) -> (flags: Vec<bool>)
    ensures
        flags@ == editor_removal(hit@),
{
    let mut flags: Vec<bool> = Vec::new();
    let mut k: usize = 0;
    while k < hit.len()
        invariant
            0 <= k <= hit.len(),
            flags@ == editor_removal(hit@).take(k as int),
        decreases hit.len() - k,
    {
        flags.push(k != 0 && hit[k]);
        k += 1;
        assert(flags@ =~= editor_removal(hit@).take(k as int));
    }
    assert(editor_removal(hit@).take(k as int) =~= editor_removal(hit@));
    flags
}

/// The player stays first through every editor frame. In the entity list
/// (`kinds`, the player first): a removal click keeps the player first, and
/// so do adding an entity at the end and moving the player. In the record
/// list (`records`, the player's record first and alone): moving the player
/// and saving (which adds the other entities, the walls, the platforms and
/// the kill triggers) keep the player's record first and alone; loading a
/// saved list back then places the player first and once
/// (`lemma_saved_player_loads_first`).
pub proof fn lemma_editor_keeps_player_first<R>(
    kinds: Seq<Option<PlaceMode>>,
    hit: Seq<bool>,
    added: Option<PlaceMode>,
    records: Seq<(PlaceMode, R)>,
    moved_to: R,
    entities: Seq<(Option<PlaceMode>, R)>,
    hitboxes: Seq<R>,
    platforms: Seq<R>,
    triggers: Seq<R>,
)
    requires
        kinds.len() > 0,
        kinds[0] == Some(PlaceMode::SpawnPlayer),
        hit.len() == kinds.len(),
        player_only_first(records),
    ensures
        keep_unflagged(kinds, editor_removal(hit)).len() > 0,
        keep_unflagged(kinds, editor_removal(hit))[0] == Some(PlaceMode::SpawnPlayer),
        kinds.push(added)[0] == Some(PlaceMode::SpawnPlayer),
        kinds.update(0, Some(PlaceMode::SpawnPlayer))[0] == Some(PlaceMode::SpawnPlayer),
        player_only_first(records.update(0, (PlaceMode::SpawnPlayer, moved_to))),
        player_only_first(
            records + entity_records(entities) + tagged(PlaceMode::Hitbox, hitboxes) + tagged(
                PlaceMode::Platform,
                platforms,
            ) + tagged(PlaceMode::KillTrigger, triggers),
        ),
{
    lemma_keep_unflagged_first(kinds, editor_removal(hit));
    lemma_save_keeps_player_first(records, entities, hitboxes, platforms, triggers);
    let m = records.update(0, (PlaceMode::SpawnPlayer, moved_to));
    assert forall|k: int| 1 <= k < m.len() implies (#[trigger] m[k]).0 != PlaceMode::SpawnPlayer by {
        assert(m[k] == records[k]);
    }
}

/// Each number key alone picks its own place mode, whatever the mode was:
/// 1 platforms, 2 walls, 3 removal, 4 the player, 5 goblins, 6 soap, 7 kill
/// triggers; no number key keeps the mode, and only then does space center
/// the camera.
pub proof fn lemma_number_keys(current: PlaceMode, space: bool)
    ensures
        mode_after_keys(
            current,
            (ModeKeys { key1: true, key2: false, key3: false, key4: false, key5: false, key6: false, key7: false, space }),
        ) == (PlaceMode::Platform, false),
        mode_after_keys(
            current,
            (ModeKeys { key1: false, key2: true, key3: false, key4: false, key5: false, key6: false, key7: false, space }),
        ) == (PlaceMode::Hitbox, false),
        mode_after_keys(
            current,
            (ModeKeys { key1: false, key2: false, key3: true, key4: false, key5: false, key6: false, key7: false, space }),
        ) == (PlaceMode::Remove, false),
        mode_after_keys(
            current,
            (ModeKeys { key1: false, key2: false, key3: false, key4: true, key5: false, key6: false, key7: false, space }),
        ) == (PlaceMode::SpawnPlayer, false),
        mode_after_keys(
            current,
            (ModeKeys { key1: false, key2: false, key3: false, key4: false, key5: true, key6: false, key7: false, space }),
        ) == (PlaceMode::SpawnGoblin, false),
        mode_after_keys(
            current,
            (ModeKeys { key1: false, key2: false, key3: false, key4: false, key5: false, key6: true, key7: false, space }),
        ) == (PlaceMode::Dawn, false),
        mode_after_keys(
            current,
            (ModeKeys { key1: false, key2: false, key3: false, key4: false, key5: false, key6: false, key7: true, space }),
        ) == (PlaceMode::KillTrigger, false),
        mode_after_keys(
            current,
            (ModeKeys { key1: false, key2: false, key3: false, key4: false, key5: false, key6: false, key7: false, space }),
        ) == (current, space),
{
}

} // verus!
