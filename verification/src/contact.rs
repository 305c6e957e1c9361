//! Contact scans: each entity looks at the others once per frame and may
//! raise an event. Whether two entities touch is geometry and comes in as one
//! flag per entity; the scan decides which entity counts and what is raised.

use crate::event::EventType;
use crate::map_edit::PlaceMode;
use vstd::prelude::*;

verus! {

/// An event raised on account of the entity at `index`.
#[derive(Clone, Copy, Debug, PartialEq, Eq)]
pub struct Contact {
    pub index: usize,
    pub event: EventType,
}

/// Who is looking.
#[derive(Clone, Copy, Debug, PartialEq, Eq)]
pub enum Watcher {
    /// The player: soap is picked up, goblins and lasers hurt.
    Player,
    /// A fart cloud: goblins and the boss get damaged.
    Fart,
}

/// What the watcher raises on touching an entity of the given kind.
pub open spec fn reaction(w: Watcher, kind: Option<PlaceMode>) -> Option<EventType> {
    match w {
        Watcher::Player => match kind {
            Some(PlaceMode::Dawn) => Some(EventType::Pickup),
            Some(PlaceMode::SpawnGoblin) => Some(EventType::KillPlayer),
            Some(PlaceMode::Laser) => Some(EventType::KillPlayer),
            _ => None,
        },
        Watcher::Fart => match kind {
            Some(PlaceMode::SpawnGoblin) => Some(EventType::Damage),
            Some(PlaceMode::SpawnGobloronBoss) => Some(EventType::Damage),
            _ => None,
        },
    }
}

fn reaction_of(w: Watcher, kind: Option<PlaceMode>) -> (r: Option<EventType>)
    ensures
        r == reaction(w, kind),
{
    match w {
        Watcher::Player => match kind {
            Some(PlaceMode::Dawn) => Some(EventType::Pickup),
            Some(PlaceMode::SpawnGoblin) => Some(EventType::KillPlayer),
            Some(PlaceMode::Laser) => Some(EventType::KillPlayer),
            _ => None,
        },
        Watcher::Fart => match kind {
            Some(PlaceMode::SpawnGoblin) => Some(EventType::Damage),
            Some(PlaceMode::SpawnGobloronBoss) => Some(EventType::Damage),
            _ => None,
        },
    }
}

/// The first entity from `i` on that the watcher touches and reacts to, with
/// its reaction.
pub open spec fn first_contact_from(
    w: Watcher,
    kinds: Seq<Option<PlaceMode>>,
    touching: Seq<bool>,
    i: int,
) -> Option<Contact>
    decreases kinds.len() - i,
{
    if i < 0 || i >= kinds.len() {
        None
    } else if touching[i] && reaction(w, kinds[i]) is Some {
        Some(Contact { index: i as usize, event: reaction(w, kinds[i]).unwrap() })
    } else {
        first_contact_from(w, kinds, touching, i + 1)
    }
}

/// The first entity, in order, that the watcher touches and reacts to.
/// `kinds[i]` is the kind of entity `i` and `touching[i]` whether the
/// watcher touches it.
pub fn first_contact(w: Watcher, kinds: &Vec<Option<PlaceMode>>, touching: &Vec<bool>) -> (r: Option<
    Contact,
>)
    requires
        kinds.len() == touching.len(),
    ensures
        r == first_contact_from(w, kinds@, touching@, 0),
{
    let mut i: usize = 0;
    while i < kinds.len()
        invariant
            kinds.len() == touching.len(),
            0 <= i <= kinds.len(),
            first_contact_from(w, kinds@, touching@, 0) == first_contact_from(
                w,
                kinds@,
                touching@,
                i as int,
            ),
        decreases kinds.len() - i,
    {
        let react = reaction_of(w, kinds[i]);
        if touching[i] {
            if let Some(e) = react {
                return Some(Contact { index: i, event: e });
            }
        }
        i += 1;
    }
    None
}

/// The player's look at the other entities: the first soap bottle, goblin or
/// laser it touches raises a pickup (soap) or a hit (goblin, laser); the
/// player itself and other kinds are passed over. For a laser, `touching`
/// says whether the laser's beam point at the player's distance lies in the
/// player's hitbox.
pub fn player_give_data(kinds: &Vec<Option<PlaceMode>>, touching: &Vec<bool>) -> (r: Option<
    Contact,
>)
    requires
        kinds.len() == touching.len(),
    ensures
        r == first_contact_from(Watcher::Player, kinds@, touching@, 0),
{
    first_contact(Watcher::Player, kinds, touching)
}

/// A fart cloud's look at the other entities: a dead cloud raises nothing; a
/// live one raises damage (over its own hitbox) on touching a goblin or the
/// boss.
pub fn fart_give_data(dead: bool, kinds: &Vec<Option<PlaceMode>>, touching: &Vec<bool>) -> (r:
    Option<Contact>)
    requires
        kinds.len() == touching.len(),
    ensures
        r == (if dead {
            None
        } else {
            first_contact_from(Watcher::Fart, kinds@, touching@, 0)
        }),
{
    if dead {
        return None;
    }
    first_contact(Watcher::Fart, kinds, touching)
}

/// A goblin's scan from `i` on, with `acc` the sighting kept so far: the
/// first laser that hits it raises damage at once; otherwise the last player
/// within its detection radius is spotted.
pub open spec fn enemy_scan_from(
    kinds: Seq<Option<PlaceMode>>,
    touching: Seq<bool>,
    i: int,
    acc: Option<Contact>,
) -> Option<Contact>
    decreases kinds.len() - i,
{
    if i < 0 || i >= kinds.len() {
        acc
    } else {
        match kinds[i] {
            Some(PlaceMode::SpawnPlayer) => enemy_scan_from(
                kinds,
                touching,
                i + 1,
                if touching[i] {
                    Some(Contact { index: i as usize, event: EventType::PlayerSpotted })
                } else {
                    acc
                },
            ),
            Some(PlaceMode::Laser) => if touching[i] {
                Some(Contact { index: i as usize, event: EventType::Damage })
            } else {
                enemy_scan_from(kinds, touching, i + 1, acc)
            },
            _ => enemy_scan_from(kinds, touching, i + 1, acc),
        }
    }
}

/// A goblin's look at the other entities. For a player, `touching` says
/// whether it is within the detection radius; for a laser, whether the beam
/// hits the goblin. A hitting laser raises damage (the caller places a small
/// rectangle at the beam point); otherwise the last player in range is
/// spotted.
pub fn enemy_give_data(kinds: &Vec<Option<PlaceMode>>, touching: &Vec<bool>) -> (r: Option<Contact>)
    requires
        kinds.len() == touching.len(),
    ensures
        r == enemy_scan_from(kinds@, touching@, 0, None),
{
    let mut r_event: Option<Contact> = None;
    let mut i: usize = 0;
    while i < kinds.len()
        invariant
            kinds.len() == touching.len(),
            0 <= i <= kinds.len(),
            enemy_scan_from(kinds@, touching@, 0, None) == enemy_scan_from(
                kinds@,
                touching@,
                i as int,
                r_event,
            ),
        decreases kinds.len() - i,
    {
        match kinds[i] {
            Some(PlaceMode::SpawnPlayer) => {
                if touching[i] {
                    r_event = Some(Contact { index: i, event: EventType::PlayerSpotted });
                }
            },
            Some(PlaceMode::Laser) => {
                if touching[i] {
                    return Some(Contact { index: i, event: EventType::Damage });
                }
            },
            _ => {},
        }
        i += 1;
    }
    r_event
}

/// The player never reacts to itself, and a soap bottle it touches before
/// anything else is picked up: whatever the player raises concerns an entity
/// that is not a player, and the first touched reacting entity decides.
pub proof fn lemma_player_contact_is_first(kinds: Seq<Option<PlaceMode>>, touching: Seq<bool>, i: int)
    requires
        kinds.len() == touching.len(),
        kinds.len() <= usize::MAX,
        0 <= i <= kinds.len(),
    ensures
        first_contact_from(Watcher::Player, kinds, touching, i) matches Some(c) ==> {
            &&& i <= c.index < kinds.len()
            &&& kinds[c.index as int] != Some(PlaceMode::SpawnPlayer)
            &&& touching[c.index as int]
            &&& forall|j: int|
                i <= j < c.index ==> !(touching[j] && #[trigger] reaction(
                    Watcher::Player,
                    kinds[j],
                ) is Some)
        },
        first_contact_from(Watcher::Player, kinds, touching, i) is None ==> forall|j: int|
            i <= j < kinds.len() ==> !(touching[j] && #[trigger] reaction(Watcher::Player, kinds[j])
                is Some),
    decreases kinds.len() - i,
{
    if i < kinds.len() {
        assert(touching[i] && reaction(Watcher::Player, kinds[i]) is Some
            || !(touching[i] && reaction(Watcher::Player, kinds[i]) is Some));
        lemma_player_contact_is_first(kinds, touching, i + 1);
    }
}

/// The event a contact raises, if any.
pub open spec fn contact_event(c: Option<Contact>) -> Option<EventType> {
    match c {
        Some(c) => Some(c.event),
        None => None,
    }
}

proof fn lemma_player_inserted_after(
    w: Watcher,
    kinds: Seq<Option<PlaceMode>>,
    touching: Seq<bool>,
    p: int,
    b: bool,
    i: int,
)
    requires
        kinds.len() == touching.len(),
        0 <= p <= kinds.len(),
        p < i <= kinds.len() + 1,
    ensures
        contact_event(
            first_contact_from(w, kinds.insert(p, Some(PlaceMode::SpawnPlayer)), touching.insert(p, b), i),
        ) == contact_event(first_contact_from(w, kinds, touching, i - 1)),
    decreases kinds.len() + 1 - i,
{
    let k2 = kinds.insert(p, Some(PlaceMode::SpawnPlayer));
    let t2 = touching.insert(p, b);
    if i < k2.len() {
        assert(k2[i] == kinds[i - 1]);
        assert(t2[i] == touching[i - 1]);
        lemma_player_inserted_after(w, kinds, touching, p, b, i + 1);
    }
}

proof fn lemma_player_inserted_before(
    w: Watcher,
    kinds: Seq<Option<PlaceMode>>,
    touching: Seq<bool>,
    p: int,
    b: bool,
    i: int,
)
    requires
        kinds.len() == touching.len(),
        0 <= i <= p <= kinds.len(),
    ensures
        contact_event(
            first_contact_from(w, kinds.insert(p, Some(PlaceMode::SpawnPlayer)), touching.insert(p, b), i),
        ) == contact_event(first_contact_from(w, kinds, touching, i)),
    decreases p - i,
{
    let k2 = kinds.insert(p, Some(PlaceMode::SpawnPlayer));
    let t2 = touching.insert(p, b);
    if i == p {
        assert(k2[p] == Some(PlaceMode::SpawnPlayer));
        lemma_player_inserted_after(w, kinds, touching, p, b, p + 1);
    } else {
        assert(k2[i] == kinds[i]);
        assert(t2[i] == touching[i]);
        lemma_player_inserted_before(w, kinds, touching, p, b, i + 1);
    }
}

/// Players never count in a look: inserting a player entity anywhere in the
/// list (or, read the other way, removing one), touched or not, leaves what
/// the player's look, or a fart cloud's, raises unchanged.
pub proof fn lemma_players_do_not_count(
    w: Watcher,
    kinds: Seq<Option<PlaceMode>>,
    touching: Seq<bool>,
    p: int,
    b: bool,
)
    requires
        kinds.len() == touching.len(),
        0 <= p <= kinds.len(),
    ensures
        contact_event(
            first_contact_from(w, kinds.insert(p, Some(PlaceMode::SpawnPlayer)), touching.insert(p, b), 0),
        ) == contact_event(first_contact_from(w, kinds, touching, 0)),
{
    lemma_player_inserted_before(w, kinds, touching, p, b, 0);
}

/// The kinds a fart cloud damages: goblins and the boss.
pub open spec fn fart_target(k: Option<PlaceMode>) -> bool {
    k == Some(PlaceMode::SpawnGoblin) || k == Some(PlaceMode::SpawnGobloronBoss)
}

/// The kinds the player reacts to: soap, goblins and lasers.
pub open spec fn player_target(k: Option<PlaceMode>) -> bool {
    k == Some(PlaceMode::Dawn) || k == Some(PlaceMode::SpawnGoblin) || k == Some(PlaceMode::Laser)
}

/// A live fart cloud damages the first goblin or boss it touches, and
/// raises nothing when it touches none: for the first position `j` from `i`
/// on holding a touched goblin or boss, the look raises damage on `j`.
pub proof fn lemma_fart_damages_first_target(kinds: Seq<Option<PlaceMode>>, touching: Seq<bool>, i: int, j: int)
    requires
        kinds.len() == touching.len(),
        kinds.len() <= usize::MAX,
        0 <= i <= kinds.len(),
    ensures
        i <= j < kinds.len() && touching[j] && fart_target(kinds[j]) && (forall|m: int|
            i <= m < j ==> !(#[trigger] touching[m] && fart_target(kinds[m])))
            ==> first_contact_from(Watcher::Fart, kinds, touching, i) == Some(
            (Contact { index: j as usize, event: EventType::Damage }),
        ),
        (forall|m: int| i <= m < kinds.len() ==> !(#[trigger] touching[m] && fart_target(kinds[m])))
            ==> first_contact_from(Watcher::Fart, kinds, touching, i) is None,
    decreases kinds.len() - i,
{
    if i < kinds.len() {
        if !(touching[i] && fart_target(kinds[i])) {
            lemma_fart_damages_first_target(kinds, touching, i + 1, j);
        }
    }
}

/// The player picks up the first soap bottle, or is hurt by the first
/// goblin or laser, that it touches, whichever comes first, and raises
/// nothing when it touches none of them.
pub proof fn lemma_player_reacts_to_first_target(
    kinds: Seq<Option<PlaceMode>>,
    touching: Seq<bool>,
    i: int,
    j: int,
)
    requires
        kinds.len() == touching.len(),
        kinds.len() <= usize::MAX,
        0 <= i <= kinds.len(),
    ensures
        i <= j < kinds.len() && touching[j] && player_target(kinds[j]) && (forall|m: int|
            i <= m < j ==> !(#[trigger] touching[m] && player_target(kinds[m])))
            ==> first_contact_from(Watcher::Player, kinds, touching, i) == Some(
            (Contact {
                index: j as usize,
                event: if kinds[j] == Some(PlaceMode::Dawn) {
                    EventType::Pickup
                } else {
                    EventType::KillPlayer
                },
            }),
        ),
        (forall|m: int| i <= m < kinds.len() ==> !(#[trigger] touching[m] && player_target(kinds[m])))
            ==> first_contact_from(Watcher::Player, kinds, touching, i) is None,
    decreases kinds.len() - i,
{
    if i < kinds.len() {
        if !(touching[i] && player_target(kinds[i])) {
            lemma_player_reacts_to_first_target(kinds, touching, i + 1, j);
        }
    }
}

} // verus!
