//! The per-frame bookkeeping of the game loop: handing the frame's events to
//! each entity in turn (fart clouds and lasers spawned once, goblins on every look),
//! finding and removing dead entities, and the screens shown after a win or a
//! death.

use crate::event::EventType;
use crate::map_edit::PlaceMode;
use vstd::prelude::*;

verus! {

/// What the game loop does for the entity being processed, in order.
#[derive(Clone, Copy, Debug, PartialEq, Eq)]
pub enum FrameAction {
    /// Queue the entity that event `i` asks for (a fart cloud, a laser or a
    /// goblin) for spawning at the end of the frame.
    Spawn(usize),
    /// Hand event `i` to the entity.
    Deliver(usize),
    /// The level is won: leave the frame and show the win screens.
    Win,
}

/// Events whose entity (a fart cloud, a laser) is spawned once per frame,
/// however many entities see them. A goblin event is not among them: a
/// goblin is spawned for every look at it.
pub open spec fn spawns_once(e: EventType) -> bool {
    e == EventType::SpawnFart || e == EventType::Laser
}

/// The actions for one entity looking at events `i..` of the frame, and the
/// list of events already spawned afterwards, given the list `covered` of
/// events already spawned before. With `stop_on_win` (the game), a win event
/// ends the look; without it (the editor's test run), a win event is handed
/// to the entity like any other.
pub open spec fn dispatch_from(events: Seq<EventType>, covered: Seq<usize>, i: int, stop_on_win: bool) -> (Seq<
    FrameAction,
>, Seq<usize>)
    decreases events.len() - i,
{
    if i < 0 || i >= events.len() {
        (seq![], covered)
    } else if stop_on_win && events[i] == EventType::Win {
        (seq![FrameAction::Win], covered)
    } else if spawns_once(events[i]) {
        if covered.contains(i as usize) {
            let (a, c) = dispatch_from(events, covered, i + 1, stop_on_win);
            (seq![FrameAction::Deliver(i as usize)] + a, c)
        } else {
            let (a, c) = dispatch_from(events, covered.push(i as usize), i + 1, stop_on_win);
            (seq![FrameAction::Spawn(i as usize), FrameAction::Deliver(i as usize)] + a, c)
        }
    } else if events[i] == EventType::SpawnGoblin {
        let (a, c) = dispatch_from(events, covered, i + 1, stop_on_win);
        (seq![FrameAction::Spawn(i as usize), FrameAction::Deliver(i as usize)] + a, c)
    } else {
        let (a, c) = dispatch_from(events, covered, i + 1, stop_on_win);
        (seq![FrameAction::Deliver(i as usize)] + a, c)
    }
}

/// The events of a frame as the entities see them.
#[derive(Debug)]
pub struct EventQueue {
    /// The events so far: those raised while entities looked at each other
    /// in the last frame, then those raised by this frame's updates.
    pub events: Vec<EventType>,
    /// The spawn-once events already spawned this frame.
    pub covered: Vec<usize>,
    /// Whether a win event ends the look (the game) or is handed on like any
    /// other (the editor's test run).
    pub stop_on_win: bool,
}

fn contains_index(v: &Vec<usize>, x: usize) -> (b: bool)
    ensures
        b == v@.contains(x),
{
    let mut i: usize = 0;
    while i < v.len()
        invariant
            0 <= i <= v.len(),
            forall|j: int| 0 <= j < i ==> v@[j] != x,
        decreases v.len() - i,
    {
        if v[i] == x {
            assert(v@[i as int] == x);
            return true;
        }
        i += 1;
    }
    false
}

impl EventQueue {
    /// The queue at the start of a frame, holding the events raised in the
    /// last frame's looks; nothing spawned yet.
    pub fn new(events: Vec<EventType>, stop_on_win: bool) -> (q: EventQueue)
        ensures
            q.events@ == events@,
            q.covered@ == Seq::<usize>::empty(),
            q.stop_on_win == stop_on_win,
    {
        EventQueue { events, covered: Vec::new(), stop_on_win }
    }

    /// The next entity was updated and raised `result`: the event joins the
    /// queue, and the entity looks at every event so far. Fart clouds and
    /// lasers not yet spawned this frame are spawned, a goblin is spawned for
    /// every look at a goblin event, every event is handed to the entity, and
    /// a win event ends the look (and the frame) at once.
    pub fn process_entity(&mut self, result: Option<EventType>) -> (actions: Vec<FrameAction>)
        requires
            old(self).events.len() < usize::MAX,
        ensures
            final(self).events@ == (match result {
                Some(e) => old(self).events@.push(e),
                None => old(self).events@,
            }),
            (actions@, final(self).covered@) == dispatch_from(
                final(self).events@,
                old(self).covered@,
                0,
                old(self).stop_on_win,
            ),
            final(self).stop_on_win == old(self).stop_on_win,
    {
        if let Some(e) = result {
            self.events.push(e);
        }
        let ghost evs = self.events@;
        let ghost total = dispatch_from(evs, old(self).covered@, 0, self.stop_on_win);
        let ghost sw = self.stop_on_win;
        let mut actions: Vec<FrameAction> = Vec::new();
        let mut i: usize = 0;
        while i < self.events.len()
            invariant_except_break
                actions@ + dispatch_from(evs, self.covered@, i as int, sw).0 == total.0,
                dispatch_from(evs, self.covered@, i as int, sw).1 == total.1,
            invariant
                self.events@ == evs,
                self.stop_on_win == sw,
                sw == old(self).stop_on_win,
                evs == (match result {
                    Some(e) => old(self).events@.push(e),
                    None => old(self).events@,
                }),
                0 <= i <= evs.len(),
            ensures
                (actions@, self.covered@) == total,
            decreases evs.len() - i,
        {
            let e = self.events[i];
            let ghost before = self.covered@;
            match e {
                EventType::Win if self.stop_on_win => {
                    actions.push(FrameAction::Win);
                    assert(actions@ =~= total.0);
                    assert(dispatch_from(evs, self.covered@, i as int, sw).1 == self.covered@);
                    assert((actions@, self.covered@) == total);
                    break;
                },
                EventType::SpawnFart | EventType::Laser => {
                    if contains_index(&self.covered, i) {
                        actions.push(FrameAction::Deliver(i));
                        assert(actions@ + dispatch_from(evs, self.covered@, i + 1, sw).0 =~= total.0);
                    } else {
                        actions.push(FrameAction::Spawn(i));
                        actions.push(FrameAction::Deliver(i));
                        self.covered.push(i);
                        assert(actions@ + dispatch_from(evs, self.covered@, i + 1, sw).0 =~= total.0);
                    }
                },
                EventType::SpawnGoblin => {
                    actions.push(FrameAction::Spawn(i));
                    actions.push(FrameAction::Deliver(i));
                    assert(actions@ + dispatch_from(evs, self.covered@, i + 1, sw).0 =~= total.0);
                },
                _ => {
                    actions.push(FrameAction::Deliver(i));
                    assert(actions@ + dispatch_from(evs, self.covered@, i + 1, sw).0 =~= total.0);
                },
            }
            i += 1;
            if i >= self.events.len() {
                assert(actions@ =~= total.0);
            }
        }
        actions
    }
}


/// Fart clouds and lasers are spawned at most once per frame, and as soon
/// as one entity has looked at them: in one entity's look,
/// such an event is spawned only if no earlier look spawned it, and is then
/// recorded as spawned; the record only grows; and when no win cuts the look
/// short, every spawn-once event the entity saw is recorded as spawned.
pub proof fn lemma_spawn_once(events: Seq<EventType>, covered: Seq<usize>, i: int, sw: bool)
    requires
        0 <= i <= events.len(),
        events.len() <= usize::MAX,
    ensures
        forall|x: usize| covered.contains(x) ==> #[trigger] dispatch_from(events, covered, i, sw).1.contains(x),
        forall|k: int|
            0 <= k < dispatch_from(events, covered, i, sw).0.len() && #[trigger] dispatch_from(events, covered, i, sw).0[k] is Spawn && spawns_once(events[dispatch_from(events, covered, i, sw).0[k]->Spawn_0 as int])
                ==> !covered.contains(dispatch_from(events, covered, i, sw).0[k]->Spawn_0) && dispatch_from(events, covered, i, sw).1.contains(dispatch_from(events, covered, i, sw).0[k]->Spawn_0),
        (forall|j: int| i <= j < events.len() ==> !(sw && events[j] == EventType::Win)) ==> forall|j: int|
            i <= j < events.len() && spawns_once(events[j]) ==> #[trigger] dispatch_from(events, covered, i, sw).1.contains(j as usize),
    decreases events.len() - i,
{
    if i < events.len() && !(sw && events[i] == EventType::Win) {
        let c2 = if spawns_once(events[i]) && !covered.contains(i as usize) {
            covered.push(i as usize)
        } else {
            covered
        };
        lemma_spawn_once(events, c2, i + 1, sw);
        let (a, c) = dispatch_from(events, covered, i, sw);
        let (a2, cc) = dispatch_from(events, c2, i + 1, sw);
        assert(c == cc);
        assert forall|x: usize| covered.contains(x) implies c.contains(x) by {
            if covered.contains(x) {
                let w = choose|w: int| 0 <= w < covered.len() && covered[w] == x;
                assert(c2[w] == x);
                assert(c2.contains(x));
            }
        }
        let pre = if spawns_once(events[i]) && !covered.contains(i as usize) {
            2int
        } else if events[i] == EventType::SpawnGoblin {
            2int
        } else {
            1int
        };
        assert(a.len() == pre + a2.len());
        assert forall|k: int|
            0 <= k < a.len() && a[k] is Spawn && spawns_once(events[a[k]->Spawn_0 as int]) implies !covered.contains(
                a[k]->Spawn_0,
            ) && c.contains(a[k]->Spawn_0) by {
            if k >= pre {
                assert(a[k] == a2[k - pre]);
                if let FrameAction::Spawn(j) = a2[k - pre] {
                    if spawns_once(events[j as int]) {
                        assert(!c2.contains(j));
                        if covered.contains(j) {
                            let w = choose|w: int| 0 <= w < covered.len() && covered[w] == j;
                            assert(c2[w] == j);
                        }
                    }
                }
            } else if spawns_once(events[i]) && !covered.contains(i as usize) {
                assert(c2[c2.len() - 1] == i as usize);
                assert(c2.contains(i as usize));
            }
        }
        if spawns_once(events[i]) {
            if !covered.contains(i as usize) {
                assert(c2[c2.len() - 1] == i as usize);
            }
            assert(c2.contains(i as usize));
        }
    }
}


/// The events an entity is handed, in order, among a look's actions.
pub open spec fn deliveries(a: Seq<FrameAction>) -> Seq<usize>
    decreases a.len(),
{
    if a.len() == 0 {
        seq![]
    } else {
        match a[0] {
            FrameAction::Deliver(i) => seq![i] + deliveries(a.drop_first()),
            _ => deliveries(a.drop_first()),
        }
    }
}

proof fn lemma_deliveries_append(p: Seq<FrameAction>, q: Seq<FrameAction>)
    ensures
        deliveries(p + q) == deliveries(p) + deliveries(q),
    decreases p.len(),
{
    if p.len() == 0 {
        assert(p + q =~= q);
    } else {
        lemma_deliveries_append(p.drop_first(), q);
        assert((p + q).drop_first() =~= p.drop_first() + q);
        assert((p + q)[0] == p[0]);
    }
}

/// Every entity is handed every event of the frame so far, each once and in
/// order, when no win cuts its look short: the events it is handed in a
/// look from `i` on are exactly `i`, `i + 1`, ... up to the last event.
pub proof fn lemma_every_event_delivered(events: Seq<EventType>, covered: Seq<usize>, i: int, sw: bool)
    requires
        0 <= i <= events.len(),
        events.len() <= usize::MAX,
        forall|j: int| i <= j < events.len() ==> !(sw && #[trigger] events[j] == EventType::Win),
    ensures
        deliveries(dispatch_from(events, covered, i, sw).0) == Seq::new(
            (events.len() - i) as nat,
            |k: int| (i + k) as usize,
        ),
    decreases events.len() - i,
{
    if i == events.len() {
        assert(deliveries(dispatch_from(events, covered, i, sw).0) =~= Seq::new(
            (events.len() - i) as nat,
            |k: int| (i + k) as usize,
        ));
    } else {
        let c2 = if spawns_once(events[i]) && !covered.contains(i as usize) {
            covered.push(i as usize)
        } else {
            covered
        };
        lemma_every_event_delivered(events, c2, i + 1, sw);
        let a2 = dispatch_from(events, c2, i + 1, sw).0;
        let pre = if spawns_once(events[i]) && !covered.contains(i as usize) {
            seq![FrameAction::Spawn(i as usize), FrameAction::Deliver(i as usize)]
        } else if events[i] == EventType::SpawnGoblin {
            seq![FrameAction::Spawn(i as usize), FrameAction::Deliver(i as usize)]
        } else {
            seq![FrameAction::Deliver(i as usize)]
        };
        assert(!(sw && events[i] == EventType::Win));
        assert(dispatch_from(events, covered, i, sw).0 == pre + a2);
        lemma_deliveries_append(pre, a2);
        assert(deliveries(pre) =~= seq![i as usize]) by {
            let one = seq![FrameAction::Deliver(i as usize)];
            assert(one.drop_first() =~= Seq::<FrameAction>::empty());
            assert(deliveries(one.drop_first()) =~= Seq::<usize>::empty());
            assert(one[0] == FrameAction::Deliver(i as usize));
            assert(deliveries(one) =~= seq![i as usize]);
            if pre.len() == 2 {
                assert(pre.drop_first() =~= one);
            }
        }
        assert(deliveries(dispatch_from(events, covered, i, sw).0) =~= Seq::new(
            (events.len() - i) as nat,
            |k: int| (i + k) as usize,
        ));
    }
}

/// The elements of `s` whose flag is not set, in their order: `flags[i]`
/// marks element `i` for removal.
pub open spec fn keep_unflagged<T>(s: Seq<T>, flags: Seq<bool>) -> Seq<T>
    decreases s.len(),
{
    if s.len() == 0 {
        seq![]
    } else {
        let rest = keep_unflagged(s.drop_first(), flags.drop_first());
        if flags[0] {
            rest
        } else {
            seq![s[0]] + rest
        }
    }
}

/// Removes exactly the flagged elements (the dead entities, the things under
/// the cursor), keeping the others in their order.
pub fn remove_flagged<T>(v: &mut Vec<T>, flags: &Vec<bool>)
    requires
        old(v).len() == flags.len(),
    ensures
        final(v)@ == keep_unflagged(old(v)@, flags@),
{
    let ghost s = v@;
    let mut i = v.len();
    assert(s.skip(i as int) =~= Seq::<T>::empty());
    assert(v@ =~= s.take(i as int) + keep_unflagged(s.skip(i as int), flags@.skip(i as int)));
    while i > 0
        invariant
            s.len() == flags.len(),
            0 <= i <= s.len(),
            v@ == s.take(i as int) + keep_unflagged(s.skip(i as int), flags@.skip(i as int)),
        decreases i,
    {
        let k = i - 1;
        let ghost rest = keep_unflagged(s.skip(i as int), flags@.skip(i as int));
        assert(s.skip(k as int).drop_first() =~= s.skip(i as int));
        assert(flags@.skip(k as int).drop_first() =~= flags@.skip(i as int));
        assert(s.skip(k as int)[0] == s[k as int]);
        assert(flags@.skip(k as int)[0] == flags@[k as int]);
        if flags[k] {
            v.remove(k);
            assert(v@ =~= s.take(k as int) + rest);
        } else {
            assert(s.take(i as int) + rest =~= s.take(k as int) + (seq![s[k as int]] + rest));
        }
        i = k;
    }
    assert(s.take(0) + keep_unflagged(s, flags@) =~= keep_unflagged(s, flags@));
    assert(s.skip(0) =~= s);
    assert(flags@.skip(0) =~= flags@);
}

/// Removing flagged elements keeps an unflagged first element first, and
/// removes nothing when nothing is flagged.
pub proof fn lemma_keep_unflagged_first<T>(s: Seq<T>, flags: Seq<bool>)
    requires
        s.len() == flags.len(),
    ensures
        s.len() > 0 && !flags[0] ==> keep_unflagged(s, flags).len() > 0 && keep_unflagged(s, flags)[0]
            == s[0],
        (forall|i: int| 0 <= i < flags.len() ==> !#[trigger] flags[i]) ==> keep_unflagged(s, flags) == s,
    decreases s.len(),
{
    if s.len() > 0 {
        lemma_keep_unflagged_first(s.drop_first(), flags.drop_first());
        if forall|i: int| 0 <= i < flags.len() ==> !#[trigger] flags[i] {
            assert forall|i: int| 0 <= i < flags.drop_first().len() implies !#[trigger] flags.drop_first()[i] by {
                assert(flags.drop_first()[i] == flags[i + 1]);
            }
            assert(seq![s[0]] + s.drop_first() =~= s);
        }
    } else {
        assert(keep_unflagged(s, flags) =~= s);
    }
}

/// The editor's edits keep the player's entry first, in the entity list and
/// in the record list: removing what lies under the cursor from position 1
/// on, adding an entity or records at the end, all leave the first entry in
/// place.
pub proof fn lemma_edits_keep_first<T>(s: Seq<T>, flags: Seq<bool>, more: Seq<T>)
    requires
        s.len() > 0,
        s.len() == flags.len(),
        !flags[0],
    ensures
        keep_unflagged(s, flags).len() > 0 && keep_unflagged(s, flags)[0] == s[0],
        (s + more)[0] == s[0],
{
    lemma_keep_unflagged_first(s, flags);
}

/// How despawning ended.
#[derive(Clone, Copy, Debug, PartialEq, Eq)]
pub enum Despawn {
    /// All dead entities are to be removed.
    Done,
    /// The player (always the first entity) died: show the death screen.
    PlayerDied,
    /// The boss is among the dead: show the win screen.
    BossDefeated,
}

/// How despawning the dead entities (`dead[i]` for entity `i`, of kind
/// `kinds[i]`) ends. The dead are taken in order: the player, first in the
/// list, ends the game with a death; otherwise a dead boss ends it with a
/// win; otherwise every dead entity is removed.
pub open spec fn despawn_outcome(kinds: Seq<Option<PlaceMode>>, dead: Seq<bool>) -> Despawn {
    if kinds.len() > 0 && dead[0] {
        Despawn::PlayerDied
    } else if exists|i: int| 0 <= i < kinds.len() && #[trigger] dead[i] && kinds[i] == Some(PlaceMode::SpawnGobloronBoss) {
        Despawn::BossDefeated
    } else {
        Despawn::Done
    }
}

/// How despawning ends (see `despawn_outcome`); on `Done` the caller removes
/// exactly the dead entities with `remove_flagged`.
pub fn despawn(kinds: &Vec<Option<PlaceMode>>, dead: &Vec<bool>) -> (r: Despawn)
    requires
        kinds.len() == dead.len(),
    ensures
        r == despawn_outcome(kinds@, dead@),
{
    if kinds.len() > 0 && dead[0] {
        return Despawn::PlayerDied;
    }
    let mut i: usize = 0;
    while i < kinds.len()
        invariant
            kinds.len() == dead.len(),
            0 <= i <= kinds.len(),
            !(kinds.len() > 0 && dead@[0]),
            forall|j: int| 0 <= j < i ==> !(#[trigger] dead@[j] && kinds@[j] == Some(PlaceMode::SpawnGobloronBoss)),
        decreases kinds.len() - i,
    {
        if dead[i] && kinds[i] == Some(PlaceMode::SpawnGobloronBoss) {
            assert(dead@[i as int] && kinds@[i as int] == Some(PlaceMode::SpawnGobloronBoss));
            return Despawn::BossDefeated;
        }
        i += 1;
    }
    Despawn::Done
}

/// Despawning never removes the player: when it ends with the dead removed,
/// the player was not among them, and the first entity stays first.
pub proof fn lemma_despawn_keeps_player(kinds: Seq<Option<PlaceMode>>, dead: Seq<bool>)
    requires
        kinds.len() == dead.len(),
        kinds.len() > 0,
    ensures
        despawn_outcome(kinds, dead) == Despawn::Done ==> keep_unflagged(kinds, dead).len() > 0
            && keep_unflagged(kinds, dead)[0] == kinds[0],
{
    lemma_keep_unflagged_first(kinds, dead);
}

} // verus!
