//! What the game shows between levels and at the end: the cheese screen
//! after a win, the no-hit bonus screen and the next level for a flawless
//! win, the death screen, and the victory screen after the boss. Each call
//! of `screen_frame` stands for one displayed frame.

use vstd::prelude::*;

verus! {

/// Frames the cheese screen shows after a win.
pub const CHEESE_FRAMES: u32 = 800;
/// Frames the no-hit screen shows after a flawless win.
pub const NOHIT_FRAMES: u32 = 800;
/// Frames the death screen shows in the game.
pub const DEATH_FRAMES: u32 = 100;
/// Frames the death screen shows in the editor's test run.
pub const TEST_DEATH_FRAMES: u32 = 1000;

/// Where the game is.
#[derive(Clone, Copy, Debug, PartialEq, Eq)]
pub enum Flow {
    Playing,
    /// Showing the cheese screen; `frames` shown so far.
    Cheese { frames: u32 },
    /// Showing the no-hit screen; `frames` shown so far.
    NoHit { frames: u32 },
    /// Showing the death screen; `frames` shown so far.
    Dying { frames: u32 },
    /// Showing the victory screen until escape is pressed.
    Victory,
    /// The game has ended.
    Over,
}

/// Something the caller does, in order.
#[derive(Clone, Copy, Debug, PartialEq, Eq)]
pub enum Cue {
    StopMusic,
    PlayCheese,
    PlayWinNoHit,
    PlayDeath,
    PlayWinMusic,
    DrawCheese,
    DrawNoHit,
    DrawDeath,
    DrawWin,
    /// Draw the loading screen and show it for a frame.
    DrawLoading,
    /// Replace the level by the next one, reload its map and start its music.
    LoadNextLevel,
    Quit,
}

/// One displayed frame of a screen: the flow afterwards and the cues to
/// carry out. `taken_damage` says whether the player lost health on the
/// level, `escape` whether escape was pressed, `death_frames` how long the
/// death screen shows.
pub open spec fn screen_step(f: Flow, taken_damage: bool, escape: bool, death_frames: u32) -> (Flow, Seq<Cue>) {
    match f {
        Flow::Cheese { frames } => if frames + 1 > CHEESE_FRAMES {
            if taken_damage {
                (Flow::Over, seq![Cue::Quit])
            } else {
                (Flow::NoHit { frames: 1 }, seq![Cue::PlayWinNoHit, Cue::DrawNoHit])
            }
        } else {
            (Flow::Cheese { frames: (frames + 1) as u32 }, seq![Cue::DrawCheese])
        },
        Flow::NoHit { frames } => if frames + 1 > NOHIT_FRAMES {
            (Flow::Playing, seq![Cue::DrawLoading, Cue::LoadNextLevel])
        } else {
            (Flow::NoHit { frames: (frames + 1) as u32 }, seq![Cue::DrawNoHit])
        },
        Flow::Dying { frames } => if frames + 1 > death_frames {
            (Flow::Over, seq![Cue::Quit])
        } else {
            (Flow::Dying { frames: (frames + 1) as u32 }, seq![Cue::DrawDeath])
        },
        Flow::Victory => if escape {
            (Flow::Over, seq![Cue::Quit])
        } else {
            (Flow::Victory, seq![Cue::DrawWin])
        },
        _ => (f, seq![]),
    }
}

/// The flow after `n` displayed frames without escape.
pub open spec fn run(f: Flow, taken_damage: bool, n: nat, death_frames: u32) -> Flow
    decreases n,
{
    if n == 0 {
        f
    } else {
        run(screen_step(f, taken_damage, false, death_frames).0, taken_damage, (n - 1) as nat, death_frames)
    }
}

/// The game's progress: the flow, whether the player lost health since the
/// game started, and how long the death screen shows.
#[derive(Clone, Copy, Debug, PartialEq, Eq)]
pub struct Game {
    pub flow: Flow,
    pub taken_damage: bool,
    pub death_frames: u32,
}

impl Game {
    /// The counters' ranges.
    pub open spec fn wf(&self) -> bool {
        match self.flow {
            Flow::Cheese { frames } => frames <= CHEESE_FRAMES,
            Flow::NoHit { frames } => frames <= NOHIT_FRAMES,
            Flow::Dying { frames } => frames <= self.death_frames,
            _ => true,
        }
    }

    /// A game that is being played, with no health lost.
    pub fn new() -> (g: Game)
        ensures
            g == (Game { flow: Flow::Playing, taken_damage: false, death_frames: DEATH_FRAMES }),
            g.wf(),
    {
        Game { flow: Flow::Playing, taken_damage: false, death_frames: DEATH_FRAMES }
    }

    /// The editor's test run of a map: like a game, but its death screen
    /// shows for 1000 frames.
    pub fn test_run() -> (g: Game)
        ensures
            g == (Game { flow: Flow::Playing, taken_damage: false, death_frames: TEST_DEATH_FRAMES }),
            g.wf(),
    {
        Game { flow: Flow::Playing, taken_damage: false, death_frames: TEST_DEATH_FRAMES }
    }

    /// Notes the player's health at the end of a frame: once below full,
    /// the game remembers that health was lost, for good.
    pub fn note_player_hp(&mut self, hp: i32, max_hp: i32)
        ensures
            *final(self) == (Game { taken_damage: old(self).taken_damage || hp < max_hp, ..*old(self) }),
    {
        if hp < max_hp {
            self.taken_damage = true;
        }
    }

    /// The level was won: the music stops and the cheese tune plays.
    pub fn win(&mut self) -> (cues: Vec<Cue>)
        requires
            old(self).flow == Flow::Playing,
        ensures
            *final(self) == (Game { flow: Flow::Cheese { frames: 0 }, ..*old(self) }),
            cues@ == seq![Cue::StopMusic, Cue::PlayCheese],
            final(self).wf(),
    {
        self.flow = Flow::Cheese { frames: 0 };
        let mut cues = Vec::new();
        cues.push(Cue::StopMusic);
        cues.push(Cue::PlayCheese);
        assert(cues@ =~= seq![Cue::StopMusic, Cue::PlayCheese]);
        cues
    }

    /// The player died: the music stops and the death sound plays.
    pub fn player_died(&mut self) -> (cues: Vec<Cue>)
        requires
            old(self).flow == Flow::Playing,
        ensures
            *final(self) == (Game { flow: Flow::Dying { frames: 0 }, ..*old(self) }),
            cues@ == seq![Cue::StopMusic, Cue::PlayDeath],
            final(self).wf(),
    {
        self.flow = Flow::Dying { frames: 0 };
        let mut cues = Vec::new();
        cues.push(Cue::StopMusic);
        cues.push(Cue::PlayDeath);
        assert(cues@ =~= seq![Cue::StopMusic, Cue::PlayDeath]);
        cues
    }

    /// The boss was defeated: the music stops and the win music loops.
    pub fn boss_defeated(&mut self) -> (cues: Vec<Cue>)
        requires
            old(self).flow == Flow::Playing,
        ensures
            *final(self) == (Game { flow: Flow::Victory, ..*old(self) }),
            cues@ == seq![Cue::StopMusic, Cue::PlayWinMusic],
            final(self).wf(),
    {
        self.flow = Flow::Victory;
        let mut cues = Vec::new();
        cues.push(Cue::StopMusic);
        cues.push(Cue::PlayWinMusic);
        assert(cues@ =~= seq![Cue::StopMusic, Cue::PlayWinMusic]);
        cues
    }

    /// Escape was pressed while playing: the music stops and the game ends.
    pub fn quit(&mut self) -> (cues: Vec<Cue>)
        requires
            old(self).flow == Flow::Playing,
        ensures
            *final(self) == (Game { flow: Flow::Over, ..*old(self) }),
            cues@ == seq![Cue::StopMusic, Cue::Quit],
            final(self).wf(),
    {
        self.flow = Flow::Over;
        let mut cues = Vec::new();
        cues.push(Cue::StopMusic);
        cues.push(Cue::Quit);
        assert(cues@ =~= seq![Cue::StopMusic, Cue::Quit]);
        cues
    }

    /// One displayed frame of the screen being shown (see `screen_step`).
    pub fn screen_frame(&mut self, escape: bool) -> (cues: Vec<Cue>)
        requires
            old(self).wf(),
        ensures
            (final(self).flow, cues@) == screen_step(
                old(self).flow,
                old(self).taken_damage,
                escape,
                old(self).death_frames,
            ),
            final(self).taken_damage == old(self).taken_damage,
            final(self).death_frames == old(self).death_frames,
            final(self).wf(),
    {
        let mut cues = Vec::new();
        match self.flow {
            Flow::Cheese { frames } => {
                if frames + 1 > CHEESE_FRAMES {
                    if self.taken_damage {
                        self.flow = Flow::Over;
                        cues.push(Cue::Quit);
                    } else {
                        self.flow = Flow::NoHit { frames: 1 };
                        cues.push(Cue::PlayWinNoHit);
                        cues.push(Cue::DrawNoHit);
                    }
                } else {
                    self.flow = Flow::Cheese { frames: frames + 1 };
                    cues.push(Cue::DrawCheese);
                }
            },
            Flow::NoHit { frames } => {
                if frames + 1 > NOHIT_FRAMES {
                    self.flow = Flow::Playing;
                    cues.push(Cue::DrawLoading);
                    cues.push(Cue::LoadNextLevel);
                } else {
                    self.flow = Flow::NoHit { frames: frames + 1 };
                    cues.push(Cue::DrawNoHit);
                }
            },
            Flow::Dying { frames } => {
                if frames >= self.death_frames {
                    self.flow = Flow::Over;
                    cues.push(Cue::Quit);
                } else {
                    self.flow = Flow::Dying { frames: frames + 1 };
                    cues.push(Cue::DrawDeath);
                }
            },
            Flow::Victory => {
                if escape {
                    self.flow = Flow::Over;
                    cues.push(Cue::Quit);
                } else {
                    cues.push(Cue::DrawWin);
                }
            },
            _ => {},
        }
        assert(cues@ =~= screen_step(old(self).flow, old(self).taken_damage, escape, self.death_frames).1);
        cues
    }
}

/// Running `a` frames and then `b` more is running `a + b` frames.
pub proof fn lemma_run_split(f: Flow, t: bool, a: nat, b: nat, d: u32)
    ensures
        run(f, t, a + b, d) == run(run(f, t, a, d), t, b, d),
    decreases a,
{
    if a > 0 {
        lemma_run_split(screen_step(f, t, false, d).0, t, (a - 1) as nat, b, d);
        assert((a + b - 1) as nat == (a - 1) as nat + b);
    }
}

proof fn lemma_cheese_counts(k: nat, t: bool, n: nat, d: u32)
    requires
        k + n <= CHEESE_FRAMES,
    ensures
        run((Flow::Cheese { frames: k as u32 }), t, n, d) == (Flow::Cheese { frames: (k + n) as u32 }),
    decreases n,
{
    if n > 0 {
        lemma_cheese_counts(k + 1, t, (n - 1) as nat, d);
    }
}

proof fn lemma_nohit_counts(k: nat, t: bool, n: nat, d: u32)
    requires
        1 <= k,
        k + n <= NOHIT_FRAMES,
    ensures
        run((Flow::NoHit { frames: k as u32 }), t, n, d) == (Flow::NoHit { frames: (k + n) as u32 }),
    decreases n,
{
    if n > 0 {
        lemma_nohit_counts(k + 1, t, (n - 1) as nat, d);
    }
}

proof fn lemma_dying_counts(k: nat, t: bool, n: nat, d: u32)
    requires
        k + n <= d,
    ensures
        run((Flow::Dying { frames: k as u32 }), t, n, d) == (Flow::Dying { frames: (k + n) as u32 }),
    decreases n,
{
    if n > 0 {
        lemma_dying_counts(k + 1, t, (n - 1) as nat, d);
    }
}

/// After a win, the cheese screen shows for 800 frames. Then a player who
/// lost health sees the game end; a flawless player sees the no-hit screen
/// for 800 frames and goes on to the next level on the frame after.
pub proof fn lemma_win_screens(t: bool, d: u32)
    ensures
        run((Flow::Cheese { frames: 0 }), t, CHEESE_FRAMES as nat, d) == (Flow::Cheese { frames: CHEESE_FRAMES }),
        t ==> run((Flow::Cheese { frames: 0 }), t, (CHEESE_FRAMES + 1) as nat, d) == Flow::Over,
        !t ==> run((Flow::Cheese { frames: 0 }), t, (CHEESE_FRAMES + NOHIT_FRAMES) as nat, d)
            == (Flow::NoHit { frames: NOHIT_FRAMES }),
        !t ==> screen_step((Flow::NoHit { frames: NOHIT_FRAMES }), t, false, d) == (
            Flow::Playing,
            seq![Cue::DrawLoading, Cue::LoadNextLevel],
        ),
{
    lemma_cheese_counts(0, t, CHEESE_FRAMES as nat, d);
    lemma_run_split((Flow::Cheese { frames: 0 }), t, CHEESE_FRAMES as nat, 1, d);
    assert(run((Flow::Cheese { frames: CHEESE_FRAMES }), t, 1, d) == screen_step(
        (Flow::Cheese { frames: CHEESE_FRAMES }),
        t,
        false,
        d,
    ).0) by {
        reveal_with_fuel(run, 2);
    }
    if !t {
        lemma_nohit_counts(1, t, (NOHIT_FRAMES - 1) as nat, d);
        lemma_run_split(
            (Flow::Cheese { frames: 0 }),
            t,
            (CHEESE_FRAMES + 1) as nat,
            (NOHIT_FRAMES - 1) as nat,
            d,
        );
    }
}

/// After the player dies, the death screen shows for the game's death
/// screen time (100 frames in the game, 1000 in the editor's test run) and
/// the game ends on the frame after.
pub proof fn lemma_death_screen(t: bool, d: u32)
    requires
        d < u32::MAX,
    ensures
        run((Flow::Dying { frames: 0 }), t, d as nat, d) == (Flow::Dying { frames: d }),
        run((Flow::Dying { frames: 0 }), t, (d + 1) as nat, d) == Flow::Over,
{
    lemma_dying_counts(0, t, d as nat, d);
    lemma_run_split((Flow::Dying { frames: 0 }), t, d as nat, 1, d);
    assert(run((Flow::Dying { frames: d }), t, 1, d) == screen_step(
        (Flow::Dying { frames: d }),
        t,
        false,
        d,
    ).0) by {
        reveal_with_fuel(run, 2);
    }
}

/// The victory screen stays, drawn every frame, for as long as escape is
/// not pressed, and escape ends the game.
pub proof fn lemma_victory_waits(t: bool, n: nat, d: u32)
    ensures
        run(Flow::Victory, t, n, d) == Flow::Victory,
        screen_step(Flow::Victory, t, false, d) == (Flow::Victory, seq![Cue::DrawWin]),
        screen_step(Flow::Victory, t, true, d) == (Flow::Over, seq![Cue::Quit]),
    decreases n,
{
    if n > 0 {
        lemma_victory_waits(t, (n - 1) as nat, d);
    }
}

} // verus!
