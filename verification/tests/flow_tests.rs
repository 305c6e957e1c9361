use unsteel_chez::flow::{Cue, Flow, Game};

#[test]
fn flawless_win_goes_to_next_level() {
    let mut g = Game::new();
    assert_eq!(g.win(), vec![Cue::StopMusic, Cue::PlayCheese]);
    for _ in 0..800 {
        assert_eq!(g.screen_frame(false), vec![Cue::DrawCheese]);
    }
    assert_eq!(g.screen_frame(false), vec![Cue::PlayWinNoHit, Cue::DrawNoHit]);
    for _ in 0..799 {
        assert_eq!(g.screen_frame(false), vec![Cue::DrawNoHit]);
    }
    assert_eq!(g.screen_frame(false), vec![Cue::DrawLoading, Cue::LoadNextLevel]);
    assert_eq!(g.flow, Flow::Playing);
}

#[test]
fn damaged_win_ends_the_game() {
    let mut g = Game::new();
    g.note_player_hp(100, 100);
    assert!(!g.taken_damage);
    g.note_player_hp(90, 100);
    g.note_player_hp(100, 100);
    assert!(g.taken_damage);
    g.win();
    for _ in 0..800 {
        g.screen_frame(false);
    }
    assert_eq!(g.screen_frame(false), vec![Cue::Quit]);
    assert_eq!(g.flow, Flow::Over);
    assert!(g.screen_frame(true).is_empty());
}

#[test]
fn death_screen_lasts_hundred_frames() {
    let mut g = Game::new();
    assert_eq!(g.player_died(), vec![Cue::StopMusic, Cue::PlayDeath]);
    for _ in 0..100 {
        assert_eq!(g.screen_frame(true), vec![Cue::DrawDeath]);
    }
    assert_eq!(g.screen_frame(false), vec![Cue::Quit]);
}

#[test]
fn victory_waits_for_escape() {
    let mut g = Game::new();
    assert_eq!(g.boss_defeated(), vec![Cue::StopMusic, Cue::PlayWinMusic]);
    for _ in 0..5 {
        assert_eq!(g.screen_frame(false), vec![Cue::DrawWin]);
    }
    assert_eq!(g.screen_frame(true), vec![Cue::Quit]);
    assert_eq!(g.flow, Flow::Over);
}

#[test]
fn escape_quits() {
    let mut g = Game::new();
    assert_eq!(g.quit(), vec![Cue::StopMusic, Cue::Quit]);
    assert_eq!(g.flow, Flow::Over);
}

#[test]
fn test_run_death_screen_lasts_thousand_frames() {
    let mut g = Game::test_run();
    g.player_died();
    for _ in 0..1000 {
        assert_eq!(g.screen_frame(false), vec![Cue::DrawDeath]);
    }
    assert_eq!(g.screen_frame(false), vec![Cue::Quit]);
}
