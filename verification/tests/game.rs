use pass_the_pigs::engine::App;
use pass_the_pigs::model::ComboState;
use pass_the_pigs::model::GameState;
use pass_the_pigs::model::Msg;
use pass_the_pigs::model::ProtocolError;
use pass_the_pigs::scoring::Pig;
use pass_the_pigs::scoring::lookup;

fn add_player(app: &mut App, name: &str) {
    app.update(Msg::UpdatePlayerName(name.to_string())).unwrap();
    app.update(Msg::AddPlayer).unwrap();
}

fn started_game(names: &[&str]) -> App {
    let mut app = App::new();
    for name in names {
        add_player(&mut app, name);
    }
    app.update(Msg::StartGame).unwrap();
    app
}

#[test]
fn lookup_matches_table_in_both_orders() {
    let table = [
        (Pig::Hoofer, Pig::Hoofer, 20),
        (Pig::Hoofer, Pig::Jowler, 15),
        (Pig::Hoofer, Pig::Razorback, 5),
        (Pig::Hoofer, Pig::Sider, 5),
        (Pig::Hoofer, Pig::Snouter, 10),
        (Pig::Jowler, Pig::Jowler, 60),
        (Pig::Jowler, Pig::Razorback, 15),
        (Pig::Jowler, Pig::Sider, 15),
        (Pig::Jowler, Pig::Snouter, 15),
        (Pig::Razorback, Pig::Razorback, 20),
        (Pig::Razorback, Pig::Sider, 5),
        (Pig::Razorback, Pig::Snouter, 10),
        (Pig::Sider, Pig::Sider, 1),
        (Pig::Sider, Pig::Snouter, 10),
        (Pig::Snouter, Pig::Snouter, 40),
    ];
    for (a, b, points) in table {
        assert_eq!(lookup(a, b), points);
        assert_eq!(lookup(b, a), points);
    }
}

#[test]
fn single_reports_add_their_table_value() {
    let singles = [
        (Msg::Sider, 1),
        (Msg::Hoofer, 5),
        (Msg::Razorback, 5),
        (Msg::Snouter, 10),
        (Msg::Jowler, 15),
    ];
    for (msg, points) in singles {
        let mut app = started_game(&["ada", "bob"]);
        assert_eq!(app.turn_points(), 0);
        app.update(msg).unwrap();
        assert_eq!(app.turn_points(), points);
    }
}

#[test]
fn double_reports_add_their_table_value() {
    let doubles = [
        (Msg::DoubleHoofer, 20),
        (Msg::DoubleRazorback, 20),
        (Msg::DoubleSnouter, 40),
        (Msg::DoubleLeaningJowler, 60),
    ];
    for (msg, points) in doubles {
        let mut app = started_game(&["ada", "bob"]);
        app.update(msg).unwrap();
        assert_eq!(app.turn_points(), points);
    }
}

#[test]
fn mixed_combo_scores_the_pair_once() {
    let mut app = started_game(&["ada", "bob"]);
    app.update(Msg::MixedCombo).unwrap();
    assert_eq!(app.pending_combo(), ComboState::AwaitingFirst);
    app.update(Msg::McHoofer).unwrap();
    assert_eq!(app.turn_points(), 0);
    assert_eq!(app.pending_combo(), ComboState::AwaitingSecond(Pig::Hoofer));
    app.update(Msg::McSnouter).unwrap();
    assert_eq!(app.turn_points(), 10);
    assert_eq!(app.pending_combo(), ComboState::Idle);
}

#[test]
fn pig_out_banks_turn_points_and_rotates() {
    let mut app = started_game(&["ada", "bob", "cyd"]);
    app.update(Msg::DoubleHoofer).unwrap();
    app.update(Msg::Jowler).unwrap();
    assert_eq!(app.turn_points(), 35);
    app.update(Msg::PigOut).unwrap();
    assert_eq!(app.turn_points(), 0);
    assert_eq!(app.players(), &["bob", "cyd", "ada"]);
    assert_eq!(app.scores(), &[0, 0, 35]);
    assert_eq!(app.current_player().unwrap(), "bob");
}

#[test]
fn makin_bacon_forfeits_turn_points_but_rotates() {
    let mut app = started_game(&["ada", "bob"]);
    app.update(Msg::PigOut).unwrap();
    app.update(Msg::DoubleSnouter).unwrap();
    app.update(Msg::Snouter).unwrap();
    assert_eq!(app.turn_points(), 50);
    let sum_before: usize = app.scores().iter().sum();
    app.update(Msg::MakinBacon).unwrap();
    let sum_after: usize = app.scores().iter().sum();
    assert_eq!(sum_before, sum_after);
    assert_eq!(app.turn_points(), 0);
    assert_eq!(app.players(), &["ada", "bob"]);
}

#[test]
fn three_player_game_runs_to_over_and_ranks() {
    let mut app = started_game(&["ada", "bob", "cyd"]);
    // ada banks 120 points; the last-turn race begins.
    app.update(Msg::DoubleLeaningJowler).unwrap();
    app.update(Msg::DoubleLeaningJowler).unwrap();
    app.update(Msg::PigOut).unwrap();
    assert_eq!(app.game_state(), GameState::Playing);
    // bob banks 20.
    app.update(Msg::DoubleHoofer).unwrap();
    app.update(Msg::PigOut).unwrap();
    // Only cyd's final turn is left: the last-turn display condition holds.
    assert_eq!(app.game_state(), GameState::LastTurn);
    // cyd busts; every player has now had a turn since ada crossed 100.
    app.update(Msg::MakinBacon).unwrap();
    assert_eq!(app.game_state(), GameState::Over);
    let ranked = app.ranked_players();
    assert_eq!(ranked.len(), 3);
    assert_eq!(ranked[0].0, "ada");
    assert_eq!(ranked[0].1, 120);
    assert_eq!(ranked[1], ("bob".to_string(), 20));
    assert_eq!(ranked[2], ("cyd".to_string(), 0));
}

#[test]
fn start_game_needs_two_players() {
    let mut app = App::new();
    assert_eq!(app.update(Msg::StartGame), Err(ProtocolError::NotEnoughPlayers));
    assert_eq!(app.game_state(), GameState::Pregame);
    add_player(&mut app, "ada");
    assert_eq!(app.update(Msg::StartGame), Err(ProtocolError::NotEnoughPlayers));
    assert_eq!(app.game_state(), GameState::Pregame);
    add_player(&mut app, "bob");
    assert_eq!(app.update(Msg::StartGame), Ok(()));
    assert_eq!(app.game_state(), GameState::Playing);
}

#[test]
fn new_game_resets_everything() {
    let mut app = started_game(&["ada", "bob"]);
    app.update(Msg::DoubleLeaningJowler).unwrap();
    app.update(Msg::DoubleLeaningJowler).unwrap();
    app.update(Msg::PigOut).unwrap();
    app.update(Msg::MakinBacon).unwrap();
    assert_eq!(app.game_state(), GameState::Over);
    app.update(Msg::NewGame).unwrap();
    assert_eq!(app.game_state(), GameState::Pregame);
    assert!(app.players().is_empty());
    assert!(app.scores().is_empty());
    assert_eq!(app.last_turn_count(), 0);
    assert_eq!(app.turn_points(), 0);
    assert_eq!(app.pending_combo(), ComboState::Idle);
    assert_eq!(app.player_name_draft(), "");
}

#[test]
fn queries_never_change_state() {
    let mut app = started_game(&["ada", "bob"]);
    app.update(Msg::MixedCombo).unwrap();
    app.update(Msg::McJowler).unwrap();
    app.update(Msg::Snouter).unwrap();
    let players = app.players().clone();
    let scores = app.scores().clone();
    let state = app.game_state();
    let points = app.turn_points();
    let combo = app.pending_combo();
    let count = app.last_turn_count();
    let draft = app.player_name_draft().clone();
    for _ in 0..3 {
        assert_eq!(app.players(), &players);
        assert_eq!(app.scores(), &scores);
        assert_eq!(app.game_state(), state);
        assert_eq!(app.turn_points(), points);
        assert_eq!(app.pending_combo(), combo);
        assert_eq!(app.last_turn_count(), count);
        assert_eq!(app.player_name_draft(), &draft);
    }
}

#[test]
fn events_in_a_wrong_phase_are_rejected() {
    let mut app = App::new();
    add_player(&mut app, "ada");
    add_player(&mut app, "bob");
    // Scoring and commits are not accepted before the game starts.
    assert_eq!(app.update(Msg::Hoofer), Err(ProtocolError::WrongPhase));
    assert_eq!(app.update(Msg::DoubleSnouter), Err(ProtocolError::WrongPhase));
    assert_eq!(app.update(Msg::PigOut), Err(ProtocolError::WrongPhase));
    assert_eq!(app.update(Msg::MakinBacon), Err(ProtocolError::WrongPhase));
    assert_eq!(app.update(Msg::MixedCombo), Err(ProtocolError::WrongPhase));
    assert_eq!(app.update(Msg::NewGame), Err(ProtocolError::WrongPhase));
    assert_eq!(app.game_state(), GameState::Pregame);
    app.update(Msg::StartGame).unwrap();
    // Roster edits are not accepted during play.
    assert_eq!(
        app.update(Msg::UpdatePlayerName("cyd".to_string())),
        Err(ProtocolError::WrongPhase)
    );
    assert_eq!(app.update(Msg::AddPlayer), Err(ProtocolError::WrongPhase));
    assert_eq!(app.update(Msg::StartGame), Err(ProtocolError::WrongPhase));
    assert_eq!(app.players(), &["ada", "bob"]);
    // Nothing but a new game is accepted once the game is over.
    app.update(Msg::DoubleLeaningJowler).unwrap();
    app.update(Msg::DoubleLeaningJowler).unwrap();
    app.update(Msg::PigOut).unwrap();
    app.update(Msg::MakinBacon).unwrap();
    assert_eq!(app.game_state(), GameState::Over);
    assert_eq!(app.update(Msg::Sider), Err(ProtocolError::WrongPhase));
    assert_eq!(app.update(Msg::PigOut), Err(ProtocolError::WrongPhase));
    assert_eq!(app.update(Msg::StartGame), Err(ProtocolError::WrongPhase));
    assert_eq!(app.update(Msg::AddPlayer), Err(ProtocolError::WrongPhase));
}

#[test]
fn combo_face_without_open_combo_is_rejected() {
    let mut app = started_game(&["ada", "bob"]);
    assert_eq!(app.update(Msg::McHoofer), Err(ProtocolError::NoComboPending));
    assert_eq!(app.turn_points(), 0);
    assert_eq!(app.pending_combo(), ComboState::Idle);
}

#[test]
fn reopening_a_pending_combo_changes_nothing() {
    let mut app = started_game(&["ada", "bob"]);
    app.update(Msg::MixedCombo).unwrap();
    app.update(Msg::MixedCombo).unwrap();
    assert_eq!(app.pending_combo(), ComboState::AwaitingFirst);
    app.update(Msg::McRazorback).unwrap();
    app.update(Msg::MixedCombo).unwrap();
    assert_eq!(app.pending_combo(), ComboState::AwaitingSecond(Pig::Razorback));
    app.update(Msg::McJowler).unwrap();
    assert_eq!(app.turn_points(), 15);
}

#[test]
fn ranked_players_sorts_by_descending_score() {
    let mut app = started_game(&["ada", "bob", "cyd"]);
    // ada banks 10, bob banks 110, cyd banks 40; the game then ends.
    app.update(Msg::Snouter).unwrap();
    app.update(Msg::PigOut).unwrap();
    app.update(Msg::DoubleLeaningJowler).unwrap();
    app.update(Msg::Jowler).unwrap();
    app.update(Msg::Jowler).unwrap();
    app.update(Msg::DoubleHoofer).unwrap();
    app.update(Msg::PigOut).unwrap();
    app.update(Msg::DoubleSnouter).unwrap();
    app.update(Msg::PigOut).unwrap();
    app.update(Msg::MakinBacon).unwrap();
    assert_eq!(app.game_state(), GameState::Over);
    let ranked = app.ranked_players();
    assert_eq!(ranked[0], ("bob".to_string(), 110));
    assert_eq!(ranked[1], ("cyd".to_string(), 40));
    assert_eq!(ranked[2], ("ada".to_string(), 10));
}

#[test]
fn name_draft_is_staged_until_add_player() {
    let mut app = App::new();
    app.update(Msg::UpdatePlayerName("ada".to_string())).unwrap();
    assert_eq!(app.player_name_draft(), "ada");
    assert!(app.players().is_empty());
    app.update(Msg::UpdatePlayerName("adalovelace".to_string())).unwrap();
    assert_eq!(app.player_name_draft(), "adalovelace");
    app.update(Msg::AddPlayer).unwrap();
    assert_eq!(app.players(), &["adalovelace"]);
    assert_eq!(app.player_name_draft(), "");
}

#[test]
fn single_report_during_open_combo_still_scores() {
    let mut app = started_game(&["ada", "bob"]);
    app.update(Msg::MixedCombo).unwrap();
    app.update(Msg::McHoofer).unwrap();
    app.update(Msg::Jowler).unwrap();
    assert_eq!(app.turn_points(), 15);
    assert_eq!(app.pending_combo(), ComboState::AwaitingSecond(Pig::Hoofer));
}
