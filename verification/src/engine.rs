//! The executable game engine.
//!
//! [`App`] holds one game. Every input event goes through [`App::update`],
//! whose contract says that the new state and the returned outcome are
//! exactly those of the model's transition function [`step`]. The queries
//! all take `&self`, so observing the engine can never change it.

use vstd::multiset::Multiset;
use vstd::pervasive::VecAdditionalExecFns;
use vstd::prelude::*;

use crate::model::ComboState;
use crate::model::GameState;
use crate::model::GameView;
use crate::model::Msg;
use crate::model::ProtocolError;
use crate::model::TARGET_SCORE;
use crate::model::at_target;
use crate::model::bank_turn_points;
use crate::model::board_entries;
use crate::model::pair_views;
use crate::model::combo_step;
use crate::model::display_state;
use crate::model::end_of_turn;
use crate::model::lemma_step_preserves_wf;
use crate::model::score_step;
use crate::model::step;
use crate::model::step_fits;
use crate::scoring::MAX_PAIR_SCORE;
use crate::scoring::Pig;
use crate::scoring::lookup;

verus! {

/// One game of Pass the Pigs: the player rotation, the scoreboard aligned
/// with it, the per-turn accumulator, the pending combo selection, the
/// last-turn counter, and the stored phase.
pub struct App {
    players: Vec<String>,
    scores: Vec<usize>,
    last_turn_count: usize,
    game_state: GameState,
    adding_player: String,
    turn_points: usize,
    combo: ComboState,
}

impl View for App {
    type V = GameView;

    closed spec fn view(&self) -> GameView {
        GameView {
            names: self.players@.map_values(|p: String| p@),
            scores: self.scores@.map_values(|s: usize| s as nat),
            last_turn_count: self.last_turn_count as nat,
            phase: self.game_state,
            adding: self.adding_player@,
            turn_points: self.turn_points as nat,
            combo: self.combo,
        }
    }
}

/// Whether some committed score has reached the target.
fn any_at_target(scores: &Vec<usize>) -> (r: bool)
    ensures
        r == at_target(scores@.map_values(|s: usize| s as nat)),
{
    let ghost view: Seq<nat> = scores@.map_values(|s: usize| s as nat);
    let mut i: usize = 0;
    while i < scores.len()
        invariant
            0 <= i <= scores@.len(),
            view == scores@.map_values(|s: usize| s as nat),
            forall|j: int| 0 <= j < i ==> view[j] < TARGET_SCORE,
        decreases scores@.len() - i,
    {
        if scores[i] >= TARGET_SCORE {
            assert(view[i as int] >= TARGET_SCORE);
            return true;
        }
        i = i + 1;
    }
    false
}

impl App {
    /// A fresh engine in the pregame phase with no players registered.
    pub fn new() -> (app: App)
        ensures
            app@ == GameView::init(),
            app@.wf(),
    {
        let app = App {
            players: Vec::new(),
            scores: Vec::new(),
            last_turn_count: 0,
            game_state: GameState::Pregame,
            adding_player: String::new(),
            turn_points: 0,
            combo: ComboState::Idle,
        };
        proof {
            assert(app@ =~= GameView::init());
        }
        app
    }

    /// Apply one input event.
    ///
    /// The next state and the outcome are exactly those of the model:
    /// an accepted event performs the transition [`step`] describes, and a
    /// rejected event returns its [`ProtocolError`] with the state
    /// untouched. The [`step_fits`] premise only rules out `usize`
    /// overflow of the two additions an event can perform.
    pub fn update(&mut self, msg: Msg) -> (r: Result<(), ProtocolError>)
        requires
            old(self)@.wf(),
            step_fits(old(self)@, msg),
        ensures
            final(self)@ == step(old(self)@, msg).0,
            r == step(old(self)@, msg).1,
            final(self)@.wf(),
    {
        proof {
            lemma_step_preserves_wf(old(self)@, msg);
        }
        match msg {
            Msg::UpdatePlayerName(name) => {
                if self.game_state != GameState::Pregame {
                    return Err(ProtocolError::WrongPhase);
                }
                self.adding_player = name;
                proof {
                    assert(self@ =~= step(old(self)@, msg).0);
                }
                Ok(())
            }
            Msg::AddPlayer => {
                if self.game_state != GameState::Pregame {
                    return Err(ProtocolError::WrongPhase);
                }
                let name = self.adding_player.clone();
                self.adding_player = String::new();
                self.players.push(name);
                self.scores.push(0);
                proof {
                    assert(self@.names =~= step(old(self)@, msg).0.names);
                    assert(self@.scores =~= step(old(self)@, msg).0.scores);
                    assert(self@ =~= step(old(self)@, msg).0);
                }
                Ok(())
            }
            Msg::StartGame => {
                if self.game_state != GameState::Pregame {
                    return Err(ProtocolError::WrongPhase);
                }
                if self.players.len() < 2 {
                    return Err(ProtocolError::NotEnoughPlayers);
                }
                self.game_state = GameState::Playing;
                proof {
                    assert(self@ =~= step(old(self)@, msg).0);
                }
                Ok(())
            }
            Msg::NewGame => {
                if self.game_state != GameState::Over {
                    return Err(ProtocolError::WrongPhase);
                }
                self.players = Vec::new();
                self.scores = Vec::new();
                self.last_turn_count = 0;
                self.game_state = GameState::Pregame;
                self.adding_player = String::new();
                self.turn_points = 0;
                self.combo = ComboState::Idle;
                proof {
                    assert(self@ =~= GameView::init());
                }
                Ok(())
            }
            Msg::PigOut => self.commit_turn(true),
            Msg::MakinBacon => self.commit_turn(false),
            Msg::MixedCombo => {
                if self.game_state != GameState::Playing {
                    return Err(ProtocolError::WrongPhase);
                }
                if self.combo == ComboState::Idle {
                    self.combo = ComboState::AwaitingFirst;
                }
                proof {
                    assert(self@ =~= step(old(self)@, msg).0);
                }
                Ok(())
            }
            Msg::McHoofer => self.choose_combo_face(Pig::Hoofer),
            Msg::McRazorback => self.choose_combo_face(Pig::Razorback),
            Msg::McSnouter => self.choose_combo_face(Pig::Snouter),
            Msg::McJowler => self.choose_combo_face(Pig::Jowler),
            Msg::Sider => self.score_pair(Pig::Sider, Pig::Sider),
            Msg::Hoofer => self.score_pair(Pig::Hoofer, Pig::Sider),
            Msg::Razorback => self.score_pair(Pig::Razorback, Pig::Sider),
            Msg::Snouter => self.score_pair(Pig::Snouter, Pig::Sider),
            Msg::Jowler => self.score_pair(Pig::Jowler, Pig::Sider),
            Msg::DoubleHoofer => self.score_pair(Pig::Hoofer, Pig::Hoofer),
            Msg::DoubleRazorback => self.score_pair(Pig::Razorback, Pig::Razorback),
            Msg::DoubleSnouter => self.score_pair(Pig::Snouter, Pig::Snouter),
            Msg::DoubleLeaningJowler => self.score_pair(Pig::Jowler, Pig::Jowler),
        }
    }

    /// A single-leaning or double report: look the pair up and add it to
    /// the turn points.
    fn score_pair(&mut self, a: Pig, b: Pig) -> (r: Result<(), ProtocolError>)
        requires
            old(self)@.phase == GameState::Playing ==> old(self)@.turn_points + MAX_PAIR_SCORE
                <= usize::MAX,
        ensures
            final(self)@ == score_step(old(self)@, a, b).0,
            r == score_step(old(self)@, a, b).1,
    {
        if self.game_state != GameState::Playing {
            return Err(ProtocolError::WrongPhase);
        }
        proof {
            crate::scoring::lemma_score_symmetric_and_bounded(a, b);
        }
        let points = lookup(a, b);
        self.turn_points = self.turn_points + points;
        proof {
            assert(self@ =~= score_step(old(self)@, a, b).0);
        }
        Ok(())
    }

    /// A mixed-combo face selection: store the first face, or complete the
    /// pair with the second, score it once, and close the combo.
    fn choose_combo_face(&mut self, f: Pig) -> (r: Result<(), ProtocolError>)
        requires
            old(self)@.phase == GameState::Playing && old(self)@.combo is AwaitingSecond ==> old(
                self,
            )@.turn_points + MAX_PAIR_SCORE <= usize::MAX,
        ensures
            final(self)@ == combo_step(old(self)@, f).0,
            r == combo_step(old(self)@, f).1,
    {
        if self.game_state != GameState::Playing {
            return Err(ProtocolError::WrongPhase);
        }
        match self.combo {
            ComboState::Idle => Err(ProtocolError::NoComboPending),
            ComboState::AwaitingFirst => {
                self.combo = ComboState::AwaitingSecond(f);
                proof {
                    assert(self@ =~= combo_step(old(self)@, f).0);
                }
                Ok(())
            }
            ComboState::AwaitingSecond(first) => {
                proof {
                    crate::scoring::lemma_score_symmetric_and_bounded(first, f);
                }
                let points = lookup(first, f);
                self.turn_points = self.turn_points + points;
                self.combo = ComboState::Idle;
                proof {
                    assert(self@ =~= combo_step(old(self)@, f).0);
                }
                Ok(())
            }
        }
    }

    /// End the current turn: bank the turn points if `bank` (a pig out) or
    /// forfeit them (a makin' bacon), then run the shared end-of-turn
    /// sequence of the model.
    fn commit_turn(&mut self, bank: bool) -> (r: Result<(), ProtocolError>)
        requires
            old(self)@.wf(),
            bank && old(self)@.phase == GameState::Playing ==> old(self)@.scores[0] + old(
                self,
            )@.turn_points <= usize::MAX,
        ensures
            bank ==> final(self)@ == step(old(self)@, Msg::PigOut).0 && r == step(
                old(self)@,
                Msg::PigOut,
            ).1,
            !bank ==> final(self)@ == step(old(self)@, Msg::MakinBacon).0 && r == step(
                old(self)@,
                Msg::MakinBacon,
            ).1,
    {
        if self.game_state != GameState::Playing {
            return Err(ProtocolError::WrongPhase);
        }
        let ghost banked: GameView = if bank {
            bank_turn_points(old(self)@)
        } else {
            old(self)@
        };
        if bank {
            let s0 = self.scores[0];
            self.scores.set(0, s0 + self.turn_points);
            proof {
                assert(self@.scores =~= banked.scores);
                assert(self@ =~= banked);
            }
        }
        let player_count = self.players.len();
        proof {
            assert(old(self)@.last_turn_count < old(self)@.names.len());
            assert(old(self)@.names.len() == player_count as nat);
        }
        if any_at_target(&self.scores) {
            self.last_turn_count = self.last_turn_count + 1;
        }
        if self.last_turn_count >= self.players.len() {
            self.game_state = GameState::Over;
        }
        self.turn_points = 0;
        self.combo = ComboState::Idle;
        let front_name = self.players.remove(0);
        self.players.push(front_name);
        let front_score = self.scores.remove(0);
        self.scores.push(front_score);
        proof {
            assert(self@.names =~= end_of_turn(banked).names);
            assert(self@.scores =~= end_of_turn(banked).scores);
            assert(self@ =~= end_of_turn(banked));
        }
        Ok(())
    }

    /// The observable phase, with `LastTurn` shown while play goes on and
    /// at most one player has not yet had their final turn.
    pub fn game_state(&self) -> (r: GameState)
        ensures
            r == display_state(self@),
    {
        if self.game_state == GameState::Playing && (self.players.len() == 0
            || self.last_turn_count >= self.players.len() - 1) {
            GameState::LastTurn
        } else {
            self.game_state
        }
    }

    /// The player names in rotation order; index 0 is the active player.
    pub fn players(&self) -> (r: &Vec<String>)
        ensures
            r@.map_values(|p: String| p@) == self@.names,
    {
        &self.players
    }

    /// The committed scores, aligned with [`App::players`].
    pub fn scores(&self) -> (r: &Vec<usize>)
        ensures
            r@.map_values(|s: usize| s as nat) == self@.scores,
    {
        &self.scores
    }

    /// The active player's name, if any player is registered.
    pub fn current_player(&self) -> (r: Option<&String>)
        ensures
            self@.names.len() == 0 ==> r is None,
            self@.names.len() > 0 ==> r is Some && r->0@ == self@.names[0],
    {
        if self.players.len() == 0 {
            None
        } else {
            Some(&self.players[0])
        }
    }

    /// The points accumulated in the current turn, not yet committed.
    pub fn turn_points(&self) -> (r: usize)
        ensures
            r as nat == self@.turn_points,
    {
        self.turn_points
    }

    /// The pending mixed-combo selection.
    pub fn pending_combo(&self) -> (r: ComboState)
        ensures
            r == self@.combo,
    {
        self.combo
    }

    /// How many turns have been committed since a player first reached the
    /// target score.
    pub fn last_turn_count(&self) -> (r: usize)
        ensures
            r as nat == self@.last_turn_count,
    {
        self.last_turn_count
    }

    /// The staged draft of the next player name.
    pub fn player_name_draft(&self) -> (r: &String)
        ensures
            r@ == self@.adding,
    {
        &self.adding_player
    }

    /// The scoreboard ranked by descending committed score, for the win
    /// announcement once the game is over: a reordering of the scoreboard
    /// entries in which no score exceeds one before it. Ties keep no
    /// particular order; the caller decides how to present them.
    pub fn ranked_players(&self) -> (r: Vec<(String, usize)>)
        requires
            self@.wf(),
        ensures
            pair_views(r@).to_multiset() == board_entries(self@).to_multiset(),
            forall|i: int, j: int|
                0 <= i <= j < r@.len() ==> (#[trigger] r@[i]).1 >= (#[trigger] r@[j]).1,
    {
        let ghost total: Multiset<(Seq<char>, nat)> = board_entries(self@).to_multiset();
        let mut remaining: Vec<(String, usize)> = Vec::new();
        let mut i: usize = 0;
        while i < self.players.len()
            invariant
                self@.wf(),
                i <= self.players@.len(),
                remaining@.len() == i,
                forall|k: int|
                    0 <= k < i ==> #[trigger] remaining@[k] == (
                        self.players@[k],
                        self.scores@[k],
                    ),
            decreases self.players@.len() - i,
        {
            let name = self.players[i].clone();
            let score = self.scores[i];
            remaining.push((name, score));
            i = i + 1;
        }
        proof {
            assert(pair_views(remaining@) =~= board_entries(self@));
        }
        let mut ranked: Vec<(String, usize)> = Vec::new();
        proof {
            broadcast use vstd::seq_lib::group_to_multiset_ensures;
            broadcast use vstd::multiset::group_multiset_axioms;

            assert(pair_views(ranked@) =~= Seq::<(Seq<char>, nat)>::empty());
            assert(pair_views(ranked@).to_multiset().len() == 0);
            vstd::multiset::lemma_multiset_empty_len(pair_views(ranked@).to_multiset());
            assert(pair_views(ranked@).to_multiset().add(
                pair_views(remaining@).to_multiset(),
            ) =~= total);
        }
        while remaining.len() > 0
            invariant
                pair_views(ranked@).to_multiset().add(pair_views(remaining@).to_multiset())
                    == total,
                forall|a: int, b: int|
                    0 <= a <= b < ranked@.len() ==> (#[trigger] ranked@[a]).1 >= (
                    #[trigger] ranked@[b]).1,
                forall|a: int, b: int|
                    0 <= a < ranked@.len() && 0 <= b < remaining@.len() ==> (
                    #[trigger] ranked@[a]).1 >= (#[trigger] remaining@[b]).1,
            decreases remaining@.len(),
        {
            let mut m: usize = 0;
            let mut j: usize = 1;
            while j < remaining.len()
                invariant
                    0 < remaining@.len(),
                    m < j <= remaining@.len(),
                    forall|k: int|
                        0 <= k < j ==> (#[trigger] remaining@[k]).1 <= remaining@[
                            m as int
                        ].1,
                decreases remaining@.len() - j,
            {
                if remaining[j].1 > remaining[m].1 {
                    m = j;
                }
                j = j + 1;
            }
            let ghost prev_rem = remaining@;
            let ghost prev_ranked = ranked@;
            let picked = remaining.remove(m);
            ranked.push(picked);
            proof {
                broadcast use vstd::seq_lib::group_to_multiset_ensures;

                let ghost entry = (picked.0@, picked.1 as nat);
                assert(pair_views(remaining@) =~= pair_views(prev_rem).remove(m as int));
                assert(pair_views(ranked@) =~= pair_views(prev_ranked).push(entry));
                assert(pair_views(prev_rem)[m as int] == entry);
                assert(pair_views(ranked@).to_multiset().add(
                    pair_views(remaining@).to_multiset(),
                ) =~= total);
                assert forall|b: int| 0 <= b < remaining@.len() implies (
                #[trigger] remaining@[b]).1 <= picked.1 by {
                    if b < m {
                        assert(remaining@[b] == prev_rem[b]);
                    } else {
                        assert(remaining@[b] == prev_rem[b + 1]);
                    }
                }
            }
        }
        proof {
            broadcast use vstd::seq_lib::group_to_multiset_ensures;
            broadcast use vstd::multiset::group_multiset_axioms;

            assert(pair_views(remaining@) =~= Seq::<(Seq<char>, nat)>::empty());
            assert(pair_views(remaining@).to_multiset().len() == 0);
            vstd::multiset::lemma_multiset_empty_len(pair_views(remaining@).to_multiset());
            assert(pair_views(ranked@).to_multiset() =~= total);
        }
        ranked
    }
}

} // verus!
