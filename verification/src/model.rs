//! The mathematical model of the game engine.
//!
//! [`GameView`] is the abstract state of one game: the player rotation and
//! scoreboard as sequences, the per-turn accumulator, the pending mixed-combo
//! selection, the last-turn counter, and the phase. [`step`] is the pure
//! transition function that maps a state and one input event to the next
//! state and an accept/reject outcome. The executable engine is specified
//! against `step` alone, so every behaviour of the engine is pinned here.

use vstd::prelude::*;

use crate::scoring::Pig;
use crate::scoring::score_spec;

verus! {

/// The score a player must reach to trigger the final round.
pub const TARGET_SCORE: usize = 100;

/// The observable phase of a game.
///
/// `LastTurn` is never stored: it is a display condition derived from the
/// last-turn counter while the stored phase is `Playing` (see
/// [`display_state`]).
#[derive(Clone, Copy, Debug, PartialEq, Eq, Structural)]
pub enum GameState {
    Over,
    Playing,
    LastTurn,
    Pregame,
}

/// The progress of a mixed-combo report: either no combo is open, or the
/// combo mode was entered and the first face is awaited, or the first face
/// was chosen and the second is awaited.
#[derive(Clone, Copy, Debug, PartialEq, Eq, Structural)]
pub enum ComboState {
    Idle,
    AwaitingFirst,
    AwaitingSecond(Pig),
}

/// An input event for the engine.
///
/// The five bare face events report a single die leaning on that face (its
/// partner fell flat and scores as a sider); the `Double*` events report
/// both dice on the same face; the `Mc*` events choose the faces of a mixed
/// combo opened by `MixedCombo`. `PigOut` ends the turn banking the turn
/// points, `MakinBacon` ends the turn forfeiting them.
#[derive(Debug)]
pub enum Msg {
    AddPlayer,
    UpdatePlayerName(String),
    StartGame,
    NewGame,
    PigOut,
    MakinBacon,
    MixedCombo,
    McHoofer,
    McRazorback,
    McSnouter,
    McJowler,
    Sider,
    Hoofer,
    Razorback,
    Snouter,
    Jowler,
    DoubleHoofer,
    DoubleRazorback,
    DoubleSnouter,
    DoubleLeaningJowler,
}

/// Why an event was rejected. A rejected event never changes the state
/// (see [`crate::engine::lemma_rejected_event_changes_nothing`]).
#[derive(Clone, Copy, Debug, PartialEq, Eq, Structural)]
pub enum ProtocolError {
    /// The event is not accepted in the current phase.
    WrongPhase,
    /// `StartGame` arrived with fewer than two players registered.
    NotEnoughPlayers,
    /// A combo face was chosen while no mixed combo was open.
    NoComboPending,
}

/// The abstract state of one game. `names[i]` and `scores[i]` describe the
/// same player; index 0 is the player whose turn it is.
#[verifier::ext_equal]
pub struct GameView {
    /// Player names in rotation order.
    pub names: Seq<Seq<char>>,
    /// Committed scores, aligned with `names`.
    pub scores: Seq<nat>,
    /// How many turns have been committed since a player first reached the
    /// target score.
    pub last_turn_count: nat,
    /// The stored phase: `Pregame`, `Playing` or `Over`, never `LastTurn`.
    pub phase: GameState,
    /// The staged draft of the next player name.
    pub adding: Seq<char>,
    /// Points accumulated in the current turn, not yet committed.
    pub turn_points: nat,
    /// The pending mixed-combo selection.
    pub combo: ComboState,
}

impl GameView {
    /// The state of a freshly created engine: no players, no scores, a
    /// pregame phase, and every accumulator at zero.
    pub open spec fn init() -> GameView {
        GameView {
            names: Seq::empty(),
            scores: Seq::empty(),
            last_turn_count: 0,
            phase: GameState::Pregame,
            adding: Seq::empty(),
            turn_points: 0,
            combo: ComboState::Idle,
        }
    }

    /// Well-formedness: the scoreboard is aligned with the rotation,
    /// `LastTurn` is never stored, play needs at least two players, the
    /// last-turn counter stays below the player count while play goes on,
    /// and the pregame phase keeps its accumulators at zero.
    pub open spec fn wf(self) -> bool {
        &&& self.scores.len() == self.names.len()
        &&& self.phase != GameState::LastTurn
        &&& (self.phase == GameState::Playing ==> self.names.len() >= 2
            && self.last_turn_count < self.names.len())
        &&& (self.phase == GameState::Over ==> self.names.len() >= 2)
        &&& (self.phase == GameState::Pregame ==> self.last_turn_count == 0
            && self.turn_points == 0 && self.combo == ComboState::Idle)
    }
}

/// The face reported by a single-leaning event, if `m` is one.
pub open spec fn single_face(m: Msg) -> Option<Pig> {
    match m {
        Msg::Sider => Some(Pig::Sider),
        Msg::Hoofer => Some(Pig::Hoofer),
        Msg::Razorback => Some(Pig::Razorback),
        Msg::Snouter => Some(Pig::Snouter),
        Msg::Jowler => Some(Pig::Jowler),
        _ => None,
    }
}

/// The face reported by a double event, if `m` is one.
pub open spec fn double_face(m: Msg) -> Option<Pig> {
    match m {
        Msg::DoubleHoofer => Some(Pig::Hoofer),
        Msg::DoubleRazorback => Some(Pig::Razorback),
        Msg::DoubleSnouter => Some(Pig::Snouter),
        Msg::DoubleLeaningJowler => Some(Pig::Jowler),
        _ => None,
    }
}

/// The face chosen by a mixed-combo selection event, if `m` is one.
pub open spec fn combo_face(m: Msg) -> Option<Pig> {
    match m {
        Msg::McHoofer => Some(Pig::Hoofer),
        Msg::McRazorback => Some(Pig::Razorback),
        Msg::McSnouter => Some(Pig::Snouter),
        Msg::McJowler => Some(Pig::Jowler),
        _ => None,
    }
}

/// The mixed-combo selection event for a face (faces other than `Sider`).
pub open spec fn mc_msg(f: Pig) -> Msg {
    match f {
        Pig::Hoofer => Msg::McHoofer,
        Pig::Razorback => Msg::McRazorback,
        Pig::Snouter => Msg::McSnouter,
        _ => Msg::McJowler,
    }
}

/// `s` rotated left by one: the head moves to the back.
pub open spec fn rotate_left<A>(s: Seq<A>) -> Seq<A> {
    s.drop_first().push(s[0])
}

/// `v` with `p` added to the turn accumulator.
pub open spec fn add_turn_points(v: GameView, p: nat) -> GameView {
    GameView { turn_points: (v.turn_points + p) as nat, ..v }
}

/// `v` with the turn points banked into the active player's score.
pub open spec fn bank_turn_points(v: GameView) -> GameView {
    GameView {
        scores: v.scores.update(0, (v.scores[0] + v.turn_points) as nat),
        ..v
    }
}

/// Whether some committed score has reached the target.
pub open spec fn at_target(scores: Seq<nat>) -> bool {
    exists|i: int| 0 <= i < scores.len() && scores[i] >= TARGET_SCORE
}

/// The shared end-of-turn sequence: bump the last-turn counter if any score
/// has reached the target, end the game once every player has had a turn
/// since, reset the turn accumulator and any pending combo, and rotate the
/// active player to the back.
pub open spec fn end_of_turn(v: GameView) -> GameView {
    let ltc = if at_target(v.scores) {
        (v.last_turn_count + 1) as nat
    } else {
        v.last_turn_count
    };
    GameView {
        names: rotate_left(v.names),
        scores: rotate_left(v.scores),
        last_turn_count: ltc,
        phase: if ltc >= v.names.len() {
            GameState::Over
        } else {
            v.phase
        },
        turn_points: 0,
        combo: ComboState::Idle,
        ..v
    }
}

/// A scoring event (single or double) during play: the looked-up value is
/// added to the turn points; nothing else changes.
pub open spec fn score_step(v: GameView, a: Pig, b: Pig) -> (GameView, Result<
    (),
    ProtocolError,
>) {
    if v.phase == GameState::Playing {
        (add_turn_points(v, score_spec(a, b)), Ok(()))
    } else {
        (v, Err(ProtocolError::WrongPhase))
    }
}

/// A mixed-combo face selection during play: the first chosen face is
/// stored; the second completes the pair, scores it once, and closes the
/// combo. A selection with no combo open is rejected.
pub open spec fn combo_step(v: GameView, f: Pig) -> (GameView, Result<(), ProtocolError>) {
    if v.phase != GameState::Playing {
        (v, Err(ProtocolError::WrongPhase))
    } else {
        match v.combo {
            ComboState::Idle => (v, Err(ProtocolError::NoComboPending)),
            ComboState::AwaitingFirst => (
                GameView { combo: ComboState::AwaitingSecond(f), ..v },
                Ok(()),
            ),
            ComboState::AwaitingSecond(first) => (
                GameView {
                    turn_points: (v.turn_points + score_spec(first, f)) as nat,
                    combo: ComboState::Idle,
                    ..v
                },
                Ok(()),
            ),
        }
    }
}

/// The transition function: one event applied to one state, yielding the
/// next state and whether the event was accepted. A rejected event leaves
/// the state exactly as it was.
pub open spec fn step(v: GameView, m: Msg) -> (GameView, Result<(), ProtocolError>) {
    match m {
        Msg::UpdatePlayerName(name) => if v.phase == GameState::Pregame {
            (GameView { adding: name@, ..v }, Ok(()))
        } else {
            (v, Err(ProtocolError::WrongPhase))
        },
        Msg::AddPlayer => if v.phase == GameState::Pregame {
            (
                GameView {
                    names: v.names.push(v.adding),
                    scores: v.scores.push(0),
                    adding: Seq::empty(),
                    ..v
                },
                Ok(()),
            )
        } else {
            (v, Err(ProtocolError::WrongPhase))
        },
        Msg::StartGame => if v.phase != GameState::Pregame {
            (v, Err(ProtocolError::WrongPhase))
        } else if v.names.len() >= 2 {
            (GameView { phase: GameState::Playing, ..v }, Ok(()))
        } else {
            (v, Err(ProtocolError::NotEnoughPlayers))
        },
        Msg::NewGame => if v.phase == GameState::Over {
            (GameView::init(), Ok(()))
        } else {
            (v, Err(ProtocolError::WrongPhase))
        },
        Msg::PigOut => if v.phase == GameState::Playing {
            (end_of_turn(bank_turn_points(v)), Ok(()))
        } else {
            (v, Err(ProtocolError::WrongPhase))
        },
        Msg::MakinBacon => if v.phase == GameState::Playing {
            (end_of_turn(v), Ok(()))
        } else {
            (v, Err(ProtocolError::WrongPhase))
        },
        Msg::MixedCombo => if v.phase == GameState::Playing {
            (
                GameView {
                    combo: if v.combo == ComboState::Idle {
                        ComboState::AwaitingFirst
                    } else {
                        v.combo
                    },
                    ..v
                },
                Ok(()),
            )
        } else {
            (v, Err(ProtocolError::WrongPhase))
        },
        Msg::McHoofer => combo_step(v, Pig::Hoofer),
        Msg::McRazorback => combo_step(v, Pig::Razorback),
        Msg::McSnouter => combo_step(v, Pig::Snouter),
        Msg::McJowler => combo_step(v, Pig::Jowler),
        Msg::Sider => score_step(v, Pig::Sider, Pig::Sider),
        Msg::Hoofer => score_step(v, Pig::Hoofer, Pig::Sider),
        Msg::Razorback => score_step(v, Pig::Razorback, Pig::Sider),
        Msg::Snouter => score_step(v, Pig::Snouter, Pig::Sider),
        Msg::Jowler => score_step(v, Pig::Jowler, Pig::Sider),
        Msg::DoubleHoofer => score_step(v, Pig::Hoofer, Pig::Hoofer),
        Msg::DoubleRazorback => score_step(v, Pig::Razorback, Pig::Razorback),
        Msg::DoubleSnouter => score_step(v, Pig::Snouter, Pig::Snouter),
        Msg::DoubleLeaningJowler => score_step(v, Pig::Jowler, Pig::Jowler),
    }
}

/// The machine-limit side condition for one event: the additions the event
/// performs must fit in `usize`. Scores in a real game stay near the
/// target, so a caller only has to rule out astronomic accumulators.
pub open spec fn step_fits(v: GameView, m: Msg) -> bool {
    &&& ((single_face(m) is Some || double_face(m) is Some) && v.phase == GameState::Playing
        ==> v.turn_points + crate::scoring::MAX_PAIR_SCORE <= usize::MAX)
    &&& (combo_face(m) is Some && v.phase == GameState::Playing && v.combo is AwaitingSecond
        ==> v.turn_points + crate::scoring::MAX_PAIR_SCORE <= usize::MAX)
    &&& (m is PigOut && v.phase == GameState::Playing ==> v.scores[0] + v.turn_points
        <= usize::MAX)
}

/// The scoreboard as (name, score) entries in rotation order.
pub open spec fn board_entries(v: GameView) -> Seq<(Seq<char>, nat)> {
    Seq::new(v.names.len(), |i: int| (v.names[i], v.scores[i]))
}

/// The abstract entries of a concrete (name, score) list.
pub open spec fn pair_views(s: Seq<(String, usize)>) -> Seq<(Seq<char>, nat)> {
    s.map_values(|p: (String, usize)| (p.0@, p.1 as nat))
}

/// The phase a viewer should display: `LastTurn` while play goes on and at
/// most one player has not yet had their final turn, otherwise the stored
/// phase.
pub open spec fn display_state(v: GameView) -> GameState {
    if v.phase == GameState::Playing && v.last_turn_count >= v.names.len() - 1 {
        GameState::LastTurn
    } else {
        v.phase
    }
}

/// Every transition preserves well-formedness.
pub proof fn lemma_step_preserves_wf(v: GameView, m: Msg)
    requires
        v.wf(),
    ensures
        step(v, m).0.wf(),
{
}

/// A rejected event leaves the state exactly as it was.
pub proof fn lemma_rejected_event_changes_nothing(v: GameView, m: Msg)
    requires
        step(v, m).1 is Err,
    ensures
        step(v, m).0 == v,
{
}

} // verus!
