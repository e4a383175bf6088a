//! The laws of the engine: properties that relate several transitions, or
//! several calls, stated over the model and proved once and for all. Each
//! law quantifies over every well-formed state the engine can be in.

use vstd::prelude::*;

use crate::model::ComboState;
use crate::model::GameState;
use crate::model::GameView;
use crate::model::Msg;
use crate::model::ProtocolError;
use crate::model::TARGET_SCORE;
use crate::model::at_target;
use crate::model::bank_turn_points;
use crate::model::double_face;
use crate::model::mc_msg;
use crate::model::rotate_left;
use crate::model::single_face;
use crate::model::step;
use crate::scoring::Pig;
use crate::scoring::score_spec;

verus! {

/// The sum of all committed scores on a board.
pub open spec fn total_score(scores: Seq<nat>) -> nat
    decreases scores.len(),
{
    if scores.len() == 0 {
        0
    } else {
        (scores[0] + total_score(scores.drop_first())) as nat
    }
}

/// Appending a score adds it to the total.
pub proof fn lemma_total_score_push(scores: Seq<nat>, x: nat)
    ensures
        total_score(scores.push(x)) == total_score(scores) + x,
    decreases scores.len(),
{
    reveal_with_fuel(total_score, 3);
    if scores.len() == 0 {
        assert(scores.push(x)[0] == x);
        assert(scores.push(x).drop_first() =~= Seq::<nat>::empty());
    } else {
        assert(scores.push(x)[0] == scores[0]);
        assert(scores.push(x).drop_first() =~= scores.drop_first().push(x));
        lemma_total_score_push(scores.drop_first(), x);
    }
}

/// Rotating the board does not change the total score.
pub proof fn lemma_total_score_rotate(scores: Seq<nat>)
    requires
        scores.len() > 0,
    ensures
        total_score(rotate_left(scores)) == total_score(scores),
{
    lemma_total_score_push(scores.drop_first(), scores[0]);
}

/// During play, every single-leaning and double report is accepted, adds
/// exactly its table value to the turn points — the pair `(x, Sider)` for
/// a single on `x`, the pair `(x, x)` for a double — and touches nothing
/// else: not the scoreboard, not the rotation, not the phase.
pub proof fn lemma_report_adds_table_value(v: GameView, m: Msg)
    requires
        v.wf(),
        v.phase == GameState::Playing,
        (single_face(m) is Some || double_face(m) is Some),
    ensures
        step(v, m).1 == Ok::<(), ProtocolError>(()),
        single_face(m) is Some ==> step(v, m).0.turn_points == v.turn_points + score_spec(
            single_face(m)->0,
            Pig::Sider,
        ),
        double_face(m) is Some ==> step(v, m).0.turn_points == v.turn_points + score_spec(
            double_face(m)->0,
            double_face(m)->0,
        ),
        (step(v, m).0 == GameView { turn_points: step(v, m).0.turn_points, ..v }),
{
}

/// A full mixed combo — opening the combo, then choosing face `a`, then
/// face `b` — is accepted, adds the table value of the pair `(a, b)` to
/// the turn points exactly once, leaves no pending combo behind, and
/// touches nothing else.
pub proof fn lemma_mixed_combo_scores_once(v: GameView, a: Pig, b: Pig)
    requires
        v.wf(),
        v.phase == GameState::Playing,
        v.combo == ComboState::Idle,
        a != Pig::Sider,
        b != Pig::Sider,
    ensures
        ({
            let v1 = step(v, Msg::MixedCombo).0;
            let v2 = step(v1, mc_msg(a)).0;
            let v3 = step(v2, mc_msg(b)).0;
            &&& step(v, Msg::MixedCombo).1 == Ok::<(), ProtocolError>(())
            &&& step(v1, mc_msg(a)).1 == Ok::<(), ProtocolError>(())
            &&& step(v2, mc_msg(b)).1 == Ok::<(), ProtocolError>(())
            &&& v3.turn_points == v.turn_points + score_spec(a, b)
            &&& v3.combo == ComboState::Idle
            &&& v3 == GameView { turn_points: v3.turn_points, ..v }
        }),
{
}

/// A pig out banks the turn points: the active player's score grows by
/// exactly the turn points and moves to the back of the rotation, every
/// other score is unchanged (shifted one place forward), the turn points
/// reset to zero, and any pending combo is cleared.
pub proof fn lemma_pig_out_banks(v: GameView)
    requires
        v.wf(),
        v.phase == GameState::Playing,
    ensures
        ({
            let post = step(v, Msg::PigOut).0;
            &&& step(v, Msg::PigOut).1 == Ok::<(), ProtocolError>(())
            &&& post.names == rotate_left(v.names)
            &&& post.scores.len() == v.scores.len()
            &&& post.scores[v.scores.len() - 1] == v.scores[0] + v.turn_points
            &&& forall|i: int|
                0 <= i < v.scores.len() - 1 ==> post.scores[i] == v.scores[i + 1]
            &&& post.turn_points == 0
            &&& post.combo == ComboState::Idle
        }),
{
    let post = step(v, Msg::PigOut).0;
    let banked = v.scores.update(0, (v.scores[0] + v.turn_points) as nat);
    assert(post.scores =~= rotate_left(banked));
    assert forall|i: int| 0 <= i < v.scores.len() - 1 implies post.scores[i] == v.scores[
        i + 1
    ] by {
        assert(post.scores[i] == banked[i + 1]);
    }
}

/// A makin' bacon forfeits the turn points: the scoreboard keeps exactly
/// the same values (only rotated with the players, so its total is
/// unchanged), the turn points reset to zero, and any pending combo is
/// cleared.
pub proof fn lemma_makin_bacon_forfeits(v: GameView)
    requires
        v.wf(),
        v.phase == GameState::Playing,
    ensures
        ({
            let post = step(v, Msg::MakinBacon).0;
            &&& step(v, Msg::MakinBacon).1 == Ok::<(), ProtocolError>(())
            &&& post.names == rotate_left(v.names)
            &&& post.scores == rotate_left(v.scores)
            &&& total_score(post.scores) == total_score(v.scores)
            &&& post.turn_points == 0
            &&& post.combo == ComboState::Idle
        }),
{
    lemma_total_score_rotate(v.scores);
}

/// Once any score has reached the target, every event applied during play
/// leaves some score at the target: scoring events do not touch the board,
/// a pig out only grows the active player's score, and the commits merely
/// rotate the board. Checking the condition anew at every commit is
/// therefore the same as remembering that it once held, and the last-turn
/// counter increments on every commit after the first trigger.
pub proof fn lemma_target_once_reached_persists(v: GameView, m: Msg)
    requires
        v.wf(),
        v.phase == GameState::Playing,
        at_target(v.scores),
    ensures
        at_target(step(v, m).0.scores),
{
    let i = choose|i: int| 0 <= i < v.scores.len() && v.scores[i] >= TARGET_SCORE;
    match m {
        Msg::PigOut => {
            let banked = bank_turn_points(v);
            if i == 0 {
                assert(rotate_left(banked.scores)[v.scores.len() - 1] >= TARGET_SCORE);
            } else {
                assert(rotate_left(banked.scores)[i - 1] >= TARGET_SCORE);
            }
        }
        Msg::MakinBacon => {
            if i == 0 {
                assert(rotate_left(v.scores)[v.scores.len() - 1] >= TARGET_SCORE);
            } else {
                assert(rotate_left(v.scores)[i - 1] >= TARGET_SCORE);
            }
        }
        _ => {}
    }
}

/// A list that reorders the scoreboard entries and is sorted by descending
/// score — as [`crate::engine::App::ranked_players`] ensures of its result
/// — puts a maximum score first: no entry of the board beats its head.
pub proof fn lemma_ranked_first_is_max(
    ranked: Seq<(Seq<char>, nat)>,
    entries: Seq<(Seq<char>, nat)>,
    i: int,
)
    requires
        ranked.to_multiset() == entries.to_multiset(),
        forall|a: int, b: int|
            0 <= a <= b < ranked.len() ==> (#[trigger] ranked[a]).1 >= (
            #[trigger] ranked[b]).1,
        0 <= i < entries.len(),
    ensures
        ranked.len() == entries.len(),
        ranked[0].1 >= entries[i].1,
{
    broadcast use vstd::seq_lib::group_to_multiset_ensures;

    assert(ranked.len() == ranked.to_multiset().len());
    assert(entries.len() == entries.to_multiset().len());
    assert(entries.contains(entries[i]));
    assert(ranked.to_multiset().count(entries[i]) > 0);
    assert(ranked.contains(entries[i]));
    let j = choose|j: int| 0 <= j < ranked.len() && ranked[j] == entries[i];
    assert(ranked[0].1 >= ranked[j].1);
}

/// `StartGame` with fewer than two players registered is rejected and
/// changes nothing: the phase remains `Pregame`.
pub proof fn lemma_start_game_needs_two_players(v: GameView)
    requires
        v.phase == GameState::Pregame,
        v.names.len() < 2,
    ensures
        step(v, Msg::StartGame).0 == v,
        step(v, Msg::StartGame).1 == Err::<(), ProtocolError>(ProtocolError::NotEnoughPlayers),
{
}

/// `NewGame` from the terminal phase resets everything — scoreboard,
/// rotation, name draft, turn state and last-turn counter — to the state
/// of a freshly created engine.
pub proof fn lemma_new_game_resets(v: GameView)
    requires
        v.phase == GameState::Over,
    ensures
        step(v, Msg::NewGame).0 == GameView::init(),
        step(v, Msg::NewGame).1 == Ok::<(), ProtocolError>(()),
{
}

} // verus!
