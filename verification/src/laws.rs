use vstd::prelude::*;

use crate::contract::best_idx;
use crate::contract::choose_step;
use crate::contract::end_step;
use crate::contract::margin;
use crate::contract::reset_step;
use crate::error::ContractError;
use crate::state::GameView;
use crate::state::PlayerView;
use crate::state::Status;
use crate::state::distinct_addresses;
use crate::state::has_address;

verus! {

/// One operation against the round, seen through the model: the caller's
/// identity and, for a reset, the target that the draw produced.
pub ghost enum GameOp {
    ChooseNumber { caller: Seq<char>, number: u8 },
    ResetGame { caller: Seq<char>, target: u32 },
    EndGame { caller: Seq<char> },
}

/// The whole system: the one admin identity and the one round record.
#[verifier::ext_equal]
pub ghost struct SystemView {
    pub owner: Seq<char>,
    pub game: GameView,
}

/// A reset's drawn target lies in the range the generator is asked for.
pub open spec fn op_in_range(op: GameOp) -> bool {
    op matches GameOp::ResetGame { caller, target } ==> target <= 100
}

/// The round transition an operation names.
pub open spec fn game_step(owner: Seq<char>, g: GameView, op: GameOp) -> Result<
    GameView,
    ContractError,
> {
    match op {
        GameOp::ChooseNumber { caller, number } => choose_step(g, caller, number),
        GameOp::ResetGame { caller, target } => reset_step(owner, caller, target),
        GameOp::EndGame { caller } => end_step(owner, g, caller),
    }
}

/// One system transition: a rejected operation leaves the records untouched,
/// an accepted one replaces the round; the admin is never replaced.
pub open spec fn system_step(s: SystemView, op: GameOp) -> SystemView {
    match game_step(s.owner, s.game, op) {
        Ok(g2) => SystemView { owner: s.owner, game: g2 },
        Err(_) => s,
    }
}

/// The system after a whole sequence of operations.
pub open spec fn run_system(s: SystemView, ops: Seq<GameOp>) -> SystemView
    decreases ops.len(),
{
    if ops.len() == 0 {
        s
    } else {
        run_system(system_step(s, ops[0]), ops.drop_first())
    }
}

/// Law: the admin is idempotent. Whatever sequence of operations runs, the
/// owner that authorization consults stays the one set at initialization.
pub proof fn lemma_admin_constant(s: SystemView, ops: Seq<GameOp>)
    ensures
        run_system(s, ops).owner == s.owner,
    decreases ops.len(),
{
    if ops.len() > 0 {
        lemma_admin_constant(system_step(s, ops[0]), ops.drop_first());
    }
}

/// An accepted guess keeps the round invariant: the new address was checked
/// against every recorded one, and the new guess against the range.
pub proof fn lemma_choose_preserves_wf(g: GameView, caller: Seq<char>, number: u8)
    requires
        g.wf(),
    ensures
        choose_step(g, caller, number) matches Ok(g2) ==> g2.wf(),
{
    if choose_step(g, caller, number) is Ok {
        let ps = g.participants;
        let ps2 = ps.push(PlayerView { address: caller, choosed_number: number as u32 });
        assert forall|i: int| 0 <= i < ps2.len() implies (#[trigger] ps2[i]).choosed_number
            <= 100 by {
            if i < ps.len() {
                assert(ps2[i] == ps[i]);
            }
        }
        assert forall|i: int, j: int| 0 <= i < j < ps2.len() implies (#[trigger] ps2[i]).address
            != (#[trigger] ps2[j]).address by {
            if j < ps.len() {
                assert(ps2[i] == ps[i] && ps2[j] == ps[j]);
            } else {
                assert(ps2[i] == ps[i]);
                assert(!(0 <= i < ps.len() && ps[i].address == caller));
            }
        }
    }
}

/// An accepted reset establishes the round invariant afresh, provided the
/// drawn target is in range.
pub proof fn lemma_reset_preserves_wf(owner: Seq<char>, caller: Seq<char>, target: u32)
    requires
        target <= 100,
    ensures
        reset_step(owner, caller, target) matches Ok(g2) ==> g2.wf(),
{
}

/// An accepted resolution keeps the round invariant: guesses and target are
/// retained, only the lifecycle tag and the winner fields change.
pub proof fn lemma_end_preserves_wf(owner: Seq<char>, g: GameView, caller: Seq<char>)
    requires
        g.wf(),
    ensures
        end_step(owner, g, caller) matches Ok(g2) ==> g2.wf(),
{
}

/// Every accepted operation with an in-range target keeps the round
/// invariant.
pub proof fn lemma_step_preserves_wf(s: SystemView, op: GameOp)
    requires
        s.game.wf(),
        op_in_range(op),
    ensures
        system_step(s, op).game.wf(),
{
    match op {
        GameOp::ChooseNumber { caller, number } => lemma_choose_preserves_wf(
            s.game,
            caller,
            number,
        ),
        GameOp::ResetGame { caller, target } => lemma_reset_preserves_wf(s.owner, caller, target),
        GameOp::EndGame { caller } => lemma_end_preserves_wf(s.owner, s.game, caller),
    }
}

/// The round invariant holds after any sequence of operations whose resets
/// drew in-range targets.
pub proof fn lemma_run_preserves_wf(s: SystemView, ops: Seq<GameOp>)
    requires
        s.game.wf(),
        forall|k: int| 0 <= k < ops.len() ==> op_in_range(#[trigger] ops[k]),
    ensures
        run_system(s, ops).game.wf(),
    decreases ops.len(),
{
    if ops.len() > 0 {
        lemma_step_preserves_wf(s, ops[0]);
        let rest = ops.drop_first();
        assert forall|k: int| 0 <= k < rest.len() implies op_in_range(#[trigger] rest[k]) by {
            assert(rest[k] == ops[k + 1]);
        }
        lemma_run_preserves_wf(system_step(s, ops[0]), rest);
    }
}

/// Law: no duplicate participants. From a well-formed state, no sequence of
/// operations can leave two participants with the same address in the round.
pub proof fn lemma_no_duplicate_participants(s: SystemView, ops: Seq<GameOp>)
    requires
        s.game.wf(),
        forall|k: int| 0 <= k < ops.len() ==> op_in_range(#[trigger] ops[k]),
    ensures
        distinct_addresses(run_system(s, ops).game.participants),
{
    lemma_run_preserves_wf(s, ops);
}

/// Law: range enforcement. While the round is open, a guess above 100 is
/// rejected as out of range, and an in-range guess from a fresh address is
/// accepted. (While the round is finished, the closed-round rejection comes
/// first, whatever the guess.)
pub proof fn lemma_guess_range_enforced(g: GameView, caller: Seq<char>, number: u8)
    requires
        g.status != Some(Status::Finished {}),
    ensures
        number > 100 ==> choose_step(g, caller, number) == Err::<GameView, ContractError>(
            ContractError::NumberOutOfRange {},
        ),
        number <= 100 && !has_address(g.participants, caller) ==> choose_step(
            g,
            caller,
            number,
        ) is Ok,
{
}

/// Law: closed-round rejection. While the round is finished, every guess is
/// rejected with the finished-round error, whatever the caller or the value.
pub proof fn lemma_closed_round_rejected(g: GameView, caller: Seq<char>, number: u8)
    requires
        g.status == Some(Status::Finished {}),
    ensures
        choose_step(g, caller, number) == Err::<GameView, ContractError>(
            ContractError::FinishedGame {},
        ),
{
}

/// The resolution index is a real index of the participant list.
pub proof fn lemma_best_idx_in_bounds(ps: Seq<PlayerView>, target: u32)
    requires
        ps.len() > 0,
    ensures
        0 <= best_idx(ps, target) < ps.len(),
    decreases ps.len(),
{
    if ps.len() > 1 {
        lemma_best_idx_in_bounds(ps.drop_last(), target);
    }
}

/// The resolution index points at a minimal margin, and at the earliest
/// submission among the minimal ones: everyone earlier is strictly worse.
pub proof fn lemma_best_idx_minimal(ps: Seq<PlayerView>, target: u32)
    requires
        ps.len() > 0,
    ensures
        0 <= best_idx(ps, target) < ps.len(),
        forall|j: int|
            0 <= j < ps.len() ==> margin(target, ps[best_idx(ps, target)].choosed_number) <= margin(
                target,
                (#[trigger] ps[j]).choosed_number,
            ),
        forall|j: int|
            0 <= j < best_idx(ps, target) ==> margin(target, (#[trigger] ps[j]).choosed_number)
                > margin(target, ps[best_idx(ps, target)].choosed_number),
    decreases ps.len(),
{
    lemma_best_idx_in_bounds(ps, target);
    if ps.len() > 1 {
        let prefix = ps.drop_last();
        lemma_best_idx_minimal(prefix, target);
        let b0 = best_idx(prefix, target);
        let b = best_idx(ps, target);
        assert forall|j: int| 0 <= j < ps.len() implies margin(
            target,
            ps[b].choosed_number,
        ) <= margin(target, (#[trigger] ps[j]).choosed_number) by {
            if j < ps.len() - 1 {
                assert(prefix[j] == ps[j]);
                assert(prefix[b0] == ps[b0]);
            }
        }
        assert forall|j: int| 0 <= j < b implies margin(target, (#[trigger] ps[j]).choosed_number)
            > margin(target, ps[b].choosed_number) by {
            assert(prefix[j] == ps[j]);
            assert(prefix[b0] == ps[b0]);
        }
    }
}

/// Law: winner correctness. When resolution succeeds, the recorded winner's
/// margin is minimal over all participants, the recorded margin is that
/// winner's, and on ties the earliest-submitted participant was chosen.
pub proof fn lemma_winner_correct(owner: Seq<char>, g: GameView, caller: Seq<char>)
    requires
        g.wf(),
        end_step(owner, g, caller) is Ok,
    ensures
        ({
            let g2 = end_step(owner, g, caller).unwrap();
            let t = g.random_number.unwrap();
            let b = best_idx(g.participants, t);
            &&& 0 <= b < g.participants.len()
            &&& g2.winner == Some(g.participants[b].address)
            &&& g2.num_diff == margin(t, g.participants[b].choosed_number)
            &&& forall|j: int|
                0 <= j < g.participants.len() ==> g2.num_diff <= margin(
                    t,
                    (#[trigger] g.participants[j]).choosed_number,
                )
            &&& forall|j: int|
                0 <= j < b ==> margin(t, (#[trigger] g.participants[j]).choosed_number)
                    > g2.num_diff
        }),
{
    let t = g.random_number.unwrap();
    lemma_best_idx_minimal(g.participants, t);
}

/// Law: reset clears state. An authorized reset leaves an empty, open round
/// with no winner, a zero margin, and the drawn in-range target.
pub proof fn lemma_reset_clears_state(owner: Seq<char>, caller: Seq<char>, target: u32)
    requires
        caller == owner,
        target <= 100,
    ensures
        reset_step(owner, caller, target) matches Ok(g2) && g2.participants.len() == 0
            && g2.status == Some(Status::Started {}) && g2.winner is None && g2.num_diff == 0 && (
        g2.random_number matches Some(t) && t <= 100),
{
}

} // verus!

