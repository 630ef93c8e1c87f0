use vstd::prelude::*;

use rand::Rng;

use crate::error::ContractError;
use crate::msg::ExecuteMsg;
use crate::msg::InstantiateMsg;
use crate::msg::ResultAdmin;
use crate::msg::ResultGameInfo;
use crate::state::Admin;
use crate::state::GameState;
use crate::state::GameView;
use crate::state::Player;
use crate::state::PlayerView;
use crate::state::Status;
use crate::state::has_address;
use crate::state::initial_game;

verus! {

/// Absolute distance between the round's target and a guess.
pub open spec fn margin(target: u32, guess: u32) -> int {
    if target >= guess {
        target - guess
    } else {
        guess - target
    }
}

/// Index of the winning participant: the earliest one whose margin is
/// minimal. Ties keep the earlier submission because a later participant
/// displaces the running best only with a strictly smaller margin.
pub open spec fn best_idx(ps: Seq<PlayerView>, target: u32) -> int
    decreases ps.len(),
{
    if ps.len() <= 1 {
        0
    } else {
        let b = best_idx(ps.drop_last(), target);
        if margin(target, ps.last().choosed_number) < margin(target, ps[b].choosed_number) {
            ps.len() - 1
        } else {
            b
        }
    }
}

/// What submitting a guess does to the round: rejected while the round is
/// finished, rejected out of range, rejected for a repeat address; otherwise
/// the player is appended in submission order and nothing else changes.
pub open spec fn choose_step(g: GameView, caller: Seq<char>, number: u8) -> Result<
    GameView,
    ContractError,
> {
    if g.status == Some(Status::Finished {}) {
        Err(ContractError::FinishedGame {})
    } else if number > 100 {
        Err(ContractError::NumberOutOfRange {})
    } else if has_address(g.participants, caller) {
        Err(ContractError::PlayerAlreadyInGame {})
    } else {
        Ok(
            GameView {
                participants: g.participants.push(
                    PlayerView { address: caller, choosed_number: number as u32 },
                ),
                random_number: g.random_number,
                winner: g.winner,
                num_diff: g.num_diff,
                status: g.status,
            },
        )
    }
}

/// What resetting the round does: admin-gated; on success the round restarts
/// empty and open, scored against the freshly drawn target.
pub open spec fn reset_step(owner: Seq<char>, caller: Seq<char>, target: u32) -> Result<
    GameView,
    ContractError,
> {
    if caller != owner {
        Err(ContractError::Unauthorized {})
    } else {
        Ok(
            GameView {
                participants: Seq::empty(),
                random_number: Some(target),
                winner: None,
                num_diff: 0u32,
                status: Some(Status::Started {}),
            },
        )
    }
}

/// What ending the round does: admin-gated; with no guesses there is no
/// winner to resolve; otherwise the earliest participant with minimal margin
/// wins, the guess list and target are retained, and the round closes.
pub open spec fn end_step(owner: Seq<char>, g: GameView, caller: Seq<char>) -> Result<
    GameView,
    ContractError,
> {
    if caller != owner {
        Err(ContractError::Unauthorized {})
    } else if g.participants.len() == 0 {
        Err(ContractError::NoParticipants {})
    } else {
        let b = best_idx(g.participants, g.random_number.unwrap());
        Ok(
            GameView {
                participants: g.participants,
                random_number: g.random_number,
                winner: Some(g.participants[b].address),
                num_diff: margin(g.random_number.unwrap(), g.participants[b].choosed_number) as u32,
                status: Some(Status::Finished {}),
            },
        )
    }
}

/// The outcome of an operation, seen through the round's model.
pub open spec fn result_view(r: Result<GameState, ContractError>) -> Result<
    GameView,
    ContractError,
> {
    match r {
        Ok(g) => Ok(g@),
        Err(e) => Err(e),
    }
}

/// Creates the two singleton records: the admin owned by the caller, and the
/// round in its finished, empty, sentinel-target state.
pub fn instantiate(caller: String, _msg: InstantiateMsg) -> (r: (Admin, GameState))
    ensures
        r.0.owner@ == caller@,
        r.1@ == initial_game(),
{
    let admin = Admin { owner: caller };
    let init_game = GameState {
        participants: Vec::new(),
        random_number: Some(0),
        winner: None,
        num_diff: 0,
        status: Some(Status::Finished {}),
    };
    proof {
        assert(init_game@.participants =~= initial_game().participants);
        assert(init_game@ =~= initial_game());
    }
    (admin, init_game)
}

/// Records a guess: the round must be open, the guess in range, and the
/// caller's address not yet present; the new round is the old one with the
/// player appended.
pub fn try_choose_number(game: &GameState, caller: String, choosed_number: u8) -> (r: Result<
    GameState,
    ContractError,
>)
    ensures
        result_view(r) == choose_step(game@, caller@, choosed_number),
{
    let finished = match game.status {
        Some(Status::Finished {}) => true,
        Some(Status::Started {}) => false,
        None => false,
    };
    if finished {
        return Err(ContractError::FinishedGame {});
    }
    if choosed_number > 100 {
        return Err(ContractError::NumberOutOfRange {});
    }
    let n = game.participants.len();
    let mut i: usize = 0;
    while i < n
        invariant
            n == game.participants.len(),
            i <= n,
            game@.status != Some(Status::Finished {}),
            choosed_number <= 100,
            forall|k: int| 0 <= k < i ==> game@.participants[k].address != caller@,
        decreases n - i,
    {
        if game.participants[i].address == caller {
            proof {
                assert(game@.participants[i as int].address == caller@);
            }
            return Err(ContractError::PlayerAlreadyInGame {});
        }
        i += 1;
    }
    let player = Player { address: caller, choosed_number: choosed_number as u32 };
    let mut participants = game.participants.clone();
    proof {
        assert(participants@ =~= game.participants@);
    }
    participants.push(player);
    let updated = GameState {
        participants,
        random_number: game.random_number,
        winner: match &game.winner {
            Some(w) => Some(w.clone()),
            None => None,
        },
        num_diff: game.num_diff,
        status: game.status,
    };
    proof {
        assert(!has_address(game@.participants, player@.address));
        assert(updated@.participants =~= game@.participants.push(player@));
        assert(updated@ =~= choose_step(game@, player@.address, choosed_number).unwrap());
    }
    Ok(updated)
}

/// Relies on rand::thread_rng and rand::Rng::gen_range: a draw from the
/// nonempty inclusive range 0..=100 returns a value within that range.
#[verifier::external_body]
fn draw_target() -> (r: u32)
    ensures
        r <= 100,
{
    let mut rng = rand::thread_rng();
    rng.gen_range(0..=100)
}

/// Restarts the round against a given target: admin-gated; on success the
/// guess list is emptied, the winner cleared, and the round opened.
pub fn reset_game_with_target(admin: &Admin, caller: String, target: u32) -> (r: Result<
    GameState,
    ContractError,
>)
    ensures
        result_view(r) == reset_step(admin.owner@, caller@, target),
{
    if !(caller == admin.owner) {
        return Err(ContractError::Unauthorized {});
    }
    let fresh = GameState {
        participants: Vec::new(),
        random_number: Some(target),
        winner: None,
        num_diff: 0,
        status: Some(Status::Started {}),
    };
    proof {
        assert(fresh@.participants =~= Seq::<PlayerView>::empty());
        assert(fresh@ =~= reset_step(admin.owner@, caller@, target).unwrap());
    }
    Ok(fresh)
}

/// Restarts the round against a freshly drawn target. The draw is random, so
/// the contract promises only what holds of every outcome: some in-range
/// target was used, and the reset rules applied to it.
pub fn try_reset_game(admin: &Admin, caller: String) -> (r: Result<GameState, ContractError>)
    ensures
        exists|t: u32|
            t <= 100 && result_view(r) == #[trigger] reset_step(admin.owner@, caller@, t),
{
    let target = draw_target();
    let r = reset_game_with_target(admin, caller, target);
    proof {
        assert(target <= 100 && result_view(r) == reset_step(admin.owner@, caller@, target));
    }
    r
}

/// Absolute difference of two unsigned numbers.
fn diff_u32(a: u32, b: u32) -> (r: u32)
    ensures
        r == margin(a, b),
{
    if a >= b {
        a - b
    } else {
        b - a
    }
}

/// Closes the round and resolves the winner: admin-gated, defined only once
/// a target has been drawn, and rejected on an empty guess list. The winner
/// is the earliest participant with minimal margin; guesses and target are
/// kept unchanged. A round that is already finished may be ended again: it
/// simply re-scores the unchanged guess list.
pub fn try_end_game(admin: &Admin, game: &GameState, caller: String) -> (r: Result<
    GameState,
    ContractError,
>)
    requires
        game@.random_number is Some,
    ensures
        result_view(r) == end_step(admin.owner@, game@, caller@),
{
    if !(caller == admin.owner) {
        return Err(ContractError::Unauthorized {});
    }
    let n = game.participants.len();
    if n == 0 {
        return Err(ContractError::NoParticipants {});
    }
    let target = match game.random_number {
        Some(t) => t,
        None => 0,
    };
    let ghost psv = game@.participants;
    proof {
        assert(target == game@.random_number.unwrap());
        assert(psv.len() == n);
    }
    let mut best: usize = 0;
    let mut best_diff = diff_u32(target, game.participants[0].choosed_number);
    let mut i: usize = 1;
    proof {
        assert(psv.take(1).len() == 1);
        assert(best as int == best_idx(psv.take(1), target));
    }
    while i < n
        invariant
            n == game.participants.len(),
            psv == game@.participants,
            psv.len() == n,
            1 <= i <= n,
            (best as int) < i,
            best as int == best_idx(psv.take(i as int), target),
            best_diff == margin(target, psv[best as int].choosed_number),
        decreases n - i,
    {
        let d = diff_u32(target, game.participants[i].choosed_number);
        proof {
            let prefix = psv.take(i + 1);
            assert(prefix.drop_last() =~= psv.take(i as int));
            assert(prefix.last() == psv[i as int]);
        }
        if d < best_diff {
            best_diff = d;
            best = i;
        }
        i += 1;
    }
    proof {
        assert(psv.take(n as int) =~= psv);
    }
    let winner_addr = game.participants[best].address.clone();
    let participants = game.participants.clone();
    proof {
        assert(participants@ =~= game.participants@);
    }
    let closed = GameState {
        participants,
        random_number: game.random_number,
        winner: Some(winner_addr),
        num_diff: best_diff,
        status: Some(Status::Finished {}),
    };
    proof {
        assert(closed@.participants =~= psv);
        assert(closed@ =~= end_step(admin.owner@, game@, caller@).unwrap());
    }
    Ok(closed)
}

/// Runs the operation named by the message against the current records.
pub fn execute(admin: &Admin, game: &GameState, caller: String, msg: ExecuteMsg) -> (r: Result<
    GameState,
    ContractError,
>)
    requires
        msg is EndGame ==> game@.random_number is Some,
    ensures
        msg matches ExecuteMsg::ChooseNumber { number } ==> result_view(r) == choose_step(
            game@,
            caller@,
            number,
        ),
        msg is ResetGame ==> exists|t: u32|
            t <= 100 && result_view(r) == #[trigger] reset_step(admin.owner@, caller@, t),
        msg is EndGame ==> result_view(r) == end_step(admin.owner@, game@, caller@),
{
    match msg {
        ExecuteMsg::ChooseNumber { number } => try_choose_number(game, caller, number),
        ExecuteMsg::ResetGame {} => try_reset_game(admin, caller),
        ExecuteMsg::EndGame {} => try_end_game(admin, game, caller),
    }
}

/// Answers the round query with a copy of the current round record.
pub fn query_game_info(game: &GameState) -> (r: ResultGameInfo)
    ensures
        r.result@ == game@,
{
    ResultGameInfo { result: game.clone() }
}

/// Answers the admin query with a copy of the current admin record.
pub fn query_admin(admin: &Admin) -> (r: ResultAdmin)
    ensures
        r.result == *admin,
{
    ResultAdmin { result: admin.clone() }
}

} // verus!
