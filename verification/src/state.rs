use vstd::prelude::*;

verus! {

/// Lifecycle phase of the single round.
#[derive(Clone, Copy, Debug, PartialEq, Eq, Structural)]
pub enum Status {
    Started {},
    Finished {},
}

/// The registry of the one identity allowed to run privileged operations.
/// The owner is set once, at initialization, and never changes.
#[derive(Debug, PartialEq)]
pub struct Admin {
    pub owner: String,
}

/// One recorded guess: who made it and what number they chose.
/// Two players count as the same participant when their addresses match;
/// the chosen number plays no part in identity.
#[derive(Debug, PartialEq)]
pub struct Player {
    pub address: String,
    pub choosed_number: u32,
}

/// The single round record: the ordered guesses, the target drawn for the
/// round, and the result of the last resolution.
#[derive(Debug, PartialEq)]
pub struct GameState {
    pub participants: Vec<Player>,
    pub random_number: Option<u32>,
    pub winner: Option<String>,
    pub num_diff: u32,
    pub status: Option<Status>,
}

/// Mathematical model of a player: the address as a character sequence.
#[verifier::ext_equal]
pub ghost struct PlayerView {
    pub address: Seq<char>,
    pub choosed_number: u32,
}

/// Mathematical model of the round record.
#[verifier::ext_equal]
pub ghost struct GameView {
    pub participants: Seq<PlayerView>,
    pub random_number: Option<u32>,
    pub winner: Option<Seq<char>>,
    pub num_diff: u32,
    pub status: Option<Status>,
}

impl View for Player {
    type V = PlayerView;

    open spec fn view(&self) -> PlayerView {
        PlayerView { address: self.address@, choosed_number: self.choosed_number }
    }
}

impl View for GameState {
    type V = GameView;

    open spec fn view(&self) -> GameView {
        GameView {
            participants: self.participants@.map_values(|p: Player| p@),
            random_number: self.random_number,
            winner: match self.winner {
                Some(w) => Some(w@),
                None => None,
            },
            num_diff: self.num_diff,
            status: self.status,
        }
    }
}

/// Every recorded guess lies in the playable range 0..=100.
pub open spec fn guesses_in_range(ps: Seq<PlayerView>) -> bool {
    forall|i: int| 0 <= i < ps.len() ==> (#[trigger] ps[i]).choosed_number <= 100
}

/// No two participants share an address.
pub open spec fn distinct_addresses(ps: Seq<PlayerView>) -> bool {
    forall|i: int, j: int|
        0 <= i < j < ps.len() ==> (#[trigger] ps[i]).address != (#[trigger] ps[j]).address
}

/// Some participant already carries this address.
pub open spec fn has_address(ps: Seq<PlayerView>, addr: Seq<char>) -> bool {
    exists|i: int| 0 <= i < ps.len() && (#[trigger] ps[i]).address == addr
}

impl GameView {
    /// The round invariant: a target in range has been drawn, the lifecycle
    /// tag is set, and the guess list is in range and duplicate-free.
    pub open spec fn wf(self) -> bool {
        &&& self.random_number matches Some(t) && t <= 100
        &&& self.status is Some
        &&& guesses_in_range(self.participants)
        &&& distinct_addresses(self.participants)
    }
}

/// The round record as initialization creates it: finished, empty, with the
/// sentinel target 0 and no resolution data.
pub open spec fn initial_game() -> GameView {
    GameView {
        participants: Seq::empty(),
        random_number: Some(0u32),
        winner: None,
        num_diff: 0u32,
        status: Some(Status::Finished {}),
    }
}

impl Clone for Player {
    fn clone(&self) -> (r: Player)
        ensures
            r == *self,
    {
        Player { address: self.address.clone(), choosed_number: self.choosed_number }
    }
}

impl Clone for Admin {
    fn clone(&self) -> (r: Admin)
        ensures
            r == *self,
    {
        Admin { owner: self.owner.clone() }
    }
}

impl Clone for GameState {
    fn clone(&self) -> (r: GameState)
        ensures
            r@ == self@,
    {
        let participants = self.participants.clone();
        proof {
            assert(participants@ =~= self.participants@);
        }
        let winner = match &self.winner {
            Some(w) => Some(w.clone()),
            None => None,
        };
        let r = GameState {
            participants,
            random_number: self.random_number,
            winner,
            num_diff: self.num_diff,
            status: self.status,
        };
        proof {
            assert(r@ =~= self@);
        }
        r
    }
}

} // verus!
