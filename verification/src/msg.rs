use vstd::prelude::*;

use crate::state::Admin;
use crate::state::GameState;

verus! {

/// Payload of the initialization call.
#[derive(Debug, PartialEq)]
pub struct InstantiateMsg {
    pub name: String,
}

/// The three state-mutating operations.
#[derive(Clone, Copy, Debug, PartialEq, Eq, Structural)]
pub enum ExecuteMsg {
    ResetGame {},
    ChooseNumber { number: u8 },
    EndGame {},
}

/// The two read-only queries.
#[derive(Clone, Copy, Debug, PartialEq, Eq, Structural)]
pub enum QueryMsg {
    GetGameInfo {},
    GetAdminInfo {},
}

/// A plain counter payload kept for wire compatibility.
#[derive(Clone, Copy, Debug, PartialEq, Eq, Structural)]
pub struct CountResponse {
    pub count: i32,
}

/// Answer to the round query: the current round record.
#[derive(Debug, PartialEq)]
pub struct ResultGameInfo {
    pub result: GameState,
}

/// Answer to the admin query: the current admin record.
#[derive(Debug, PartialEq)]
pub struct ResultAdmin {
    pub result: Admin,
}

} // verus!
