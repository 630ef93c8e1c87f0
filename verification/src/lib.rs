mod contract;
mod error;
mod laws;
mod msg;
mod state;

pub use laws::GameOp;
pub use laws::SystemView;
pub use laws::game_step;
pub use laws::lemma_admin_constant;
pub use laws::lemma_best_idx_minimal;
pub use laws::lemma_closed_round_rejected;
pub use laws::lemma_guess_range_enforced;
pub use laws::lemma_no_duplicate_participants;
pub use laws::lemma_reset_clears_state;
pub use laws::lemma_run_preserves_wf;
pub use laws::lemma_winner_correct;
pub use laws::op_in_range;
pub use laws::run_system;
pub use laws::system_step;

pub use contract::best_idx;
pub use contract::choose_step;
pub use contract::end_step;
pub use contract::execute;
pub use contract::instantiate;
pub use contract::margin;
pub use contract::query_admin;
pub use contract::query_game_info;
pub use contract::reset_game_with_target;
pub use contract::reset_step;
pub use contract::result_view;
pub use contract::try_choose_number;
pub use contract::try_end_game;
pub use contract::try_reset_game;
pub use error::ContractError;
pub use msg::CountResponse;
pub use msg::ExecuteMsg;
pub use msg::InstantiateMsg;
pub use msg::QueryMsg;
pub use msg::ResultAdmin;
pub use msg::ResultGameInfo;
pub use state::Admin;
pub use state::GameState;
pub use state::GameView;
pub use state::Player;
pub use state::PlayerView;
pub use state::Status;
pub use state::distinct_addresses;
pub use state::guesses_in_range;
pub use state::has_address;
pub use state::initial_game;
