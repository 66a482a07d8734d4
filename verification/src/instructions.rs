pub mod confirm_deposit;
pub mod deposit;
pub mod forfeit;
pub mod initialize;
pub mod settle;
