//! Token-weighted polls: creating polls, registering candidates and casting
//! votes, each as a checked state transition over the accounts it touches.
//!
//! `address` derives where the records live, `state` holds the records and
//! the error codes, `instructions` the three operations with their contracts,
//! and `laws` what the operations guarantee together.

pub mod address;
pub mod instructions;
pub mod laws;
pub mod state;

pub use address::{candidate_address, poll_address, Address};
pub use instructions::{
    initialize_candidate, initialize_poll, one_token_amount, vote, Config, InitialzeCandidate,
    InitialzePoll, Mint, TokenTransfer, Vote,
};
pub use state::{fits, Candidate, ErrorCode, Poll, MAX_NAME_LEN, MAX_TEXT_LEN};
