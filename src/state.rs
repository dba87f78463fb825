use crate::address::Address;
use vstd::prelude::*;

verus! {

/// The longest poll description, image link or symbol link, in bytes.
pub const MAX_TEXT_LEN: usize = 280;

/// The longest candidate name or party name, in bytes.
pub const MAX_NAME_LEN: usize = 32;

/// The durable record of one poll.
#[derive(Clone, Debug)]
pub struct Poll {
    pub poll_id: u64,
    pub description: String,
    pub poll_start: u64,
    pub poll_end: u64,
    pub candidate_amount: u64,
    pub total_votes: u64,
    pub mint_address: Address,
}

/// The durable record of one candidate of a poll.
#[derive(Clone, Debug)]
pub struct Candidate {
    pub poll: Address,
    pub candidate_name: String,
    pub candidate_image: String,
    pub candidate_votes: u64,
    pub party: String,
    pub symbol_image: String,
}

/// Why an operation was refused. A refused operation changes nothing.
#[derive(Clone, Copy, Debug, PartialEq, Eq, Structural)]
pub enum ErrorCode {
    /// The vote comes before the poll's start time.
    VotingNotStarted,
    /// The vote comes at or after the poll's end time.
    VotingEnded,
    /// The vote is cast in a token other than the poll's.
    InvalidMintAddress,
    /// The poll is created by a signer other than the administrator.
    Unauthorized,
    /// A supplied record address is not the one derived from the operation's seeds.
    ConstraintSeeds,
    /// The candidate does not belong to the supplied poll.
    ConstraintHasOne,
    /// A record is created at an address that already holds one.
    AccountAlreadyInitialized,
    /// A text field is longer than its limit.
    StringTooLong,
}

/// The length in bytes of the UTF-8 encoding of `s`.
pub open spec fn byte_len(s: Seq<char>) -> nat {
    vstd::utf8::encode_utf8(s).len()
}

/// Whether `s` fits in `max` bytes, checked on the string's byte length.
pub fn fits(s: &String, max: usize) -> (r: bool)
    ensures
        r == (byte_len(s@) <= max),
{
    let t: &str = s.as_str();
    let b: &[u8] = t.as_bytes();
    b.len() <= max
}

} // verus!
