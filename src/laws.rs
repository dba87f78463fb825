use crate::address::{candidate_seeds, poll_seeds, Address};
use crate::instructions::{
    derived_at, initialize_candidate_post, initialize_poll_post, lemma_pow10_fits, pow10,
    vote_error, vote_post, Config, InitialzeCandidate, InitialzePoll, TokenTransfer, Vote,
};
use crate::state::{Candidate, ErrorCode, Poll};
use vstd::prelude::*;

verus! {

/// A poll created successfully sits at the address derived from the tag
/// `"poll"` and its id, and creating the same poll again on the accounts that
/// the first creation left fails and changes nothing.
pub proof fn poll_created_once(
    config: Config,
    pre: InitialzePoll,
    mid: InitialzePoll,
    post: InitialzePoll,
    poll_id: u64,
    description: Seq<char>,
    poll_start: u64,
    poll_end: u64,
    mint_address: Address,
    first: Result<(), ErrorCode>,
    description2: Seq<char>,
    poll_start2: u64,
    poll_end2: u64,
    mint_address2: Address,
    second: Result<(), ErrorCode>,
)
    requires
        initialize_poll_post(
            config,
            pre,
            mid,
            poll_id,
            description,
            poll_start,
            poll_end,
            mint_address,
            first,
        ),
        first is Ok,
        initialize_poll_post(
            config,
            mid,
            post,
            poll_id,
            description2,
            poll_start2,
            poll_end2,
            mint_address2,
            second,
        ),
    ensures
        derived_at(config, poll_seeds(poll_id), mid.poll_key),
        mid.poll is Some,
        second is Err,
        post == mid,
{
}

/// A successful registration raises the poll's candidate count by exactly one
/// and links the new candidate, stored at its derived address, to the poll's
/// address.
pub proof fn registration_counts_candidate(
    config: Config,
    pre: InitialzeCandidate,
    post: InitialzeCandidate,
    candidate_name: Seq<char>,
    poll_id: u64,
    party: Seq<char>,
    candidate_image: Seq<char>,
    symbol_image: Seq<char>,
    r: Result<(), ErrorCode>,
)
    requires
        initialize_candidate_post(
            config,
            pre,
            post,
            candidate_name,
            poll_id,
            party,
            candidate_image,
            symbol_image,
            r,
        ),
        r is Ok,
        pre.poll.candidate_amount < u64::MAX,
    ensures
        post.poll.candidate_amount == pre.poll.candidate_amount + 1,
        post.candidate is Some,
        post.candidate->0.poll == pre.poll_key,
        derived_at(config, poll_seeds(poll_id), pre.poll_key),
        derived_at(config, candidate_seeds(poll_id, candidate_name), pre.candidate_key),
{
}

/// Whether the vote's poll and candidate records sit at their derived
/// addresses and the candidate belongs to the poll.
pub open spec fn vote_accounts_valid(
    config: Config,
    ctx: Vote,
    candidate_name: Seq<char>,
    poll_id: u64,
) -> bool {
    &&& derived_at(config, poll_seeds(poll_id), ctx.poll_key)
    &&& derived_at(config, candidate_seeds(poll_id, candidate_name), ctx.candidate_key)
    &&& ctx.candidate.poll@ == ctx.poll_key@
}

/// A vote on valid accounts inside `[poll_start, poll_end)` in the poll's
/// token succeeds with exactly one transfer of `10^decimals` base units from
/// the voter to the vault, raises the candidate's and the poll's vote counts
/// by one each, and changes nothing else.
pub proof fn vote_in_window_counts_once(
    config: Config,
    pre: Vote,
    post: Vote,
    candidate_name: Seq<char>,
    poll_id: u64,
    now: i64,
    r: Result<TokenTransfer, ErrorCode>,
)
    requires
        vote_post(config, pre, post, candidate_name, poll_id, now, r),
        vote_accounts_valid(config, pre, candidate_name, poll_id),
        pre.poll.poll_start as int <= now as int,
        (now as int) < pre.poll.poll_end as int,
        pre.mint.key@ == pre.poll.mint_address@,
        pre.mint.decimals <= 19,
        pre.poll.total_votes < u64::MAX,
        pre.candidate.candidate_votes < u64::MAX,
    ensures
        r is Ok,
        r->Ok_0.from == pre.user_token_account,
        r->Ok_0.to == pre.vault,
        r->Ok_0.authority == pre.signer,
        r->Ok_0.mint == pre.mint.key,
        r->Ok_0.amount == pow10(pre.mint.decimals as nat),
        r->Ok_0.decimals == pre.mint.decimals,
        post.candidate.candidate_votes == pre.candidate.candidate_votes + 1,
        post.poll.total_votes == pre.poll.total_votes + 1,
        post == (Vote {
            poll: Poll { total_votes: post.poll.total_votes, ..pre.poll },
            candidate: Candidate { candidate_votes: post.candidate.candidate_votes, ..pre.candidate },
            ..pre
        }),
{
    lemma_pow10_fits(pre.mint.decimals as nat);
}

/// A vote on valid accounts at or after the poll's end fails with
/// `VotingEnded` and leaves every account as it was.
pub proof fn vote_after_end_refused(
    config: Config,
    pre: Vote,
    post: Vote,
    candidate_name: Seq<char>,
    poll_id: u64,
    now: i64,
    r: Result<TokenTransfer, ErrorCode>,
)
    requires
        vote_post(config, pre, post, candidate_name, poll_id, now, r),
        vote_accounts_valid(config, pre, candidate_name, poll_id),
        now as int >= pre.poll.poll_end as int,
    ensures
        r == Err::<TokenTransfer, ErrorCode>(ErrorCode::VotingEnded),
        post == pre,
{
}

/// A vote on valid accounts before the poll's start fails with
/// `VotingNotStarted` and leaves every account as it was, unless the poll has
/// already ended by then.
pub proof fn vote_before_start_refused(
    config: Config,
    pre: Vote,
    post: Vote,
    candidate_name: Seq<char>,
    poll_id: u64,
    now: i64,
    r: Result<TokenTransfer, ErrorCode>,
)
    requires
        vote_post(config, pre, post, candidate_name, poll_id, now, r),
        vote_accounts_valid(config, pre, candidate_name, poll_id),
        (now as int) < pre.poll.poll_start as int,
        (now as int) < pre.poll.poll_end as int,
    ensures
        r == Err::<TokenTransfer, ErrorCode>(ErrorCode::VotingNotStarted),
        post == pre,
{
}

/// A vote on valid accounts inside the poll's window in a token other than
/// the poll's fails with `InvalidMintAddress` and leaves every account as it
/// was.
pub proof fn vote_in_wrong_token_refused(
    config: Config,
    pre: Vote,
    post: Vote,
    candidate_name: Seq<char>,
    poll_id: u64,
    now: i64,
    r: Result<TokenTransfer, ErrorCode>,
)
    requires
        vote_post(config, pre, post, candidate_name, poll_id, now, r),
        vote_accounts_valid(config, pre, candidate_name, poll_id),
        pre.poll.poll_start as int <= now as int,
        (now as int) < pre.poll.poll_end as int,
        pre.mint.key@ != pre.poll.mint_address@,
    ensures
        r == Err::<TokenTransfer, ErrorCode>(ErrorCode::InvalidMintAddress),
        post == pre,
{
}

/// A refused vote, whatever the reason, leaves every account as it was.
pub proof fn refused_vote_changes_nothing(
    config: Config,
    pre: Vote,
    post: Vote,
    candidate_name: Seq<char>,
    poll_id: u64,
    now: i64,
    r: Result<TokenTransfer, ErrorCode>,
)
    requires
        vote_post(config, pre, post, candidate_name, poll_id, now, r),
        r is Err,
    ensures
        post == pre,
        vote_error(config, pre, candidate_name, poll_id, now) == Some(r->Err_0),
{
}

} // verus!
