use crate::address::{
    candidate_address, candidate_seeds, poll_address, poll_seeds, program_address, Address,
};
use crate::state::{byte_len, fits, Candidate, ErrorCode, Poll, MAX_NAME_LEN, MAX_TEXT_LEN};
use vstd::prelude::*;

verus! {

/// What a deployment fixes: the program's own id, under which record
/// addresses are derived, and the one identity that may create polls.
#[derive(Clone, Copy, Debug)]
pub struct Config {
    pub program_id: Address,
    pub admin: Address,
}

/// The accounts of a poll creation: the signer, and the poll account as the
/// ledger resolved it (`None` while nothing is stored there).
#[derive(Clone, Debug)]
pub struct InitialzePoll {
    pub signer: Address,
    pub poll_key: Address,
    pub poll: Option<Poll>,
}

/// The accounts of a candidate registration: the signer, the existing poll,
/// and the candidate account (`None` while nothing is stored there).
#[derive(Clone, Debug)]
pub struct InitialzeCandidate {
    pub signer: Address,
    pub poll_key: Address,
    pub poll: Poll,
    pub candidate_key: Address,
    pub candidate: Option<Candidate>,
}

/// A token type: its identity and the number of decimals of one whole unit.
#[derive(Clone, Copy, Debug)]
pub struct Mint {
    pub key: Address,
    pub decimals: u8,
}

/// The accounts of a vote: the voter, the token type offered, the poll and
/// the candidate, the poll's vault and the voter's token account.
#[derive(Clone, Debug)]
pub struct Vote {
    pub signer: Address,
    pub mint: Mint,
    pub poll_key: Address,
    pub poll: Poll,
    pub candidate_key: Address,
    pub candidate: Candidate,
    pub vault: Address,
    pub user_token_account: Address,
}

/// A checked token transfer that the ledger's token facility is to carry out
/// in the same transaction as the vote that asked for it.
#[derive(Clone, Copy, Debug)]
pub struct TokenTransfer {
    pub from: Address,
    pub to: Address,
    pub authority: Address,
    pub mint: Address,
    pub amount: u64,
    pub decimals: u8,
}

impl PartialEq for TokenTransfer {
    fn eq(&self, other: &TokenTransfer) -> (r: bool) {
        self.from == other.from && self.to == other.to && self.authority == other.authority
            && self.mint == other.mint && self.amount == other.amount && self.decimals
            == other.decimals
    }
}

impl Eq for TokenTransfer {

}

impl vstd::std_specs::cmp::PartialEqSpecImpl for TokenTransfer {
    open spec fn obeys_eq_spec() -> bool {
        true
    }

    open spec fn eq_spec(&self, other: &TokenTransfer) -> bool {
        &&& self.from@ == other.from@
        &&& self.to@ == other.to@
        &&& self.authority@ == other.authority@
        &&& self.mint@ == other.mint@
        &&& self.amount == other.amount
        &&& self.decimals == other.decimals
    }
}

/// Whether `key` is the address derived from `seeds` under the program id.
pub open spec fn derived_at(config: Config, seeds: Seq<Seq<u8>>, key: Address) -> bool {
    program_address(seeds, config.program_id@) == Some(key@)
}

/// The first check that a poll creation fails, in the order they are made.
pub open spec fn poll_creation_error(
    config: Config,
    ctx: InitialzePoll,
    poll_id: u64,
    description: Seq<char>,
) -> Option<ErrorCode> {
    if ctx.signer@ != config.admin@ {
        Some(ErrorCode::Unauthorized)
    } else if !derived_at(config, poll_seeds(poll_id), ctx.poll_key) {
        Some(ErrorCode::ConstraintSeeds)
    } else if ctx.poll is Some {
        Some(ErrorCode::AccountAlreadyInitialized)
    } else if byte_len(description) > MAX_TEXT_LEN {
        Some(ErrorCode::StringTooLong)
    } else {
        None
    }
}

/// How a poll creation relates the accounts before and after it to its result.
pub open spec fn initialize_poll_post(
    config: Config,
    pre: InitialzePoll,
    post: InitialzePoll,
    poll_id: u64,
    description: Seq<char>,
    poll_start: u64,
    poll_end: u64,
    mint_address: Address,
    r: Result<(), ErrorCode>,
) -> bool {
    match poll_creation_error(config, pre, poll_id, description) {
        Some(e) => r == Err::<(), ErrorCode>(e) && post == pre,
        None => {
            &&& r is Ok
            &&& post.signer == pre.signer
            &&& post.poll_key == pre.poll_key
            &&& post.poll is Some
            &&& post.poll->0.poll_id == poll_id
            &&& post.poll->0.description@ == description
            &&& post.poll->0.poll_start == poll_start
            &&& post.poll->0.poll_end == poll_end
            &&& post.poll->0.candidate_amount == 0
            &&& post.poll->0.total_votes == 0
            &&& post.poll->0.mint_address == mint_address
        },
    }
}

/// Creates the record of poll `poll_id` in the empty account at its derived
/// address. Only the administrator may do so; the times are stored as given.
pub fn initialize_poll(
    config: &Config,
    ctx: &mut InitialzePoll,
    poll_id: u64,
    poll_description: String,
    poll_start: u64,
    poll_end: u64,
    mint_address: Address,
) -> (r: Result<(), ErrorCode>)
    ensures
        initialize_poll_post(
            *config,
            *old(ctx),
            *final(ctx),
            poll_id,
            poll_description@,
            poll_start,
            poll_end,
            mint_address,
            r,
        ),
{
    if !(ctx.signer == config.admin) {
        return Err(ErrorCode::Unauthorized);
    }
    if let Err(e) = check_poll_key(config, poll_id, &ctx.poll_key) {
        return Err(e);
    }
    if ctx.poll.is_some() {
        return Err(ErrorCode::AccountAlreadyInitialized);
    }
    if !fits(&poll_description, MAX_TEXT_LEN) {
        return Err(ErrorCode::StringTooLong);
    }
    ctx.poll = Some(
        Poll {
            poll_id,
            description: poll_description,
            poll_start,
            poll_end,
            candidate_amount: 0,
            total_votes: 0,
            mint_address,
        },
    );
    Ok(())
}

/// The first check that a candidate registration fails, in the order they
/// are made.
pub open spec fn candidate_registration_error(
    config: Config,
    ctx: InitialzeCandidate,
    candidate_name: Seq<char>,
    poll_id: u64,
    party: Seq<char>,
    candidate_image: Seq<char>,
    symbol_image: Seq<char>,
) -> Option<ErrorCode> {
    if !derived_at(config, poll_seeds(poll_id), ctx.poll_key) {
        Some(ErrorCode::ConstraintSeeds)
    } else if !derived_at(config, candidate_seeds(poll_id, candidate_name), ctx.candidate_key) {
        Some(ErrorCode::ConstraintSeeds)
    } else if ctx.candidate is Some {
        Some(ErrorCode::AccountAlreadyInitialized)
    } else if byte_len(candidate_name) > MAX_NAME_LEN || byte_len(party) > MAX_NAME_LEN
        || byte_len(candidate_image) > MAX_TEXT_LEN || byte_len(symbol_image) > MAX_TEXT_LEN {
        Some(ErrorCode::StringTooLong)
    } else {
        None
    }
}

/// How a candidate registration relates the accounts before and after it to
/// its result.
pub open spec fn initialize_candidate_post(
    config: Config,
    pre: InitialzeCandidate,
    post: InitialzeCandidate,
    candidate_name: Seq<char>,
    poll_id: u64,
    party: Seq<char>,
    candidate_image: Seq<char>,
    symbol_image: Seq<char>,
    r: Result<(), ErrorCode>,
) -> bool {
    match candidate_registration_error(
        config,
        pre,
        candidate_name,
        poll_id,
        party,
        candidate_image,
        symbol_image,
    ) {
        Some(e) => r == Err::<(), ErrorCode>(e) && post == pre,
        None => {
            &&& r is Ok
            &&& post.signer == pre.signer
            &&& post.poll_key == pre.poll_key
            &&& post.candidate_key == pre.candidate_key
            &&& post.poll == (Poll { candidate_amount: (pre.poll.candidate_amount + 1) as u64, ..pre.poll })
            &&& post.candidate is Some
            &&& post.candidate->0.poll == pre.poll_key
            &&& post.candidate->0.candidate_name@ == candidate_name
            &&& post.candidate->0.party@ == party
            &&& post.candidate->0.candidate_image@ == candidate_image
            &&& post.candidate->0.symbol_image@ == symbol_image
            &&& post.candidate->0.candidate_votes == 0
        },
    }
}

/// Checks that `key` is the address derived for poll `poll_id`.
fn check_poll_key(config: &Config, poll_id: u64, key: &Address) -> (r: Result<(), ErrorCode>)
    ensures
        r is Ok <==> derived_at(*config, poll_seeds(poll_id), *key),
        r is Err ==> r == Err::<(), ErrorCode>(ErrorCode::ConstraintSeeds),
{
    match poll_address(&config.program_id, poll_id) {
        Some(k) => {
            if k == *key {
                Ok(())
            } else {
                Err(ErrorCode::ConstraintSeeds)
            }
        },
        None => Err(ErrorCode::ConstraintSeeds),
    }
}

/// Checks that `key` is the address derived for candidate `name` of poll
/// `poll_id`.
fn check_candidate_key(config: &Config, poll_id: u64, name: &String, key: &Address) -> (r: Result<
    (),
    ErrorCode,
>)
    ensures
        r is Ok <==> derived_at(*config, candidate_seeds(poll_id, name@), *key),
        r is Err ==> r == Err::<(), ErrorCode>(ErrorCode::ConstraintSeeds),
{
    match candidate_address(&config.program_id, poll_id, name) {
        Some(k) => {
            if k == *key {
                Ok(())
            } else {
                Err(ErrorCode::ConstraintSeeds)
            }
        },
        None => Err(ErrorCode::ConstraintSeeds),
    }
}

/// Registers candidate `candidate_name` under the existing poll `poll_id`, in
/// the empty account at the candidate's derived address, and counts it in the
/// poll. Any signer may register, at any time.
pub fn initialize_candidate(
    config: &Config,
    ctx: &mut InitialzeCandidate,
    candidate_name: String,
    poll_id: u64,
    party: String,
    candidate_image: String,
    symbol_image: String,
) -> (r: Result<(), ErrorCode>)
    requires
        old(ctx).poll.candidate_amount < u64::MAX,
    ensures
        initialize_candidate_post(
            *config,
            *old(ctx),
            *final(ctx),
            candidate_name@,
            poll_id,
            party@,
            candidate_image@,
            symbol_image@,
            r,
        ),
{
    if let Err(e) = check_poll_key(config, poll_id, &ctx.poll_key) {
        return Err(e);
    }
    if let Err(e) = check_candidate_key(config, poll_id, &candidate_name, &ctx.candidate_key) {
        return Err(e);
    }
    if ctx.candidate.is_some() {
        return Err(ErrorCode::AccountAlreadyInitialized);
    }
    if !fits(&candidate_name, MAX_NAME_LEN) || !fits(&party, MAX_NAME_LEN) || !fits(
        &candidate_image,
        MAX_TEXT_LEN,
    ) || !fits(&symbol_image, MAX_TEXT_LEN) {
        return Err(ErrorCode::StringTooLong);
    }
    ctx.poll.candidate_amount = ctx.poll.candidate_amount + 1;
    ctx.candidate = Some(
        Candidate {
            poll: ctx.poll_key,
            candidate_name,
            candidate_image,
            candidate_votes: 0,
            party,
            symbol_image,
        },
    );
    Ok(())
}

/// `10` to the power `n`.
pub open spec fn pow10(n: nat) -> nat
    decreases n,
{
    if n == 0 {
        1
    } else {
        10 * pow10((n - 1) as nat)
    }
}

proof fn lemma_pow10_monotonic(i: nat, j: nat)
    requires
        i <= j,
    ensures
        pow10(i) <= pow10(j),
    decreases j,
{
    if i < j {
        lemma_pow10_monotonic(i, (j - 1) as nat);
    }
}

/// `10^n` for `n <= 19` fits in a `u64`.
pub proof fn lemma_pow10_fits(n: nat)
    requires
        n <= 19,
    ensures
        pow10(n) <= pow10(19),
        pow10(19) == 10000000000000000000nat,
{
    reveal_with_fuel(pow10, 20);
    lemma_pow10_monotonic(n, 19);
}

/// The number of base units in one whole unit of a token with `decimals`
/// decimals.
pub fn one_token_amount(decimals: u8) -> (r: u64)
    requires
        decimals <= 19,
    ensures
        r == pow10(decimals as nat),
{
    proof {
        lemma_pow10_fits(19);
    }
    let mut r: u64 = 1;
    let mut i: u8 = 0;
    while i < decimals
        invariant
            i <= decimals <= 19,
            r == pow10(i as nat),
            pow10(19) == 10000000000000000000nat,
        decreases decimals - i,
    {
        proof {
            lemma_pow10_monotonic((i + 1) as nat, 19);
        }
        r = r * 10;
        i = i + 1;
    }
    r
}

/// The first check that a vote fails at time `now`, in the order they are
/// made: the record addresses, the end and the start of the poll, the token
/// type, and the candidate's link to the poll.
pub open spec fn vote_error(
    config: Config,
    ctx: Vote,
    candidate_name: Seq<char>,
    poll_id: u64,
    now: i64,
) -> Option<ErrorCode> {
    if !derived_at(config, poll_seeds(poll_id), ctx.poll_key) {
        Some(ErrorCode::ConstraintSeeds)
    } else if !derived_at(config, candidate_seeds(poll_id, candidate_name), ctx.candidate_key) {
        Some(ErrorCode::ConstraintSeeds)
    } else if now as int >= ctx.poll.poll_end as int {
        Some(ErrorCode::VotingEnded)
    } else if (now as int) < ctx.poll.poll_start as int {
        Some(ErrorCode::VotingNotStarted)
    } else if ctx.mint.key@ != ctx.poll.mint_address@ {
        Some(ErrorCode::InvalidMintAddress)
    } else if ctx.candidate.poll@ != ctx.poll_key@ {
        Some(ErrorCode::ConstraintHasOne)
    } else {
        None
    }
}

/// The transfer of one whole token unit from the voter's token account to the
/// poll's vault, signed by the voter.
pub open spec fn vote_transfer(ctx: Vote) -> TokenTransfer {
    TokenTransfer {
        from: ctx.user_token_account,
        to: ctx.vault,
        authority: ctx.signer,
        mint: ctx.mint.key,
        amount: pow10(ctx.mint.decimals as nat) as u64,
        decimals: ctx.mint.decimals,
    }
}

/// The accounts after an admitted vote: the candidate's and the poll's
/// counters one higher, all else as it was.
pub open spec fn voted(pre: Vote) -> Vote {
    Vote {
        poll: Poll { total_votes: (pre.poll.total_votes + 1) as u64, ..pre.poll },
        candidate: Candidate {
            candidate_votes: (pre.candidate.candidate_votes + 1) as u64,
            ..pre.candidate
        },
        ..pre
    }
}

/// How a vote at time `now` relates the accounts before and after it to its
/// result.
pub open spec fn vote_post(
    config: Config,
    pre: Vote,
    post: Vote,
    candidate_name: Seq<char>,
    poll_id: u64,
    now: i64,
    r: Result<TokenTransfer, ErrorCode>,
) -> bool {
    match vote_error(config, pre, candidate_name, poll_id, now) {
        Some(e) => r == Err::<TokenTransfer, ErrorCode>(e) && post == pre,
        None => r == Ok::<TokenTransfer, ErrorCode>(vote_transfer(pre)) && post == voted(pre),
    }
}

/// Casts one vote for the candidate at time `now`, read from the ledger's
/// clock. On success it counts the vote and returns the transfer of one whole
/// token unit into the poll's vault that pays for it; the ledger commits the
/// two together or neither.
pub fn vote(
    config: &Config,
    ctx: &mut Vote,
    candidate_name: String,
    poll_id: u64,
    now: i64,
) -> (r: Result<TokenTransfer, ErrorCode>)
    requires
        old(ctx).mint.decimals <= 19,
        old(ctx).poll.total_votes < u64::MAX,
        old(ctx).candidate.candidate_votes < u64::MAX,
    ensures
        vote_post(*config, *old(ctx), *final(ctx), candidate_name@, poll_id, now, r),
{
    if let Err(e) = check_poll_key(config, poll_id, &ctx.poll_key) {
        return Err(e);
    }
    if let Err(e) = check_candidate_key(config, poll_id, &candidate_name, &ctx.candidate_key) {
        return Err(e);
    }
    if now >= 0 && now as u64 >= ctx.poll.poll_end {
        return Err(ErrorCode::VotingEnded);
    }
    if now < 0 || (now as u64) < ctx.poll.poll_start {
        return Err(ErrorCode::VotingNotStarted);
    }
    if !(ctx.mint.key == ctx.poll.mint_address) {
        return Err(ErrorCode::InvalidMintAddress);
    }
    if !(ctx.candidate.poll == ctx.poll_key) {
        return Err(ErrorCode::ConstraintHasOne);
    }
    let amount = one_token_amount(ctx.mint.decimals);
    ctx.candidate.candidate_votes = ctx.candidate.candidate_votes + 1;
    ctx.poll.total_votes = ctx.poll.total_votes + 1;
    Ok(
        TokenTransfer {
            from: ctx.user_token_account,
            to: ctx.vault,
            authority: ctx.signer,
            mint: ctx.mint.key,
            amount,
            decimals: ctx.mint.decimals,
        },
    )
}

} // verus!
