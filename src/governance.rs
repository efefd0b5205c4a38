use vstd::prelude::*;
use crate::community::Community;
use crate::text::{byte_len, utf8_len};
use crate::error::SocialChainError;
use crate::pubkey::Pubkey;

verus! {

/// Longest voting window a proposal may have: thirty days, in seconds.
pub const MAX_VOTING_DURATION: i64 = 2592000;
/// Largest opaque execution payload a proposal may carry, in bytes.
pub const MAX_EXECUTION_DATA_LEN: usize = 1024;

/// What an approved proposal authorizes.
#[derive(Debug, Clone, Copy, PartialEq, Eq, Structural)]
pub enum ProposalType {
    Transfer,
    ConfigChange,
    MemberAction,
    Custom,
}

/// Lifecycle: `Active` goes to `Approved` or `Rejected`; `Approved` goes to `Executed`;
/// anything but `Executed` may go to `Cancelled`.
#[derive(Debug, Clone, Copy, PartialEq, Eq, Structural)]
pub enum ProposalStatus {
    Active,
    Approved,
    Rejected,
    Executed,
    Cancelled,
}

#[derive(Debug, Clone, Copy, PartialEq, Eq, Structural)]
pub enum VoteType {
    Yes,
    No,
    Abstain,
}

/// A governance item with its running vote tally.
pub struct Proposal {
    pub community: Pubkey,
    pub proposer: Pubkey,
    pub title: String,
    pub description: String,
    pub proposal_type: ProposalType,
    pub execution_data: Vec<u8>,
    pub status: ProposalStatus,
    pub yes_votes: u64,
    pub no_votes: u64,
    pub abstain_votes: u64,
    pub total_voters: u32,
    pub voting_ends_at: i64,
    pub created_at: i64,
    pub executed_at: Option<i64>,
    /// Set once the treasury has paid out under this proposal; an executed transfer
    /// proposal authorizes a single withdrawal.
    pub withdrawn: bool,
    pub bump: u8,
}

impl Proposal {
    /// The window ends after creation, `executed_at` is present exactly in the `Executed`
    /// state, and only an executed transfer proposal can have released funds.
    pub open spec fn wf(&self) -> bool {
        &&& self.voting_ends_at > self.created_at
        &&& (self.executed_at is Some <==> self.status == ProposalStatus::Executed)
        &&& (self.withdrawn ==> self.status == ProposalStatus::Executed
            && self.proposal_type == ProposalType::Transfer)
    }
}

/// One voter's ballot on one proposal, with the voting power it carried when cast.
#[derive(Debug, Clone, Copy, PartialEq, Eq, Structural)]
pub struct Vote {
    pub proposal: Pubkey,
    pub voter: Pubkey,
    pub vote_type: VoteType,
    pub voting_power: u64,
    pub voted_at: i64,
    pub bump: u8,
}

pub open spec fn is_vote_of(v: Vote, proposal: Pubkey, voter: Pubkey) -> bool {
    v.proposal == proposal && v.voter == voter
}

/// Whether some ballot in `votes` belongs to the pair `(proposal, voter)`.
pub open spec fn has_vote(votes: Seq<Vote>, proposal: Pubkey, voter: Pubkey) -> bool {
    exists|i: int| 0 <= i < votes.len() && #[trigger] is_vote_of(votes[i], proposal, voter)
}

/// No two ballots share a `(proposal, voter)` pair.
pub open spec fn unique_ballots(votes: Seq<Vote>) -> bool {
    forall|i: int, j: int|
        #![trigger votes[i], votes[j]]
        0 <= i < votes.len() && 0 <= j < votes.len() && i != j ==> !is_vote_of(
            votes[i],
            votes[j].proposal,
            votes[j].voter,
        )
}

/// Total power of the ballots of kind `t` on `proposal`.
pub open spec fn power_of(votes: Seq<Vote>, proposal: Pubkey, t: VoteType) -> nat
    decreases votes.len(),
{
    if votes.len() == 0 {
        0
    } else {
        let last = votes.last();
        power_of(votes.drop_last(), proposal, t) + if last.proposal == proposal && last.vote_type
            == t {
            last.voting_power as nat
        } else {
            0
        }
    }
}

/// Total power of all ballots on `proposal`, whatever their kind.
pub open spec fn total_power(votes: Seq<Vote>, proposal: Pubkey) -> nat
    decreases votes.len(),
{
    if votes.len() == 0 {
        0
    } else {
        let last = votes.last();
        total_power(votes.drop_last(), proposal) + if last.proposal == proposal {
            last.voting_power as nat
        } else {
            0
        }
    }
}

/// Number of ballots on `proposal`.
pub open spec fn voter_count(votes: Seq<Vote>, proposal: Pubkey) -> nat
    decreases votes.len(),
{
    if votes.len() == 0 {
        0
    } else {
        voter_count(votes.drop_last(), proposal) + if votes.last().proposal == proposal {
            1nat
        } else {
            0nat
        }
    }
}

/// The proposal stored under `key` carries exactly the tally of the ballots cast on it.
pub open spec fn tally_matches(p: &Proposal, key: Pubkey, votes: Seq<Vote>) -> bool {
    &&& p.yes_votes == power_of(votes, key, VoteType::Yes)
    &&& p.no_votes == power_of(votes, key, VoteType::No)
    &&& p.abstain_votes == power_of(votes, key, VoteType::Abstain)
    &&& p.total_voters == voter_count(votes, key)
}

/// The store of cast ballots, keyed by `(proposal, voter)`; a key is never written twice.
pub struct VoteRecords {
    votes: Vec<Vote>,
}

impl View for VoteRecords {
    type V = Seq<Vote>;

    closed spec fn view(&self) -> Seq<Vote> {
        self.votes@
    }
}

impl VoteRecords {
    pub open spec fn wf(&self) -> bool {
        unique_ballots(self@)
    }

    pub fn new() -> (r: VoteRecords)
        ensures
            r@ == Seq::<Vote>::empty(),
            r.wf(),
    {
        VoteRecords { votes: Vec::new() }
    }

    pub fn len(&self) -> (r: usize)
        ensures
            r == self@.len(),
    {
        self.votes.len()
    }

    /// The ballot cast by `voter` on `proposal`, if there is one.
    pub fn find(&self, proposal: Pubkey, voter: Pubkey) -> (r: Option<Vote>)
        ensures
            r is None <==> !has_vote(self@, proposal, voter),
            r matches Some(v) ==> is_vote_of(v, proposal, voter) && self@.contains(v),
    {
        let mut i: usize = 0;
        while i < self.votes.len()
            invariant
                0 <= i <= self.votes@.len(),
                forall|k: int| 0 <= k < i ==> !#[trigger] is_vote_of(self@[k], proposal, voter),
            decreases self.votes@.len() - i,
        {
            let v = self.votes[i];
            if v.proposal == proposal && v.voter == voter {
                assert(is_vote_of(self@[i as int], proposal, voter));
                return Some(v);
            }
            i = i + 1;
        }
        None
    }
}

pub open spec fn valid_title(title: Seq<char>) -> bool {
    3 <= byte_len(title) <= 100
}

pub open spec fn valid_description(description: Seq<char>) -> bool {
    10 <= byte_len(description) <= 500
}

pub open spec fn valid_voting_duration(duration: i64) -> bool {
    0 < duration <= MAX_VOTING_DURATION
}

/// The error `create_proposal` reports for these inputs, checked in this order.
pub open spec fn create_proposal_error(
    title: Seq<char>,
    description: Seq<char>,
    data_len: nat,
    voting_duration: i64,
    now: i64,
) -> Option<SocialChainError> {
    if !valid_title(title) {
        Some(SocialChainError::InvalidProposalTitle)
    } else if !valid_description(description) {
        Some(SocialChainError::InvalidProposalDescription)
    } else if !valid_voting_duration(voting_duration) {
        Some(SocialChainError::InvalidVotingPeriod)
    } else if data_len > MAX_EXECUTION_DATA_LEN {
        Some(SocialChainError::InvalidInput)
    } else if now + voting_duration > i64::MAX {
        Some(SocialChainError::ArithmeticOverflow)
    } else {
        None
    }
}

/// Opens a proposal for voting from `now` until `now + voting_duration`, with an empty tally.
pub fn create_proposal(
    community: Pubkey,
    proposer: Pubkey,
    title: String,
    description: String,
    proposal_type: ProposalType,
    execution_data: Vec<u8>,
    voting_duration: i64,
    now: i64,
    bump: u8,
) -> (r: Result<Proposal, SocialChainError>)
    ensures
        match create_proposal_error(
            title@,
            description@,
            execution_data@.len(),
            voting_duration,
            now,
        ) {
            Some(e) => r == Err::<Proposal, SocialChainError>(e),
            None => r is Ok,
        },
        r matches Ok(p) ==> {
            &&& p.wf()
            &&& p.community == community
            &&& p.proposer == proposer
            &&& p.title@ == title@
            &&& p.description@ == description@
            &&& p.proposal_type == proposal_type
            &&& p.execution_data@ == execution_data@
            &&& p.status == ProposalStatus::Active
            &&& p.yes_votes == 0
            &&& p.no_votes == 0
            &&& p.abstain_votes == 0
            &&& p.total_voters == 0
            &&& p.voting_ends_at == now + voting_duration
            &&& p.created_at == now
            &&& p.executed_at is None
            &&& !p.withdrawn
            &&& p.bump == bump
        },
{
    let title_len = utf8_len(&title);
    if title_len < 3 || title_len > 100 {
        return Err(SocialChainError::InvalidProposalTitle);
    }
    let description_len = utf8_len(&description);
    if description_len < 10 || description_len > 500 {
        return Err(SocialChainError::InvalidProposalDescription);
    }
    if voting_duration <= 0 || voting_duration > MAX_VOTING_DURATION {
        return Err(SocialChainError::InvalidVotingPeriod);
    }
    if execution_data.len() > MAX_EXECUTION_DATA_LEN {
        return Err(SocialChainError::InvalidInput);
    }
    let voting_ends_at = match now.checked_add(voting_duration) {
        Some(t) => t,
        None => {
            return Err(SocialChainError::ArithmeticOverflow);
        },
    };
    Ok(Proposal {
        community,
        proposer,
        title,
        description,
        proposal_type,
        execution_data,
        status: ProposalStatus::Active,
        yes_votes: 0,
        no_votes: 0,
        abstain_votes: 0,
        total_voters: 0,
        voting_ends_at,
        created_at: now,
        executed_at: None,
        withdrawn: false,
        bump,
    })
}

/// The accumulator of `p` that a ballot of kind `t` adds to.
pub open spec fn tally_of(p: &Proposal, t: VoteType) -> u64 {
    match t {
        VoteType::Yes => p.yes_votes,
        VoteType::No => p.no_votes,
        VoteType::Abstain => p.abstain_votes,
    }
}

/// The error `cast_vote` reports, if any, checked in this order.
pub open spec fn cast_vote_error(
    p: &Proposal,
    votes: Seq<Vote>,
    key: Pubkey,
    voter: Pubkey,
    vote_type: VoteType,
    voting_power: u64,
    now: i64,
) -> Option<SocialChainError> {
    if has_vote(votes, key, voter) {
        Some(SocialChainError::AlreadyVoted)
    } else if p.status != ProposalStatus::Active {
        Some(SocialChainError::ProposalNotActive)
    } else if now > p.voting_ends_at {
        Some(SocialChainError::VotingPeriodEnded)
    } else if voting_power == 0 {
        Some(SocialChainError::InsufficientTokens)
    } else if tally_of(p, vote_type) + voting_power > u64::MAX {
        Some(SocialChainError::ArithmeticOverflow)
    } else if p.total_voters + 1 > u32::MAX {
        Some(SocialChainError::ArithmeticOverflow)
    } else {
        None
    }
}

/// `p` with `voting_power` added to the accumulator of kind `t` and one more voter.
pub open spec fn with_vote(p: Proposal, t: VoteType, voting_power: u64) -> Proposal {
    Proposal {
        yes_votes: if t == VoteType::Yes {
            (p.yes_votes + voting_power) as u64
        } else {
            p.yes_votes
        },
        no_votes: if t == VoteType::No {
            (p.no_votes + voting_power) as u64
        } else {
            p.no_votes
        },
        abstain_votes: if t == VoteType::Abstain {
            (p.abstain_votes + voting_power) as u64
        } else {
            p.abstain_votes
        },
        total_voters: (p.total_voters + 1) as u32,
        ..p
    }
}

proof fn lemma_tally_push(p: &Proposal, q: &Proposal, key: Pubkey, votes: Seq<Vote>, v: Vote)
    requires
        tally_matches(p, key, votes),
        v.proposal == key,
        *q == with_vote(*p, v.vote_type, v.voting_power),
        tally_of(p, v.vote_type) + v.voting_power <= u64::MAX,
        p.total_voters + 1 <= u32::MAX,
    ensures
        tally_matches(q, key, votes.push(v)),
{
    assert(votes.push(v).drop_last() =~= votes);
}

proof fn lemma_unique_push(votes: Seq<Vote>, v: Vote)
    requires
        unique_ballots(votes),
        !has_vote(votes, v.proposal, v.voter),
    ensures
        unique_ballots(votes.push(v)),
{
    let s = votes.push(v);
    assert forall|i: int, j: int|
        0 <= i < s.len() && 0 <= j < s.len() && i != j implies !is_vote_of(
            #[trigger] s[i],
            #[trigger] s[j].proposal,
            s[j].voter,
        ) by {
        if i == votes.len() as int {
            assert(!is_vote_of(votes[j], v.proposal, v.voter));
        } else if j == votes.len() as int {
            assert(!is_vote_of(votes[i], v.proposal, v.voter));
        }
    }
}

/// Records `voter`'s ballot on the proposal stored under `proposal_key` and adds its power
/// to the matching accumulator. A second ballot for the same pair is refused; on any
/// failure neither the proposal nor the store changes.
pub fn cast_vote(
    proposal: &mut Proposal,
    proposal_key: Pubkey,
    records: &mut VoteRecords,
    voter: Pubkey,
    vote_type: VoteType,
    voting_power: u64,
    now: i64,
    bump: u8,
) -> (r: Result<(), SocialChainError>)
    requires
        old(records).wf(),
    ensures
        final(records).wf(),
        match cast_vote_error(
            old(proposal),
            old(records)@,
            proposal_key,
            voter,
            vote_type,
            voting_power,
            now,
        ) {
            Some(e) => {
                &&& r == Err::<(), SocialChainError>(e)
                &&& *final(proposal) == *old(proposal)
                &&& final(records)@ == old(records)@
            },
            None => {
                &&& r is Ok
                &&& *final(proposal) == with_vote(*old(proposal), vote_type, voting_power)
                &&& final(records)@ == old(records)@.push(
                    Vote {
                        proposal: proposal_key,
                        voter,
                        vote_type,
                        voting_power,
                        voted_at: now,
                        bump,
                    },
                )
            },
        },
        tally_matches(old(proposal), proposal_key, old(records)@) ==> tally_matches(
            final(proposal),
            proposal_key,
            final(records)@,
        ),
        old(proposal).wf() ==> final(proposal).wf(),
{
    if records.find(proposal_key, voter).is_some() {
        return Err(SocialChainError::AlreadyVoted);
    }
    if proposal.status != ProposalStatus::Active {
        return Err(SocialChainError::ProposalNotActive);
    }
    if now > proposal.voting_ends_at {
        return Err(SocialChainError::VotingPeriodEnded);
    }
    if voting_power == 0 {
        return Err(SocialChainError::InsufficientTokens);
    }
    let current = match vote_type {
        VoteType::Yes => proposal.yes_votes,
        VoteType::No => proposal.no_votes,
        VoteType::Abstain => proposal.abstain_votes,
    };
    let updated = match current.checked_add(voting_power) {
        Some(t) => t,
        None => {
            return Err(SocialChainError::ArithmeticOverflow);
        },
    };
    let voters = match proposal.total_voters.checked_add(1) {
        Some(n) => n,
        None => {
            return Err(SocialChainError::ArithmeticOverflow);
        },
    };
    let vote = Vote { proposal: proposal_key, voter, vote_type, voting_power, voted_at: now, bump };
    proof {
        lemma_unique_push(records@, vote);
        if tally_matches(proposal, proposal_key, records@) {
            lemma_tally_push(
                proposal,
                &with_vote(*proposal, vote_type, voting_power),
                proposal_key,
                records@,
                vote,
            );
        }
    }
    records.votes.push(vote);
    match vote_type {
        VoteType::Yes => proposal.yes_votes = updated,
        VoteType::No => proposal.no_votes = updated,
        VoteType::Abstain => proposal.abstain_votes = updated,
    }
    proposal.total_voters = voters;
    Ok(())
}

/// Votes needed for approval out of `total` yes-and-no votes: `threshold` percent, rounded
/// down.
pub open spec fn threshold_votes(total: nat, threshold: nat) -> nat {
    total * threshold / 100
}

/// The decision rule: enough yes votes to reach the threshold, and more yes than no.
/// Abstentions take no part.
pub open spec fn approves(yes: nat, no: nat, threshold: nat) -> bool {
    yes >= threshold_votes(yes + no, threshold) && yes > no
}

/// The error `finalize_proposal` reports, if any, checked in this order.
pub open spec fn finalize_error(p: &Proposal, now: i64) -> Option<SocialChainError> {
    if p.status != ProposalStatus::Active {
        Some(SocialChainError::ProposalNotActive)
    } else if now <= p.voting_ends_at {
        Some(SocialChainError::VotingPeriodNotEnded)
    } else if p.yes_votes + p.no_votes > u64::MAX {
        Some(SocialChainError::ArithmeticOverflow)
    } else {
        None
    }
}

/// The state `finalize_proposal` moves an active proposal to.
pub open spec fn outcome(p: &Proposal, threshold: u8) -> ProposalStatus {
    if approves(p.yes_votes as nat, p.no_votes as nat, threshold as nat) {
        ProposalStatus::Approved
    } else {
        ProposalStatus::Rejected
    }
}

/// Closes voting on an active proposal whose window has passed, deciding it once and for
/// all against the community's threshold.
pub fn finalize_proposal(proposal: &mut Proposal, community: &Community, now: i64) -> (r: Result<
    (),
    SocialChainError,
>)
    requires
        community.wf(),
    ensures
        match finalize_error(old(proposal), now) {
            Some(e) => r == Err::<(), SocialChainError>(e) && *final(proposal) == *old(proposal),
            None => r is Ok && *final(proposal) == (Proposal {
                status: outcome(old(proposal), community.governance_threshold),
                ..*old(proposal)
            }),
        },
        r is Ok ==> old(proposal).status == ProposalStatus::Active && (final(proposal).status
            == ProposalStatus::Approved || final(proposal).status == ProposalStatus::Rejected),
        old(proposal).status != ProposalStatus::Active ==> r == Err::<(), SocialChainError>(
            SocialChainError::ProposalNotActive,
        ),
        old(proposal).wf() ==> final(proposal).wf(),
{
    if proposal.status != ProposalStatus::Active {
        return Err(SocialChainError::ProposalNotActive);
    }
    if now <= proposal.voting_ends_at {
        return Err(SocialChainError::VotingPeriodNotEnded);
    }
    let total_votes = match proposal.yes_votes.checked_add(proposal.no_votes) {
        Some(t) => t,
        None => {
            return Err(SocialChainError::ArithmeticOverflow);
        },
    };
    let threshold = community.governance_threshold as u128;
    proof {
        assert((total_votes as u128) * threshold <= u64::MAX * 100) by (nonlinear_arith)
            requires
                threshold <= 100,
                total_votes <= u64::MAX,
        ;
    }
    let wide = (total_votes as u128) * threshold;
    proof {
        assert(wide / 100 <= total_votes) by (nonlinear_arith)
            requires
                wide == total_votes as u128 * threshold,
                threshold <= 100,
        ;
    }
    let needed = (wide / 100) as u64;
    if proposal.yes_votes >= needed && proposal.yes_votes > proposal.no_votes {
        proposal.status = ProposalStatus::Approved;
    } else {
        proposal.status = ProposalStatus::Rejected;
    }
    Ok(())
}

/// The error `execute_proposal` reports, if any: a proposal that already ran is reported
/// as such before its state is looked at.
pub open spec fn execute_error(p: &Proposal) -> Option<SocialChainError> {
    if p.executed_at is Some {
        Some(SocialChainError::ProposalAlreadyExecuted)
    } else if p.status != ProposalStatus::Approved {
        Some(SocialChainError::ProposalNotApproved)
    } else {
        None
    }
}

/// Marks an approved proposal as executed at `now`: the one authorization event that the
/// treasury honours.
pub fn execute_proposal(proposal: &mut Proposal, now: i64) -> (r: Result<(), SocialChainError>)
    ensures
        match execute_error(old(proposal)) {
            Some(e) => r == Err::<(), SocialChainError>(e) && *final(proposal) == *old(proposal),
            None => r is Ok && *final(proposal) == (Proposal {
                status: ProposalStatus::Executed,
                executed_at: Some(now),
                ..*old(proposal)
            }),
        },
        r is Ok <==> (old(proposal).status == ProposalStatus::Approved
            && old(proposal).executed_at is None),
        old(proposal).wf() ==> final(proposal).wf(),
{
    if proposal.executed_at.is_some() {
        return Err(SocialChainError::ProposalAlreadyExecuted);
    }
    if proposal.status != ProposalStatus::Approved {
        return Err(SocialChainError::ProposalNotApproved);
    }
    proposal.status = ProposalStatus::Executed;
    proposal.executed_at = Some(now);
    Ok(())
}

/// The error `cancel_proposal` reports, if any, checked in this order.
pub open spec fn cancel_error(p: &Proposal, community: &Community, caller: Pubkey) -> Option<
    SocialChainError,
> {
    if caller != p.proposer && caller != community.admin {
        Some(SocialChainError::Unauthorized)
    } else if p.status == ProposalStatus::Executed {
        Some(SocialChainError::CannotCancelExecutedProposal)
    } else {
        None
    }
}

/// Lets the proposer or the community admin withdraw a proposal that has not been executed.
pub fn cancel_proposal(proposal: &mut Proposal, community: &Community, caller: Pubkey) -> (r:
    Result<(), SocialChainError>)
    ensures
        match cancel_error(old(proposal), community, caller) {
            Some(e) => r == Err::<(), SocialChainError>(e) && *final(proposal) == *old(proposal),
            None => r is Ok && *final(proposal) == (Proposal {
                status: ProposalStatus::Cancelled,
                ..*old(proposal)
            }),
        },
        old(proposal).wf() ==> final(proposal).wf(),
{
    let is_proposer = proposal.proposer == caller;
    let is_admin = community.admin == caller;
    if !is_proposer && !is_admin {
        return Err(SocialChainError::Unauthorized);
    }
    if proposal.status == ProposalStatus::Executed {
        return Err(SocialChainError::CannotCancelExecutedProposal);
    }
    proposal.status = ProposalStatus::Cancelled;
    Ok(())
}

/// Once `execute_proposal` has succeeded on a proposal, calling it again on the result
/// fails with `ProposalAlreadyExecuted`, whatever the time.
pub proof fn lemma_execute_once(p: Proposal, now: i64)
    requires
        execute_error(&p) is None,
    ensures
        execute_error(
            &(Proposal { status: ProposalStatus::Executed, executed_at: Some(now), ..p }),
        ) == Some(SocialChainError::ProposalAlreadyExecuted),
{
}

/// After a ballot by `voter` on the proposal under `key` has been stored, every further
/// `cast_vote` for that pair is refused with `AlreadyVoted`, whatever the proposal, kind,
/// power and time; a refused call changes neither tallies nor store.
pub proof fn lemma_second_vote_refused(
    votes: Seq<Vote>,
    first: Vote,
    p: Proposal,
    vote_type: VoteType,
    voting_power: u64,
    now: i64,
)
    ensures
        cast_vote_error(
            &p,
            votes.push(first),
            first.proposal,
            first.voter,
            vote_type,
            voting_power,
            now,
        ) == Some(SocialChainError::AlreadyVoted),
{
    let s = votes.push(first);
    assert(is_vote_of(s[votes.len() as int], first.proposal, first.voter));
}

/// When a proposal's tally matches the stored ballots, yes, no and abstain together equal
/// the total power of the ballots cast on it, each ballot counted once under its own kind.
pub proof fn lemma_tally_partition(p: &Proposal, key: Pubkey, votes: Seq<Vote>)
    requires
        tally_matches(p, key, votes),
    ensures
        p.yes_votes + p.no_votes + p.abstain_votes == total_power(votes, key),
{
    lemma_powers_sum(votes, key);
}

proof fn lemma_powers_sum(votes: Seq<Vote>, key: Pubkey)
    ensures
        power_of(votes, key, VoteType::Yes) + power_of(votes, key, VoteType::No) + power_of(
            votes,
            key,
            VoteType::Abstain,
        ) == total_power(votes, key),
    decreases votes.len(),
{
    if votes.len() > 0 {
        lemma_powers_sum(votes.drop_last(), key);
    }
}

/// A proposal with an empty tally matches any store that holds no ballot on it: in
/// particular every freshly created proposal.
pub proof fn lemma_fresh_tally(p: &Proposal, key: Pubkey, votes: Seq<Vote>)
    requires
        p.yes_votes == 0,
        p.no_votes == 0,
        p.abstain_votes == 0,
        p.total_voters == 0,
        forall|i: int| 0 <= i < votes.len() ==> (#[trigger] votes[i]).proposal != key,
    ensures
        tally_matches(p, key, votes),
    decreases votes.len(),
{
    if votes.len() > 0 {
        let rest = votes.drop_last();
        assert forall|i: int| 0 <= i < rest.len() implies (#[trigger] rest[i]).proposal != key by {
            assert(rest[i] == votes[i]);
        }
        lemma_fresh_tally(p, key, rest);
        assert(votes.last() == votes[votes.len() - 1]);
    }
}

} // verus!
