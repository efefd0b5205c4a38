use vstd::prelude::*;
use crate::error::SocialChainError;
use crate::governance::{Proposal, ProposalStatus, ProposalType};

verus! {

/// The error `withdraw_from_treasury` reports, if any, checked in this order.
pub open spec fn withdraw_error(p: &Proposal, amount: u64, treasury_balance: u64) -> Option<
    SocialChainError,
> {
    if amount == 0 {
        Some(SocialChainError::InvalidWithdrawalAmount)
    } else if p.status != ProposalStatus::Executed || p.withdrawn {
        Some(SocialChainError::WithdrawalRequiresProposal)
    } else if p.proposal_type != ProposalType::Transfer {
        Some(SocialChainError::InvalidInput)
    } else if treasury_balance < amount {
        Some(SocialChainError::InsufficientTreasuryBalance)
    } else {
        None
    }
}

/// Authorizes paying `amount` out of a treasury holding `treasury_balance`, under an executed
/// transfer proposal that has not yet released funds. On success the proposal is marked as
/// spent and the treasury balance after the payout is returned.
pub fn withdraw_from_treasury(proposal: &mut Proposal, amount: u64, treasury_balance: u64) -> (r:
    Result<u64, SocialChainError>)
    ensures
        match withdraw_error(old(proposal), amount, treasury_balance) {
            Some(e) => r == Err::<u64, SocialChainError>(e) && *final(proposal) == *old(proposal),
            None => r == Ok::<u64, SocialChainError>((treasury_balance - amount) as u64)
                && *final(proposal) == (Proposal { withdrawn: true, ..*old(proposal) }),
        },
        r is Ok ==> {
            &&& old(proposal).status == ProposalStatus::Executed
            &&& old(proposal).proposal_type == ProposalType::Transfer
            &&& !old(proposal).withdrawn
        },
        old(proposal).wf() ==> final(proposal).wf(),
{
    if amount == 0 {
        return Err(SocialChainError::InvalidWithdrawalAmount);
    }
    if proposal.status != ProposalStatus::Executed || proposal.withdrawn {
        return Err(SocialChainError::WithdrawalRequiresProposal);
    }
    if proposal.proposal_type != ProposalType::Transfer {
        return Err(SocialChainError::InvalidInput);
    }
    if treasury_balance < amount {
        return Err(SocialChainError::InsufficientTreasuryBalance);
    }
    proposal.withdrawn = true;
    Ok(treasury_balance - amount)
}

/// What a deposit of `amount` into a treasury holding `balance` yields: the new balance, or
/// the error. A credit the balance cannot hold is refused by the token ledger.
pub open spec fn deposit_outcome(balance: u64, amount: u64) -> Result<u64, SocialChainError> {
    if amount == 0 {
        Err(SocialChainError::InvalidDepositAmount)
    } else if balance + amount > u64::MAX {
        Err(SocialChainError::ArithmeticOverflow)
    } else {
        Ok((balance + amount) as u64)
    }
}

/// Funds the treasury; anyone may deposit. Returns the treasury balance after the deposit.
pub fn deposit_to_treasury(amount: u64, treasury_balance: u64) -> (r: Result<u64, SocialChainError>)
    ensures
        r == deposit_outcome(treasury_balance, amount),
        r matches Ok(b) ==> b > treasury_balance,
{
    if amount == 0 {
        return Err(SocialChainError::InvalidDepositAmount);
    }
    match treasury_balance.checked_add(amount) {
        Some(b) => Ok(b),
        None => Err(SocialChainError::ArithmeticOverflow),
    }
}

/// The result of depositing each of `amounts` in turn, stopping at the first failure.
pub open spec fn run_deposits(balance: u64, amounts: Seq<u64>) -> Result<u64, SocialChainError>
    decreases amounts.len(),
{
    if amounts.len() == 0 {
        Ok(balance)
    } else {
        match run_deposits(balance, amounts.drop_last()) {
            Ok(b) => deposit_outcome(b, amounts.last()),
            Err(e) => Err(e),
        }
    }
}

pub open spec fn sum_of(amounts: Seq<u64>) -> nat
    decreases amounts.len(),
{
    if amounts.len() == 0 {
        0
    } else {
        sum_of(amounts.drop_last()) + amounts.last() as nat
    }
}

/// Repeated deposits raise the treasury balance by exactly the sum of their amounts, and
/// every deposit in the run leaves it strictly higher than before.
pub proof fn lemma_deposits_accumulate(balance: u64, amounts: Seq<u64>)
    ensures
        run_deposits(balance, amounts) matches Ok(b) ==> b == balance + sum_of(amounts),
        forall|k: int|
            0 <= k < amounts.len() && #[trigger] run_deposits(balance, amounts.take(k + 1)) is Ok
                ==> run_deposits(balance, amounts.take(k + 1))->Ok_0 > run_deposits(
                balance,
                amounts.take(k),
            )->Ok_0,
    decreases amounts.len(),
{
    if amounts.len() > 0 {
        lemma_deposits_accumulate(balance, amounts.drop_last());
    }
    assert forall|k: int|
        0 <= k < amounts.len() && #[trigger] run_deposits(balance, amounts.take(k + 1))
            is Ok implies run_deposits(balance, amounts.take(k + 1))->Ok_0 > run_deposits(
        balance,
        amounts.take(k),
    )->Ok_0 by {
        let s = amounts.take(k + 1);
        assert(s.drop_last() =~= amounts.take(k));
    }
}

} // verus!
