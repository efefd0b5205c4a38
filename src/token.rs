use vstd::prelude::*;
use crate::community::Community;
use crate::error::SocialChainError;
use crate::member::Member;
use crate::pubkey::Pubkey;

verus! {

/// Basis points in a whole: 10000 bps = 100%.
pub const BPS_DENOMINATOR: u64 = 10000;

/// How a peer transfer is divided: `net_amount` goes to the recipient, `fee_amount` to the
/// treasury.
#[derive(Debug, Clone, Copy, PartialEq, Eq, Structural)]
pub struct TransferSplit {
    pub net_amount: u64,
    pub fee_amount: u64,
}

/// The fee on `amount` at `fee_bps` basis points, rounded down.
pub open spec fn fee_of(amount: nat, fee_bps: nat) -> nat {
    amount * fee_bps / 10000
}

/// What `split_transfer_amount` yields for these inputs.
pub open spec fn split_outcome(amount: u64, fee_bps: u16) -> Result<TransferSplit, SocialChainError> {
    let fee = fee_of(amount as nat, fee_bps as nat);
    if amount == 0 {
        Err(SocialChainError::InvalidTokenAmount)
    } else if fee > u64::MAX {
        Err(SocialChainError::ArithmeticOverflow)
    } else if fee > amount {
        Err(SocialChainError::ArithmeticUnderflow)
    } else {
        Ok(TransferSplit { net_amount: (amount - fee) as u64, fee_amount: fee as u64 })
    }
}

/// Divides a transfer of `amount` into the recipient's share and the treasury's fee.
pub fn split_transfer_amount(amount: u64, fee_bps: u16) -> (r: Result<TransferSplit, SocialChainError>)
    ensures
        r == split_outcome(amount, fee_bps),
        r matches Ok(s) ==> s.fee_amount == fee_of(amount as nat, fee_bps as nat) && s.net_amount
            + s.fee_amount == amount,
        amount > 0 && fee_bps <= BPS_DENOMINATOR ==> r is Ok,
        amount > 0 && fee_bps == 0 ==> r == Ok::<TransferSplit, SocialChainError>(
            TransferSplit { net_amount: amount, fee_amount: 0 },
        ),
{
    if amount == 0 {
        return Err(SocialChainError::InvalidTokenAmount);
    }
    proof {
        assert((amount as u128) * (fee_bps as u128) <= u64::MAX * 65535) by (nonlinear_arith)
            requires
                amount <= u64::MAX,
                fee_bps <= 65535,
        ;
    }
    let wide = (amount as u128) * (fee_bps as u128);
    let fee_wide = wide / (BPS_DENOMINATOR as u128);
    proof {
        assert(fee_wide <= amount as u128 * 7) by (nonlinear_arith)
            requires
                wide == amount as u128 * fee_bps as u128,
                fee_bps <= 65535,
                fee_wide == wide / 10000,
        ;
        assert(fee_bps == 0 ==> fee_wide == 0) by (nonlinear_arith)
            requires
                wide == amount as u128 * fee_bps as u128,
                fee_wide == wide / 10000,
        ;
        assert(fee_bps <= 10000 ==> fee_wide <= amount as u128) by (nonlinear_arith)
            requires
                wide == amount as u128 * fee_bps as u128,
                fee_wide == wide / 10000,
        ;
    }
    if fee_wide > u64::MAX as u128 {
        return Err(SocialChainError::ArithmeticOverflow);
    }
    let fee_amount = fee_wide as u64;
    if fee_amount > amount {
        return Err(SocialChainError::ArithmeticUnderflow);
    }
    Ok(TransferSplit { net_amount: amount - fee_amount, fee_amount })
}

/// The error `transfer_tokens` reports, if any.
pub open spec fn transfer_error(
    community: &Community,
    sender: &Member,
    recipient: &Member,
    amount: u64,
) -> Option<SocialChainError> {
    match split_outcome(amount, community.transfer_fee_bps) {
        Err(e) => Some(e),
        Ok(_) => if sender.total_transactions + 1 > u32::MAX || recipient.total_transactions + 1
            > u32::MAX {
            Some(SocialChainError::ArithmeticOverflow)
        } else {
            None
        },
    }
}

/// `m` with one more transaction counted.
pub open spec fn with_transaction(m: Member) -> Member {
    Member { total_transactions: (m.total_transactions + 1) as u32, ..m }
}

/// Taxes a transfer of `amount` between two members at the community's fee rate and counts
/// it on both members. The returned split says what the recipient and the treasury receive;
/// on failure neither member changes.
pub fn transfer_tokens(
    community: &Community,
    sender_member: &mut Member,
    recipient_member: &mut Member,
    amount: u64,
) -> (r: Result<TransferSplit, SocialChainError>)
    ensures
        match transfer_error(community, old(sender_member), old(recipient_member), amount) {
            Some(e) => {
                &&& r == Err::<TransferSplit, SocialChainError>(e)
                &&& *final(sender_member) == *old(sender_member)
                &&& *final(recipient_member) == *old(recipient_member)
            },
            None => {
                &&& r == split_outcome(amount, community.transfer_fee_bps)
                &&& *final(sender_member) == with_transaction(*old(sender_member))
                &&& *final(recipient_member) == with_transaction(*old(recipient_member))
            },
        },
        r matches Ok(s) ==> s.net_amount + s.fee_amount == amount,
{
    let split = match split_transfer_amount(amount, community.transfer_fee_bps) {
        Ok(s) => s,
        Err(e) => {
            return Err(e);
        },
    };
    let sender_count = match sender_member.total_transactions.checked_add(1) {
        Some(n) => n,
        None => {
            return Err(SocialChainError::ArithmeticOverflow);
        },
    };
    let recipient_count = match recipient_member.total_transactions.checked_add(1) {
        Some(n) => n,
        None => {
            return Err(SocialChainError::ArithmeticOverflow);
        },
    };
    sender_member.total_transactions = sender_count;
    recipient_member.total_transactions = recipient_count;
    Ok(split)
}

/// Lets the admin seed the treasury. Returns the supply to mint into the treasury; zero
/// means nothing is minted.
pub fn create_community_token(community: &Community, caller: Pubkey, initial_supply: u64) -> (r:
    Result<u64, SocialChainError>)
    ensures
        community.admin != caller ==> r == Err::<u64, SocialChainError>(
            SocialChainError::Unauthorized,
        ),
        community.admin == caller ==> r == Ok::<u64, SocialChainError>(initial_supply),
{
    if community.admin != caller {
        return Err(SocialChainError::Unauthorized);
    }
    Ok(initial_supply)
}

/// Checks a batch of transfer amounts: at least one is required.
pub fn batch_transfer(amounts: &Vec<u64>) -> (r: Result<(), SocialChainError>)
    ensures
        amounts@.len() == 0 <==> r == Err::<(), SocialChainError>(SocialChainError::InvalidInput),
        amounts@.len() > 0 <==> r is Ok,
{
    if amounts.len() == 0 {
        return Err(SocialChainError::InvalidInput);
    }
    Ok(())
}

/// Checks a burn of `amount` tokens and returns the amount to burn.
pub fn burn_tokens(amount: u64) -> (r: Result<u64, SocialChainError>)
    ensures
        amount == 0 ==> r == Err::<u64, SocialChainError>(SocialChainError::InvalidTokenAmount),
        amount > 0 ==> r == Ok::<u64, SocialChainError>(amount),
{
    if amount == 0 {
        return Err(SocialChainError::InvalidTokenAmount);
    }
    Ok(amount)
}

} // verus!
