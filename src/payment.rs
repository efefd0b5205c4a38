use vstd::prelude::*;
use crate::text::{byte_len, utf8_len};
use crate::error::SocialChainError;
use crate::member::Member;
use crate::pubkey::Pubkey;

verus! {

/// Longest time a payment request may stay open: thirty days, in seconds.
pub const MAX_PAYMENT_EXPIRY: i64 = 2592000;

#[derive(Debug, Clone, Copy, PartialEq, Eq, Structural)]
pub enum PaymentRequestStatus {
    Pending,
    Completed,
    Expired,
    Cancelled,
}

/// A request by `to` that `from` pay `amount` before `expires_at`.
pub struct PaymentRequest {
    pub community: Pubkey,
    pub from: Pubkey,
    pub to: Pubkey,
    pub amount: u64,
    pub description: String,
    pub status: PaymentRequestStatus,
    pub created_at: i64,
    pub expires_at: i64,
    pub settled_at: Option<i64>,
    pub bump: u8,
}

/// The error `create_payment_request` reports, if any, checked in this order.
pub open spec fn payment_request_error(
    from: &Member,
    to: &Member,
    amount: u64,
    description: Seq<char>,
    expires_in: i64,
    now: i64,
) -> Option<SocialChainError> {
    if amount == 0 {
        Some(SocialChainError::InvalidPaymentAmount)
    } else if !(3 <= byte_len(description) <= 200) {
        Some(SocialChainError::InvalidPaymentMemo)
    } else if !(0 < expires_in <= MAX_PAYMENT_EXPIRY) {
        Some(SocialChainError::InvalidInput)
    } else if from.wallet == to.wallet {
        Some(SocialChainError::CannotPaySelf)
    } else if now + expires_in > i64::MAX {
        Some(SocialChainError::ArithmeticOverflow)
    } else {
        None
    }
}

/// Opens a pending request, payable by `from_member` to `to_member` until `now + expires_in`.
pub fn create_payment_request(
    community: Pubkey,
    from_member: &Member,
    to_member: &Member,
    amount: u64,
    description: String,
    expires_in: i64,
    now: i64,
    bump: u8,
) -> (r: Result<PaymentRequest, SocialChainError>)
    ensures
        match payment_request_error(from_member, to_member, amount, description@, expires_in, now) {
            Some(e) => r == Err::<PaymentRequest, SocialChainError>(e),
            None => r is Ok,
        },
        r matches Ok(p) ==> {
            &&& p.community == community
            &&& p.from == from_member.wallet
            &&& p.to == to_member.wallet
            &&& p.amount == amount
            &&& p.description@ == description@
            &&& p.status == PaymentRequestStatus::Pending
            &&& p.created_at == now
            &&& p.expires_at == now + expires_in
            &&& p.settled_at is None
            &&& p.bump == bump
        },
{
    if amount == 0 {
        return Err(SocialChainError::InvalidPaymentAmount);
    }
    let len = utf8_len(&description);
    if len < 3 || len > 200 {
        return Err(SocialChainError::InvalidPaymentMemo);
    }
    if expires_in <= 0 || expires_in > MAX_PAYMENT_EXPIRY {
        return Err(SocialChainError::InvalidInput);
    }
    if from_member.wallet == to_member.wallet {
        return Err(SocialChainError::CannotPaySelf);
    }
    let expires_at = match now.checked_add(expires_in) {
        Some(t) => t,
        None => {
            return Err(SocialChainError::ArithmeticOverflow);
        },
    };
    Ok(PaymentRequest {
        community,
        from: from_member.wallet,
        to: to_member.wallet,
        amount,
        description,
        status: PaymentRequestStatus::Pending,
        created_at: now,
        expires_at,
        settled_at: None,
        bump,
    })
}

/// The error `settle_payment_request` reports, if any, checked in this order.
pub open spec fn settle_error(p: &PaymentRequest, payer: Pubkey, now: i64) -> Option<
    SocialChainError,
> {
    if p.status != PaymentRequestStatus::Pending {
        Some(SocialChainError::PaymentRequestAlreadySettled)
    } else if now > p.expires_at {
        Some(SocialChainError::PaymentRequestExpired)
    } else if p.from != payer {
        Some(SocialChainError::Unauthorized)
    } else {
        None
    }
}

/// Marks a pending, unexpired request as paid by its payer at `now`, and returns the amount
/// the payer transfers to the requester.
pub fn settle_payment_request(payment_request: &mut PaymentRequest, payer: Pubkey, now: i64) -> (r:
    Result<u64, SocialChainError>)
    ensures
        match settle_error(old(payment_request), payer, now) {
            Some(e) => r == Err::<u64, SocialChainError>(e) && *final(payment_request) == *old(payment_request),
            None => r == Ok::<u64, SocialChainError>(old(payment_request).amount) && *final(payment_request) == (PaymentRequest {
                status: PaymentRequestStatus::Completed,
                settled_at: Some(now),
                ..*old(payment_request)
            }),
        },
{
    if payment_request.status != PaymentRequestStatus::Pending {
        return Err(SocialChainError::PaymentRequestAlreadySettled);
    }
    if now > payment_request.expires_at {
        return Err(SocialChainError::PaymentRequestExpired);
    }
    if payment_request.from != payer {
        return Err(SocialChainError::Unauthorized);
    }
    payment_request.status = PaymentRequestStatus::Completed;
    payment_request.settled_at = Some(now);
    Ok(payment_request.amount)
}

/// The error `cancel_payment_request` reports, if any, checked in this order.
pub open spec fn payment_cancel_error(p: &PaymentRequest, caller: Pubkey) -> Option<
    SocialChainError,
> {
    if p.status != PaymentRequestStatus::Pending {
        Some(SocialChainError::PaymentRequestAlreadySettled)
    } else if caller != p.to && caller != p.from {
        Some(SocialChainError::Unauthorized)
    } else {
        None
    }
}

/// Lets either party withdraw a pending request.
pub fn cancel_payment_request(payment_request: &mut PaymentRequest, caller: Pubkey) -> (r: Result<
    (),
    SocialChainError,
>)
    ensures
        match payment_cancel_error(old(payment_request), caller) {
            Some(e) => r == Err::<(), SocialChainError>(e) && *final(payment_request) == *old(payment_request),
            None => r is Ok && *final(payment_request) == (PaymentRequest {
                status: PaymentRequestStatus::Cancelled,
                ..*old(payment_request)
            }),
        },
{
    if payment_request.status != PaymentRequestStatus::Pending {
        return Err(SocialChainError::PaymentRequestAlreadySettled);
    }
    let is_creator = payment_request.to == caller;
    let is_payer = payment_request.from == caller;
    if !is_creator && !is_payer {
        return Err(SocialChainError::Unauthorized);
    }
    payment_request.status = PaymentRequestStatus::Cancelled;
    Ok(())
}

} // verus!
