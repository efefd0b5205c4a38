use vstd::prelude::*;
use crate::error::SocialChainError;
use crate::pubkey::Pubkey;
use crate::text::{byte_len, utf8_len};

verus! {

/// Lowest and highest accepted governance threshold, in percent.
pub const MIN_GOVERNANCE_THRESHOLD: u8 = 1;
pub const MAX_GOVERNANCE_THRESHOLD: u8 = 100;
/// Highest accepted transfer fee, in basis points (10%).
pub const MAX_TRANSFER_FEE_BPS: u16 = 1000;

pub open spec fn valid_threshold(t: u8) -> bool {
    MIN_GOVERNANCE_THRESHOLD <= t <= MAX_GOVERNANCE_THRESHOLD
}

pub open spec fn valid_fee_bps(f: u16) -> bool {
    f <= MAX_TRANSFER_FEE_BPS
}

pub open spec fn valid_community_name(name: Seq<char>) -> bool {
    3 <= byte_len(name) <= 50
}

pub open spec fn valid_token_symbol(symbol: Seq<char>) -> bool {
    2 <= byte_len(symbol) <= 10
}

/// Per-community configuration: who administers it and the governance and fee parameters.
pub struct Community {
    pub admin: Pubkey,
    pub name: String,
    pub token_mint: Pubkey,
    pub token_symbol: String,
    pub token_decimals: u8,
    pub governance_threshold: u8,
    pub member_count: u32,
    pub transfer_fee_bps: u16,
    pub treasury: Pubkey,
    pub collection_mint: Pubkey,
    pub created_at: i64,
    pub bump: u8,
}

impl Community {
    /// Threshold and fee stay within their bounds.
    pub open spec fn wf(&self) -> bool {
        valid_threshold(self.governance_threshold) && valid_fee_bps(self.transfer_fee_bps)
    }
}

/// The error `initialize_community` reports for these inputs, checked in this order.
pub open spec fn initialize_error(
    name: Seq<char>,
    symbol: Seq<char>,
    decimals: u8,
    threshold: u8,
    fee_bps: u16,
) -> Option<SocialChainError> {
    if !valid_community_name(name) {
        Some(SocialChainError::InvalidCommunityName)
    } else if !valid_token_symbol(symbol) {
        Some(SocialChainError::InvalidInput)
    } else if decimals > 9 {
        Some(SocialChainError::InvalidDecimals)
    } else if !valid_threshold(threshold) {
        Some(SocialChainError::InvalidGovernanceThreshold)
    } else if !valid_fee_bps(fee_bps) {
        Some(SocialChainError::InvalidTransferFee)
    } else {
        None
    }
}

/// Creates a community's configuration after validating every parameter.
pub fn initialize_community(
    admin: Pubkey,
    community_name: String,
    token_symbol: String,
    token_decimals: u8,
    governance_threshold: u8,
    transfer_fee_bps: u16,
    token_mint: Pubkey,
    treasury: Pubkey,
    collection_mint: Pubkey,
    now: i64,
    bump: u8,
) -> (r: Result<Community, SocialChainError>)
    ensures
        match initialize_error(
            community_name@,
            token_symbol@,
            token_decimals,
            governance_threshold,
            transfer_fee_bps,
        ) {
            Some(e) => r == Err::<Community, SocialChainError>(e),
            None => r is Ok,
        },
        r matches Ok(c) ==> {
            &&& c.wf()
            &&& c.admin == admin
            &&& c.name@ == community_name@
            &&& c.token_symbol@ == token_symbol@
            &&& c.token_decimals == token_decimals
            &&& c.governance_threshold == governance_threshold
            &&& c.transfer_fee_bps == transfer_fee_bps
            &&& c.member_count == 0
            &&& c.token_mint == token_mint
            &&& c.treasury == treasury
            &&& c.collection_mint == collection_mint
            &&& c.created_at == now
            &&& c.bump == bump
        },
{
    let name_len = utf8_len(&community_name);
    if name_len < 3 || name_len > 50 {
        return Err(SocialChainError::InvalidCommunityName);
    }
    let symbol_len = utf8_len(&token_symbol);
    if symbol_len < 2 || symbol_len > 10 {
        return Err(SocialChainError::InvalidInput);
    }
    if token_decimals > 9 {
        return Err(SocialChainError::InvalidDecimals);
    }
    if governance_threshold < MIN_GOVERNANCE_THRESHOLD || governance_threshold > MAX_GOVERNANCE_THRESHOLD {
        return Err(SocialChainError::InvalidGovernanceThreshold);
    }
    if transfer_fee_bps > MAX_TRANSFER_FEE_BPS {
        return Err(SocialChainError::InvalidTransferFee);
    }
    Ok(Community {
        admin,
        name: community_name,
        token_mint,
        token_symbol,
        token_decimals,
        governance_threshold,
        member_count: 0,
        transfer_fee_bps,
        treasury,
        collection_mint,
        created_at: now,
        bump,
    })
}

/// The error `update_community_config` reports, if any: authorization first, then each
/// present field against its bound.
pub open spec fn update_error(
    c: &Community,
    caller: Pubkey,
    threshold: Option<u8>,
    fee_bps: Option<u16>,
) -> Option<SocialChainError> {
    if c.admin != caller {
        Some(SocialChainError::Unauthorized)
    } else if threshold matches Some(t) && !valid_threshold(t) {
        Some(SocialChainError::InvalidGovernanceThreshold)
    } else if fee_bps matches Some(f) && !valid_fee_bps(f) {
        Some(SocialChainError::InvalidTransferFee)
    } else {
        None
    }
}

/// Whether `after` is `before` with each present field applied and nothing else changed.
pub open spec fn config_updated(
    before: &Community,
    after: &Community,
    new_admin: Option<Pubkey>,
    threshold: Option<u8>,
    fee_bps: Option<u16>,
) -> bool {
    &&& after.admin == (match new_admin { Some(a) => a, None => before.admin })
    &&& after.governance_threshold == (match threshold { Some(t) => t, None => before.governance_threshold })
    &&& after.transfer_fee_bps == (match fee_bps { Some(f) => f, None => before.transfer_fee_bps })
    &&& after.name@ == before.name@
    &&& after.token_mint == before.token_mint
    &&& after.token_symbol@ == before.token_symbol@
    &&& after.token_decimals == before.token_decimals
    &&& after.member_count == before.member_count
    &&& after.treasury == before.treasury
    &&& after.collection_mint == before.collection_mint
    &&& after.created_at == before.created_at
    &&& after.bump == before.bump
}

/// Lets the current admin replace the admin, the threshold and the fee. Nothing changes
/// unless every check passes.
pub fn update_community_config(
    community: &mut Community,
    caller: Pubkey,
    new_admin: Option<Pubkey>,
    governance_threshold: Option<u8>,
    transfer_fee_bps: Option<u16>,
) -> (r: Result<(), SocialChainError>)
    ensures
        match update_error(old(community), caller, governance_threshold, transfer_fee_bps) {
            Some(e) => r == Err::<(), SocialChainError>(e) && *final(community) == *old(community),
            None => r is Ok && config_updated(
                old(community),
                final(community),
                new_admin,
                governance_threshold,
                transfer_fee_bps,
            ),
        },
        old(community).wf() ==> final(community).wf(),
{
    if community.admin != caller {
        return Err(SocialChainError::Unauthorized);
    }
    if let Some(threshold) = governance_threshold {
        if threshold < MIN_GOVERNANCE_THRESHOLD || threshold > MAX_GOVERNANCE_THRESHOLD {
            return Err(SocialChainError::InvalidGovernanceThreshold);
        }
    }
    if let Some(fee) = transfer_fee_bps {
        if fee > MAX_TRANSFER_FEE_BPS {
            return Err(SocialChainError::InvalidTransferFee);
        }
    }
    if let Some(new_admin_key) = new_admin {
        community.admin = new_admin_key;
    }
    if let Some(threshold) = governance_threshold {
        community.governance_threshold = threshold;
    }
    if let Some(fee) = transfer_fee_bps {
        community.transfer_fee_bps = fee;
    }
    Ok(())
}

} // verus!
