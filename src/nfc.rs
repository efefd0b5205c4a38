use vstd::prelude::*;
use crate::community::Community;
use crate::text::{byte_len, utf8_len};
use crate::error::SocialChainError;
use crate::member::Member;
use crate::pubkey::Pubkey;

verus! {

/// A physical card that authenticates its owner.
pub struct NfcCard {
    pub community: Pubkey,
    pub owner: Pubkey,
    pub card_id: String,
    /// The asset bound to the card; the all-zero key while none is.
    pub asset_id: Pubkey,
    pub is_active: bool,
    pub last_used: i64,
    pub total_uses: i64,
    pub created_at: i64,
    pub bump: u8,
}

pub open spec fn valid_card_id(card_id: Seq<char>) -> bool {
    8 <= byte_len(card_id) <= 64
}

/// Issues a card to a member who has none, and records it on the member.
pub fn create_nfc_card(
    community: Pubkey,
    member: &mut Member,
    nfc_card_key: Pubkey,
    card_id: String,
    now: i64,
    bump: u8,
) -> (r: Result<NfcCard, SocialChainError>)
    ensures
        !valid_card_id(card_id@) ==> r == Err::<NfcCard, SocialChainError>(
            SocialChainError::InvalidCardId,
        ),
        valid_card_id(card_id@) && old(member).nfc_card is Some ==> r == Err::<
            NfcCard,
            SocialChainError,
        >(SocialChainError::NfcCardAlreadyExists),
        r is Err ==> *final(member) == *old(member),
        r is Ok <==> valid_card_id(card_id@) && old(member).nfc_card is None,
        r matches Ok(c) ==> {
            &&& *final(member) == (Member { nfc_card: Some(nfc_card_key), ..*old(member) })
            &&& c.community == community
            &&& c.owner == old(member).wallet
            &&& c.card_id@ == card_id@
            &&& c.asset_id == Pubkey { hi: 0, lo: 0 }
            &&& c.is_active
            &&& c.last_used == now
            &&& c.total_uses == 0
            &&& c.created_at == now
            &&& c.bump == bump
        },
{
    let len = utf8_len(&card_id);
    if len < 8 || len > 64 {
        return Err(SocialChainError::InvalidCardId);
    }
    if member.nfc_card.is_some() {
        return Err(SocialChainError::NfcCardAlreadyExists);
    }
    member.nfc_card = Some(nfc_card_key);
    Ok(NfcCard {
        community,
        owner: member.wallet,
        card_id,
        asset_id: Pubkey { hi: 0, lo: 0 },
        is_active: true,
        last_used: now,
        total_uses: 0,
        created_at: now,
        bump,
    })
}

/// The error a tap of `card` presenting `card_id` meets, if any, checked in this order.
pub open spec fn tap_error(card: &NfcCard, card_id: Seq<char>) -> Option<SocialChainError> {
    if !card.is_active {
        Some(SocialChainError::NfcCardNotActive)
    } else if card.card_id@ != card_id {
        Some(SocialChainError::InvalidNfcCard)
    } else if card.total_uses + 1 > i64::MAX {
        Some(SocialChainError::ArithmeticOverflow)
    } else {
        None
    }
}

/// `card` after one more use at `now`.
pub open spec fn tapped(card: NfcCard, now: i64) -> NfcCard {
    NfcCard { last_used: now, total_uses: (card.total_uses + 1) as i64, ..card }
}

/// Accepts a tap of an active card presenting its own id, counting the use.
pub fn authenticate_nfc(nfc_card: &mut NfcCard, card_id: &String, now: i64) -> (r: Result<
    (),
    SocialChainError,
>)
    ensures
        match tap_error(old(nfc_card), card_id@) {
            Some(e) => r == Err::<(), SocialChainError>(e) && *final(nfc_card) == *old(nfc_card),
            None => r is Ok && *final(nfc_card) == tapped(*old(nfc_card), now),
        },
{
    if !nfc_card.is_active {
        return Err(SocialChainError::NfcCardNotActive);
    }
    if nfc_card.card_id != *card_id {
        return Err(SocialChainError::InvalidNfcCard);
    }
    let uses = match nfc_card.total_uses.checked_add(1) {
        Some(n) => n,
        None => {
            return Err(SocialChainError::ArithmeticOverflow);
        },
    };
    nfc_card.last_used = now;
    nfc_card.total_uses = uses;
    Ok(())
}

/// The error `transfer_nfc_card` reports, if any, checked in this order.
pub open spec fn card_transfer_error(card: &NfcCard, from: &Member, to: &Member) -> Option<
    SocialChainError,
> {
    if card.owner != from.wallet {
        Some(SocialChainError::Unauthorized)
    } else if !card.is_active {
        Some(SocialChainError::NfcCardNotActive)
    } else if to.nfc_card is Some {
        Some(SocialChainError::NfcCardAlreadyExists)
    } else {
        None
    }
}

/// Hands an active card from its owner to a member who holds none.
pub fn transfer_nfc_card(
    nfc_card: &mut NfcCard,
    nfc_card_key: Pubkey,
    old_member: &mut Member,
    new_member: &mut Member,
) -> (r: Result<(), SocialChainError>)
    ensures
        match card_transfer_error(old(nfc_card), old(old_member), old(new_member)) {
            Some(e) => {
                &&& r == Err::<(), SocialChainError>(e)
                &&& *final(nfc_card) == *old(nfc_card)
                &&& *final(old_member) == *old(old_member)
                &&& *final(new_member) == *old(new_member)
            },
            None => {
                &&& r is Ok
                &&& *final(nfc_card) == (NfcCard { owner: old(new_member).wallet, ..*old(nfc_card) })
                &&& *final(old_member) == (Member { nfc_card: None, ..*old(old_member) })
                &&& *final(new_member) == (Member {
                    nfc_card: Some(nfc_card_key),
                    ..*old(new_member)
                })
            },
        },
{
    if nfc_card.owner != old_member.wallet {
        return Err(SocialChainError::Unauthorized);
    }
    if !nfc_card.is_active {
        return Err(SocialChainError::NfcCardNotActive);
    }
    if new_member.nfc_card.is_some() {
        return Err(SocialChainError::NfcCardAlreadyExists);
    }
    nfc_card.owner = new_member.wallet;
    old_member.nfc_card = None;
    new_member.nfc_card = Some(nfc_card_key);
    Ok(())
}

/// Lets the card's owner or the community admin deactivate a card and unlink it from its
/// member.
pub fn revoke_nfc_card(
    nfc_card: &mut NfcCard,
    member: &mut Member,
    community: &Community,
    caller: Pubkey,
) -> (r: Result<(), SocialChainError>)
    ensures
        caller != old(nfc_card).owner && caller != community.admin ==> {
            &&& r == Err::<(), SocialChainError>(SocialChainError::Unauthorized)
            &&& *final(nfc_card) == *old(nfc_card)
            &&& *final(member) == *old(member)
        },
        caller == old(nfc_card).owner || caller == community.admin ==> {
            &&& r is Ok
            &&& *final(nfc_card) == (NfcCard { is_active: false, ..*old(nfc_card) })
            &&& *final(member) == (Member { nfc_card: None, ..*old(member) })
        },
{
    let is_owner = nfc_card.owner == caller;
    let is_admin = community.admin == caller;
    if !is_owner && !is_admin {
        return Err(SocialChainError::Unauthorized);
    }
    nfc_card.is_active = false;
    member.nfc_card = None;
    Ok(())
}

} // verus!
