use vstd::prelude::*;
use crate::community::Community;
use crate::text::{byte_len, utf8_len};
use crate::error::SocialChainError;
use crate::pubkey::Pubkey;

verus! {

/// A community member's profile and activity counters.
pub struct Member {
    pub community: Pubkey,
    pub wallet: Pubkey,
    pub name: String,
    pub metadata_uri: String,
    pub reputation_score: u64,
    pub total_events_attended: u32,
    pub total_connections: u32,
    pub total_transactions: u32,
    pub nfc_card: Option<Pubkey>,
    pub joined_at: i64,
    pub bump: u8,
}

pub open spec fn valid_member_name(name: Seq<char>) -> bool {
    1 <= byte_len(name) <= 50
}

pub open spec fn valid_metadata_uri(uri: Seq<char>) -> bool {
    byte_len(uri) <= 200
}

/// The error `register_member` reports, if any, checked in this order.
pub open spec fn register_error(community: &Community, name: Seq<char>, uri: Seq<char>) -> Option<
    SocialChainError,
> {
    if !valid_member_name(name) {
        Some(SocialChainError::InvalidMemberName)
    } else if !valid_metadata_uri(uri) {
        Some(SocialChainError::InvalidMetadataUri)
    } else if community.member_count + 1 > u32::MAX {
        Some(SocialChainError::ArithmeticOverflow)
    } else {
        None
    }
}

/// Admits `wallet` to the community with a fresh profile and counts it among the members.
pub fn register_member(
    community: &mut Community,
    community_key: Pubkey,
    wallet: Pubkey,
    name: String,
    metadata_uri: String,
    now: i64,
    bump: u8,
) -> (r: Result<Member, SocialChainError>)
    ensures
        match register_error(old(community), name@, metadata_uri@) {
            Some(e) => r == Err::<Member, SocialChainError>(e) && *final(community) == *old(
                community),
            None => r is Ok && *final(community) == (Community {
                member_count: (old(community).member_count + 1) as u32,
                ..*old(community)
            }),
        },
        r matches Ok(m) ==> {
            &&& m.community == community_key
            &&& m.wallet == wallet
            &&& m.name@ == name@
            &&& m.metadata_uri@ == metadata_uri@
            &&& m.reputation_score == 0
            &&& m.total_events_attended == 0
            &&& m.total_connections == 0
            &&& m.total_transactions == 0
            &&& m.nfc_card is None
            &&& m.joined_at == now
            &&& m.bump == bump
        },
{
    let name_len = utf8_len(&name);
    if name_len < 1 || name_len > 50 {
        return Err(SocialChainError::InvalidMemberName);
    }
    if utf8_len(&metadata_uri) > 200 {
        return Err(SocialChainError::InvalidMetadataUri);
    }
    let count = match community.member_count.checked_add(1) {
        Some(n) => n,
        None => {
            return Err(SocialChainError::ArithmeticOverflow);
        },
    };
    community.member_count = count;
    Ok(Member {
        community: community_key,
        wallet,
        name,
        metadata_uri,
        reputation_score: 0,
        total_events_attended: 0,
        total_connections: 0,
        total_transactions: 0,
        nfc_card: None,
        joined_at: now,
        bump,
    })
}

/// Replaces a member's metadata link; only the member's own wallet may.
pub fn update_member_metadata(member: &mut Member, caller: Pubkey, new_metadata_uri: String) -> (r:
    Result<(), SocialChainError>)
    ensures
        !valid_metadata_uri(new_metadata_uri@) ==> r == Err::<(), SocialChainError>(
            SocialChainError::InvalidMetadataUri,
        ),
        valid_metadata_uri(new_metadata_uri@) && old(member).wallet != caller ==> r == Err::<
            (),
            SocialChainError,
        >(SocialChainError::Unauthorized),
        r is Err ==> *final(member) == *old(member),
        r is Ok <==> valid_metadata_uri(new_metadata_uri@) && old(member).wallet == caller,
        r is Ok ==> *final(member) == (Member { metadata_uri: new_metadata_uri, ..*old(member) }),
{
    if utf8_len(&new_metadata_uri) > 200 {
        return Err(SocialChainError::InvalidMetadataUri);
    }
    if member.wallet != caller {
        return Err(SocialChainError::Unauthorized);
    }
    member.metadata_uri = new_metadata_uri;
    Ok(())
}

/// The error `update_member_profile` reports, if any, checked in this order.
pub open spec fn profile_error(
    member: &Member,
    caller: Pubkey,
    new_name: Option<String>,
    new_uri: Option<String>,
) -> Option<SocialChainError> {
    if member.wallet != caller {
        Some(SocialChainError::Unauthorized)
    } else if new_name matches Some(n) && !valid_member_name(n@) {
        Some(SocialChainError::InvalidMemberName)
    } else if new_uri matches Some(u) && !valid_metadata_uri(u@) {
        Some(SocialChainError::InvalidMetadataUri)
    } else {
        None
    }
}

/// Lets a member change their name and metadata link; absent fields stay as they are and
/// nothing changes unless every present field is valid.
pub fn update_member_profile(
    member: &mut Member,
    caller: Pubkey,
    new_name: Option<String>,
    new_metadata_uri: Option<String>,
) -> (r: Result<(), SocialChainError>)
    ensures
        match profile_error(old(member), caller, new_name, new_metadata_uri) {
            Some(e) => r == Err::<(), SocialChainError>(e) && *final(member) == *old(member),
            None => {
                &&& r is Ok
                &&& final(member).name == (match new_name {
                    Some(n) => n,
                    None => old(member).name,
                })
                &&& final(member).metadata_uri == (match new_metadata_uri {
                    Some(u) => u,
                    None => old(member).metadata_uri,
                })
                &&& *final(member) == (Member {
                    name: final(member).name,
                    metadata_uri: final(member).metadata_uri,
                    ..*old(member)
                })
            },
        },
{
    if member.wallet != caller {
        return Err(SocialChainError::Unauthorized);
    }
    if let Some(name) = &new_name {
        let len = utf8_len(name);
        if len < 1 || len > 50 {
            return Err(SocialChainError::InvalidMemberName);
        }
    }
    if let Some(uri) = &new_metadata_uri {
        if utf8_len(uri) > 200 {
            return Err(SocialChainError::InvalidMetadataUri);
        }
    }
    if let Some(name) = new_name {
        member.name = name;
    }
    if let Some(uri) = new_metadata_uri {
        member.metadata_uri = uri;
    }
    Ok(())
}

/// Lets the admin mint `amount` new tokens to a member; returns the amount to mint.
pub fn mint_tokens_to_member(community: &Community, caller: Pubkey, amount: u64) -> (r: Result<
    u64,
    SocialChainError,
>)
    ensures
        amount == 0 ==> r == Err::<u64, SocialChainError>(SocialChainError::InvalidTokenAmount),
        amount > 0 && community.admin != caller ==> r == Err::<u64, SocialChainError>(
            SocialChainError::Unauthorized,
        ),
        amount > 0 && community.admin == caller ==> r == Ok::<u64, SocialChainError>(amount),
{
    if amount == 0 {
        return Err(SocialChainError::InvalidTokenAmount);
    }
    if community.admin != caller {
        return Err(SocialChainError::Unauthorized);
    }
    Ok(amount)
}

} // verus!
