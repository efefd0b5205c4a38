use vstd::prelude::*;
use crate::community::Community;
use crate::text::{byte_len, utf8_len};
use crate::error::SocialChainError;
use crate::member::Member;
use crate::pubkey::Pubkey;

verus! {

/// Longest connection note, and longest reputation reason, in bytes.
pub const MAX_CONNECTION_METADATA_LEN: usize = 200;
pub const MAX_REPUTATION_REASON_LEN: usize = 200;
/// Largest change of reputation one update may make, either way.
pub const MAX_REPUTATION_DELTA: i64 = 100;

#[derive(Debug, Clone, Copy, PartialEq, Eq, Structural)]
pub enum ConnectionType {
    Friend,
    Colleague,
    Vendor,
    Custom,
}

#[derive(Debug, Clone, Copy, PartialEq, Eq, Structural)]
pub enum InteractionType {
    Payment,
    EventMeetup,
    Message,
    Collaboration,
}

/// A link between two members of one community.
pub struct Connection {
    pub community: Pubkey,
    pub member_a: Pubkey,
    pub member_b: Pubkey,
    pub connection_type: ConnectionType,
    pub metadata: Option<String>,
    pub interaction_count: u32,
    pub last_interaction: i64,
    pub created_at: i64,
    pub bump: u8,
}

/// Whether an optional note is short enough to store.
pub open spec fn valid_metadata(metadata: Option<String>) -> bool {
    match metadata {
        Some(m) => byte_len(m@) <= MAX_CONNECTION_METADATA_LEN,
        None => true,
    }
}

fn metadata_fits(metadata: &Option<String>) -> (r: bool)
    ensures
        r == valid_metadata(*metadata),
{
    match metadata {
        Some(m) => utf8_len(m) <= MAX_CONNECTION_METADATA_LEN,
        None => true,
    }
}

/// The error `create_connection` reports, if any, checked in this order.
pub open spec fn connection_error(a: &Member, b: &Member, metadata: Option<String>) -> Option<
    SocialChainError,
> {
    if !valid_metadata(metadata) {
        Some(SocialChainError::InvalidConnectionMetadata)
    } else if a.community != b.community {
        Some(SocialChainError::InvalidConnection)
    } else if a.wallet == b.wallet {
        Some(SocialChainError::CannotConnectToSelf)
    } else if a.total_connections + 1 > u32::MAX || b.total_connections + 1 > u32::MAX {
        Some(SocialChainError::ArithmeticOverflow)
    } else {
        None
    }
}

/// Connects two distinct members of the same community and counts the connection on both.
pub fn create_connection(
    community: Pubkey,
    member_a: &mut Member,
    member_a_key: Pubkey,
    member_b: &mut Member,
    member_b_key: Pubkey,
    connection_type: ConnectionType,
    metadata: Option<String>,
    now: i64,
    bump: u8,
) -> (r: Result<Connection, SocialChainError>)
    ensures
        match connection_error(old(member_a), old(member_b), metadata) {
            Some(e) => {
                &&& r == Err::<Connection, SocialChainError>(e)
                &&& *final(member_a) == *old(member_a)
                &&& *final(member_b) == *old(member_b)
            },
            None => {
                &&& r is Ok
                &&& *final(member_a) == (Member {
                    total_connections: (old(member_a).total_connections + 1) as u32,
                    ..*old(member_a)
                })
                &&& *final(member_b) == (Member {
                    total_connections: (old(member_b).total_connections + 1) as u32,
                    ..*old(member_b)
                })
            },
        },
        r matches Ok(c) ==> {
            &&& c.community == community
            &&& c.member_a == member_a_key
            &&& c.member_b == member_b_key
            &&& c.connection_type == connection_type
            &&& c.metadata == metadata
            &&& c.interaction_count == 0
            &&& c.last_interaction == now
            &&& c.created_at == now
            &&& c.bump == bump
        },
{
    if !metadata_fits(&metadata) {
        return Err(SocialChainError::InvalidConnectionMetadata);
    }
    if member_a.community != member_b.community {
        return Err(SocialChainError::InvalidConnection);
    }
    if member_a.wallet == member_b.wallet {
        return Err(SocialChainError::CannotConnectToSelf);
    }
    let a_count = match member_a.total_connections.checked_add(1) {
        Some(n) => n,
        None => {
            return Err(SocialChainError::ArithmeticOverflow);
        },
    };
    let b_count = match member_b.total_connections.checked_add(1) {
        Some(n) => n,
        None => {
            return Err(SocialChainError::ArithmeticOverflow);
        },
    };
    member_a.total_connections = a_count;
    member_b.total_connections = b_count;
    Ok(Connection {
        community,
        member_a: member_a_key,
        member_b: member_b_key,
        connection_type,
        metadata,
        interaction_count: 0,
        last_interaction: now,
        created_at: now,
        bump,
    })
}

pub open spec fn is_party(c: &Connection, member: Pubkey) -> bool {
    c.member_a == member || c.member_b == member
}

/// Counts an interaction between the two members, made by one of them.
pub fn record_interaction(
    connection: &mut Connection,
    member: Pubkey,
    interaction_type: InteractionType,
    now: i64,
) -> (r: Result<(), SocialChainError>)
    ensures
        !is_party(old(connection), member) ==> r == Err::<(), SocialChainError>(
            SocialChainError::Unauthorized,
        ),
        is_party(old(connection), member) && old(connection).interaction_count + 1 > u32::MAX
            ==> r == Err::<(), SocialChainError>(SocialChainError::ArithmeticOverflow),
        r is Err ==> *final(connection) == *old(connection),
        r is Ok <==> is_party(old(connection), member) && old(connection).interaction_count + 1
            <= u32::MAX,
        r is Ok ==> *final(connection) == (Connection {
            interaction_count: (old(connection).interaction_count + 1) as u32,
            last_interaction: now,
            ..*old(connection)
        }),
{
    let is_member_a = connection.member_a == member;
    let is_member_b = connection.member_b == member;
    if !is_member_a && !is_member_b {
        return Err(SocialChainError::Unauthorized);
    }
    let count = match connection.interaction_count.checked_add(1) {
        Some(n) => n,
        None => {
            return Err(SocialChainError::ArithmeticOverflow);
        },
    };
    connection.interaction_count = count;
    connection.last_interaction = now;
    Ok(())
}

/// Replaces the connection's note; only one of the two members may.
pub fn update_connection_metadata(
    connection: &mut Connection,
    member: Pubkey,
    new_metadata: Option<String>,
) -> (r: Result<(), SocialChainError>)
    ensures
        !valid_metadata(new_metadata) ==> r == Err::<(), SocialChainError>(
            SocialChainError::InvalidConnectionMetadata,
        ),
        valid_metadata(new_metadata) && !is_party(old(connection), member) ==> r == Err::<
            (),
            SocialChainError,
        >(SocialChainError::Unauthorized),
        r is Err ==> *final(connection) == *old(connection),
        r is Ok <==> valid_metadata(new_metadata) && is_party(old(connection), member),
        r is Ok ==> *final(connection) == (Connection { metadata: new_metadata, ..*old(connection) }),
{
    if !metadata_fits(&new_metadata) {
        return Err(SocialChainError::InvalidConnectionMetadata);
    }
    let is_member_a = connection.member_a == member;
    let is_member_b = connection.member_b == member;
    if !is_member_a && !is_member_b {
        return Err(SocialChainError::Unauthorized);
    }
    connection.metadata = new_metadata;
    Ok(())
}

/// The error `remove_connection` reports, if any, checked in this order.
pub open spec fn removal_error(
    c: &Connection,
    a: &Member,
    a_key: Pubkey,
    b: &Member,
    b_key: Pubkey,
) -> Option<SocialChainError> {
    if c.member_a != a_key && c.member_b != b_key {
        Some(SocialChainError::Unauthorized)
    } else if a.total_connections == 0 || b.total_connections == 0 {
        Some(SocialChainError::ArithmeticUnderflow)
    } else {
        None
    }
}

/// Takes a connection off both members' counts.
pub fn remove_connection(
    connection: &Connection,
    member_a: &mut Member,
    member_a_key: Pubkey,
    member_b: &mut Member,
    member_b_key: Pubkey,
) -> (r: Result<(), SocialChainError>)
    ensures
        match removal_error(connection, old(member_a), member_a_key, old(member_b), member_b_key) {
            Some(e) => {
                &&& r == Err::<(), SocialChainError>(e)
                &&& *final(member_a) == *old(member_a)
                &&& *final(member_b) == *old(member_b)
            },
            None => {
                &&& r is Ok
                &&& *final(member_a) == (Member {
                    total_connections: (old(member_a).total_connections - 1) as u32,
                    ..*old(member_a)
                })
                &&& *final(member_b) == (Member {
                    total_connections: (old(member_b).total_connections - 1) as u32,
                    ..*old(member_b)
                })
            },
        },
{
    let is_member_a = connection.member_a == member_a_key;
    let is_member_b = connection.member_b == member_b_key;
    if !is_member_a && !is_member_b {
        return Err(SocialChainError::Unauthorized);
    }
    let a_count = match member_a.total_connections.checked_sub(1) {
        Some(n) => n,
        None => {
            return Err(SocialChainError::ArithmeticUnderflow);
        },
    };
    let b_count = match member_b.total_connections.checked_sub(1) {
        Some(n) => n,
        None => {
            return Err(SocialChainError::ArithmeticUnderflow);
        },
    };
    member_a.total_connections = a_count;
    member_b.total_connections = b_count;
    Ok(())
}

/// The error `update_reputation` reports, if any, checked in this order.
pub open spec fn reputation_error(
    member: &Member,
    community: &Community,
    caller: Pubkey,
    delta: i64,
    reason: Seq<char>,
) -> Option<SocialChainError> {
    if !(3 <= byte_len(reason) <= MAX_REPUTATION_REASON_LEN) {
        Some(SocialChainError::ReputationReasonRequired)
    } else if delta < -MAX_REPUTATION_DELTA || delta > MAX_REPUTATION_DELTA {
        Some(SocialChainError::InvalidReputationDelta)
    } else if community.admin != caller {
        Some(SocialChainError::Unauthorized)
    } else if member.reputation_score + delta > u64::MAX {
        Some(SocialChainError::ArithmeticOverflow)
    } else if member.reputation_score + delta < 0 {
        Some(SocialChainError::ArithmeticUnderflow)
    } else {
        None
    }
}

/// Lets the admin move a member's reputation by at most a hundred points, with a reason.
pub fn update_reputation(
    member: &mut Member,
    community: &Community,
    caller: Pubkey,
    delta: i64,
    reason: &String,
) -> (r: Result<(), SocialChainError>)
    ensures
        match reputation_error(old(member), community, caller, delta, reason@) {
            Some(e) => r == Err::<(), SocialChainError>(e) && *final(member) == *old(member),
            None => r is Ok && *final(member) == (Member {
                reputation_score: (old(member).reputation_score + delta) as u64,
                ..*old(member)
            }),
        },
{
    let reason_len = utf8_len(reason);
    if reason_len < 3 || reason_len > MAX_REPUTATION_REASON_LEN {
        return Err(SocialChainError::ReputationReasonRequired);
    }
    if delta < -MAX_REPUTATION_DELTA || delta > MAX_REPUTATION_DELTA {
        return Err(SocialChainError::InvalidReputationDelta);
    }
    if community.admin != caller {
        return Err(SocialChainError::Unauthorized);
    }
    let score = if delta >= 0 {
        match member.reputation_score.checked_add(delta as u64) {
            Some(s) => s,
            None => {
                return Err(SocialChainError::ArithmeticOverflow);
            },
        }
    } else {
        match member.reputation_score.checked_sub((-delta) as u64) {
            Some(s) => s,
            None => {
                return Err(SocialChainError::ArithmeticUnderflow);
            },
        }
    };
    member.reputation_score = score;
    Ok(())
}

} // verus!
