use vstd::prelude::*;
use crate::community::Community;
use crate::text::{byte_len, utf8_len};
use crate::error::SocialChainError;
use crate::member::Member;
use crate::nfc::NfcCard;
use crate::pubkey::Pubkey;

verus! {

#[derive(Debug, Clone, Copy, PartialEq, Eq, Structural)]
pub enum EventStatus {
    Upcoming,
    Active,
    Closed,
    Cancelled,
}

/// A community gathering with optional capacity and per-attendee token reward.
pub struct Event {
    pub community: Pubkey,
    pub organizer: Pubkey,
    pub name: String,
    pub description: String,
    pub start_time: i64,
    pub end_time: i64,
    pub max_attendees: Option<u32>,
    pub current_attendees: u32,
    pub token_reward: Option<u64>,
    pub status: EventStatus,
    pub created_at: i64,
    pub bump: u8,
}

/// A member's check-in at an event, made with their card.
#[derive(Debug, Clone, Copy, PartialEq, Eq, Structural)]
pub struct Attendance {
    pub event: Pubkey,
    pub member: Pubkey,
    pub nfc_card: Pubkey,
    pub checked_in_at: i64,
    /// Whether the event's token reward is owed to this attendee.
    pub reward_claimed: bool,
    pub bump: u8,
}

/// The error `create_event` reports, if any, checked in this order.
pub open spec fn create_event_error(
    name: Seq<char>,
    description: Seq<char>,
    start_time: i64,
    end_time: i64,
) -> Option<SocialChainError> {
    if !(3 <= byte_len(name) <= 100) {
        Some(SocialChainError::InvalidEventName)
    } else if byte_len(description) > 500 {
        Some(SocialChainError::InvalidInput)
    } else if end_time <= start_time {
        Some(SocialChainError::InvalidEventTime)
    } else {
        None
    }
}

/// Schedules an event; it is `Upcoming` if it starts after `now`, else `Active`.
pub fn create_event(
    community: Pubkey,
    organizer: Pubkey,
    name: String,
    description: String,
    start_time: i64,
    end_time: i64,
    max_attendees: Option<u32>,
    token_reward: Option<u64>,
    now: i64,
    bump: u8,
) -> (r: Result<Event, SocialChainError>)
    ensures
        match create_event_error(name@, description@, start_time, end_time) {
            Some(e) => r == Err::<Event, SocialChainError>(e),
            None => r is Ok,
        },
        r matches Ok(ev) ==> {
            &&& ev.community == community
            &&& ev.organizer == organizer
            &&& ev.name@ == name@
            &&& ev.description@ == description@
            &&& ev.start_time == start_time
            &&& ev.end_time == end_time
            &&& ev.max_attendees == max_attendees
            &&& ev.current_attendees == 0
            &&& ev.token_reward == token_reward
            &&& ev.status == (if start_time > now {
                EventStatus::Upcoming
            } else {
                EventStatus::Active
            })
            &&& ev.created_at == now
            &&& ev.bump == bump
        },
{
    let name_len = utf8_len(&name);
    if name_len < 3 || name_len > 100 {
        return Err(SocialChainError::InvalidEventName);
    }
    if utf8_len(&description) > 500 {
        return Err(SocialChainError::InvalidInput);
    }
    if end_time <= start_time {
        return Err(SocialChainError::InvalidEventTime);
    }
    let status = if start_time > now {
        EventStatus::Upcoming
    } else {
        EventStatus::Active
    };
    Ok(Event {
        community,
        organizer,
        name,
        description,
        start_time,
        end_time,
        max_attendees,
        current_attendees: 0,
        token_reward,
        status,
        created_at: now,
        bump,
    })
}

/// Whether the event admits check-ins at `now` as far as its start is concerned.
pub open spec fn has_started(ev: &Event, now: i64) -> bool {
    ev.status == EventStatus::Active || (ev.status == EventStatus::Upcoming && now
        >= ev.start_time)
}

/// The error `record_attendance` reports, if any, checked in this order.
pub open spec fn attendance_error(
    ev: &Event,
    member: &Member,
    card: &NfcCard,
    card_id: Seq<char>,
    now: i64,
) -> Option<SocialChainError> {
    if !has_started(ev, now) {
        Some(SocialChainError::EventNotStarted)
    } else if now > ev.end_time {
        Some(SocialChainError::EventEnded)
    } else if ev.max_attendees matches Some(max) && ev.current_attendees >= max {
        Some(SocialChainError::MaxAttendeesReached)
    } else if !card.is_active {
        Some(SocialChainError::NfcCardNotActive)
    } else if card.card_id@ != card_id {
        Some(SocialChainError::InvalidNfcCard)
    } else if card.owner != member.wallet {
        Some(SocialChainError::Unauthorized)
    } else if ev.current_attendees + 1 > u32::MAX || member.total_events_attended + 1 > u32::MAX
        || card.total_uses + 1 > i64::MAX {
        Some(SocialChainError::ArithmeticOverflow)
    } else {
        None
    }
}

/// Checks a member in at an event with their card: counts the attendee on the event, the
/// event on the member and the use on the card, and moves a started `Upcoming` event to
/// `Active`. The returned record says whether the event's reward is owed; on failure nothing
/// changes.
pub fn record_attendance(
    event: &mut Event,
    event_key: Pubkey,
    member: &mut Member,
    member_key: Pubkey,
    nfc_card: &mut NfcCard,
    nfc_card_key: Pubkey,
    card_id: &String,
    now: i64,
    bump: u8,
) -> (r: Result<Attendance, SocialChainError>)
    ensures
        match attendance_error(old(event), old(member), old(nfc_card), card_id@, now) {
            Some(e) => {
                &&& r == Err::<Attendance, SocialChainError>(e)
                &&& *final(event) == *old(event)
                &&& *final(member) == *old(member)
                &&& *final(nfc_card) == *old(nfc_card)
            },
            None => {
                &&& r == Ok::<Attendance, SocialChainError>(
                    Attendance {
                        event: event_key,
                        member: member_key,
                        nfc_card: nfc_card_key,
                        checked_in_at: now,
                        reward_claimed: old(event).token_reward is Some,
                        bump,
                    },
                )
                &&& *final(event) == (Event {
                    current_attendees: (old(event).current_attendees + 1) as u32,
                    status: EventStatus::Active,
                    ..*old(event)
                })
                &&& *final(member) == (Member {
                    total_events_attended: (old(member).total_events_attended + 1) as u32,
                    ..*old(member)
                })
                &&& *final(nfc_card) == (NfcCard {
                    last_used: now,
                    total_uses: (old(nfc_card).total_uses + 1) as i64,
                    ..*old(nfc_card)
                })
            },
        },
{
    let started = event.status == EventStatus::Active || (event.status == EventStatus::Upcoming
        && now >= event.start_time);
    if !started {
        return Err(SocialChainError::EventNotStarted);
    }
    if now > event.end_time {
        return Err(SocialChainError::EventEnded);
    }
    if let Some(max) = event.max_attendees {
        if event.current_attendees >= max {
            return Err(SocialChainError::MaxAttendeesReached);
        }
    }
    if !nfc_card.is_active {
        return Err(SocialChainError::NfcCardNotActive);
    }
    if nfc_card.card_id != *card_id {
        return Err(SocialChainError::InvalidNfcCard);
    }
    if nfc_card.owner != member.wallet {
        return Err(SocialChainError::Unauthorized);
    }
    let attendees = match event.current_attendees.checked_add(1) {
        Some(n) => n,
        None => {
            return Err(SocialChainError::ArithmeticOverflow);
        },
    };
    let attended = match member.total_events_attended.checked_add(1) {
        Some(n) => n,
        None => {
            return Err(SocialChainError::ArithmeticOverflow);
        },
    };
    let uses = match nfc_card.total_uses.checked_add(1) {
        Some(n) => n,
        None => {
            return Err(SocialChainError::ArithmeticOverflow);
        },
    };
    event.current_attendees = attendees;
    member.total_events_attended = attended;
    nfc_card.last_used = now;
    nfc_card.total_uses = uses;
    event.status = EventStatus::Active;
    Ok(Attendance {
        event: event_key,
        member: member_key,
        nfc_card: nfc_card_key,
        checked_in_at: now,
        reward_claimed: event.token_reward.is_some(),
        bump,
    })
}

/// The error `close_event` reports, if any, checked in this order.
pub open spec fn close_event_error(ev: &Event, community: &Community, caller: Pubkey, now: i64) -> Option<
    SocialChainError,
> {
    if caller != ev.organizer && caller != community.admin {
        Some(SocialChainError::Unauthorized)
    } else if now <= ev.end_time {
        Some(SocialChainError::EventNotStarted)
    } else {
        None
    }
}

/// Lets the organizer or the community admin close an event once it has ended.
pub fn close_event(event: &mut Event, community: &Community, caller: Pubkey, now: i64) -> (r:
    Result<(), SocialChainError>)
    ensures
        match close_event_error(old(event), community, caller, now) {
            Some(e) => r == Err::<(), SocialChainError>(e) && *final(event) == *old(event),
            None => r is Ok && *final(event) == (Event {
                status: EventStatus::Closed,
                ..*old(event)
            }),
        },
{
    let is_organizer = event.organizer == caller;
    let is_admin = community.admin == caller;
    if !is_organizer && !is_admin {
        return Err(SocialChainError::Unauthorized);
    }
    if now <= event.end_time {
        return Err(SocialChainError::EventNotStarted);
    }
    event.status = EventStatus::Closed;
    Ok(())
}

} // verus!
