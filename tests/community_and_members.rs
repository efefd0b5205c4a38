use sol_chain::community::{initialize_community, update_community_config, Community};
use sol_chain::error::SocialChainError;
use sol_chain::events::{close_event, create_event, record_attendance, EventStatus};
use sol_chain::member::{mint_tokens_to_member, register_member, update_member_metadata, update_member_profile, Member};
use sol_chain::nfc::{authenticate_nfc, create_nfc_card, revoke_nfc_card, transfer_nfc_card};
use sol_chain::payment::{cancel_payment_request, create_payment_request, settle_payment_request, PaymentRequestStatus};
use sol_chain::pubkey::Pubkey;
use sol_chain::social::{create_connection, record_interaction, remove_connection, update_connection_metadata, update_reputation, ConnectionType, InteractionType};

fn key(n: u128) -> Pubkey {
    Pubkey::new(0, n)
}

fn init(name: &str, symbol: &str, decimals: u8, threshold: u8, fee: u16) -> Result<Community, SocialChainError> {
    initialize_community(key(1), name.to_string(), symbol.to_string(), decimals, threshold, fee, key(2), key(3), key(4), 100, 7)
}

fn member(c: &mut Community, wallet: u128) -> Member {
    register_member(c, key(5), key(wallet), "Member".to_string(), "https://x".to_string(), 50, 1).unwrap()
}

#[test]
fn community_creation_bounds() {
    assert_eq!(init("ab", "SYM", 9, 50, 0).err(), Some(SocialChainError::InvalidCommunityName));
    assert_eq!(init("abc", "S", 9, 50, 0).err(), Some(SocialChainError::InvalidInput));
    assert_eq!(init("abc", "SYM", 10, 50, 0).err(), Some(SocialChainError::InvalidDecimals));
    assert_eq!(init("abc", "SYM", 9, 0, 0).err(), Some(SocialChainError::InvalidGovernanceThreshold));
    assert_eq!(init("abc", "SYM", 9, 101, 0).err(), Some(SocialChainError::InvalidGovernanceThreshold));
    assert_eq!(init("abc", "SYM", 9, 100, 1_001).err(), Some(SocialChainError::InvalidTransferFee));
    let c = init("abc", "SYM", 9, 100, 1_000).unwrap();
    assert_eq!(c.admin, key(1));
    assert_eq!(c.governance_threshold, 100);
    assert_eq!(c.transfer_fee_bps, 1_000);
    assert_eq!(c.member_count, 0);
    assert_eq!(c.created_at, 100);
}

#[test]
fn config_update_is_admin_only_and_atomic() {
    let mut c = init("abc", "SYM", 9, 50, 10).unwrap();
    assert_eq!(update_community_config(&mut c, key(9), None, Some(60), None), Err(SocialChainError::Unauthorized));
    assert_eq!(
        update_community_config(&mut c, key(1), Some(key(8)), Some(60), Some(5_000)),
        Err(SocialChainError::InvalidTransferFee)
    );
    assert_eq!((c.admin, c.governance_threshold, c.transfer_fee_bps), (key(1), 50, 10));
    assert_eq!(
        update_community_config(&mut c, key(1), None, Some(0), None),
        Err(SocialChainError::InvalidGovernanceThreshold)
    );
    assert_eq!(update_community_config(&mut c, key(1), None, None, Some(250)), Ok(()));
    assert_eq!((c.admin, c.governance_threshold, c.transfer_fee_bps), (key(1), 50, 250));
    assert_eq!(update_community_config(&mut c, key(1), Some(key(8)), Some(75), None), Ok(()));
    assert_eq!((c.admin, c.governance_threshold, c.transfer_fee_bps), (key(8), 75, 250));
    assert_eq!(update_community_config(&mut c, key(1), None, Some(80), None), Err(SocialChainError::Unauthorized));
}

#[test]
fn member_registration_and_profile() {
    let mut c = init("abc", "SYM", 9, 50, 0).unwrap();
    assert_eq!(
        register_member(&mut c, key(5), key(20), String::new(), String::new(), 0, 1).err(),
        Some(SocialChainError::InvalidMemberName)
    );
    assert_eq!(
        register_member(&mut c, key(5), key(20), "A".to_string(), "u".repeat(201), 0, 1).err(),
        Some(SocialChainError::InvalidMetadataUri)
    );
    assert_eq!(c.member_count, 0);
    let mut m = member(&mut c, 20);
    assert_eq!(c.member_count, 1);
    assert_eq!(m.wallet, key(20));
    assert_eq!(update_member_metadata(&mut m, key(21), "new".to_string()), Err(SocialChainError::Unauthorized));
    assert_eq!(update_member_metadata(&mut m, key(20), "new".to_string()), Ok(()));
    assert_eq!(m.metadata_uri, "new");
    assert_eq!(
        update_member_profile(&mut m, key(20), Some("Grace".to_string()), Some("u".repeat(201))),
        Err(SocialChainError::InvalidMetadataUri)
    );
    assert_eq!(m.name, "Member");
    assert_eq!(update_member_profile(&mut m, key(20), Some("Grace".to_string()), None), Ok(()));
    assert_eq!((m.name.as_str(), m.metadata_uri.as_str()), ("Grace", "new"));
    assert_eq!(mint_tokens_to_member(&c, key(1), 0), Err(SocialChainError::InvalidTokenAmount));
    assert_eq!(mint_tokens_to_member(&c, key(20), 5), Err(SocialChainError::Unauthorized));
    assert_eq!(mint_tokens_to_member(&c, key(1), 5), Ok(5));
}

#[test]
fn attendance_with_card() {
    let mut c = init("abc", "SYM", 9, 50, 0).unwrap();
    let mut m = member(&mut c, 20);
    let mut card = create_nfc_card(key(5), &mut m, key(30), "CARD-0001".to_string(), 60, 2).unwrap();
    assert_eq!(m.nfc_card, Some(key(30)));
    let mut ev = create_event(key(5), key(20), "Meetup".to_string(), String::new(), 100, 200, Some(1), Some(25), 50, 3).unwrap();
    assert_eq!(ev.status, EventStatus::Upcoming);
    let id = "CARD-0001".to_string();
    assert_eq!(
        record_attendance(&mut ev, key(40), &mut m, key(41), &mut card, key(30), &id, 99, 4).err(),
        Some(SocialChainError::EventNotStarted)
    );
    assert_eq!(
        record_attendance(&mut ev, key(40), &mut m, key(41), &mut card, key(30), &"WRONG-ID".to_string(), 100, 4).err(),
        Some(SocialChainError::InvalidNfcCard)
    );
    let a = record_attendance(&mut ev, key(40), &mut m, key(41), &mut card, key(30), &id, 100, 4).unwrap();
    assert!(a.reward_claimed);
    assert_eq!(a.checked_in_at, 100);
    assert_eq!(ev.status, EventStatus::Active);
    assert_eq!(ev.current_attendees, 1);
    assert_eq!(m.total_events_attended, 1);
    assert_eq!((card.total_uses, card.last_used), (1, 100));
    assert_eq!(
        record_attendance(&mut ev, key(40), &mut m, key(41), &mut card, key(30), &id, 150, 4).err(),
        Some(SocialChainError::MaxAttendeesReached)
    );
    assert_eq!(close_event(&mut ev, &c, key(20), 200), Err(SocialChainError::EventNotStarted));
    assert_eq!(close_event(&mut ev, &c, key(99), 201), Err(SocialChainError::Unauthorized));
    assert_eq!(close_event(&mut ev, &c, key(1), 201), Ok(()));
    assert_eq!(ev.status, EventStatus::Closed);
    assert_eq!(
        create_event(key(5), key(20), "Meetup".to_string(), String::new(), 100, 100, None, None, 50, 3).err(),
        Some(SocialChainError::InvalidEventTime)
    );
}

#[test]
fn card_lifecycle() {
    let mut c = init("abc", "SYM", 9, 50, 0).unwrap();
    let mut m = member(&mut c, 20);
    let mut n = member(&mut c, 21);
    assert_eq!(create_nfc_card(key(5), &mut m, key(30), "short".to_string(), 0, 0).err(), Some(SocialChainError::InvalidCardId));
    let mut card = create_nfc_card(key(5), &mut m, key(30), "CARD-0001".to_string(), 0, 0).unwrap();
    assert_eq!(
        create_nfc_card(key(5), &mut m, key(31), "CARD-0002".to_string(), 0, 0).err(),
        Some(SocialChainError::NfcCardAlreadyExists)
    );
    assert_eq!(authenticate_nfc(&mut card, &"CARD-0001".to_string(), 9), Ok(()));
    assert_eq!((card.total_uses, card.last_used), (1, 9));
    assert_eq!(authenticate_nfc(&mut card, &"CARD-0009".to_string(), 9), Err(SocialChainError::InvalidNfcCard));
    assert_eq!(transfer_nfc_card(&mut card, key(30), &mut n, &mut m), Err(SocialChainError::Unauthorized));
    assert_eq!(transfer_nfc_card(&mut card, key(30), &mut m, &mut n), Ok(()));
    assert_eq!((card.owner, m.nfc_card, n.nfc_card), (key(21), None, Some(key(30))));
    assert_eq!(revoke_nfc_card(&mut card, &mut n, &c, key(99)), Err(SocialChainError::Unauthorized));
    assert_eq!(revoke_nfc_card(&mut card, &mut n, &c, key(21)), Ok(()));
    assert!(!card.is_active);
    assert_eq!(authenticate_nfc(&mut card, &"CARD-0001".to_string(), 9), Err(SocialChainError::NfcCardNotActive));
}

#[test]
fn connections_and_reputation() {
    let mut c = init("abc", "SYM", 9, 50, 0).unwrap();
    let mut a = member(&mut c, 20);
    let mut b = member(&mut c, 21);
    let mut a_again = member(&mut c, 20);
    assert_eq!(
        create_connection(key(5), &mut a, key(50), &mut a_again, key(50), ConnectionType::Friend, None, 0, 0).err(),
        Some(SocialChainError::CannotConnectToSelf)
    );
    assert_eq!(
        create_connection(key(5), &mut a, key(50), &mut b, key(51), ConnectionType::Friend, Some("x".repeat(201)), 0, 0).err(),
        Some(SocialChainError::InvalidConnectionMetadata)
    );
    let mut conn = create_connection(key(5), &mut a, key(50), &mut b, key(51), ConnectionType::Vendor, None, 3, 0).unwrap();
    assert_eq!((a.total_connections, b.total_connections), (1, 1));
    assert_eq!(record_interaction(&mut conn, key(52), InteractionType::Message, 4), Err(SocialChainError::Unauthorized));
    assert_eq!(record_interaction(&mut conn, key(51), InteractionType::Payment, 4), Ok(()));
    assert_eq!((conn.interaction_count, conn.last_interaction), (1, 4));
    assert_eq!(update_connection_metadata(&mut conn, key(50), Some("met at the fair".to_string())), Ok(()));
    assert_eq!(conn.metadata, Some("met at the fair".to_string()));
    assert_eq!(remove_connection(&conn, &mut a, key(50), &mut b, key(51)), Ok(()));
    assert_eq!((a.total_connections, b.total_connections), (0, 0));
    assert_eq!(remove_connection(&conn, &mut a, key(50), &mut b, key(51)), Err(SocialChainError::ArithmeticUnderflow));

    let reason = "helpful".to_string();
    assert_eq!(update_reputation(&mut a, &c, key(1), 101, &reason), Err(SocialChainError::InvalidReputationDelta));
    assert_eq!(update_reputation(&mut a, &c, key(1), 5, &"no".to_string()), Err(SocialChainError::ReputationReasonRequired));
    assert_eq!(update_reputation(&mut a, &c, key(20), 5, &reason), Err(SocialChainError::Unauthorized));
    assert_eq!(update_reputation(&mut a, &c, key(1), -1, &reason), Err(SocialChainError::ArithmeticUnderflow));
    assert_eq!(update_reputation(&mut a, &c, key(1), 100, &reason), Ok(()));
    assert_eq!(update_reputation(&mut a, &c, key(1), -30, &reason), Ok(()));
    assert_eq!(a.reputation_score, 70);
    assert_eq!(update_reputation(&mut a, &c, key(1), i64::MIN, &reason), Err(SocialChainError::InvalidReputationDelta));
}

#[test]
fn payment_requests() {
    let mut c = init("abc", "SYM", 9, 50, 0).unwrap();
    let a = member(&mut c, 20);
    let b = member(&mut c, 21);
    assert_eq!(
        create_payment_request(key(5), &a, &b, 0, "lunch".to_string(), 60, 0, 0).err(),
        Some(SocialChainError::InvalidPaymentAmount)
    );
    assert_eq!(
        create_payment_request(key(5), &a, &a, 10, "lunch".to_string(), 60, 0, 0).err(),
        Some(SocialChainError::CannotPaySelf)
    );
    assert_eq!(
        create_payment_request(key(5), &a, &b, 10, "lunch".to_string(), 2_592_001, 0, 0).err(),
        Some(SocialChainError::InvalidInput)
    );
    let mut req = create_payment_request(key(5), &a, &b, 10, "lunch".to_string(), 60, 100, 0).unwrap();
    assert_eq!(req.expires_at, 160);
    assert_eq!(settle_payment_request(&mut req, key(20), 161), Err(SocialChainError::PaymentRequestExpired));
    assert_eq!(settle_payment_request(&mut req, key(21), 150), Err(SocialChainError::Unauthorized));
    assert_eq!(settle_payment_request(&mut req, key(20), 150), Ok(10));
    assert_eq!((req.status, req.settled_at), (PaymentRequestStatus::Completed, Some(150)));
    assert_eq!(cancel_payment_request(&mut req, key(20)), Err(SocialChainError::PaymentRequestAlreadySettled));
    let mut other = create_payment_request(key(5), &a, &b, 10, "lunch".to_string(), 60, 100, 0).unwrap();
    assert_eq!(cancel_payment_request(&mut other, key(99)), Err(SocialChainError::Unauthorized));
    assert_eq!(cancel_payment_request(&mut other, key(21)), Ok(()));
    assert_eq!(other.status, PaymentRequestStatus::Cancelled);
}
