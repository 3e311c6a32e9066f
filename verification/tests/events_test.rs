use crowdfunding_events::{
    address_blacklisted, address_unblacklisted, admin_renounced, campaign_cancelled,
    campaign_created, campaign_goal_updated, campaign_refunded, contract_paused,
    contract_unpaused, contract_upgraded, contribution, creation_fee_paid, creation_fee_set,
    crowdfunding_token_set, donation_made, emergency_contact_updated,
    emergency_withdraw_executed, emergency_withdraw_requested, event_created,
    event_fees_withdrawn, platform_fee_bps_set, platform_fee_updated, platform_fees_withdrawn,
    pool_closed, pool_created, pool_metadata_updated, pool_state_updated, refund, ticket_sold,
    ContractEvent, EventData, EventKind, EventLog, EventLogError, EventRecord, EventValue,
    PoolState,
};

const NOW: u64 = 1_700_000_000;

fn addr(s: &str) -> EventValue {
    EventValue::Address(s.to_string())
}

fn text(s: &str) -> EventValue {
    EventValue::Text(s.as_bytes().to_vec())
}

fn b(x: &str) -> Vec<u8> {
    x.as_bytes().to_vec()
}

fn s(x: &str) -> String {
    x.to_string()
}

/// Checks the published event and that exactly one record with its name was
/// appended at `NOW`.
fn check(
    log: &EventLog,
    before: u64,
    event: ContractEvent,
    kind: EventKind,
    name: &str,
    topics: Vec<EventValue>,
    data: EventData,
) {
    assert_eq!(event.kind, kind);
    assert_eq!(event.kind.name(), name);
    assert_eq!(event.topics, topics);
    assert_eq!(event.data, data);
    assert_eq!(log.count(), before + 1);
    let last = log.records().last().unwrap();
    assert_eq!(
        last,
        &EventRecord { index: before + 1, name: name.to_string(), timestamp: NOW }
    );
}

#[test]
fn campaign_events() {
    let mut log = EventLog::new();
    let id = [3u8; 32];
    let e = campaign_created(&mut log, NOW, id, b("Campaign 1"), s("GCREATOR"), 1000, 86_400).unwrap();
    check(&log, 0, e, EventKind::CampaignCreated, "campaign_created",
        vec![EventValue::Bytes32(id), addr("GCREATOR")],
        EventData::Tuple(vec![text("Campaign 1"), EventValue::I128(1000), EventValue::U64(86_400)]));

    let e = campaign_goal_updated(&mut log, NOW, id, 2000).unwrap();
    check(&log, 1, e, EventKind::CampaignGoalUpdated, "campaign_goal_updated",
        vec![EventValue::Bytes32(id)], EventData::Single(EventValue::I128(2000)));

    let e = donation_made(&mut log, NOW, id, s("GDONOR"), 500).unwrap();
    check(&log, 2, e, EventKind::DonationMade, "donation_made",
        vec![EventValue::Bytes32(id)], EventData::Tuple(vec![addr("GDONOR"), EventValue::I128(500)]));

    let e = campaign_cancelled(&mut log, NOW, id).unwrap();
    check(&log, 3, e, EventKind::CampaignCancelled, "campaign_cancelled",
        vec![EventValue::Bytes32(id)], EventData::Unit);

    let e = campaign_refunded(&mut log, NOW, id, s("GDONOR"), 500).unwrap();
    check(&log, 4, e, EventKind::CampaignRefunded, "campaign_refunded",
        vec![EventValue::Bytes32(id), addr("GDONOR")], EventData::Single(EventValue::I128(500)));
}

#[test]
fn pool_events() {
    let mut log = EventLog::new();
    let e = pool_created(&mut log, NOW, 7, s("GCREATOR"),
        (b("Pool"), b("A pool"), 10, 1_000_000, 99)).unwrap();
    check(&log, 0, e, EventKind::PoolCreated, "pool_created",
        vec![EventValue::U64(7), addr("GCREATOR")],
        EventData::Tuple(vec![text("Pool"), text("A pool"), EventValue::I128(10),
            EventValue::I128(1_000_000), EventValue::U64(99)]));

    let e = event_created(&mut log, NOW, 8, b("Concert"), s("GCREATOR"), 5000, 77).unwrap();
    check(&log, 1, e, EventKind::EventCreated, "event_created",
        vec![EventValue::U64(8), addr("GCREATOR")],
        EventData::Tuple(vec![text("Concert"), EventValue::I128(5000), EventValue::U64(77)]));

    let e = pool_state_updated(&mut log, NOW, 7, PoolState::Closed).unwrap();
    check(&log, 2, e, EventKind::PoolStateUpdated, "pool_state_updated",
        vec![EventValue::U64(7)], EventData::Single(EventValue::PoolState(PoolState::Closed)));

    let e = contribution(&mut log, NOW, 7, s("GC"), s("CASSET"), 250, 12, true).unwrap();
    check(&log, 3, e, EventKind::Contribution, "contribution",
        vec![EventValue::U64(7), addr("GC")],
        EventData::Tuple(vec![addr("CASSET"), EventValue::I128(250), EventValue::U64(12),
            EventValue::Bool(true)]));

    let e = refund(&mut log, NOW, 7, s("GC"), s("CASSET"), 250, 13).unwrap();
    check(&log, 4, e, EventKind::Refund, "refund",
        vec![EventValue::U64(7), addr("GC")],
        EventData::Tuple(vec![addr("CASSET"), EventValue::I128(250), EventValue::U64(13)]));

    let e = pool_closed(&mut log, NOW, 7, s("GADMIN"), 14).unwrap();
    check(&log, 5, e, EventKind::PoolClosed, "pool_closed",
        vec![EventValue::U64(7), addr("GADMIN")], EventData::Single(EventValue::U64(14)));

    let e = pool_metadata_updated(&mut log, NOW, 7, s("GUPD"), b("bafyhash")).unwrap();
    check(&log, 6, e, EventKind::PoolMetadataUpdated, "pool_metadata_updated",
        vec![EventValue::U64(7), addr("GUPD")], EventData::Single(text("bafyhash")));

    let e = ticket_sold(&mut log, NOW, 7, s("GBUYER"), 10_000, 9_500, 500).unwrap();
    check(&log, 7, e, EventKind::TicketSold, "ticket_sold",
        vec![EventValue::U64(7), addr("GBUYER")],
        EventData::Tuple(vec![EventValue::I128(10_000), EventValue::I128(9_500),
            EventValue::I128(500)]));
}

#[test]
fn admin_events() {
    let mut log = EventLog::new();
    let e = contract_paused(&mut log, NOW, s("GADMIN"), 5).unwrap();
    check(&log, 0, e, EventKind::ContractPaused, "contract_paused",
        vec![addr("GADMIN")], EventData::Single(EventValue::U64(5)));

    let e = contract_unpaused(&mut log, NOW, s("GADMIN"), 6).unwrap();
    check(&log, 1, e, EventKind::ContractUnpaused, "contract_unpaused",
        vec![addr("GADMIN")], EventData::Single(EventValue::U64(6)));

    let e = admin_renounced(&mut log, NOW, s("GADMIN")).unwrap();
    check(&log, 2, e, EventKind::AdminRenounced, "admin_renounced",
        vec![addr("GADMIN")], EventData::Unit);

    let e = emergency_contact_updated(&mut log, NOW, s("GADMIN"), s("GCONTACT")).unwrap();
    check(&log, 3, e, EventKind::EmergencyContactUpdated, "emergency_contact_updated",
        vec![addr("GADMIN")], EventData::Single(addr("GCONTACT")));

    let e = emergency_withdraw_requested(&mut log, NOW, s("GADMIN"), s("CTOKEN"), 900, 1000).unwrap();
    check(&log, 4, e, EventKind::EmergencyWithdrawRequested, "emergency_withdraw_requested",
        vec![addr("GADMIN")],
        EventData::Tuple(vec![addr("CTOKEN"), EventValue::I128(900), EventValue::U64(1000)]));

    let e = emergency_withdraw_executed(&mut log, NOW, s("GADMIN"), s("CTOKEN"), 900).unwrap();
    check(&log, 5, e, EventKind::EmergencyWithdrawExecuted, "emergency_withdraw_executed",
        vec![addr("GADMIN")], EventData::Tuple(vec![addr("CTOKEN"), EventValue::I128(900)]));

    let e = crowdfunding_token_set(&mut log, NOW, s("GADMIN"), s("CTOKEN")).unwrap();
    check(&log, 6, e, EventKind::CrowdfundingTokenSet, "crowdfunding_token_set",
        vec![addr("GADMIN")], EventData::Single(addr("CTOKEN")));

    let e = creation_fee_set(&mut log, NOW, s("GADMIN"), 1000).unwrap();
    check(&log, 7, e, EventKind::CreationFeeSet, "creation_fee_set",
        vec![addr("GADMIN")], EventData::Single(EventValue::I128(1000)));

    let e = creation_fee_paid(&mut log, NOW, s("GCREATOR"), 1000).unwrap();
    check(&log, 8, e, EventKind::CreationFeePaid, "creation_fee_paid",
        vec![addr("GCREATOR")], EventData::Single(EventValue::I128(1000)));

    let e = address_blacklisted(&mut log, NOW, s("GADMIN"), s("GBAD")).unwrap();
    check(&log, 9, e, EventKind::AddressBlacklisted, "address_blacklisted",
        vec![addr("GADMIN")], EventData::Single(addr("GBAD")));

    let e = address_unblacklisted(&mut log, NOW, s("GADMIN"), s("GBAD")).unwrap();
    check(&log, 10, e, EventKind::AddressUnblacklisted, "address_unblacklisted",
        vec![addr("GADMIN")], EventData::Single(addr("GBAD")));

    let e = contract_upgraded(&mut log, NOW, [9u8; 32]).unwrap();
    check(&log, 11, e, EventKind::ContractUpgraded, "contract_upgraded",
        vec![EventValue::Bytes32([9u8; 32])], EventData::Unit);
}

#[test]
fn fee_events() {
    let mut log = EventLog::new();
    let e = platform_fees_withdrawn(&mut log, NOW, s("GRECV"), 750).unwrap();
    check(&log, 0, e, EventKind::PlatformFeesWithdrawn, "platform_fees_withdrawn",
        vec![addr("GRECV")], EventData::Single(EventValue::I128(750)));

    let e = event_fees_withdrawn(&mut log, NOW, s("GADMIN"), s("GRECV"), 300).unwrap();
    check(&log, 1, e, EventKind::EventFeesWithdrawn, "event_fees_withdrawn",
        vec![addr("GADMIN"), addr("GRECV")], EventData::Single(EventValue::I128(300)));

    let e = platform_fee_bps_set(&mut log, NOW, s("GADMIN"), 250).unwrap();
    check(&log, 2, e, EventKind::PlatformFeeBpsSet, "platform_fee_bps_set",
        vec![addr("GADMIN")], EventData::Single(EventValue::U32(250)));

    let e = platform_fee_updated(&mut log, NOW, s("GADMIN"), 100, 500).unwrap();
    check(&log, 3, e, EventKind::PlatformFeeUpdated, "platform_fee_updated",
        vec![addr("GADMIN")],
        EventData::Tuple(vec![EventValue::U32(100), EventValue::U32(500)]));
}

#[test]
fn emission_fails_on_full_counter_and_changes_nothing() {
    let stored = vec![EventRecord { index: 1, name: s("refund"), timestamp: 3 }];
    let mut log = EventLog::load(Some(u64::MAX), Some(stored.clone()));
    let r = ticket_sold(&mut log, NOW, 1, s("GBUYER"), 100, 97, 3);
    assert_eq!(r, Err(EventLogError::CounterOverflow));
    let (count, records) = log.into_parts();
    assert_eq!(count, u64::MAX);
    assert_eq!(records, stored);
}

const ALL_KINDS: [EventKind; 29] = [
    EventKind::CampaignCreated, EventKind::CampaignGoalUpdated, EventKind::PoolCreated,
    EventKind::EventCreated, EventKind::PoolStateUpdated, EventKind::ContractPaused,
    EventKind::ContractUnpaused, EventKind::AdminRenounced, EventKind::EmergencyContactUpdated,
    EventKind::DonationMade, EventKind::CampaignCancelled, EventKind::CampaignRefunded,
    EventKind::Contribution, EventKind::EmergencyWithdrawRequested,
    EventKind::EmergencyWithdrawExecuted, EventKind::CrowdfundingTokenSet,
    EventKind::CreationFeeSet, EventKind::CreationFeePaid, EventKind::Refund,
    EventKind::PoolClosed, EventKind::PlatformFeesWithdrawn, EventKind::EventFeesWithdrawn,
    EventKind::AddressBlacklisted, EventKind::AddressUnblacklisted,
    EventKind::PoolMetadataUpdated, EventKind::PlatformFeeBpsSet,
    EventKind::PlatformFeeUpdated, EventKind::TicketSold, EventKind::ContractUpgraded,
];

#[test]
fn event_names_are_valid_symbols() {
    for kind in ALL_KINDS {
        let name = kind.name();
        assert!(name.len() <= 32, "{name}");
        assert!(name.chars().all(|c| c.is_ascii_alphanumeric() || c == '_'), "{name}");
    }
}

#[test]
fn event_names_are_distinct() {
    for a in ALL_KINDS {
        for b in ALL_KINDS {
            assert_eq!(a.name() == b.name(), a == b);
        }
    }
}

#[test]
fn texts_need_not_be_utf8() {
    let mut log = EventLog::new();
    let raw = vec![0xff, 0xfe, b'a'];
    let e = pool_metadata_updated(&mut log, NOW, 3, s("GUPD"), raw.clone()).unwrap();
    assert_eq!(e.data, EventData::Single(EventValue::Text(raw)));
}
