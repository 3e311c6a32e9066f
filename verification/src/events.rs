use vstd::prelude::*;

use crate::event_kind::EventKind;
use crate::event_log::{EventLog, EventLogError, LogView, RecordView};

verus! {

/// The lifecycle state of a pool, as carried by `pool_state_updated`.
#[derive(Clone, Copy, Debug, PartialEq, Eq)]
pub enum PoolState {
    Active,
    Closed,
    Cancelled,
}

/// One value in the topics or the data of a published event. Addresses are
/// carried as their strkey text, byte arrays (campaign ids, code hashes) as
/// their 32 bytes, and texts (titles, names, metadata hashes) as their bytes,
/// which need not be UTF-8.
#[derive(Clone, Debug, PartialEq, Eq)]
pub enum EventValue {
    Bytes32([u8; 32]),
    Address(String),
    Text(Vec<u8>),
    I128(i128),
    U64(u64),
    U32(u32),
    Bool(bool),
    PoolState(PoolState),
}

/// The data payload of a published event: nothing (the unit value), a single
/// value, or a tuple of values.
#[derive(Clone, Debug, PartialEq, Eq)]
pub enum EventData {
    Unit,
    Single(EventValue),
    Tuple(Vec<EventValue>),
}

/// The mathematical value of an [`EventData`].
pub enum DataView {
    Unit,
    Single(EventValue),
    Tuple(Seq<EventValue>),
}

impl View for EventData {
    type V = DataView;

    open spec fn view(&self) -> DataView {
        match self {
            EventData::Unit => DataView::Unit,
            EventData::Single(v) => DataView::Single(*v),
            EventData::Tuple(vs) => DataView::Tuple(vs@),
        }
    }
}

/// A contract event to publish. Its topics are the symbol of `kind`'s name
/// followed by `topics`; its data is `data`.
#[derive(Clone, Debug, PartialEq, Eq)]
pub struct ContractEvent {
    pub kind: EventKind,
    pub topics: Vec<EventValue>,
    pub data: EventData,
}

/// The mathematical value of a [`ContractEvent`].
pub struct EventView {
    pub kind: EventKind,
    pub topics: Seq<EventValue>,
    pub data: DataView,
}

impl View for ContractEvent {
    type V = EventView;

    open spec fn view(&self) -> EventView {
        EventView { kind: self.kind, topics: self.topics@, data: self.data@ }
    }
}

/// What an emitter does, for a log `before` it is handed, the log `after` it
/// leaves, the ledger time `now` and its result `r`: when the counter can
/// grow, it returns the event `expected` and records `expected`'s name at
/// `now`; otherwise it fails with `CounterOverflow` and leaves the log as it
/// was.
pub open spec fn emitted(
    before: LogView,
    after: LogView,
    now: u64,
    r: Result<ContractEvent, EventLogError>,
    expected: EventView,
) -> bool {
    match r {
        Ok(e) => {
            &&& before.count < u64::MAX
            &&& e@ == expected
            &&& after == before.recorded(expected.kind.spec_name(), now)
        },
        Err(err) => {
            &&& before.count >= u64::MAX
            &&& err == EventLogError::CounterOverflow
            &&& after == before
        },
    }
}

/// Every successful emission is logged: the counter grows by one, every
/// earlier record stays as it was, and the new last record carries the new
/// counter value, the name of the published event and the ledger time.
pub proof fn lemma_emission_is_logged(
    before: LogView,
    after: LogView,
    now: u64,
    r: Result<ContractEvent, EventLogError>,
    expected: EventView,
)
    requires
        emitted(before, after, now, r, expected),
        r is Ok,
    ensures
        after.count == before.count + 1,
        after.records.len() == before.records.len() + 1,
        forall|i: int|
            0 <= i < before.records.len() ==> #[trigger] after.records[i] == before.records[i],
        after.records.last() == (RecordView {
            index: after.count as u64,
            name: r->Ok_0@.kind.spec_name(),
            timestamp: now,
        }),
{
    crate::event_log::lemma_record_appends(before, expected.kind.spec_name(), now);
}

/// Emitting keeps a well-formed log well formed, whether the emission
/// succeeds or fails; a failed emission leaves the log unchanged.
pub proof fn lemma_emission_keeps_wf(
    before: LogView,
    after: LogView,
    now: u64,
    r: Result<ContractEvent, EventLogError>,
    expected: EventView,
)
    requires
        emitted(before, after, now, r, expected),
        before.wf(),
    ensures
        after.wf(),
        r is Err ==> after == before,
{
    if r is Ok {
        crate::event_log::lemma_record_keeps_wf(before, expected.kind.spec_name(), now);
    }
}

/// Records the event in the log, then hands it back for publication.
fn publish(
    log: &mut EventLog,
    now: u64,
    kind: EventKind,
    topics: Vec<EventValue>,
    data: EventData,
) -> (r: Result<ContractEvent, EventLogError>)
    ensures
        emitted(old(log)@, final(log)@, now, r, (EventView { kind, topics: topics@, data: data@ })),
{
    match log.record_event(kind.name(), now) {
        Ok(_) => Ok(ContractEvent { kind, topics, data }),
        Err(e) => Err(e),
    }
}

fn values1(a: EventValue) -> (v: Vec<EventValue>)
    ensures
        v@ == seq![a],
{
    let mut v = Vec::new();
    v.push(a);
    v
}

fn values2(a: EventValue, b: EventValue) -> (v: Vec<EventValue>)
    ensures
        v@ == seq![a, b],
{
    let mut v = values1(a);
    v.push(b);
    v
}

fn values3(a: EventValue, b: EventValue, c: EventValue) -> (v: Vec<EventValue>)
    ensures
        v@ == seq![a, b, c],
{
    let mut v = values2(a, b);
    v.push(c);
    v
}

fn values4(a: EventValue, b: EventValue, c: EventValue, d: EventValue) -> (v: Vec<EventValue>)
    ensures
        v@ == seq![a, b, c, d],
{
    let mut v = values3(a, b, c);
    v.push(d);
    v
}

fn values5(a: EventValue, b: EventValue, c: EventValue, d: EventValue, e: EventValue) -> (v: Vec<
    EventValue,
>)
    ensures
        v@ == seq![a, b, c, d, e],
{
    let mut v = values4(a, b, c, d);
    v.push(e);
    v
}

/// Emitted when a new fundraising campaign is created. The campaign id and its creator are the
/// topics; the title, the goal and the deadline are the data.
/// Appends the event to the log at `ledger_time`.
pub fn campaign_created(
    log: &mut EventLog,
    ledger_time: u64,
    id: [u8; 32],
    title: Vec<u8>,
    creator: String,
    goal: i128,
    deadline: u64,
) -> (r: Result<ContractEvent, EventLogError>)
    ensures
        emitted(
            old(log)@,
            final(log)@,
            ledger_time,
            r,
            (EventView {
                kind: EventKind::CampaignCreated,
                topics: seq![EventValue::Bytes32(id), EventValue::Address(creator)],
                data: DataView::Tuple(seq![
                    EventValue::Text(title),
                    EventValue::I128(goal),
                    EventValue::U64(deadline),
                ]),
            }),
        ),
{
    let topics = values2(EventValue::Bytes32(id), EventValue::Address(creator));
    let data = EventData::Tuple(values3(
        EventValue::Text(title),
        EventValue::I128(goal),
        EventValue::U64(deadline),
    ));
    publish(log, ledger_time, EventKind::CampaignCreated, topics, data)
}

/// Emitted when the goal of a campaign is updated. The campaign id is the topic; the new goal is
/// the data.
/// Appends the event to the log at `ledger_time`.
pub fn campaign_goal_updated(
    log: &mut EventLog,
    ledger_time: u64,
    id: [u8; 32],
    new_goal: i128,
) -> (r: Result<ContractEvent, EventLogError>)
    ensures
        emitted(
            old(log)@,
            final(log)@,
            ledger_time,
            r,
            (EventView {
                kind: EventKind::CampaignGoalUpdated,
                topics: seq![EventValue::Bytes32(id)],
                data: DataView::Single(EventValue::I128(new_goal)),
            }),
        ),
{
    let topics = values1(EventValue::Bytes32(id));
    let data = EventData::Single(EventValue::I128(new_goal));
    publish(log, ledger_time, EventKind::CampaignGoalUpdated, topics, data)
}

/// Emitted when a new donation pool is created. The pool id and its creator are the topics; the
/// details (title, description, minimum contribution, target amount, deadline) are the data.
/// Appends the event to the log at `ledger_time`.
pub fn pool_created(
    log: &mut EventLog,
    ledger_time: u64,
    pool_id: u64,
    creator: String,
    details: (Vec<u8>, Vec<u8>, i128, i128, u64),
) -> (r: Result<ContractEvent, EventLogError>)
    ensures
        emitted(
            old(log)@,
            final(log)@,
            ledger_time,
            r,
            (EventView {
                kind: EventKind::PoolCreated,
                topics: seq![EventValue::U64(pool_id), EventValue::Address(creator)],
                data: DataView::Tuple(seq![
                    EventValue::Text(details.0),
                    EventValue::Text(details.1),
                    EventValue::I128(details.2),
                    EventValue::I128(details.3),
                    EventValue::U64(details.4),
                ]),
            }),
        ),
{
    let (title, description, min_contribution, target_amount, deadline) = details;
    let topics = values2(EventValue::U64(pool_id), EventValue::Address(creator));
    let data = EventData::Tuple(values5(
        EventValue::Text(title),
        EventValue::Text(description),
        EventValue::I128(min_contribution),
        EventValue::I128(target_amount),
        EventValue::U64(deadline),
    ));
    publish(log, ledger_time, EventKind::PoolCreated, topics, data)
}

/// Emitted when a new ticketed event pool is created. The pool id and its creator are the topics;
/// the event name, the target amount and the deadline are the data.
/// Appends the event to the log at `ledger_time`.
pub fn event_created(
    log: &mut EventLog,
    ledger_time: u64,
    pool_id: u64,
    name: Vec<u8>,
    creator: String,
    target_amount: i128,
    deadline: u64,
) -> (r: Result<ContractEvent, EventLogError>)
    ensures
        emitted(
            old(log)@,
            final(log)@,
            ledger_time,
            r,
            (EventView {
                kind: EventKind::EventCreated,
                topics: seq![EventValue::U64(pool_id), EventValue::Address(creator)],
                data: DataView::Tuple(seq![
                    EventValue::Text(name),
                    EventValue::I128(target_amount),
                    EventValue::U64(deadline),
                ]),
            }),
        ),
{
    let topics = values2(EventValue::U64(pool_id), EventValue::Address(creator));
    let data = EventData::Tuple(values3(
        EventValue::Text(name),
        EventValue::I128(target_amount),
        EventValue::U64(deadline),
    ));
    publish(log, ledger_time, EventKind::EventCreated, topics, data)
}

/// Emitted when the state of a pool changes. The pool id is the topic; the new state is the data.
/// Appends the event to the log at `ledger_time`.
pub fn pool_state_updated(
    log: &mut EventLog,
    ledger_time: u64,
    pool_id: u64,
    new_state: PoolState,
) -> (r: Result<ContractEvent, EventLogError>)
    ensures
        emitted(
            old(log)@,
            final(log)@,
            ledger_time,
            r,
            (EventView {
                kind: EventKind::PoolStateUpdated,
                topics: seq![EventValue::U64(pool_id)],
                data: DataView::Single(EventValue::PoolState(new_state)),
            }),
        ),
{
    let topics = values1(EventValue::U64(pool_id));
    let data = EventData::Single(EventValue::PoolState(new_state));
    publish(log, ledger_time, EventKind::PoolStateUpdated, topics, data)
}

/// Emitted when an administrator pauses the contract. The administrator is the topic; the pause
/// time is the data.
/// Appends the event to the log at `ledger_time`.
pub fn contract_paused(
    log: &mut EventLog,
    ledger_time: u64,
    admin: String,
    timestamp: u64,
) -> (r: Result<ContractEvent, EventLogError>)
    ensures
        emitted(
            old(log)@,
            final(log)@,
            ledger_time,
            r,
            (EventView {
                kind: EventKind::ContractPaused,
                topics: seq![EventValue::Address(admin)],
                data: DataView::Single(EventValue::U64(timestamp)),
            }),
        ),
{
    let topics = values1(EventValue::Address(admin));
    let data = EventData::Single(EventValue::U64(timestamp));
    publish(log, ledger_time, EventKind::ContractPaused, topics, data)
}

/// Emitted when an administrator unpauses the contract. The administrator is the topic; the unpause
/// time is the data.
/// Appends the event to the log at `ledger_time`.
pub fn contract_unpaused(
    log: &mut EventLog,
    ledger_time: u64,
    admin: String,
    timestamp: u64,
) -> (r: Result<ContractEvent, EventLogError>)
    ensures
        emitted(
            old(log)@,
            final(log)@,
            ledger_time,
            r,
            (EventView {
                kind: EventKind::ContractUnpaused,
                topics: seq![EventValue::Address(admin)],
                data: DataView::Single(EventValue::U64(timestamp)),
            }),
        ),
{
    let topics = values1(EventValue::Address(admin));
    let data = EventData::Single(EventValue::U64(timestamp));
    publish(log, ledger_time, EventKind::ContractUnpaused, topics, data)
}

/// Emitted when the administrator renounces the role for good. The administrator is the topic;
/// there is no data.
/// Appends the event to the log at `ledger_time`.
pub fn admin_renounced(
    log: &mut EventLog,
    ledger_time: u64,
    admin: String,
) -> (r: Result<ContractEvent, EventLogError>)
    ensures
        emitted(
            old(log)@,
            final(log)@,
            ledger_time,
            r,
            (EventView {
                kind: EventKind::AdminRenounced,
                topics: seq![EventValue::Address(admin)],
                data: DataView::Unit,
            }),
        ),
{
    let topics = values1(EventValue::Address(admin));
    let data = EventData::Unit;
    publish(log, ledger_time, EventKind::AdminRenounced, topics, data)
}

/// Emitted when the administrator sets a new emergency contact. The administrator is the topic; the
/// contact is the data.
/// Appends the event to the log at `ledger_time`.
pub fn emergency_contact_updated(
    log: &mut EventLog,
    ledger_time: u64,
    admin: String,
    contact: String,
) -> (r: Result<ContractEvent, EventLogError>)
    ensures
        emitted(
            old(log)@,
            final(log)@,
            ledger_time,
            r,
            (EventView {
                kind: EventKind::EmergencyContactUpdated,
                topics: seq![EventValue::Address(admin)],
                data: DataView::Single(EventValue::Address(contact)),
            }),
        ),
{
    let topics = values1(EventValue::Address(admin));
    let data = EventData::Single(EventValue::Address(contact));
    publish(log, ledger_time, EventKind::EmergencyContactUpdated, topics, data)
}

/// Emitted when a donation is made to a campaign. The campaign id is the topic; the contributor and
/// the amount are the data.
/// Appends the event to the log at `ledger_time`.
pub fn donation_made(
    log: &mut EventLog,
    ledger_time: u64,
    campaign_id: [u8; 32],
    contributor: String,
    amount: i128,
) -> (r: Result<ContractEvent, EventLogError>)
    ensures
        emitted(
            old(log)@,
            final(log)@,
            ledger_time,
            r,
            (EventView {
                kind: EventKind::DonationMade,
                topics: seq![EventValue::Bytes32(campaign_id)],
                data: DataView::Tuple(seq![
                    EventValue::Address(contributor),
                    EventValue::I128(amount),
                ]),
            }),
        ),
{
    let topics = values1(EventValue::Bytes32(campaign_id));
    let data = EventData::Tuple(values2(
        EventValue::Address(contributor),
        EventValue::I128(amount),
    ));
    publish(log, ledger_time, EventKind::DonationMade, topics, data)
}

/// Emitted when a campaign is cancelled. The campaign id is the topic; there is no data.
/// Appends the event to the log at `ledger_time`.
pub fn campaign_cancelled(
    log: &mut EventLog,
    ledger_time: u64,
    id: [u8; 32],
) -> (r: Result<ContractEvent, EventLogError>)
    ensures
        emitted(
            old(log)@,
            final(log)@,
            ledger_time,
            r,
            (EventView {
                kind: EventKind::CampaignCancelled,
                topics: seq![EventValue::Bytes32(id)],
                data: DataView::Unit,
            }),
        ),
{
    let topics = values1(EventValue::Bytes32(id));
    let data = EventData::Unit;
    publish(log, ledger_time, EventKind::CampaignCancelled, topics, data)
}

/// Emitted when a contributor is refunded from a cancelled or failed campaign. The campaign id and
/// the contributor are the topics; the amount is the data.
/// Appends the event to the log at `ledger_time`.
pub fn campaign_refunded(
    log: &mut EventLog,
    ledger_time: u64,
    id: [u8; 32],
    contributor: String,
    amount: i128,
) -> (r: Result<ContractEvent, EventLogError>)
    ensures
        emitted(
            old(log)@,
            final(log)@,
            ledger_time,
            r,
            (EventView {
                kind: EventKind::CampaignRefunded,
                topics: seq![EventValue::Bytes32(id), EventValue::Address(contributor)],
                data: DataView::Single(EventValue::I128(amount)),
            }),
        ),
{
    let topics = values2(EventValue::Bytes32(id), EventValue::Address(contributor));
    let data = EventData::Single(EventValue::I128(amount));
    publish(log, ledger_time, EventKind::CampaignRefunded, topics, data)
}

/// Emitted when a contribution is made to a pool. The pool id and the contributor are the topics;
/// the asset, the amount, the time and the privacy flag are the data.
/// Appends the event to the log at `ledger_time`.
pub fn contribution(
    log: &mut EventLog,
    ledger_time: u64,
    pool_id: u64,
    contributor: String,
    asset: String,
    amount: i128,
    timestamp: u64,
    is_private: bool,
) -> (r: Result<ContractEvent, EventLogError>)
    ensures
        emitted(
            old(log)@,
            final(log)@,
            ledger_time,
            r,
            (EventView {
                kind: EventKind::Contribution,
                topics: seq![EventValue::U64(pool_id), EventValue::Address(contributor)],
                data: DataView::Tuple(seq![
                    EventValue::Address(asset),
                    EventValue::I128(amount),
                    EventValue::U64(timestamp),
                    EventValue::Bool(is_private),
                ]),
            }),
        ),
{
    let topics = values2(EventValue::U64(pool_id), EventValue::Address(contributor));
    let data = EventData::Tuple(values4(
        EventValue::Address(asset),
        EventValue::I128(amount),
        EventValue::U64(timestamp),
        EventValue::Bool(is_private),
    ));
    publish(log, ledger_time, EventKind::Contribution, topics, data)
}

/// Emitted when the administrator requests an emergency withdrawal. The administrator is the topic;
/// the token, the amount and the unlock time are the data.
/// Appends the event to the log at `ledger_time`.
pub fn emergency_withdraw_requested(
    log: &mut EventLog,
    ledger_time: u64,
    admin: String,
    token: String,
    amount: i128,
    unlock_time: u64,
) -> (r: Result<ContractEvent, EventLogError>)
    ensures
        emitted(
            old(log)@,
            final(log)@,
            ledger_time,
            r,
            (EventView {
                kind: EventKind::EmergencyWithdrawRequested,
                topics: seq![EventValue::Address(admin)],
                data: DataView::Tuple(seq![
                    EventValue::Address(token),
                    EventValue::I128(amount),
                    EventValue::U64(unlock_time),
                ]),
            }),
        ),
{
    let topics = values1(EventValue::Address(admin));
    let data = EventData::Tuple(values3(
        EventValue::Address(token),
        EventValue::I128(amount),
        EventValue::U64(unlock_time),
    ));
    publish(log, ledger_time, EventKind::EmergencyWithdrawRequested, topics, data)
}

/// Emitted when a requested emergency withdrawal is executed. The administrator is the topic; the
/// token and the amount are the data.
/// Appends the event to the log at `ledger_time`.
pub fn emergency_withdraw_executed(
    log: &mut EventLog,
    ledger_time: u64,
    admin: String,
    token: String,
    amount: i128,
) -> (r: Result<ContractEvent, EventLogError>)
    ensures
        emitted(
            old(log)@,
            final(log)@,
            ledger_time,
            r,
            (EventView {
                kind: EventKind::EmergencyWithdrawExecuted,
                topics: seq![EventValue::Address(admin)],
                data: DataView::Tuple(seq![EventValue::Address(token), EventValue::I128(amount)]),
            }),
        ),
{
    let topics = values1(EventValue::Address(admin));
    let data = EventData::Tuple(values2(EventValue::Address(token), EventValue::I128(amount)));
    publish(log, ledger_time, EventKind::EmergencyWithdrawExecuted, topics, data)
}

/// Emitted when the administrator sets the token accepted for contributions. The administrator is
/// the topic; the token is the data.
/// Appends the event to the log at `ledger_time`.
pub fn crowdfunding_token_set(
    log: &mut EventLog,
    ledger_time: u64,
    admin: String,
    token: String,
) -> (r: Result<ContractEvent, EventLogError>)
    ensures
        emitted(
            old(log)@,
            final(log)@,
            ledger_time,
            r,
            (EventView {
                kind: EventKind::CrowdfundingTokenSet,
                topics: seq![EventValue::Address(admin)],
                data: DataView::Single(EventValue::Address(token)),
            }),
        ),
{
    let topics = values1(EventValue::Address(admin));
    let data = EventData::Single(EventValue::Address(token));
    publish(log, ledger_time, EventKind::CrowdfundingTokenSet, topics, data)
}

/// Emitted when the administrator sets the pool creation fee. The administrator is the topic; the
/// fee is the data.
/// Appends the event to the log at `ledger_time`.
pub fn creation_fee_set(
    log: &mut EventLog,
    ledger_time: u64,
    admin: String,
    fee: i128,
) -> (r: Result<ContractEvent, EventLogError>)
    ensures
        emitted(
            old(log)@,
            final(log)@,
            ledger_time,
            r,
            (EventView {
                kind: EventKind::CreationFeeSet,
                topics: seq![EventValue::Address(admin)],
                data: DataView::Single(EventValue::I128(fee)),
            }),
        ),
{
    let topics = values1(EventValue::Address(admin));
    let data = EventData::Single(EventValue::I128(fee));
    publish(log, ledger_time, EventKind::CreationFeeSet, topics, data)
}

/// Emitted when a creator pays the creation fee. The creator is the topic; the amount is the data.
/// Appends the event to the log at `ledger_time`.
pub fn creation_fee_paid(
    log: &mut EventLog,
    ledger_time: u64,
    creator: String,
    amount: i128,
) -> (r: Result<ContractEvent, EventLogError>)
    ensures
        emitted(
            old(log)@,
            final(log)@,
            ledger_time,
            r,
            (EventView {
                kind: EventKind::CreationFeePaid,
                topics: seq![EventValue::Address(creator)],
                data: DataView::Single(EventValue::I128(amount)),
            }),
        ),
{
    let topics = values1(EventValue::Address(creator));
    let data = EventData::Single(EventValue::I128(amount));
    publish(log, ledger_time, EventKind::CreationFeePaid, topics, data)
}

/// Emitted when a contributor is refunded from a pool. The pool id and the contributor are the
/// topics; the asset, the amount and the time are the data.
/// Appends the event to the log at `ledger_time`.
pub fn refund(
    log: &mut EventLog,
    ledger_time: u64,
    pool_id: u64,
    contributor: String,
    asset: String,
    amount: i128,
    timestamp: u64,
) -> (r: Result<ContractEvent, EventLogError>)
    ensures
        emitted(
            old(log)@,
            final(log)@,
            ledger_time,
            r,
            (EventView {
                kind: EventKind::Refund,
                topics: seq![EventValue::U64(pool_id), EventValue::Address(contributor)],
                data: DataView::Tuple(seq![
                    EventValue::Address(asset),
                    EventValue::I128(amount),
                    EventValue::U64(timestamp),
                ]),
            }),
        ),
{
    let topics = values2(EventValue::U64(pool_id), EventValue::Address(contributor));
    let data = EventData::Tuple(values3(
        EventValue::Address(asset),
        EventValue::I128(amount),
        EventValue::U64(timestamp),
    ));
    publish(log, ledger_time, EventKind::Refund, topics, data)
}

/// Emitted when a pool is closed. The pool id and the account that closed it are the topics; the
/// closing time is the data.
/// Appends the event to the log at `ledger_time`.
pub fn pool_closed(
    log: &mut EventLog,
    ledger_time: u64,
    pool_id: u64,
    closed_by: String,
    timestamp: u64,
) -> (r: Result<ContractEvent, EventLogError>)
    ensures
        emitted(
            old(log)@,
            final(log)@,
            ledger_time,
            r,
            (EventView {
                kind: EventKind::PoolClosed,
                topics: seq![EventValue::U64(pool_id), EventValue::Address(closed_by)],
                data: DataView::Single(EventValue::U64(timestamp)),
            }),
        ),
{
    let topics = values2(EventValue::U64(pool_id), EventValue::Address(closed_by));
    let data = EventData::Single(EventValue::U64(timestamp));
    publish(log, ledger_time, EventKind::PoolClosed, topics, data)
}

/// Emitted when accumulated platform fees are withdrawn. The recipient is the topic; the amount is
/// the data.
/// Appends the event to the log at `ledger_time`.
pub fn platform_fees_withdrawn(
    log: &mut EventLog,
    ledger_time: u64,
    to: String,
    amount: i128,
) -> (r: Result<ContractEvent, EventLogError>)
    ensures
        emitted(
            old(log)@,
            final(log)@,
            ledger_time,
            r,
            (EventView {
                kind: EventKind::PlatformFeesWithdrawn,
                topics: seq![EventValue::Address(to)],
                data: DataView::Single(EventValue::I128(amount)),
            }),
        ),
{
    let topics = values1(EventValue::Address(to));
    let data = EventData::Single(EventValue::I128(amount));
    publish(log, ledger_time, EventKind::PlatformFeesWithdrawn, topics, data)
}

/// Emitted when accumulated event fees are withdrawn. The administrator and the recipient are the
/// topics; the amount is the data.
/// Appends the event to the log at `ledger_time`.
pub fn event_fees_withdrawn(
    log: &mut EventLog,
    ledger_time: u64,
    admin: String,
    to: String,
    amount: i128,
) -> (r: Result<ContractEvent, EventLogError>)
    ensures
        emitted(
            old(log)@,
            final(log)@,
            ledger_time,
            r,
            (EventView {
                kind: EventKind::EventFeesWithdrawn,
                topics: seq![EventValue::Address(admin), EventValue::Address(to)],
                data: DataView::Single(EventValue::I128(amount)),
            }),
        ),
{
    let topics = values2(EventValue::Address(admin), EventValue::Address(to));
    let data = EventData::Single(EventValue::I128(amount));
    publish(log, ledger_time, EventKind::EventFeesWithdrawn, topics, data)
}

/// Emitted when an address is added to the blacklist. The administrator is the topic; the address
/// is the data.
/// Appends the event to the log at `ledger_time`.
pub fn address_blacklisted(
    log: &mut EventLog,
    ledger_time: u64,
    admin: String,
    address: String,
) -> (r: Result<ContractEvent, EventLogError>)
    ensures
        emitted(
            old(log)@,
            final(log)@,
            ledger_time,
            r,
            (EventView {
                kind: EventKind::AddressBlacklisted,
                topics: seq![EventValue::Address(admin)],
                data: DataView::Single(EventValue::Address(address)),
            }),
        ),
{
    let topics = values1(EventValue::Address(admin));
    let data = EventData::Single(EventValue::Address(address));
    publish(log, ledger_time, EventKind::AddressBlacklisted, topics, data)
}

/// Emitted when an address is removed from the blacklist. The administrator is the topic; the
/// address is the data.
/// Appends the event to the log at `ledger_time`.
pub fn address_unblacklisted(
    log: &mut EventLog,
    ledger_time: u64,
    admin: String,
    address: String,
) -> (r: Result<ContractEvent, EventLogError>)
    ensures
        emitted(
            old(log)@,
            final(log)@,
            ledger_time,
            r,
            (EventView {
                kind: EventKind::AddressUnblacklisted,
                topics: seq![EventValue::Address(admin)],
                data: DataView::Single(EventValue::Address(address)),
            }),
        ),
{
    let topics = values1(EventValue::Address(admin));
    let data = EventData::Single(EventValue::Address(address));
    publish(log, ledger_time, EventKind::AddressUnblacklisted, topics, data)
}

/// Emitted when the off-chain metadata of a pool is updated. The pool id and the updater are the
/// topics; the new metadata hash is the data.
/// Appends the event to the log at `ledger_time`.
pub fn pool_metadata_updated(
    log: &mut EventLog,
    ledger_time: u64,
    pool_id: u64,
    updater: String,
    new_metadata_hash: Vec<u8>,
) -> (r: Result<ContractEvent, EventLogError>)
    ensures
        emitted(
            old(log)@,
            final(log)@,
            ledger_time,
            r,
            (EventView {
                kind: EventKind::PoolMetadataUpdated,
                topics: seq![EventValue::U64(pool_id), EventValue::Address(updater)],
                data: DataView::Single(EventValue::Text(new_metadata_hash)),
            }),
        ),
{
    let topics = values2(EventValue::U64(pool_id), EventValue::Address(updater));
    let data = EventData::Single(EventValue::Text(new_metadata_hash));
    publish(log, ledger_time, EventKind::PoolMetadataUpdated, topics, data)
}

/// Emitted when the administrator sets the platform fee in basis points (100 bps is 1%). The
/// administrator is the topic; the fee is the data.
/// Appends the event to the log at `ledger_time`.
pub fn platform_fee_bps_set(
    log: &mut EventLog,
    ledger_time: u64,
    admin: String,
    fee_bps: u32,
) -> (r: Result<ContractEvent, EventLogError>)
    ensures
        emitted(
            old(log)@,
            final(log)@,
            ledger_time,
            r,
            (EventView {
                kind: EventKind::PlatformFeeBpsSet,
                topics: seq![EventValue::Address(admin)],
                data: DataView::Single(EventValue::U32(fee_bps)),
            }),
        ),
{
    let topics = values1(EventValue::Address(admin));
    let data = EventData::Single(EventValue::U32(fee_bps));
    publish(log, ledger_time, EventKind::PlatformFeeBpsSet, topics, data)
}

/// Emitted when the platform fee changes. The administrator is the topic; the fee before and after
/// the change, in basis points, are the data.
/// Appends the event to the log at `ledger_time`.
pub fn platform_fee_updated(
    log: &mut EventLog,
    ledger_time: u64,
    admin: String,
    old_fee_bps: u32,
    new_fee_bps: u32,
) -> (r: Result<ContractEvent, EventLogError>)
    ensures
        emitted(
            old(log)@,
            final(log)@,
            ledger_time,
            r,
            (EventView {
                kind: EventKind::PlatformFeeUpdated,
                topics: seq![EventValue::Address(admin)],
                data: DataView::Tuple(seq![
                    EventValue::U32(old_fee_bps),
                    EventValue::U32(new_fee_bps),
                ]),
            }),
        ),
{
    let topics = values1(EventValue::Address(admin));
    let data = EventData::Tuple(values2(
        EventValue::U32(old_fee_bps),
        EventValue::U32(new_fee_bps),
    ));
    publish(log, ledger_time, EventKind::PlatformFeeUpdated, topics, data)
}

/// Emitted when a ticket of an event pool is sold. The pool id and the buyer are the topics; the
/// price, the part that goes to the event and the platform fee are the data.
/// Appends the event to the log at `ledger_time`.
pub fn ticket_sold(
    log: &mut EventLog,
    ledger_time: u64,
    pool_id: u64,
    buyer: String,
    price: i128,
    event_amount: i128,
    fee_amount: i128,
) -> (r: Result<ContractEvent, EventLogError>)
    ensures
        emitted(
            old(log)@,
            final(log)@,
            ledger_time,
            r,
            (EventView {
                kind: EventKind::TicketSold,
                topics: seq![EventValue::U64(pool_id), EventValue::Address(buyer)],
                data: DataView::Tuple(seq![
                    EventValue::I128(price),
                    EventValue::I128(event_amount),
                    EventValue::I128(fee_amount),
                ]),
            }),
        ),
{
    let topics = values2(EventValue::U64(pool_id), EventValue::Address(buyer));
    let data = EventData::Tuple(values3(
        EventValue::I128(price),
        EventValue::I128(event_amount),
        EventValue::I128(fee_amount),
    ));
    publish(log, ledger_time, EventKind::TicketSold, topics, data)
}

/// Emitted when the contract code is upgraded. The new code hash is the topic; there is no data.
/// Appends the event to the log at `ledger_time`.
pub fn contract_upgraded(
    log: &mut EventLog,
    ledger_time: u64,
    new_wasm_hash: [u8; 32],
) -> (r: Result<ContractEvent, EventLogError>)
    ensures
        emitted(
            old(log)@,
            final(log)@,
            ledger_time,
            r,
            (EventView {
                kind: EventKind::ContractUpgraded,
                topics: seq![EventValue::Bytes32(new_wasm_hash)],
                data: DataView::Unit,
            }),
        ),
{
    let topics = values1(EventValue::Bytes32(new_wasm_hash));
    let data = EventData::Unit;
    publish(log, ledger_time, EventKind::ContractUpgraded, topics, data)
}

} // verus!
