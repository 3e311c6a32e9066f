//! Event emission for a crowdfunding and ticketing contract, with the
//! contract's global event tracker.
//!
//! Every public emitter describes the contract event it publishes (its name,
//! its indexed topics and its data payload) and appends one record to the
//! global event log, whose entries are numbered from 1 in emission order.
//! The host environment (event sink, persistent storage, ledger clock) is
//! reached by the caller: the emitters take the stored log and the ledger
//! time as plain values and hand back the event to publish.
pub mod event_kind;
pub mod event_log;
pub mod events;
pub mod mock;

pub use event_kind::EventKind;
pub use event_log::{EventLog, EventLogError, EventRecord};
pub use events::{ContractEvent, EventData, EventValue, PoolState};
pub use events::{
    campaign_created,
    campaign_goal_updated,
    pool_created,
    event_created,
    pool_state_updated,
    contract_paused,
    contract_unpaused,
    admin_renounced,
    emergency_contact_updated,
    donation_made,
    campaign_cancelled,
    campaign_refunded,
    contribution,
    emergency_withdraw_requested,
    emergency_withdraw_executed,
    crowdfunding_token_set,
    creation_fee_set,
    creation_fee_paid,
    refund,
    pool_closed,
    platform_fees_withdrawn,
    event_fees_withdrawn,
    address_blacklisted,
    address_unblacklisted,
    pool_metadata_updated,
    platform_fee_bps_set,
    platform_fee_updated,
    ticket_sold,
    contract_upgraded,
};
pub use mock::MockContract;
