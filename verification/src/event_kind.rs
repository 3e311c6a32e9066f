use vstd::prelude::*;

verus! {

/// The events that the contract publishes. Each has a fixed name, which is
/// the first topic of the published event and the name kept in the event log.
#[derive(Clone, Copy, Debug, PartialEq, Eq)]
pub enum EventKind {
    /// `campaign_created`: a new fundraising campaign was created.
    CampaignCreated,
    /// `campaign_goal_updated`: the goal of a campaign was updated.
    CampaignGoalUpdated,
    /// `pool_created`: a new donation pool was created.
    PoolCreated,
    /// `event_created`: a new ticketed event pool was created.
    EventCreated,
    /// `pool_state_updated`: the state of a pool changed.
    PoolStateUpdated,
    /// `contract_paused`: the contract was paused.
    ContractPaused,
    /// `contract_unpaused`: the contract was unpaused.
    ContractUnpaused,
    /// `admin_renounced`: the administrator renounced the role.
    AdminRenounced,
    /// `emergency_contact_updated`: the emergency contact was updated.
    EmergencyContactUpdated,
    /// `donation_made`: a donation was made to a campaign.
    DonationMade,
    /// `campaign_cancelled`: a campaign was cancelled.
    CampaignCancelled,
    /// `campaign_refunded`: a contributor was refunded from a campaign.
    CampaignRefunded,
    /// `contribution`: a contribution was made to a pool.
    Contribution,
    /// `emergency_withdraw_requested`: an emergency withdrawal was requested.
    EmergencyWithdrawRequested,
    /// `emergency_withdraw_executed`: an emergency withdrawal was executed.
    EmergencyWithdrawExecuted,
    /// `crowdfunding_token_set`: the accepted crowdfunding token was set.
    CrowdfundingTokenSet,
    /// `creation_fee_set`: the pool creation fee was set.
    CreationFeeSet,
    /// `creation_fee_paid`: a creator paid the creation fee.
    CreationFeePaid,
    /// `refund`: a contributor was refunded from a pool.
    Refund,
    /// `pool_closed`: a pool was closed.
    PoolClosed,
    /// `platform_fees_withdrawn`: platform fees were withdrawn.
    PlatformFeesWithdrawn,
    /// `event_fees_withdrawn`: event fees were withdrawn.
    EventFeesWithdrawn,
    /// `address_blacklisted`: an address was blacklisted.
    AddressBlacklisted,
    /// `address_unblacklisted`: an address was removed from the blacklist.
    AddressUnblacklisted,
    /// `pool_metadata_updated`: the metadata of a pool was updated.
    PoolMetadataUpdated,
    /// `platform_fee_bps_set`: the platform fee in basis points was set.
    PlatformFeeBpsSet,
    /// `platform_fee_updated`: the platform fee changed (old and new value).
    PlatformFeeUpdated,
    /// `ticket_sold`: a ticket was sold.
    TicketSold,
    /// `contract_upgraded`: the contract code was upgraded.
    ContractUpgraded,
}

/// A character that a Soroban `Symbol` admits: `a-z`, `A-Z`, `0-9` or `_`.
pub open spec fn is_symbol_char(c: char) -> bool {
    ||| ('a' <= c && c <= 'z')
    ||| ('A' <= c && c <= 'Z')
    ||| ('0' <= c && c <= '9')
    ||| c == '_'
}

/// A text that `Symbol::new` accepts: at most 32 characters, each of them a
/// symbol character.
pub open spec fn is_symbol_name(s: Seq<char>) -> bool {
    &&& s.len() <= 32
    &&& forall|i: int| 0 <= i < s.len() ==> is_symbol_char(#[trigger] s[i])
}

impl EventKind {
    /// The event's name.
    pub open spec fn spec_name(self) -> Seq<char> {
        match self {
            EventKind::CampaignCreated => "campaign_created"@,
            EventKind::CampaignGoalUpdated => "campaign_goal_updated"@,
            EventKind::PoolCreated => "pool_created"@,
            EventKind::EventCreated => "event_created"@,
            EventKind::PoolStateUpdated => "pool_state_updated"@,
            EventKind::ContractPaused => "contract_paused"@,
            EventKind::ContractUnpaused => "contract_unpaused"@,
            EventKind::AdminRenounced => "admin_renounced"@,
            EventKind::EmergencyContactUpdated => "emergency_contact_updated"@,
            EventKind::DonationMade => "donation_made"@,
            EventKind::CampaignCancelled => "campaign_cancelled"@,
            EventKind::CampaignRefunded => "campaign_refunded"@,
            EventKind::Contribution => "contribution"@,
            EventKind::EmergencyWithdrawRequested => "emergency_withdraw_requested"@,
            EventKind::EmergencyWithdrawExecuted => "emergency_withdraw_executed"@,
            EventKind::CrowdfundingTokenSet => "crowdfunding_token_set"@,
            EventKind::CreationFeeSet => "creation_fee_set"@,
            EventKind::CreationFeePaid => "creation_fee_paid"@,
            EventKind::Refund => "refund"@,
            EventKind::PoolClosed => "pool_closed"@,
            EventKind::PlatformFeesWithdrawn => "platform_fees_withdrawn"@,
            EventKind::EventFeesWithdrawn => "event_fees_withdrawn"@,
            EventKind::AddressBlacklisted => "address_blacklisted"@,
            EventKind::AddressUnblacklisted => "address_unblacklisted"@,
            EventKind::PoolMetadataUpdated => "pool_metadata_updated"@,
            EventKind::PlatformFeeBpsSet => "platform_fee_bps_set"@,
            EventKind::PlatformFeeUpdated => "platform_fee_updated"@,
            EventKind::TicketSold => "ticket_sold"@,
            EventKind::ContractUpgraded => "contract_upgraded"@,
        }
    }

    /// The event's name, as published and as recorded.
    pub fn name(&self) -> (s: &'static str)
        ensures
            s@ == self.spec_name(),
    {
        match self {
            EventKind::CampaignCreated => "campaign_created",
            EventKind::CampaignGoalUpdated => "campaign_goal_updated",
            EventKind::PoolCreated => "pool_created",
            EventKind::EventCreated => "event_created",
            EventKind::PoolStateUpdated => "pool_state_updated",
            EventKind::ContractPaused => "contract_paused",
            EventKind::ContractUnpaused => "contract_unpaused",
            EventKind::AdminRenounced => "admin_renounced",
            EventKind::EmergencyContactUpdated => "emergency_contact_updated",
            EventKind::DonationMade => "donation_made",
            EventKind::CampaignCancelled => "campaign_cancelled",
            EventKind::CampaignRefunded => "campaign_refunded",
            EventKind::Contribution => "contribution",
            EventKind::EmergencyWithdrawRequested => "emergency_withdraw_requested",
            EventKind::EmergencyWithdrawExecuted => "emergency_withdraw_executed",
            EventKind::CrowdfundingTokenSet => "crowdfunding_token_set",
            EventKind::CreationFeeSet => "creation_fee_set",
            EventKind::CreationFeePaid => "creation_fee_paid",
            EventKind::Refund => "refund",
            EventKind::PoolClosed => "pool_closed",
            EventKind::PlatformFeesWithdrawn => "platform_fees_withdrawn",
            EventKind::EventFeesWithdrawn => "event_fees_withdrawn",
            EventKind::AddressBlacklisted => "address_blacklisted",
            EventKind::AddressUnblacklisted => "address_unblacklisted",
            EventKind::PoolMetadataUpdated => "pool_metadata_updated",
            EventKind::PlatformFeeBpsSet => "platform_fee_bps_set",
            EventKind::PlatformFeeUpdated => "platform_fee_updated",
            EventKind::TicketSold => "ticket_sold",
            EventKind::ContractUpgraded => "contract_upgraded",
        }
    }
}

/// No two events share a name, so a record's name tells which event it
/// records.
pub proof fn lemma_event_names_distinct(a: EventKind, b: EventKind)
    requires
        a.spec_name() == b.spec_name(),
    ensures
        a == b,
{
    reveal_strlit("campaign_created");
    reveal_strlit("campaign_goal_updated");
    reveal_strlit("pool_created");
    reveal_strlit("event_created");
    reveal_strlit("pool_state_updated");
    reveal_strlit("contract_paused");
    reveal_strlit("contract_unpaused");
    reveal_strlit("admin_renounced");
    reveal_strlit("emergency_contact_updated");
    reveal_strlit("donation_made");
    reveal_strlit("campaign_cancelled");
    reveal_strlit("campaign_refunded");
    reveal_strlit("contribution");
    reveal_strlit("emergency_withdraw_requested");
    reveal_strlit("emergency_withdraw_executed");
    reveal_strlit("crowdfunding_token_set");
    reveal_strlit("creation_fee_set");
    reveal_strlit("creation_fee_paid");
    reveal_strlit("refund");
    reveal_strlit("pool_closed");
    reveal_strlit("platform_fees_withdrawn");
    reveal_strlit("event_fees_withdrawn");
    reveal_strlit("address_blacklisted");
    reveal_strlit("address_unblacklisted");
    reveal_strlit("pool_metadata_updated");
    reveal_strlit("platform_fee_bps_set");
    reveal_strlit("platform_fee_updated");
    reveal_strlit("ticket_sold");
    reveal_strlit("contract_upgraded");
    let (x, y) = (a.spec_name(), b.spec_name());
    // Length, first, last and twelfth characters already tell the names apart.
    assert(x.len() == y.len() && x[0] == y[0] && x[x.len() - 1] == y[y.len() - 1]);
    assert(x.len() > 11 ==> x[11] == y[11]);
}

/// Every event name is a valid Soroban symbol, so turning it into the
/// event's first topic cannot fail.
pub proof fn lemma_event_names_are_symbols(kind: EventKind)
    ensures
        is_symbol_name(kind.spec_name()),
{
    reveal_strlit("campaign_created");
    reveal_strlit("campaign_goal_updated");
    reveal_strlit("pool_created");
    reveal_strlit("event_created");
    reveal_strlit("pool_state_updated");
    reveal_strlit("contract_paused");
    reveal_strlit("contract_unpaused");
    reveal_strlit("admin_renounced");
    reveal_strlit("emergency_contact_updated");
    reveal_strlit("donation_made");
    reveal_strlit("campaign_cancelled");
    reveal_strlit("campaign_refunded");
    reveal_strlit("contribution");
    reveal_strlit("emergency_withdraw_requested");
    reveal_strlit("emergency_withdraw_executed");
    reveal_strlit("crowdfunding_token_set");
    reveal_strlit("creation_fee_set");
    reveal_strlit("creation_fee_paid");
    reveal_strlit("refund");
    reveal_strlit("pool_closed");
    reveal_strlit("platform_fees_withdrawn");
    reveal_strlit("event_fees_withdrawn");
    reveal_strlit("address_blacklisted");
    reveal_strlit("address_unblacklisted");
    reveal_strlit("pool_metadata_updated");
    reveal_strlit("platform_fee_bps_set");
    reveal_strlit("platform_fee_updated");
    reveal_strlit("ticket_sold");
    reveal_strlit("contract_upgraded");
}

} // verus!
