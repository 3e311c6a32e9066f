use vstd::prelude::*;

use crate::event_kind::EventKind;
use crate::event_log::{EventLog, EventLogError};
use crate::events::{contract_upgraded, emitted, ContractEvent, DataView, EventValue, EventView};

verus! {

/// A stand-in contract whose only entry point emits `contract_upgraded`, to
/// observe that event's format.
pub struct MockContract;

impl MockContract {
    /// Emits `contract_upgraded` for `new_wasm_hash`.
    pub fn trigger_event(log: &mut EventLog, ledger_time: u64, new_wasm_hash: [u8; 32]) -> (r:
        Result<ContractEvent, EventLogError>)
        ensures
            emitted(
                old(log)@,
                final(log)@,
                ledger_time,
                r,
                (EventView {
                    kind: EventKind::ContractUpgraded,
                    topics: seq![EventValue::Bytes32(new_wasm_hash)],
                    data: DataView::Unit,
                }),
            ),
    {
        contract_upgraded(log, ledger_time, new_wasm_hash)
    }
}

} // verus!
