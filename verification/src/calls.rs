//! Calls that one contract asks the host to make into another.

use vstd::prelude::*;
use crate::hash::ContractHash;

verus! {

/// The named arguments of a call.
#[derive(Clone, Debug, PartialEq, Eq)]
pub enum CallArgs {
    /// No arguments.
    Empty,
    /// An event announcement: the event's `name`, the formatted account hash
    /// of the `caller` that caused it, and the `count` it produced.
    Event { name: String, caller: String, count: u32 },
    /// A request to be called back on `event`: the formatted hash of the
    /// contract to call and the entry point to call on it.
    SetEventCallback {
        event: String,
        call_back_contract_hash: String,
        call_back_contract_entry: String,
    },
}

/// A call of entry point `entry` on contract `contract` with `args`.
#[derive(Clone, Debug, PartialEq, Eq)]
pub struct ContractCall {
    pub contract: ContractHash,
    pub entry: String,
    pub args: CallArgs,
}

/// The arguments of a call, as text and numbers.
pub enum CallArgsView {
    Empty,
    Event { name: Seq<char>, caller: Seq<char>, count: u32 },
    SetEventCallback {
        event: Seq<char>,
        call_back_contract_hash: Seq<char>,
        call_back_contract_entry: Seq<char>,
    },
}

/// A call, as bytes, text and numbers.
pub struct ContractCallView {
    pub contract: Seq<u8>,
    pub entry: Seq<char>,
    pub args: CallArgsView,
}

impl View for CallArgs {
    type V = CallArgsView;

    open spec fn view(&self) -> CallArgsView {
        match self {
            CallArgs::Empty => CallArgsView::Empty,
            CallArgs::Event { name, caller, count } => CallArgsView::Event {
                name: name@,
                caller: caller@,
                count: *count,
            },
            CallArgs::SetEventCallback {
                event,
                call_back_contract_hash,
                call_back_contract_entry,
            } => CallArgsView::SetEventCallback {
                event: event@,
                call_back_contract_hash: call_back_contract_hash@,
                call_back_contract_entry: call_back_contract_entry@,
            },
        }
    }
}

impl View for ContractCall {
    type V = ContractCallView;

    open spec fn view(&self) -> ContractCallView {
        ContractCallView { contract: self.contract@, entry: self.entry@, args: self.args@ }
    }
}

/// The views of a list of calls.
pub open spec fn calls_view(calls: Seq<ContractCall>) -> Seq<ContractCallView> {
    calls.map_values(|c: ContractCall| c@)
}

} // verus!
