//! The logger contract: on installation it registers itself with a counter
//! for the `count` event, and it records every announcement that it hears.

use vstd::prelude::*;
use crate::calls::{CallArgs, CallArgsView, ContractCall, ContractCallView};
use crate::entry_points::{
    ClType, EntryPoint, EntryPointAccess, EntryPointType, EntryPointView, ParameterView,
    entry_points_view, parameter, unit_entry_point,
};
use crate::hash::{
    ContractHash, MalformedContractHash, contract_hash_from_text, contract_hash_text,
    formatted_contract_hash, parse_contract_hash,
};

verus! {

/// One record of the log: who counted, and the count it reached.
#[derive(Clone, Debug, PartialEq, Eq)]
pub struct LogEntry {
    pub caller: String,
    pub count: u32,
}

/// What the logger keeps: its records, oldest first.
#[derive(Clone, Debug, PartialEq, Eq)]
pub struct LoggerState {
    pub log: Vec<LogEntry>,
}

/// The logger's state: the caller's formatted hash and the count of each
/// record, oldest first.
pub struct LoggerView {
    pub log: Seq<(Seq<char>, u32)>,
}

impl View for LoggerState {
    type V = LoggerView;

    open spec fn view(&self) -> LoggerView {
        LoggerView { log: self.log@.map_values(|e: LogEntry| (e.caller@, e.count)) }
    }
}

/// The logger's state after it heard that `caller` counted to `count`.
pub open spec fn recorded(l: LoggerView, caller: Seq<char>, count: u32) -> LoggerView {
    LoggerView { log: l.log.push((caller, count)) }
}

/// The entry points that the logger declares, public and run in the
/// logger's context: `callback`, which takes the
/// event's name and caller as text and the count as a `u32`.
pub open spec fn logger_entry_points() -> Seq<EntryPointView> {
    seq![
        EntryPointView {
            name: "callback"@,
            args: seq![
                ParameterView { name: "name"@, cl_type: ClType::String },
                ParameterView { name: "caller"@, cl_type: ClType::String },
                ParameterView { name: "count"@, cl_type: ClType::U32 },
            ],
            ret: ClType::Unit,
            access: EntryPointAccess::Public,
            entry_point_type: EntryPointType::Contract,
        },
    ]
}

/// The call with which the logger installed as `logger` registers with the
/// counter installed as `counter`: `set_event_callback` on the counter, for
/// the event `count`, calling back entry point `callback` of the logger,
/// whose hash goes as formatted text.
pub open spec fn registration(counter: Seq<u8>, logger: Seq<u8>) -> ContractCallView {
    ContractCallView {
        contract: counter,
        entry: "set_event_callback"@,
        args: CallArgsView::SetEventCallback {
            event: "count"@,
            call_back_contract_hash: formatted_contract_hash(logger),
            call_back_contract_entry: "callback"@,
        },
    }
}

/// Records that `caller` counted to `count`, after all earlier records.
pub fn callback(state: &mut LoggerState, caller: String, count: u32)
    ensures
        final(state)@ == recorded(old(state)@, caller@, count),
{
    let ghost before = state@;
    state.log.push(LogEntry { caller, count });
    proof {
        assert(state@.log =~= before.log.push((caller@, count)));
    }
}

/// A logger as it is installed: the counter it listens to, its empty log and
/// the entry points that it declares.
pub struct LoggerInstall {
    pub counter: ContractHash,
    pub state: LoggerState,
    pub entry_points: Vec<EntryPoint>,
}

/// Installs the logger for the counter whose formatted hash is `hash`. Fails
/// where `hash` does not parse; otherwise the log starts empty and the entry
/// point is `callback`.
pub fn call(hash: &str) -> (r: Result<LoggerInstall, MalformedContractHash>)
    ensures
        r is Ok <==> contract_hash_from_text(hash@) is Some,
        r matches Ok(i) ==> {
            &&& contract_hash_from_text(hash@) == Some(i.counter@)
            &&& i.state@.log.len() == 0
            &&& entry_points_view(i.entry_points@) == logger_entry_points()
        },
{
    let counter = match parse_contract_hash(hash) {
        Ok(h) => h,
        Err(e) => {
            return Err(e);
        },
    };
    let state = LoggerState { log: Vec::new() };
    let mut args: Vec<crate::entry_points::Parameter> = Vec::new();
    args.push(parameter("name", ClType::String));
    args.push(parameter("caller", ClType::String));
    args.push(parameter("count", ClType::U32));
    let mut eps: Vec<EntryPoint> = Vec::new();
    eps.push(unit_entry_point("callback", args));
    proof {
        assert(eps@[0].args@.map_values(|p: crate::entry_points::Parameter| p@)
            =~= logger_entry_points()[0].args);
        assert(entry_points_view(eps@) =~= logger_entry_points());
    }
    Ok(LoggerInstall { counter, state, entry_points: eps })
}

/// The call that registers the logger installed as `logger` with the counter
/// installed as `counter`.
pub fn registration_call(counter: &ContractHash, logger: &ContractHash) -> (r: ContractCall)
    ensures
        r@ == registration(counter@, logger@),
        r.contract == *counter,
        r.entry@ == "set_event_callback"@,
{
    ContractCall {
        contract: *counter,
        entry: "set_event_callback".to_string(),
        args: CallArgs::SetEventCallback {
            event: "count".to_string(),
            call_back_contract_hash: contract_hash_text(logger),
            call_back_contract_entry: "callback".to_string(),
        },
    }
}

} // verus!
