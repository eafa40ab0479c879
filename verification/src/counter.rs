//! The counter contract: it counts, and after each count it announces the new
//! count to every contract that registered for its `count` event.

use vstd::prelude::*;
use crate::calls::{CallArgs, CallArgsView, ContractCall, ContractCallView, calls_view};
use crate::entry_points::{
    ClType, EntryPoint, EntryPointAccess, EntryPointType, EntryPointView, ParameterView,
    entry_points_view, parameter, unit_entry_point,
};
use crate::hash::{
    AccountHash, ContractHash, account_hash_text, contract_hash_from_text,
    formatted_account_hash, parse_contract_hash,
};

verus! {

/// The name of the one event that the counter announces.
pub open spec fn count_event() -> Seq<char> {
    "count"@
}

/// A registration for an event: call entry point `entry` of contract
/// `contract` whenever `event` happens.
#[derive(Clone, Debug, PartialEq, Eq)]
pub struct EventCallback {
    pub entry: String,
    pub contract: ContractHash,
    pub event: String,
}

/// A registration, as text and bytes.
pub struct EventCallbackView {
    pub entry: Seq<char>,
    pub contract: Seq<u8>,
    pub event: Seq<char>,
}

impl View for EventCallback {
    type V = EventCallbackView;

    open spec fn view(&self) -> EventCallbackView {
        EventCallbackView { entry: self.entry@, contract: self.contract@, event: self.event@ }
    }
}

/// What the counter keeps: the count so far and the registrations, in the
/// order in which they were made.
#[derive(Clone, Debug, PartialEq, Eq)]
pub struct CounterState {
    pub count: u32,
    pub callbacks: Vec<EventCallback>,
}

/// The counter's state, as numbers, text and bytes.
pub struct CounterView {
    pub count: u32,
    pub callbacks: Seq<EventCallbackView>,
}

impl View for CounterState {
    type V = CounterView;

    open spec fn view(&self) -> CounterView {
        CounterView {
            count: self.count,
            callbacks: self.callbacks@.map_values(|c: EventCallback| c@),
        }
    }
}

/// The counter's state when it is installed: nothing counted, nobody
/// registered.
pub open spec fn initial_counter() -> CounterView {
    CounterView { count: 0, callbacks: Seq::empty() }
}

/// The entry points that the counter declares, public and run in the
/// counter's context: `count`, with no arguments, and
/// `set_event_callback`, with the hash and entry point to call back and the
/// event to call back on, all three text.
pub open spec fn counter_entry_points() -> Seq<EntryPointView> {
    seq![
        EntryPointView {
            name: "count"@,
            args: Seq::empty(),
            ret: ClType::Unit,
            access: EntryPointAccess::Public,
            entry_point_type: EntryPointType::Contract,
        },
        EntryPointView {
            name: "set_event_callback"@,
            args: seq![
                ParameterView { name: "call_back_contract_hash"@, cl_type: ClType::String },
                ParameterView { name: "call_back_contract_entry"@, cl_type: ClType::String },
                ParameterView { name: "event"@, cl_type: ClType::String },
            ],
            ret: ClType::Unit,
            access: EntryPointAccess::Public,
            entry_point_type: EntryPointType::Contract,
        },
    ]
}

/// The counter's state after one count.
pub open spec fn counted(s: CounterView) -> CounterView {
    CounterView { count: (s.count + 1) as u32, callbacks: s.callbacks }
}

/// The calls that announce the count of `s`, caused by the account whose
/// formatted hash is `caller`: one to each registration, in the order of the
/// registrations.
pub open spec fn announcements(s: CounterView, caller: Seq<char>) -> Seq<ContractCallView> {
    s.callbacks.map_values(
        |c: EventCallbackView|
            ContractCallView {
                contract: c.contract,
                entry: c.entry,
                args: CallArgsView::Event { name: count_event(), caller, count: s.count },
            },
    )
}

/// Why the counter refuses a registration.
#[derive(Clone, Copy, Debug, PartialEq, Eq, Structural)]
pub enum CounterError {
    /// The event named is not one that the counter announces.
    InvalidEventName,
}

/// Why a registration did not go through.
#[derive(Clone, Copy, Debug, PartialEq, Eq, Structural)]
pub enum SetCallbackError {
    /// The hash of the contract to call back is not the text of a contract hash.
    MalformedContractHash,
    /// The counter refused the registration.
    Counter(CounterError),
}

/// The result of a registration: the hash to call back, as parsed, decides
/// first; then the event must be `count`; then the registration is appended.
pub open spec fn registered(
    s: CounterView,
    event: Seq<char>,
    contract: Option<Seq<u8>>,
    entry: Seq<char>,
) -> Result<CounterView, SetCallbackError> {
    match contract {
        None => Err(SetCallbackError::MalformedContractHash),
        Some(h) => if event != count_event() {
            Err(SetCallbackError::Counter(CounterError::InvalidEventName))
        } else {
            Ok(
                CounterView {
                    count: s.count,
                    callbacks: s.callbacks.push(EventCallbackView { entry, contract: h, event }),
                },
            )
        },
    }
}

/// The user error code that a counter error is reported with.
pub open spec fn counter_error_user_code(e: CounterError) -> u16 {
    match e {
        CounterError::InvalidEventName => 0,
    }
}

/// `u32::from(casper_types::ApiError::User(code))`: user error codes are
/// reported above the 65536 codes that the system reserves.
#[verifier::external_body]
fn user_error_to_u32(code: u16) -> (r: u32)
    ensures
        r == 65536 + code,
{
    u32::from(casper_types::ApiError::User(code))
}

impl CounterError {
    /// The user error code of this error.
    pub fn user_code(&self) -> (r: u16)
        ensures
            r == counter_error_user_code(*self),
    {
        match self {
            CounterError::InvalidEventName => 0,
        }
    }

    /// The code with which the counter reverts on this error.
    pub fn revert_code(&self) -> (r: u32)
        ensures
            r == 65536 + counter_error_user_code(*self),
    {
        user_error_to_u32(self.user_code())
    }
}

/// A counter as it is installed, with the entry points that it declares.
pub struct CounterInstall {
    pub state: CounterState,
    pub entry_points: Vec<EntryPoint>,
}

/// Installs the counter: the count starts at zero, nobody is registered, and
/// the entry points are `count` and `set_event_callback`.
pub fn call() -> (r: CounterInstall)
    ensures
        r.state@ == initial_counter(),
        entry_points_view(r.entry_points@) == counter_entry_points(),
{
    let state = CounterState { count: 0, callbacks: Vec::new() };
    let mut eps: Vec<EntryPoint> = Vec::new();
    eps.push(unit_entry_point("count", Vec::new()));
    let mut args: Vec<crate::entry_points::Parameter> = Vec::new();
    args.push(parameter("call_back_contract_hash", ClType::String));
    args.push(parameter("call_back_contract_entry", ClType::String));
    args.push(parameter("event", ClType::String));
    eps.push(unit_entry_point("set_event_callback", args));
    proof {
        assert(state@.callbacks =~= Seq::<EventCallbackView>::empty());
        assert(eps@[1].args@.map_values(|p: crate::entry_points::Parameter| p@) =~= counter_entry_points()[1].args);
        assert(eps@[0].args@.map_values(|p: crate::entry_points::Parameter| p@) =~= counter_entry_points()[0].args);
        assert(entry_points_view(eps@) =~= counter_entry_points());
    }
    CounterInstall { state, entry_points: eps }
}

/// Whether `event` names the counter's `count` event.
fn is_count_event(event: &String) -> (r: bool)
    ensures
        r == (event@ == count_event()),
{
    let name = "count".to_string();
    *event == name
}

/// Registers a call back on `event`: whenever it happens, entry point
/// `call_back_contract_entry` of the contract whose formatted hash is
/// `call_back_contract_hash` is called. The hash is parsed first; then the
/// event must be `count`. On success the registration is appended after all
/// earlier ones and the count stays; on failure nothing changes.
pub fn set_event_callback(
    state: &mut CounterState,
    event: String,
    call_back_contract_hash: &str,
    call_back_contract_entry: String,
) -> (r: Result<(), SetCallbackError>)
    ensures
        match registered(
            old(state)@,
            event@,
            contract_hash_from_text(call_back_contract_hash@),
            call_back_contract_entry@,
        ) {
            Ok(next) => r is Ok && final(state)@ == next,
            Err(e) => r == Err::<(), SetCallbackError>(e) && final(state)@ == old(state)@,
        },
{
    let contract = match parse_contract_hash(call_back_contract_hash) {
        Ok(h) => h,
        Err(_) => {
            return Err(SetCallbackError::MalformedContractHash);
        },
    };
    if !is_count_event(&event) {
        return Err(SetCallbackError::Counter(CounterError::InvalidEventName));
    }
    let ghost before = state@;
    state.callbacks.push(EventCallback { entry: call_back_contract_entry, contract, event });
    proof {
        assert(state@.callbacks =~= before.callbacks.push(state.callbacks@.last()@));
    }
    Ok(())
}

/// The announcements of the current count, caused by the account `caller`:
/// one call to each registration, in the order of the registrations, with
/// the event's name `count`, the caller's formatted hash and the count.
pub fn callback(state: &CounterState, caller: &AccountHash) -> (calls: Vec<ContractCall>)
    ensures
        calls_view(calls@) == announcements(state@, formatted_account_hash(caller@)),
{
    let caller_text = account_hash_text(caller);
    let mut calls: Vec<ContractCall> = Vec::new();
    let n = state.callbacks.len();
    for i in 0..n
        invariant
            n == state.callbacks@.len(),
            caller_text@ == formatted_account_hash(caller@),
            calls_view(calls@) =~= announcements(state@, caller_text@).take(i as int),
    {
        let cb = &state.callbacks[i];
        let call = ContractCall {
            contract: cb.contract,
            entry: cb.entry.clone(),
            args: CallArgs::Event {
                name: "count".to_string(),
                caller: caller_text.clone(),
                count: state.count,
            },
        };
        let ghost prev = calls@;
        calls.push(call);
        proof {
            assert(calls@ =~= prev.push(call));
            assert(announcements(state@, caller_text@).take(i + 1) =~= announcements(
                state@,
                caller_text@,
            ).take(i as int).push(call@));
        }
    }
    proof {
        assert(announcements(state@, caller_text@).take(n as int) =~= announcements(
            state@,
            caller_text@,
        ));
    }
    calls
}

/// Counts once, on behalf of the account `caller`, then announces the new
/// count to every registration. The registrations stay as they were.
pub fn count(state: &mut CounterState, caller: &AccountHash) -> (calls: Vec<ContractCall>)
    requires
        old(state).count < u32::MAX,
    ensures
        final(state)@ == counted(old(state)@),
        calls_view(calls@) == announcements(final(state)@, formatted_account_hash(caller@)),
{
    state.count = state.count + 1;
    callback(state, caller)
}

} // verus!
