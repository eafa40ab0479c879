use counter_event::calls::{CallArgs, ContractCall};
use counter_event::counter::{self, CounterError, CounterState, SetCallbackError};
use counter_event::entry_points::{ClType, EntryPointAccess, EntryPointType};
use counter_event::hash::{parse_contract_hash, AccountHash, ContractHash, MalformedContractHash};
use counter_event::logger::{self, LoggerState};

const ACCOUNT_A: [u8; 32] = [3u8; 32];
const ACCOUNT_C: [u8; 32] = [9u8; 32];

fn formatted(bytes: [u8; 32]) -> String {
    casper_types::ContractHash::new(bytes).to_formatted_string()
}

/// Hands a `set_event_callback` call to the counter, as the host would.
fn deliver_registration(state: &mut CounterState, call: &ContractCall) -> Result<(), SetCallbackError> {
    assert_eq!(call.entry, "set_event_callback");
    match &call.args {
        CallArgs::SetEventCallback { event, call_back_contract_hash, call_back_contract_entry } => {
            counter::set_event_callback(
                state,
                event.clone(),
                call_back_contract_hash,
                call_back_contract_entry.clone(),
            )
        }
        other => panic!("unexpected arguments {:?}", other),
    }
}

/// Hands an announcement to the logger, as the host would.
fn deliver_announcement(state: &mut LoggerState, call: &ContractCall) {
    assert_eq!(call.entry, "callback");
    match &call.args {
        CallArgs::Event { caller, count, .. } => logger::callback(state, caller.clone(), *count),
        other => panic!("unexpected arguments {:?}", other),
    }
}

#[test]
fn test_count() {
    let installed = counter::call();
    let mut state = installed.state;
    assert_eq!(state.count, 0);
    let calls = counter::count(&mut state, &AccountHash { bytes: ACCOUNT_A });
    assert_eq!(state.count, 1);
    assert!(calls.is_empty());
}

#[test]
fn test_callback() {
    let counter_hash = ContractHash { bytes: [0x11; 32] };
    let logger_hash = ContractHash { bytes: [0x22; 32] };
    let user = AccountHash { bytes: ACCOUNT_C };

    let mut counter_state = counter::call().state;
    assert_eq!(counter_state.count, 0);

    // Deploy the logger for the counter, as its installation does.
    let logger_install = logger::call(&formatted(counter_hash.bytes)).unwrap();
    assert_eq!(logger_install.counter, counter_hash);
    let mut logger_state = logger_install.state;
    let registration = logger::registration_call(&logger_install.counter, &logger_hash);
    assert_eq!(registration.contract, counter_hash);
    deliver_registration(&mut counter_state, &registration).unwrap();
    assert!(!counter_state.callbacks.is_empty());

    // Count, and hand the announcements over.
    let calls = counter::count(&mut counter_state, &user);
    assert_eq!(counter_state.count, 1);
    for call in &calls {
        assert_eq!(call.contract, logger_hash);
        deliver_announcement(&mut logger_state, call);
    }
    assert!(!logger_state.log.is_empty());
    assert_eq!(logger_state.log[0].count, 1);
    assert_eq!(
        logger_state.log[0].caller,
        casper_types::account::AccountHash::new(ACCOUNT_C).to_formatted_string()
    );
}

#[test]
fn counter_starts_empty_and_declares_its_entry_points() {
    let installed = counter::call();
    assert_eq!(installed.state.count, 0);
    assert!(installed.state.callbacks.is_empty());
    let names: Vec<&str> = installed.entry_points.iter().map(|e| e.name.as_str()).collect();
    assert_eq!(names, vec!["count", "set_event_callback"]);
    assert!(installed.entry_points[0].args.is_empty());
    let args: Vec<(&str, ClType)> = installed.entry_points[1]
        .args
        .iter()
        .map(|p| (p.name.as_str(), p.cl_type))
        .collect();
    assert_eq!(
        args,
        vec![
            ("call_back_contract_hash", ClType::String),
            ("call_back_contract_entry", ClType::String),
            ("event", ClType::String),
        ]
    );
    assert!(installed.entry_points.iter().all(|e| e.ret == ClType::Unit));
    assert!(installed.entry_points.iter().all(|e| e.access == EntryPointAccess::Public
        && e.entry_point_type == EntryPointType::Contract));
}

#[test]
fn set_event_callback_appends_registration() {
    let mut state = counter::call().state;
    let first = [0xab; 32];
    let second = [0x01; 32];
    counter::set_event_callback(&mut state, "count".to_string(), &formatted(first), "a".to_string()).unwrap();
    counter::set_event_callback(&mut state, "count".to_string(), &formatted(second), "b".to_string()).unwrap();
    assert_eq!(state.count, 0);
    assert_eq!(state.callbacks.len(), 2);
    assert_eq!(state.callbacks[0].contract.bytes, first);
    assert_eq!(state.callbacks[0].entry, "a");
    assert_eq!(state.callbacks[0].event, "count");
    assert_eq!(state.callbacks[1].contract.bytes, second);
    assert_eq!(state.callbacks[1].entry, "b");
}

#[test]
fn set_event_callback_refuses_other_events() {
    let mut state = counter::call().state;
    let before = state.clone();
    let r = counter::set_event_callback(&mut state, "reset".to_string(), &formatted([5; 32]), "a".to_string());
    assert_eq!(r, Err(SetCallbackError::Counter(CounterError::InvalidEventName)));
    assert_eq!(state, before);
    let r = counter::set_event_callback(&mut state, "Count".to_string(), &formatted([5; 32]), "a".to_string());
    assert_eq!(r, Err(SetCallbackError::Counter(CounterError::InvalidEventName)));
    assert_eq!(state, before);
}

#[test]
fn set_event_callback_checks_the_hash_before_the_event() {
    let mut state = counter::call().state;
    let before = state.clone();
    let r = counter::set_event_callback(&mut state, "reset".to_string(), "hash-0303", "a".to_string());
    assert_eq!(r, Err(SetCallbackError::MalformedContractHash));
    let r = counter::set_event_callback(&mut state, "count".to_string(), "contract-0303", "a".to_string());
    assert_eq!(r, Err(SetCallbackError::MalformedContractHash));
    assert_eq!(state, before);
}

#[test]
fn invalid_event_name_reverts_with_first_user_code() {
    let e = CounterError::InvalidEventName;
    assert_eq!(e.user_code(), 0);
    assert_eq!(e.revert_code(), 65536);
    assert_eq!(e.revert_code(), u32::from(casper_types::ApiError::User(0)));
}

#[test]
fn count_announces_to_each_registration_in_order() {
    let mut state = counter::call().state;
    counter::set_event_callback(&mut state, "count".to_string(), &formatted([1; 32]), "first".to_string()).unwrap();
    counter::set_event_callback(&mut state, "count".to_string(), &formatted([2; 32]), "second".to_string()).unwrap();
    let caller = AccountHash { bytes: [7; 32] };
    let caller_text = format!("account-hash-{}", "07".repeat(32));
    counter::count(&mut state, &caller);
    let calls = counter::count(&mut state, &caller);
    assert_eq!(state.count, 2);
    assert_eq!(state.callbacks.len(), 2);
    assert_eq!(calls.len(), 2);
    assert_eq!(calls[0].contract.bytes, [1; 32]);
    assert_eq!(calls[0].entry, "first");
    assert_eq!(calls[1].contract.bytes, [2; 32]);
    assert_eq!(calls[1].entry, "second");
    for call in &calls {
        assert_eq!(
            call.args,
            CallArgs::Event { name: "count".to_string(), caller: caller_text.clone(), count: 2 }
        );
    }
}

#[test]
fn callback_announces_current_count_without_counting() {
    let mut state = counter::call().state;
    counter::set_event_callback(&mut state, "count".to_string(), &formatted([4; 32]), "cb".to_string()).unwrap();
    let calls = counter::callback(&state, &AccountHash { bytes: [0; 32] });
    assert_eq!(state.count, 0);
    assert_eq!(calls.len(), 1);
    match &calls[0].args {
        CallArgs::Event { count, caller, name } => {
            assert_eq!(*count, 0);
            assert_eq!(name, "count");
            assert_eq!(caller, &format!("account-hash-{}", "00".repeat(32)));
        }
        other => panic!("unexpected arguments {:?}", other),
    }
}

#[test]
fn registered_logger_hears_next_count_after_earlier_listeners() {
    let mut state = counter::call().state;
    counter::set_event_callback(&mut state, "count".to_string(), &formatted([8; 32]), "early".to_string()).unwrap();
    counter::count(&mut state, &AccountHash { bytes: [1; 32] });
    let logger_hash = ContractHash { bytes: [0x5a; 32] };
    let reg = logger::registration_call(&ContractHash { bytes: [0; 32] }, &logger_hash);
    deliver_registration(&mut state, &reg).unwrap();
    let calls = counter::count(&mut state, &AccountHash { bytes: [1; 32] });
    assert_eq!(calls.len(), 2);
    assert_eq!(calls[0].entry, "early");
    assert_eq!(calls[1].contract, logger_hash);
    assert_eq!(calls[1].entry, "callback");
    match &calls[1].args {
        CallArgs::Event { count, .. } => assert_eq!(*count, 2),
        other => panic!("unexpected arguments {:?}", other),
    }
}

#[test]
fn logger_install_parses_counter_hash_and_declares_callback() {
    let install = logger::call(&formatted([0xc4; 32])).unwrap();
    assert_eq!(install.counter.bytes, [0xc4; 32]);
    assert!(install.state.log.is_empty());
    assert_eq!(install.entry_points.len(), 1);
    assert_eq!(install.entry_points[0].name, "callback");
    let args: Vec<(&str, ClType)> =
        install.entry_points[0].args.iter().map(|p| (p.name.as_str(), p.cl_type)).collect();
    assert_eq!(args, vec![("name", ClType::String), ("caller", ClType::String), ("count", ClType::U32)]);
    assert_eq!(install.entry_points[0].ret, ClType::Unit);
    assert_eq!(install.entry_points[0].access, EntryPointAccess::Public);
    assert_eq!(install.entry_points[0].entry_point_type, EntryPointType::Contract);
}

#[test]
fn logger_install_refuses_malformed_hash() {
    assert!(matches!(logger::call("counter"), Err(MalformedContractHash)));
    assert!(matches!(logger::call(&format!("account-hash-{}", "00".repeat(32))), Err(MalformedContractHash)));
}

#[test]
fn logger_registration_call_names_itself() {
    let call = logger::registration_call(&ContractHash { bytes: [1; 32] }, &ContractHash { bytes: [0xfe; 32] });
    assert_eq!(call.contract.bytes, [1; 32]);
    assert_eq!(call.entry, "set_event_callback");
    assert_eq!(
        call.args,
        CallArgs::SetEventCallback {
            event: "count".to_string(),
            call_back_contract_hash: format!("contract-{}", "fe".repeat(32)),
            call_back_contract_entry: "callback".to_string(),
        }
    );
}

#[test]
fn logger_callback_appends_records() {
    let mut state = LoggerState { log: Vec::new() };
    logger::callback(&mut state, "alice".to_string(), 1);
    logger::callback(&mut state, "bob".to_string(), 7);
    assert_eq!(state.log.len(), 2);
    assert_eq!((state.log[0].caller.as_str(), state.log[0].count), ("alice", 1));
    assert_eq!((state.log[1].caller.as_str(), state.log[1].count), ("bob", 7));
}

#[test]
fn contract_hash_text_round_trips() {
    let bytes: [u8; 32] = core::array::from_fn(|i| (i * 37) as u8);
    let text = formatted(bytes);
    assert_eq!(parse_contract_hash(&text), Ok(ContractHash { bytes }));
}

#[test]
fn parse_contract_hash_accepts_upper_case_and_refuses_bad_text() {
    let upper = format!("contract-{}", "AB".repeat(32));
    assert_eq!(parse_contract_hash(&upper), Ok(ContractHash { bytes: [0xab; 32] }));
    assert_eq!(parse_contract_hash("contract-"), Err(MalformedContractHash));
    assert_eq!(parse_contract_hash(&format!("contract-{}", "zz".repeat(32))), Err(MalformedContractHash));
    assert_eq!(parse_contract_hash(&format!("contract-{}", "ab".repeat(31))), Err(MalformedContractHash));
    assert_eq!(parse_contract_hash(&"ab".repeat(32)), Err(MalformedContractHash));
    assert_eq!(parse_contract_hash(&format!("contract-{}", "Ab".repeat(32))), Err(MalformedContractHash));
    assert_eq!(parse_contract_hash(&format!(" contract-{}", "ab".repeat(32))), Err(MalformedContractHash));
}

#[test]
fn count_is_number_of_counts_and_registrations_stay_in_order() {
    let mut state = counter::call().state;
    let caller = AccountHash { bytes: [2; 32] };
    counter::count(&mut state, &caller);
    counter::set_event_callback(&mut state, "count".to_string(), &formatted([1; 32]), "one".to_string()).unwrap();
    assert!(counter::set_event_callback(&mut state, "other".to_string(), &formatted([9; 32]), "x".to_string()).is_err());
    assert!(counter::set_event_callback(&mut state, "count".to_string(), "contract-12", "y".to_string()).is_err());
    counter::count(&mut state, &caller);
    counter::set_event_callback(&mut state, "count".to_string(), &formatted([3; 32]), "three".to_string()).unwrap();
    let calls = counter::count(&mut state, &caller);
    assert_eq!(state.count, 3);
    let targets: Vec<([u8; 32], &str)> = calls.iter().map(|c| (c.contract.bytes, c.entry.as_str())).collect();
    assert_eq!(targets, vec![([1; 32], "one"), ([3; 32], "three")]);
    assert!(calls.iter().all(|c| matches!(c.args, CallArgs::Event { count: 3, .. })));
}

#[test]
fn logger_records_every_later_count_in_order() {
    let mut counter_state = counter::call().state;
    counter::set_event_callback(&mut counter_state, "count".to_string(), &formatted([6; 32]), "other".to_string()).unwrap();
    counter::count(&mut counter_state, &AccountHash { bytes: [0; 32] });
    let logger_hash = ContractHash { bytes: [0x77; 32] };
    let reg = logger::registration_call(&ContractHash { bytes: [0; 32] }, &logger_hash);
    deliver_registration(&mut counter_state, &reg).unwrap();
    let mut log = LoggerState { log: Vec::new() };
    let callers = [[1u8; 32], [2u8; 32], [1u8; 32]];
    for c in callers {
        let calls = counter::count(&mut counter_state, &AccountHash { bytes: c });
        for call in calls.iter().filter(|call| call.contract == logger_hash) {
            deliver_announcement(&mut log, call);
        }
    }
    let got: Vec<(String, u32)> = log.log.iter().map(|e| (e.caller.clone(), e.count)).collect();
    let expected: Vec<(String, u32)> = callers
        .iter()
        .enumerate()
        .map(|(j, c)| (casper_types::account::AccountHash::new(*c).to_formatted_string(), 2 + j as u32))
        .collect();
    assert_eq!(got, expected);
}

#[test]
fn logger_callbacks_append_in_call_order() {
    let mut state = LoggerState { log: Vec::new() };
    logger::callback(&mut state, "first".to_string(), 9);
    let heard = [("a", 3u32), ("b", 1), ("a", 3)];
    for (caller, count) in heard {
        logger::callback(&mut state, caller.to_string(), count);
    }
    let got: Vec<(&str, u32)> = state.log.iter().map(|e| (e.caller.as_str(), e.count)).collect();
    assert_eq!(got, vec![("first", 9), ("a", 3), ("b", 1), ("a", 3)]);
}
