use counter_event::caller_recorder::{self, CallStackElement, RecorderState};
use counter_event::calls::CallArgs;
use counter_event::contract_caller;
use counter_event::contract_caller2;
use counter_event::entry_points::{ClType, EntryPointAccess, EntryPointType};
use counter_event::hash::{AccountHash, ContractHash, ContractPackageHash};

#[test]
fn recorder_starts_empty_and_declares_update_caller() {
    let install = caller_recorder::call();
    assert_eq!(install.state.caller, "");
    assert!(install.state.call_stack.is_empty());
    assert_eq!(install.entry_points.len(), 1);
    assert_eq!(install.entry_points[0].name, "update_caller");
    assert!(install.entry_points[0].args.is_empty());
    assert_eq!(install.entry_points[0].ret, ClType::Unit);
    assert_eq!(install.entry_points[0].access, EntryPointAccess::Public);
    assert_eq!(install.entry_points[0].entry_point_type, EntryPointType::Contract);
}

#[test]
fn update_caller_keeps_stack_and_formatted_caller() {
    let mut state = RecorderState { caller: "old".to_string(), call_stack: Vec::new() };
    let user = AccountHash { bytes: [7; 32] };
    let stack = vec![
        CallStackElement::Session { account_hash: user },
        CallStackElement::StoredContract {
            contract_package_hash: ContractPackageHash { bytes: [1; 32] },
            contract_hash: ContractHash { bytes: [2; 32] },
        },
    ];
    caller_recorder::update_caller(&mut state, stack.clone(), &user);
    assert_eq!(state.call_stack, stack);
    assert_eq!(state.caller, format!("account-hash-{}", "07".repeat(32)));
    assert_eq!(state.caller, casper_types::account::AccountHash::new([7; 32]).to_formatted_string());

    let other = AccountHash { bytes: [0xab; 32] };
    caller_recorder::update_caller(&mut state, Vec::new(), &other);
    assert!(state.call_stack.is_empty());
    assert_eq!(state.caller, format!("account-hash-{}", "ab".repeat(32)));
}

#[test]
fn callers_call_update_caller_without_arguments() {
    let recorder = ContractHash { bytes: [9; 32] };
    for call in [contract_caller::call(&recorder), contract_caller2::cal(&recorder)] {
        assert_eq!(call.contract, recorder);
        assert_eq!(call.entry, "update_caller");
        assert_eq!(call.args, CallArgs::Empty);
    }
}

#[test]
fn relay_declares_cal_with_hash_argument() {
    let eps = contract_caller2::call();
    assert_eq!(eps.len(), 1);
    assert_eq!(eps[0].name, "cal");
    assert_eq!(eps[0].args.len(), 1);
    assert_eq!(eps[0].args[0].name, "hash");
    assert_eq!(eps[0].args[0].cl_type, ClType::ContractHash);
    assert_eq!(eps[0].ret, ClType::Unit);
    assert_eq!(eps[0].access, EntryPointAccess::Public);
    assert_eq!(eps[0].entry_point_type, EntryPointType::Contract);
}
