//! The caller recorder: each time it is called it keeps the call stack that
//! the host reports and the formatted hash of the calling account.

use vstd::prelude::*;
use crate::calls::{CallArgs, CallArgsView, ContractCall, ContractCallView};
use crate::entry_points::{
    ClType, EntryPoint, EntryPointAccess, EntryPointType, EntryPointView, entry_points_view,
    unit_entry_point,
};
use crate::hash::{
    AccountHash, ContractHash, ContractPackageHash, account_hash_text, formatted_account_hash,
};

verus! {

/// One frame of the call stack: where a call came from.
#[derive(Clone, Copy, Debug, PartialEq, Eq)]
pub enum CallStackElement {
    /// Session code run by an account.
    Session { account_hash: AccountHash },
    /// A stored entry point that runs as session code of an account.
    StoredSession {
        account_hash: AccountHash,
        contract_package_hash: ContractPackageHash,
        contract_hash: ContractHash,
    },
    /// A stored entry point that runs in the context of its contract.
    StoredContract { contract_package_hash: ContractPackageHash, contract_hash: ContractHash },
}

/// What the recorder keeps: the formatted hash of the last caller and the
/// call stack of the last call.
#[derive(Clone, Debug, PartialEq, Eq)]
pub struct RecorderState {
    pub caller: String,
    pub call_stack: Vec<CallStackElement>,
}

/// The recorder's state when it is installed: no caller (empty text) and an
/// empty call stack.
pub open spec fn initial_recorder(s: RecorderState) -> bool {
    s.caller@ == Seq::<char>::empty() && s.call_stack@ == Seq::<CallStackElement>::empty()
}

/// The entry points that the recorder declares, public and run in the
/// recorder's context: `update_caller`, with no
/// arguments.
pub open spec fn recorder_entry_points() -> Seq<EntryPointView> {
    seq![
        EntryPointView {
            name: "update_caller"@,
            args: Seq::empty(),
            ret: ClType::Unit,
            access: EntryPointAccess::Public,
            entry_point_type: EntryPointType::Contract,
        },
    ]
}

/// The call of the recorder installed as `recorder`: `update_caller`, with no
/// arguments.
pub open spec fn update_caller_call(recorder: Seq<u8>) -> ContractCallView {
    ContractCallView { contract: recorder, entry: "update_caller"@, args: CallArgsView::Empty }
}

/// Records a call: the call stack that the host reported, and the formatted
/// hash of the calling account; what was recorded before is replaced.
pub fn update_caller(state: &mut RecorderState, call_stack: Vec<CallStackElement>, caller: &AccountHash)
    ensures
        final(state).call_stack@ == call_stack@,
        final(state).caller@ == formatted_account_hash(caller@),
{
    state.call_stack = call_stack;
    state.caller = account_hash_text(caller);
}

/// A recorder as it is installed, with the entry points that it declares.
pub struct RecorderInstall {
    pub state: RecorderState,
    pub entry_points: Vec<EntryPoint>,
}

/// Installs the recorder: nothing recorded yet, and the entry point
/// `update_caller`.
pub fn call() -> (r: RecorderInstall)
    ensures
        initial_recorder(r.state),
        entry_points_view(r.entry_points@) == recorder_entry_points(),
{
    let state = RecorderState { caller: String::new(), call_stack: Vec::new() };
    let mut eps: Vec<EntryPoint> = Vec::new();
    eps.push(unit_entry_point("update_caller", Vec::new()));
    proof {
        assert(eps@[0].args@.map_values(|p: crate::entry_points::Parameter| p@)
            =~= recorder_entry_points()[0].args);
        assert(entry_points_view(eps@) =~= recorder_entry_points());
    }
    RecorderInstall { state, entry_points: eps }
}

/// The call of `update_caller` on the recorder installed as `recorder`.
pub fn call_update_caller(recorder: &ContractHash) -> (r: ContractCall)
    ensures
        r@ == update_caller_call(recorder@),
        r.contract == *recorder,
        r.entry@ == "update_caller"@,
        r.args == CallArgs::Empty,
{
    ContractCall { contract: *recorder, entry: "update_caller".to_string(), args: CallArgs::Empty }
}

} // verus!
