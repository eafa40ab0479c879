//! A stored contract that calls the caller recorder from its entry point
//! `cal`.

use vstd::prelude::*;
use crate::calls::{CallArgs, ContractCall};
use crate::caller_recorder::{call_update_caller, update_caller_call};
use crate::entry_points::{
    ClType, EntryPoint, EntryPointAccess, EntryPointType, EntryPointView, ParameterView,
    entry_points_view, parameter, unit_entry_point,
};
use crate::hash::ContractHash;

verus! {

/// The entry points that this contract declares, public and run in its
/// context: `cal`, which takes the
/// recorder's contract hash.
pub open spec fn relay_entry_points() -> Seq<EntryPointView> {
    seq![
        EntryPointView {
            name: "cal"@,
            args: seq![ParameterView { name: "hash"@, cl_type: ClType::ContractHash }],
            ret: ClType::Unit,
            access: EntryPointAccess::Public,
            entry_point_type: EntryPointType::Contract,
        },
    ]
}

/// The call that entry point `cal` makes: `update_caller` on the recorder
/// whose hash it was given.
pub fn cal(hash: &ContractHash) -> (r: ContractCall)
    ensures
        r@ == update_caller_call(hash@),
        r.contract == *hash,
        r.entry@ == "update_caller"@,
        r.args == CallArgs::Empty,
{
    call_update_caller(hash)
}

/// The entry points declared when this contract is installed.
pub fn call() -> (r: Vec<EntryPoint>)
    ensures
        entry_points_view(r@) == relay_entry_points(),
{
    let mut args: Vec<crate::entry_points::Parameter> = Vec::new();
    args.push(parameter("hash", ClType::ContractHash));
    let mut eps: Vec<EntryPoint> = Vec::new();
    eps.push(unit_entry_point("cal", args));
    proof {
        assert(eps@[0].args@.map_values(|p: crate::entry_points::Parameter| p@)
            =~= relay_entry_points()[0].args);
        assert(entry_points_view(eps@) =~= relay_entry_points());
    }
    eps
}

} // verus!
