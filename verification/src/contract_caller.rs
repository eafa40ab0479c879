//! Session code that calls the caller recorder directly.

use vstd::prelude::*;
use crate::calls::{CallArgs, ContractCall};
use crate::caller_recorder::{call_update_caller, update_caller_call};
use crate::hash::ContractHash;

verus! {

/// The call that this session makes: `update_caller` on the recorder whose
/// hash it was given.
pub fn call(hash: &ContractHash) -> (r: ContractCall)
    ensures
        r@ == update_caller_call(hash@),
        r.contract == *hash,
        r.entry@ == "update_caller"@,
        r.args == CallArgs::Empty,
{
    call_update_caller(hash)
}

} // verus!
