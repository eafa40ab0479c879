//! The entry points that a contract declares when it is installed.

use vstd::prelude::*;

verus! {

/// The types of values that the entry points here take and return.
#[derive(Clone, Copy, Debug, PartialEq, Eq, Structural)]
pub enum ClType {
    Unit,
    String,
    U32,
    /// The 32 bytes of a contract hash.
    ContractHash,
}

/// Who may call an entry point.
#[derive(Clone, Copy, Debug, PartialEq, Eq, Structural)]
pub enum EntryPointAccess {
    /// Anyone.
    Public,
}

/// The context an entry point runs in.
#[derive(Clone, Copy, Debug, PartialEq, Eq, Structural)]
pub enum EntryPointType {
    /// The context of the calling account, as session code.
    Session,
    /// The context of the contract that declares it.
    Contract,
}

/// A named argument that an entry point takes.
#[derive(Clone, Debug, PartialEq, Eq)]
pub struct Parameter {
    pub name: String,
    pub cl_type: ClType,
}

/// An entry point: its name, the arguments it takes, what it returns, who
/// may call it and the context it runs in.
#[derive(Clone, Debug, PartialEq, Eq)]
pub struct EntryPoint {
    pub name: String,
    pub args: Vec<Parameter>,
    pub ret: ClType,
    pub access: EntryPointAccess,
    pub entry_point_type: EntryPointType,
}

/// A parameter, as text and type.
pub struct ParameterView {
    pub name: Seq<char>,
    pub cl_type: ClType,
}

/// An entry point, as text and types.
pub struct EntryPointView {
    pub name: Seq<char>,
    pub args: Seq<ParameterView>,
    pub ret: ClType,
    pub access: EntryPointAccess,
    pub entry_point_type: EntryPointType,
}

impl View for Parameter {
    type V = ParameterView;

    open spec fn view(&self) -> ParameterView {
        ParameterView { name: self.name@, cl_type: self.cl_type }
    }
}

impl View for EntryPoint {
    type V = EntryPointView;

    open spec fn view(&self) -> EntryPointView {
        EntryPointView {
            name: self.name@,
            args: self.args@.map_values(|p: Parameter| p@),
            ret: self.ret,
            access: self.access,
            entry_point_type: self.entry_point_type,
        }
    }
}

/// The views of a list of entry points.
pub open spec fn entry_points_view(eps: Seq<EntryPoint>) -> Seq<EntryPointView> {
    eps.map_values(|e: EntryPoint| e@)
}

/// No two entry points of the list share a name.
pub open spec fn names_distinct(eps: Seq<EntryPointView>) -> bool {
    forall|i: int, j: int|
        0 <= i < eps.len() && 0 <= j < eps.len() && i != j ==> #[trigger] eps[i].name
            != #[trigger] eps[j].name
}

/// A parameter named `name` of type `cl_type`.
pub fn parameter(name: &str, cl_type: ClType) -> (r: Parameter)
    ensures
        r@ == (ParameterView { name: name@, cl_type }),
{
    Parameter { name: name.to_string(), cl_type }
}

/// A public entry point named `name` that takes `args`, returns nothing and
/// runs in the context of its contract.
pub fn unit_entry_point(name: &str, args: Vec<Parameter>) -> (r: EntryPoint)
    ensures
        r.name@ == name@,
        r.args@ == args@,
        r.ret == ClType::Unit,
        r.access == EntryPointAccess::Public,
        r.entry_point_type == EntryPointType::Contract,
{
    EntryPoint {
        name: name.to_string(),
        args,
        ret: ClType::Unit,
        access: EntryPointAccess::Public,
        entry_point_type: EntryPointType::Contract,
    }
}

} // verus!
