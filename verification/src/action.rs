//! Description of one unit of work against the remote API.
//!
//! An `ActionDescriptor` is built once per invocation from resolved
//! arguments and is immutable afterwards: it names the target resource,
//! the operation, the operation's parameters, and whether the operation
//! changes remote state.

use vstd::prelude::*;

verus! {

/// The kind of resource an action targets.
#[derive(Clone, Copy, Debug, PartialEq, Eq, Structural)]
pub enum ResourceKind {
    Droplet,
    Image,
    Domain,
    DnsRecord,
    SshKey,
    Account,
    Region,
    Size,
}

/// The operation requested on the resource.
///
/// `CustomAction` covers provider-specific verbs (reboot, resize,
/// transfer, snapshot, and the like) that do not fit the CRUD set; the
/// backend resolves what result shape such a verb produces.
#[derive(Clone, Debug)]
pub enum Operation {
    Read,
    List,
    Create,
    Update,
    Delete,
    CustomAction { name: String },
}

/// One named parameter of an action.
#[derive(Clone, Debug)]
pub struct Param {
    pub name: String,
    pub value: String,
}

/// An operation mutates remote state unless it only reads or lists.
pub open spec fn op_mutating(op: Operation) -> bool {
    !(op is Read || op is List)
}

/// Immutable description of one requested operation against one resource.
#[derive(Clone, Debug)]
pub struct ActionDescriptor {
    pub resource_kind: ResourceKind,
    pub operation: Operation,
    pub parameters: Vec<Param>,
    pub mutating: bool,
}

impl ActionDescriptor {
    /// The `mutating` flag agrees with the operation.
    pub open spec fn wf(self) -> bool {
        self.mutating == op_mutating(self.operation)
    }

    /// Build a descriptor; the `mutating` flag is derived from the
    /// operation, never chosen by the caller.
    pub fn new(resource_kind: ResourceKind, operation: Operation, parameters: Vec<Param>) -> (r:
        ActionDescriptor)
        ensures
            r.resource_kind == resource_kind,
            r.operation == operation,
            r.parameters == parameters,
            r.mutating == op_mutating(operation),
            r.wf(),
    {
        let mutating = match operation {
            Operation::Read => false,
            Operation::List => false,
            _ => true,
        };
        ActionDescriptor { resource_kind, operation, parameters, mutating }
    }
}

} // verus!
