//! Who makes a call and what comes with it.

use vstd::prelude::*;

verus! {

/// What the host reports of the call that is being served. Whoever embeds
/// the blog reads these values from the host and hands them in.
#[derive(Debug, Clone, PartialEq, Eq)]
pub struct CallerContext {
    /// The account that signed the transaction. A post is owned by its signer.
    pub signer_id: String,
    /// The account that made this call. Ownership is tested against it, and
    /// it receives what is withdrawn.
    pub predecessor_id: String,
    /// The amount attached to the call.
    pub attached_deposit: u128,
}

impl CallerContext {
    /// A context made of the given values.
    pub fn new(signer_id: String, predecessor_id: String, attached_deposit: u128) -> (context:
        CallerContext)
        ensures
            context.signer_id == signer_id,
            context.predecessor_id == predecessor_id,
            context.attached_deposit == attached_deposit,
    {
        CallerContext { signer_id, predecessor_id, attached_deposit }
    }
}

} // verus!
