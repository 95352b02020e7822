//! The requests that the hooking engine takes and the answers it gives.

use vstd::prelude::*;

verus! {

/// The target address that the engine reads as "every registered hook".
pub const MH_ALL_HOOKS: usize = 0;

/// One request to the engine. Addresses are plain numbers here; the null
/// address is zero.
#[derive(Debug, Clone, Copy, PartialEq, Eq, Structural)]
pub enum EngineCall {
    /// Set up the engine's process-wide context.
    Initialize,
    /// Tear the context down, removing every hook.
    Uninitialize,
    /// Choose how threads are treated in later transactions.
    SetThreadFreezeMethod { method: i32 },
    /// Register a hook for `target` that leads to `detour`, not yet active.
    CreateHook { target: usize, detour: usize },
    /// Activate the hook of `target`, or every hook if `target` is
    /// `MH_ALL_HOOKS`, in one transaction.
    EnableHook { target: usize },
    /// Deactivate the hook of `target`, or every hook if `target` is
    /// `MH_ALL_HOOKS`, in one transaction.
    DisableHook { target: usize },
}

/// The engine's answer to one request.
#[derive(Debug, Clone, Copy, PartialEq, Eq, Structural)]
pub struct EngineReply {
    /// The native status code.
    pub status: i32,
    /// Where the original behaviour of the target can be reached. Only a
    /// successful `CreateHook` gives it a meaning.
    pub original: usize,
}

impl EngineCall {
    /// Whether this request opens a transaction over every registered hook.
    pub open spec fn is_bulk(self) -> bool {
        match self {
            EngineCall::EnableHook { target } => target == 0,
            EngineCall::DisableHook { target } => target == 0,
            _ => false,
        }
    }
}

} // verus!
