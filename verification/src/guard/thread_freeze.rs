//! How other threads are treated while the engine patches code.

use vstd::prelude::*;

verus! {

/// The engine's native number for "freeze every thread but the caller's".
pub const MH_FREEZE_METHOD_ORIGINAL: i32 = 0;

/// A second native number that the engine treats as the first.
pub const MH_FREEZE_METHOD_FAST_UNDOCUMENTED: i32 = 1;

/// The engine's native number for "freeze nothing".
pub const MH_FREEZE_METHOD_NONE_UNSAFE: i32 = 2;

/// What happens to the other threads of the process during a transaction.
#[derive(Debug, Clone, Copy, PartialEq, Eq, Structural)]
pub enum ThreadFreezeMethod {
    /// Every thread except the one that runs the transaction is suspended
    /// until the patch is in place.
    Original,
    /// No thread is suspended. A thread may run through code that is half
    /// patched; whoever chooses this accepts that.
    NoneUnsafe,
}

/// The policy that a native number selects, `None` for a number that the
/// engine does not define. Two native numbers select `Original`.
pub open spec fn method_of_native(value: int) -> Option<ThreadFreezeMethod> {
    if value == 0 || value == 1 {
        Some(ThreadFreezeMethod::Original)
    } else if value == 2 {
        Some(ThreadFreezeMethod::NoneUnsafe)
    } else {
        None
    }
}

/// The native number that is handed to the engine for a policy.
pub open spec fn native_of_method(method: ThreadFreezeMethod) -> int {
    match method {
        ThreadFreezeMethod::Original => 0,
        ThreadFreezeMethod::NoneUnsafe => 2,
    }
}

impl ThreadFreezeMethod {
    /// The policy for one of the engine's native numbers.
    ///
    /// A number that the engine does not define means that the engine and
    /// this crate disagree about the interface, and may not be passed here.
    pub fn from(value: i32) -> (method: ThreadFreezeMethod)
        requires
            method_of_native(value as int).is_some(),
        ensures
            method_of_native(value as int) == Some(method),
    {
        if value == MH_FREEZE_METHOD_NONE_UNSAFE {
            ThreadFreezeMethod::NoneUnsafe
        } else {
            ThreadFreezeMethod::Original
        }
    }

    /// The native number for this policy.
    pub fn into(self) -> (value: i32)
        ensures
            value as int == native_of_method(self),
    {
        match self {
            ThreadFreezeMethod::Original => MH_FREEZE_METHOD_ORIGINAL,
            ThreadFreezeMethod::NoneUnsafe => MH_FREEZE_METHOD_NONE_UNSAFE,
        }
    }
}

/// Going to the native number and back gives the policy one started with.
pub proof fn lemma_method_round_trip(method: ThreadFreezeMethod)
    ensures
        method_of_native(native_of_method(method)) == Some(method),
{
}

/// Going from a native number to the policy and back gives the number one
/// started with, except for the second number of `Original`, which comes back
/// as the first.
pub proof fn lemma_native_round_trip(value: int)
    requires
        method_of_native(value).is_some(),
    ensures
        value != 1 ==> native_of_method(method_of_native(value).unwrap()) == value,
        value == 1 ==> native_of_method(method_of_native(value).unwrap()) == 0,
{
}

/// Whether threads are frozen is all that a native number decides: two
/// numbers select the same policy exactly when both freeze or both do not.
pub proof fn lemma_policy_is_freezing(a: int, b: int)
    requires
        method_of_native(a).is_some(),
        method_of_native(b).is_some(),
    ensures
        method_of_native(a) == method_of_native(b) <==> ((a == 2) == (b == 2)),
{
}

} // verus!
