//! What holds of every guard, whatever the engine answers.
//!
//! The statements are over the same functions that the contracts of
//! [`DetourGuard`](crate::guard::DetourGuard) use: `begin` and `begin_single`
//! for the first step of an operation, `resume_state` and `resume_step` for
//! what an answer of the engine leads to.

use vstd::prelude::*;
use crate::engine::{EngineCall, EngineReply};
use crate::error::{error_of_status, is_status, Error};
use crate::guard::{begin, begin_single, resume_state, resume_step, GuardState, Pending, Step};

verus! {

/// The pending request with which `enable_hook` starts on `target`.
pub open spec fn enabling(target: usize) -> Pending {
    Pending::Enable { target, created: None }
}

/// The pending request with which `disable_hook` starts on `target`.
pub open spec fn disabling(target: usize) -> Pending {
    Pending::Disable { target }
}

/// The pending request with which `create_hook` starts, or
/// `create_and_enable_hook` if `enable` is set.
pub open spec fn creating(target: usize, detour: usize, enable: bool) -> Pending {
    Pending::Create { target, detour, enable }
}

/// An answer of the engine that carries nothing but a status.
pub open spec fn answer(status: i32) -> EngineReply {
    EngineReply { status, original: 0 }
}

/// The null target never reaches the engine. Whatever the guard's state and
/// whatever was to be asked, an operation on one target that is given the
/// null address ends at once with `InvalidTarget`; this is how `enable_hook`
/// and `disable_hook` begin.
pub proof fn lemma_null_target_is_rejected(state: GuardState, pending: Pending)
    ensures
        begin_single(state, 0, pending) == Step::Done(Err(Error::InvalidTarget)),
        begin_single(state, 0, enabling(0)) == Step::Done(Err(Error::InvalidTarget)),
        begin_single(state, 0, disabling(0)) == Step::Done(Err(Error::InvalidTarget)),
{
}

/// An operation on one target never speaks to every hook. If `enable_hook`
/// or `disable_hook` asks the engine at all, the request names the target it
/// was given, which is not null.
pub proof fn lemma_single_target_request(state: GuardState, target: usize)
    ensures
        begin_single(state, target, enabling(target)) is Call ==> target != 0,
        begin_single(state, target, disabling(target)) is Call ==> target != 0,
        target != 0 ==> enabling(target).well_formed() && disabling(target).well_formed(),
        enabling(target).request() == (EngineCall::EnableHook { target }),
        disabling(target).request() == (EngineCall::DisableHook { target }),
        target != 0 ==> !enabling(target).request().is_bulk(),
        target != 0 ==> !disabling(target).request().is_bulk(),
{
}

/// Among the requests that the guard hands out, those to every hook are the
/// two bulk operations and nothing else.
pub proof fn lemma_bulk_requests(pending: Pending)
    requires
        pending.well_formed(),
    ensures
        pending.request().is_bulk() <==> pending.is_bulk(),
{
}

/// Every request that follows an answer is well formed and comes from an
/// operation with fewer requests left: no operation asks the engine more than
/// twice, and only `create_and_enable_hook` asks twice.
pub proof fn lemma_resume_makes_progress(state: GuardState, pending: Pending, reply: EngineReply)
    ensures
        1 <= pending.calls_left() <= 2,
        resume_step(state, pending, reply) matches Step::Call(next) ==> next.well_formed()
            && !next.is_bulk() && next.calls_left() < pending.calls_left(),
        resume_step(state, pending, reply) is Call ==> reply.status == 0 && pending
            == creating(pending->Create_target, pending->Create_detour, true),
        resume_step(state, pending, reply) is Call ==> resume_step(state, pending, reply)
            == Step::Call(
            (Pending::Enable { target: pending->Create_target, created: Some(reply.original) }),
        ),
{
}

/// A bulk operation is one transaction: an open guard asks the engine once,
/// for every hook, and the answer ends the operation.
pub proof fn lemma_bulk_is_one_request(state: GuardState, reply: EngineReply)
    requires
        state.open,
    ensures
        begin(state, Pending::EnableAll) == Step::Call(Pending::EnableAll),
        begin(state, Pending::DisableAll) == Step::Call(Pending::DisableAll),
        Pending::EnableAll.request() == (EngineCall::EnableHook { target: 0 }),
        Pending::DisableAll.request() == (EngineCall::DisableHook { target: 0 }),
        Pending::EnableAll.request().is_bulk(),
        Pending::DisableAll.request().is_bulk(),
        resume_step(state, Pending::EnableAll, reply) is Done,
        resume_step(state, Pending::DisableAll, reply) is Done,
{
}

/// To the guard, enabling every hook at once and enabling one target are the
/// same: given the same answer of the engine both end with the same result
/// and leave the guard as it was. The same holds of disabling.
pub proof fn lemma_bulk_and_single_agree(state: GuardState, target: usize, reply: EngineReply)
    requires
        is_status(reply.status as int),
    ensures
        resume_step(state, Pending::EnableAll, reply) == resume_step(
            state,
            enabling(target),
            reply,
        ),
        resume_step(state, Pending::DisableAll, reply) == resume_step(
            state,
            disabling(target),
            reply,
        ),
        resume_state(state, Pending::EnableAll, reply) == state,
        resume_state(state, enabling(target), reply) == state,
        resume_state(state, Pending::DisableAll, reply) == state,
        resume_state(state, disabling(target), reply) == state,
{
}

/// When the engine answers that the hook is already enabled, `enable_hook`
/// ends with `Enabled`; when it answers that the hook is already disabled,
/// `disable_hook` ends with `Disabled`. Neither changes the guard.
pub proof fn lemma_redundant_toggle_is_reported(state: GuardState, target: usize)
    requires
        state.open,
    ensures
        resume_step(state, enabling(target), answer(6)) == Step::Done(Err(Error::Enabled)),
        resume_step(state, disabling(target), answer(7)) == Step::Done(Err(Error::Disabled)),
        resume_state(state, enabling(target), answer(6)) == state,
        resume_state(state, disabling(target), answer(7)) == state,
{
}

/// A failure of the engine ends the operation with exactly the error that the
/// status stands for and leaves the guard as it was.
pub proof fn lemma_failure_changes_nothing(state: GuardState, pending: Pending, reply: EngineReply)
    requires
        state.open,
        is_status(reply.status as int),
        reply.status != 0,
    ensures
        resume_state(state, pending, reply) == state,
        resume_step(state, pending, reply) matches Step::Done(Err(error)) && Some(error)
            == error_of_status(reply.status as int) && error != Error::InvalidTarget,
{
}

/// A successful teardown closes the guard.
pub proof fn lemma_close_closes(state: GuardState, reply: EngineReply)
    requires
        state.open,
        reply.status == 0,
    ensures
        !resume_state(state, Pending::Close, reply).open,
        resume_state(state, Pending::Close, reply).originals == state.originals,
        resume_step(state, Pending::Close, reply) == Step::Done(Ok(None)),
{
}

/// Nothing is valid on a closed guard. No operation asks the engine, each
/// ends with an error, an answer that still comes in is turned away with
/// `NotInitialized`, and the guard stays closed and otherwise as it was.
pub proof fn lemma_closed_guard_refuses(
    state: GuardState,
    target: usize,
    pending: Pending,
    reply: EngineReply,
)
    requires
        !state.open,
    ensures
        begin(state, pending) == Step::Done(Err(Error::NotInitialized)),
        target != 0 ==> begin_single(state, target, pending) == Step::Done(
            Err(Error::NotInitialized),
        ),
        target == 0 ==> begin_single(state, target, pending) == Step::Done(
            Err(Error::InvalidTarget),
        ),
        resume_step(state, pending, reply) == Step::Done(Err(Error::NotInitialized)),
        resume_state(state, pending, reply) == state,
{
}

/// The originals only grow. An answer of the engine leaves those that the
/// guard holds where they are, and adds one at the end exactly when it is the
/// success of a registration on an open guard.
pub proof fn lemma_originals_append_only(state: GuardState, pending: Pending, reply: EngineReply)
    ensures
        state.originals.is_prefix_of(resume_state(state, pending, reply).originals),
        (state.open && reply.status == 0 && pending is Create) ==> resume_state(
            state,
            pending,
            reply,
        ).originals == state.originals.push(reply.original),
        !(state.open && reply.status == 0 && pending is Create) ==> resume_state(
            state,
            pending,
            reply,
        ).originals == state.originals,
{
}

/// Only a teardown closes a guard: after any other answer an open guard is
/// still open.
pub proof fn lemma_only_close_closes(state: GuardState, pending: Pending, reply: EngineReply)
    requires
        state.open,
    ensures
        resume_state(state, pending, reply).open <==> !(pending is Close && reply.status == 0),
{
}

/// `create_and_enable_hook` registers exactly as `create_hook` does, and a
/// failed registration ends it with the same error and no further request.
pub proof fn lemma_create_and_enable_registers(
    state: GuardState,
    target: usize,
    detour: usize,
    created: EngineReply,
)
    requires
        state.open,
        is_status(created.status as int),
    ensures
        resume_state(state, creating(target, detour, true), created) == resume_state(
            state,
            creating(target, detour, false),
            created,
        ),
        created.status != 0 ==> resume_step(state, creating(target, detour, true), created)
            == resume_step(state, creating(target, detour, false), created),
        created.status == 0 ==> resume_step(state, creating(target, detour, false), created)
            == Step::Done(Ok(Some(created.original))),
{
}

/// After a successful registration `create_and_enable_hook` goes on as
/// `enable_hook` on the same target begins: it ends with `InvalidTarget` if
/// the target is null, and else sends the request that `enable_hook` sends.
pub proof fn lemma_create_and_enable_continues(
    state: GuardState,
    target: usize,
    detour: usize,
    created: EngineReply,
)
    requires
        state.open,
        created.status == 0,
    ensures
        begin_single(
            resume_state(state, creating(target, detour, true), created),
            target,
            enabling(target),
        ) matches Step::Done(result) ==> resume_step(
            state,
            creating(target, detour, true),
            created,
        ) == Step::Done(result),
        begin_single(
            resume_state(state, creating(target, detour, true), created),
            target,
            enabling(target),
        ) matches Step::Call(single) ==> resume_step(
            state,
            creating(target, detour, true),
            created,
        ) matches Step::Call(next) && next.request() == single.request(),
{
}

/// The answer to the second request ends `create_and_enable_hook` as it ends
/// `enable_hook`, except that a success returns the original of the new
/// hook. If enabling fails the hook stays registered: its original is still
/// the last that the guard holds.
pub proof fn lemma_create_and_enable_ends(
    state: GuardState,
    target: usize,
    detour: usize,
    created: EngineReply,
    enabled: EngineReply,
)
    requires
        state.open,
        target != 0,
        created.status == 0,
        is_status(enabled.status as int),
    ensures
        resume_step(state, creating(target, detour, true), created) matches Step::Call(next) && {
            let registered = resume_state(state, creating(target, detour, true), created);
            &&& registered.originals == state.originals.push(created.original)
            &&& resume_state(registered, next, enabled) == registered
            &&& enabled.status == 0 ==> resume_step(registered, next, enabled) == Step::Done(
                Ok(Some(created.original)),
            )
            &&& enabled.status == 0 ==> resume_step(registered, enabling(target), enabled)
                == Step::Done(Ok(None))
            &&& enabled.status != 0 ==> resume_step(registered, next, enabled) == resume_step(
                registered,
                enabling(target),
                enabled,
            )
        },
{
}

} // verus!
