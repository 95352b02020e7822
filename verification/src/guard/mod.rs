//! The guard over the hooking engine.
//!
//! A [`DetourGuard`] stands for one initialized engine context. It never
//! touches the engine itself. Each operation starts with a method that says
//! what to do next, as a [`Step`]: either the operation is already over, or
//! the engine has to be asked. The caller makes that request and passes the
//! answer to [`DetourGuard::resume`], which gives the next step. Construction
//! and the consuming [`DetourGuard::close`] take the engine's status directly.

use vstd::prelude::*;
use crate::engine::{EngineCall, EngineReply, MH_ALL_HOOKS};
use crate::error::{error_of_status, is_status, status_result, Error};
use crate::guard::thread_freeze::{native_of_method, ThreadFreezeMethod};

pub mod laws;
pub mod thread_freeze;

verus! {

/// What a guard is, seen from outside: the originals it has handed out, oldest
/// first, and whether its engine context is still up.
#[verifier::ext_equal]
pub struct GuardState {
    pub originals: Seq<usize>,
    pub open: bool,
}

/// A request that is on its way to the engine, together with what the guard
/// has to remember until the answer is in.
#[derive(Debug, Clone, Copy, PartialEq, Eq)]
pub enum Pending {
    /// Tearing the engine context down.
    Close,
    /// Setting the thread-freeze policy.
    FreezeMethod { method: ThreadFreezeMethod },
    /// Registering a hook; `enable` says whether it is to be activated next.
    Create { target: usize, detour: usize, enable: bool },
    /// Activating the hook of one target. `created` holds the original of a
    /// hook that the same operation has just registered.
    Enable { target: usize, created: Option<usize> },
    /// Activating every hook in one transaction.
    EnableAll,
    /// Deactivating the hook of one target.
    Disable { target: usize },
    /// Deactivating every hook in one transaction.
    DisableAll,
}

/// What comes next in an operation.
#[derive(Debug, Clone, Copy, PartialEq, Eq)]
pub enum Step {
    /// The engine has to be asked. The request is `Pending::call`; the answer
    /// goes to `DetourGuard::resume` together with this value.
    Call(Pending),
    /// The operation is over. A success carries the original of the hook
    /// that the operation registered, if it registered one.
    Done(Result<Option<usize>, Error>),
}

impl Pending {
    /// The request that the engine is to receive.
    pub open spec fn request(self) -> EngineCall {
        match self {
            Pending::Close => EngineCall::Uninitialize,
            Pending::FreezeMethod { method } => EngineCall::SetThreadFreezeMethod {
                method: native_of_method(method) as i32,
            },
            Pending::Create { target, detour, enable } => EngineCall::CreateHook { target, detour },
            Pending::Enable { target, created } => EngineCall::EnableHook { target },
            Pending::EnableAll => EngineCall::EnableHook { target: 0 },
            Pending::Disable { target } => EngineCall::DisableHook { target },
            Pending::DisableAll => EngineCall::DisableHook { target: 0 },
        }
    }

    /// Whether the request speaks of every hook at once.
    pub open spec fn is_bulk(self) -> bool {
        self is EnableAll || self is DisableAll
    }

    /// A request for one target names a target that is not null.
    pub open spec fn well_formed(self) -> bool {
        match self {
            Pending::Enable { target, created } => target != 0,
            Pending::Disable { target } => target != 0,
            _ => true,
        }
    }

    /// An upper bound on the requests that the operation still makes, this
    /// one included.
    pub open spec fn calls_left(self) -> nat {
        match self {
            Pending::Create { target, detour, enable } => if enable {
                2
            } else {
                1
            },
            _ => 1,
        }
    }

    /// The request that the engine is to receive.
    pub fn call(&self) -> (call: EngineCall)
        ensures
            call == self.request(),
    {
        match *self {
            Pending::Close => EngineCall::Uninitialize,
            Pending::FreezeMethod { method } => EngineCall::SetThreadFreezeMethod {
                method: method.into(),
            },
            Pending::Create { target, detour, enable: _ } => EngineCall::CreateHook {
                target,
                detour,
            },
            Pending::Enable { target, created: _ } => EngineCall::EnableHook { target },
            Pending::EnableAll => EngineCall::EnableHook { target: MH_ALL_HOOKS },
            Pending::Disable { target } => EngineCall::DisableHook { target },
            Pending::DisableAll => EngineCall::DisableHook { target: MH_ALL_HOOKS },
        }
    }
}

/// The first step of an operation that goes to the engine whenever the guard
/// is open. A closed guard asks nothing and reports `NotInitialized`.
pub open spec fn begin(state: GuardState, pending: Pending) -> Step {
    if state.open {
        Step::Call(pending)
    } else {
        Step::Done(Err(Error::NotInitialized))
    }
}

/// The first step of an operation on one target. The null address is turned
/// away before anything else is looked at: to the engine it would mean every
/// hook.
pub open spec fn begin_single(state: GuardState, target: usize, pending: Pending) -> Step {
    if target == 0 {
        Step::Done(Err(Error::InvalidTarget))
    } else {
        begin(state, pending)
    }
}

/// The guard after the engine's answer to `pending`.
///
/// Only two answers change a guard: a successful teardown closes it, and a
/// successful registration adds the new original at the end. A closed guard
/// stays as it is whatever the answer.
pub open spec fn resume_state(state: GuardState, pending: Pending, reply: EngineReply)
    -> GuardState {
    if !state.open || reply.status != 0 {
        state
    } else {
        match pending {
            Pending::Close => GuardState { originals: state.originals, open: false },
            Pending::Create { target, detour, enable } => GuardState {
                originals: state.originals.push(reply.original),
                open: true,
            },
            _ => state,
        }
    }
}

/// The step that follows the engine's answer to `pending`.
///
/// A closed guard reports `NotInitialized`. A failure status ends the
/// operation with the error it stands for. After a success the operation is
/// over, except that a registration which is to be activated goes on as
/// `enable_hook` on the same target would begin, and carries the new original
/// along to be returned in the end.
pub open spec fn resume_step(state: GuardState, pending: Pending, reply: EngineReply) -> Step
    recommends
        is_status(reply.status as int),
{
    if !state.open {
        Step::Done(Err(Error::NotInitialized))
    } else if reply.status != 0 {
        Step::Done(Err(error_of_status(reply.status as int).unwrap()))
    } else {
        match pending {
            Pending::Create { target, detour, enable } => if enable {
                begin_single(
                    resume_state(state, pending, reply),
                    target,
                    Pending::Enable { target, created: Some(reply.original) },
                )
            } else {
                Step::Done(Ok(Some(reply.original)))
            },
            Pending::Enable { target, created } => Step::Done(Ok(created)),
            _ => Step::Done(Ok(None)),
        }
    }
}

/// The guard of one initialized engine context.
#[derive(Debug)]
pub struct DetourGuard {
    original_pointers: Vec<usize>,
    open: bool,
}

impl View for DetourGuard {
    type V = GuardState;

    closed spec fn view(&self) -> GuardState {
        GuardState { originals: self.original_pointers@, open: self.open }
    }
}

impl DetourGuard {
    /// The guard for an engine that has just answered `EngineCall::Initialize`
    /// with `status`.
    ///
    /// On success the guard is open and holds no original. Any other status
    /// gives no guard; `MH_ERROR_ALREADY_INITIALIZED` says that another guard
    /// is alive in this process.
    pub fn new(status: i32) -> (guard: Result<DetourGuard, Error>)
        requires
            is_status(status as int),
        ensures
            status == 0 ==> guard is Ok && guard.unwrap()@ == (GuardState {
                originals: Seq::empty(),
                open: true,
            }),
            status != 0 ==> guard is Err && Some(guard.unwrap_err()) == error_of_status(
                status as int,
            ),
    {
        match status_result(status) {
            Ok(()) => Ok(DetourGuard::default()),
            Err(error) => Err(error),
        }
    }

    /// Begins a graceful close. The guard closes when the engine's answer is
    /// resumed and is a success.
    pub fn try_close(&self) -> (step: Step)
        ensures
            step == begin(self@, Pending::Close),
    {
        self.start(Pending::Close)
    }

    /// Closes the guard for good, given the engine's answer to
    /// `EngineCall::Uninitialize`.
    ///
    /// On success the guard is gone, so nothing can be asked of it any more.
    /// On failure it comes back unchanged beside the error, to be closed again
    /// or dropped. A guard that is closed already comes back with
    /// `NotInitialized`.
    pub fn close(self, status: i32) -> (closed: Result<(), (Error, DetourGuard)>)
        requires
            is_status(status as int),
        ensures
            closed is Ok <==> self@.open && status == 0,
            closed is Err ==> closed.unwrap_err().1@ == self@,
            closed is Err ==> Step::Done(Err(closed.unwrap_err().0)) == resume_step(
                self@,
                Pending::Close,
                (EngineReply { status, original: 0 }),
            ),
    {
        if !self.open {
            return Err((Error::NotInitialized, self));
        }
        match status_result(status) {
            Ok(()) => Ok(()),
            Err(error) => Err((error, self)),
        }
    }

    /// What is left to do when the guard goes out of use: the teardown
    /// request if the guard is still open, nothing after a successful close.
    pub fn teardown(&self) -> (pending: Option<Pending>)
        ensures
            pending == (if self@.open {
                Some(Pending::Close)
            } else {
                None
            }),
    {
        if self.open {
            Some(Pending::Close)
        } else {
            None
        }
    }

    /// Begins setting the thread-freeze policy for the transactions to come.
    pub fn set_thread_freeze_method(&self, thread_freeze_method: ThreadFreezeMethod) -> (step: Step)
        ensures
            step == begin(self@, (Pending::FreezeMethod { method: thread_freeze_method })),
    {
        self.start(Pending::FreezeMethod { method: thread_freeze_method })
    }

    /// Begins registering a hook that leads from `target` to `detour`. The
    /// hook does nothing until it is enabled.
    pub fn create_hook(&self, target: usize, detour: usize) -> (step: Step)
        ensures
            step == begin(self@, (Pending::Create { target, detour, enable: false })),
    {
        self.start(Pending::Create { target, detour, enable: false })
    }

    /// Begins registering a hook that leads from `target` to `detour` and is
    /// enabled at once. If enabling fails the hook stays registered.
    pub fn create_and_enable_hook(&self, target: usize, detour: usize) -> (step: Step)
        ensures
            step == begin(self@, (Pending::Create { target, detour, enable: true })),
    {
        self.start(Pending::Create { target, detour, enable: true })
    }

    /// Begins enabling the hook of `target`. The null address is turned away
    /// with `InvalidTarget`.
    pub fn enable_hook(&self, target: usize) -> (step: Step)
        ensures
            step == begin_single(self@, target, (Pending::Enable { target, created: None })),
    {
        self.start_single(target, Pending::Enable { target, created: None })
    }

    /// Begins enabling every registered hook in one transaction.
    pub fn enable_all_hooks(&self) -> (step: Step)
        ensures
            step == begin(self@, Pending::EnableAll),
    {
        self.start(Pending::EnableAll)
    }

    /// Begins disabling the hook of `target`. The null address is turned away
    /// with `InvalidTarget`.
    pub fn disable_hook(&self, target: usize) -> (step: Step)
        ensures
            step == begin_single(self@, target, (Pending::Disable { target })),
    {
        self.start_single(target, Pending::Disable { target })
    }

    /// Begins disabling every registered hook in one transaction.
    pub fn disable_all_hooks(&self) -> (step: Step)
        ensures
            step == begin(self@, Pending::DisableAll),
    {
        self.start(Pending::DisableAll)
    }

    /// Takes the engine's answer to the request of `pending` and says how the
    /// operation goes on.
    pub fn resume(&mut self, pending: Pending, reply: EngineReply) -> (step: Step)
        requires
            is_status(reply.status as int),
        ensures
            final(self)@ == resume_state(old(self)@, pending, reply),
            step == resume_step(old(self)@, pending, reply),
    {
        if !self.open {
            return Step::Done(Err(Error::NotInitialized));
        }
        if let Err(error) = status_result(reply.status) {
            return Step::Done(Err(error));
        }
        match pending {
            Pending::Close => {
                self.open = false;
                Step::Done(Ok(None))
            },
            Pending::Create { target, detour: _, enable } => {
                self.original_pointers.push(reply.original);
                if enable {
                    self.start_single(
                        target,
                        Pending::Enable { target, created: Some(reply.original) },
                    )
                } else {
                    Step::Done(Ok(Some(reply.original)))
                }
            },
            Pending::Enable { target: _, created } => Step::Done(Ok(created)),
            _ => Step::Done(Ok(None)),
        }
    }

    /// Whether the engine context of this guard is still up.
    pub fn is_open(&self) -> (open: bool)
        ensures
            open == self@.open,
    {
        self.open
    }

    /// The originals handed out so far, oldest first.
    pub fn originals(&self) -> (originals: &Vec<usize>)
        ensures
            originals@ == self@.originals,
    {
        &self.original_pointers
    }

    /// Whether `original` may still be used: the guard has handed it out and
    /// is still open. Once the guard is closed no original is valid.
    pub fn holds_original(&self, original: usize) -> (held: bool)
        ensures
            held == (self@.open && self@.originals.contains(original)),
    {
        if !self.open {
            return false;
        }
        let mut i: usize = 0;
        while i < self.original_pointers.len()
            invariant
                self.open,
                i <= self.original_pointers.len(),
                forall|j: int| 0 <= j < i ==> self.original_pointers@[j] != original,
            decreases self.original_pointers.len() - i,
        {
            if self.original_pointers[i] == original {
                assert(self.original_pointers@[i as int] == original);
                return true;
            }
            i += 1;
        }
        false
    }

    fn start(&self, pending: Pending) -> (step: Step)
        ensures
            step == begin(self@, pending),
    {
        if self.open {
            Step::Call(pending)
        } else {
            Step::Done(Err(Error::NotInitialized))
        }
    }

    fn start_single(&self, target: usize, pending: Pending) -> (step: Step)
        ensures
            step == begin_single(self@, target, pending),
    {
        if target == MH_ALL_HOOKS {
            return Step::Done(Err(Error::InvalidTarget));
        }
        self.start(pending)
    }
}

impl Default for DetourGuard {
    /// An open guard that holds no original.
    fn default() -> (guard: DetourGuard)
        ensures
            guard@ == (GuardState { originals: Seq::empty(), open: true }),
    {
        DetourGuard { original_pointers: Vec::new(), open: true }
    }
}

} // verus!
