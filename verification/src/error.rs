//! Status codes of the hooking engine and the errors they stand for.

use vstd::prelude::*;

verus! {

// The engine's native status codes.
pub const MH_OK: i32 = 0;
pub const MH_ERROR_ALREADY_INITIALIZED: i32 = 1;
pub const MH_ERROR_NOT_INITIALIZED: i32 = 2;
pub const MH_ERROR_UNABLE_TO_UNINITIALIZE: i32 = 3;
pub const MH_ERROR_ALREADY_CREATED: i32 = 4;
pub const MH_ERROR_NOT_CREATED: i32 = 5;
pub const MH_ERROR_ENABLED: i32 = 6;
pub const MH_ERROR_DISABLED: i32 = 7;
pub const MH_ERROR_NOT_EXECUTABLE: i32 = 8;
pub const MH_ERROR_DETOURS_TRANSACTION_BEGIN: i32 = 9;
pub const MH_ERROR_DETOURS_TRANSACTION_COMMIT: i32 = 10;
pub const MH_ERROR_UNSUPPORTED_FUNCTION: i32 = 11;
pub const MH_ERROR_MEMORY_ALLOC: i32 = 12;
pub const MH_ERROR_MODULE_NOT_FOUND: i32 = 13;
pub const MH_ERROR_FUNCTION_NOT_FOUND: i32 = 14;

/// Every way an operation on the guard can fail.
#[derive(Debug, Clone, Copy, PartialEq, Eq, Structural)]
pub enum Error {
    /// The engine is already initialized.
    AlreadyInitialized,
    /// The engine is not initialized yet, or already uninitialized.
    NotInitialized,
    /// The engine cannot be uninitialized: some hooks failed to be removed.
    UnableToInitialize,
    /// The hook for the target function is already created.
    AlreadyCreated,
    /// The hook for the target function is not created yet.
    NotCreated,
    /// The hook for the target function is already enabled.
    Enabled,
    /// The hook for the target function is not enabled yet, or already disabled.
    Disabled,
    /// The address lies in a region that is not allocated or not executable.
    NotExecutable,
    /// The engine failed to begin the hooking transaction.
    FailedTransactionBegin,
    /// The engine failed to commit the hooking transaction.
    FailedTransactionCommit,
    /// The target function cannot be hooked.
    UnsupportedFunction,
    /// The engine failed to allocate memory.
    FailedAllocatingMemory,
    /// The named module is not loaded.
    ModuleNotFound,
    /// The named function is not found.
    FunctionNotFound,
    /// The target is the null address. The engine never reports this one: the
    /// guard does, before anything reaches the engine.
    InvalidTarget,
}

/// The error that a status code stands for, `None` for success and for every
/// number that the engine does not define.
pub open spec fn error_of_status(status: int) -> Option<Error> {
    if status == 1 {
        Some(Error::AlreadyInitialized)
    } else if status == 2 {
        Some(Error::NotInitialized)
    } else if status == 3 {
        Some(Error::UnableToInitialize)
    } else if status == 4 {
        Some(Error::AlreadyCreated)
    } else if status == 5 {
        Some(Error::NotCreated)
    } else if status == 6 {
        Some(Error::Enabled)
    } else if status == 7 {
        Some(Error::Disabled)
    } else if status == 8 {
        Some(Error::NotExecutable)
    } else if status == 9 {
        Some(Error::FailedTransactionBegin)
    } else if status == 10 {
        Some(Error::FailedTransactionCommit)
    } else if status == 11 {
        Some(Error::UnsupportedFunction)
    } else if status == 12 {
        Some(Error::FailedAllocatingMemory)
    } else if status == 13 {
        Some(Error::ModuleNotFound)
    } else if status == 14 {
        Some(Error::FunctionNotFound)
    } else {
        None
    }
}

/// A status that the engine can answer with: success or one of its errors.
pub open spec fn is_status(status: int) -> bool {
    0 <= status <= 14
}

/// What a status means to the caller of an operation that returns nothing:
/// success, or the error the status stands for.
pub open spec fn result_of_status(status: int) -> Result<(), Error>
    recommends
        is_status(status),
{
    if status == 0 {
        Ok(())
    } else {
        Err(error_of_status(status).unwrap())
    }
}

/// The sentence that describes an error to a reader.
pub open spec fn message_of(error: Error) -> Seq<char> {
    match error {
        Error::AlreadyInitialized => "MinHook is already initialized"@,
        Error::NotInitialized => "MinHook is not initialized yet, or already uninitialized"@,
        Error::UnableToInitialize =>
            "MinHook can't be uninitialized due to hooks that failed to be removed"@,
        Error::AlreadyCreated => "The hook for the specified target function is already created"@,
        Error::NotCreated => "The hook for the specified target function is not created yet"@,
        Error::Enabled => "The hook for the specified target function is already enabled"@,
        Error::Disabled =>
            "The hook for the specified target function is not enabled yet, or already disabled"@,
        Error::NotExecutable =>
            "The specified pointer is invalid. It points the address of non-allocated and/or non-executable region"@,
        Error::FailedTransactionBegin => "Detours failed to begin the hooking transaction"@,
        Error::FailedTransactionCommit => "Detours failed to commit the hooking transaction"@,
        Error::UnsupportedFunction => "The specified target function cannot be hooked"@,
        Error::FailedAllocatingMemory => "Failed to allocate memory"@,
        Error::ModuleNotFound => "The specified module is not loaded"@,
        Error::FunctionNotFound => "The specified function is not found"@,
        Error::InvalidTarget => "The specified pointer is known to be invalid"@,
    }
}

/// Whether `status` is one that the engine can answer with.
pub fn status_is_known(status: i32) -> (known: bool)
    ensures
        known == is_status(status as int),
{
    MH_OK <= status && status <= MH_ERROR_FUNCTION_NOT_FOUND
}

/// Turns the status of a request into the result of the operation.
pub fn status_result(status: i32) -> (result: Result<(), Error>)
    requires
        is_status(status as int),
    ensures
        result == result_of_status(status as int),
{
    if status == MH_OK {
        return Ok(());
    }
    Err(Error::from(status))
}

impl Error {
    /// The error reported by a failure status of the engine.
    ///
    /// Success is no error, and a number outside the engine's list means that
    /// the engine and this crate disagree about the interface: neither may be
    /// passed here.
    pub fn from(value: i32) -> (e: Error)
        requires
            error_of_status(value as int).is_some(),
        ensures
            error_of_status(value as int) == Some(e),
    {
        if value == MH_ERROR_ALREADY_INITIALIZED {
            Error::AlreadyInitialized
        } else if value == MH_ERROR_NOT_INITIALIZED {
            Error::NotInitialized
        } else if value == MH_ERROR_UNABLE_TO_UNINITIALIZE {
            Error::UnableToInitialize
        } else if value == MH_ERROR_ALREADY_CREATED {
            Error::AlreadyCreated
        } else if value == MH_ERROR_NOT_CREATED {
            Error::NotCreated
        } else if value == MH_ERROR_ENABLED {
            Error::Enabled
        } else if value == MH_ERROR_DISABLED {
            Error::Disabled
        } else if value == MH_ERROR_NOT_EXECUTABLE {
            Error::NotExecutable
        } else if value == MH_ERROR_DETOURS_TRANSACTION_BEGIN {
            Error::FailedTransactionBegin
        } else if value == MH_ERROR_DETOURS_TRANSACTION_COMMIT {
            Error::FailedTransactionCommit
        } else if value == MH_ERROR_UNSUPPORTED_FUNCTION {
            Error::UnsupportedFunction
        } else if value == MH_ERROR_MEMORY_ALLOC {
            Error::FailedAllocatingMemory
        } else if value == MH_ERROR_MODULE_NOT_FOUND {
            Error::ModuleNotFound
        } else {
            Error::FunctionNotFound
        }
    }

    /// The sentence that describes this error to a reader.
    pub fn message(&self) -> (text: &'static str)
        ensures
            text@ == message_of(*self),
    {
        match self {
            Error::AlreadyInitialized => "MinHook is already initialized",
            Error::NotInitialized => "MinHook is not initialized yet, or already uninitialized",
            Error::UnableToInitialize =>
                "MinHook can't be uninitialized due to hooks that failed to be removed",
            Error::AlreadyCreated =>
                "The hook for the specified target function is already created",
            Error::NotCreated => "The hook for the specified target function is not created yet",
            Error::Enabled => "The hook for the specified target function is already enabled",
            Error::Disabled =>
                "The hook for the specified target function is not enabled yet, or already disabled",
            Error::NotExecutable =>
                "The specified pointer is invalid. It points the address of non-allocated and/or non-executable region",
            Error::FailedTransactionBegin => "Detours failed to begin the hooking transaction",
            Error::FailedTransactionCommit => "Detours failed to commit the hooking transaction",
            Error::UnsupportedFunction => "The specified target function cannot be hooked",
            Error::FailedAllocatingMemory => "Failed to allocate memory",
            Error::ModuleNotFound => "The specified module is not loaded",
            Error::FunctionNotFound => "The specified function is not found",
            Error::InvalidTarget => "The specified pointer is known to be invalid",
        }
    }
}

/// The engine's errors are exactly the statuses from one to fourteen, and
/// success is none of them.
pub proof fn lemma_failure_statuses(status: int)
    ensures
        error_of_status(status).is_some() <==> 1 <= status <= 14,
        error_of_status(status).is_some() <==> is_status(status) && status != 0,
{
}

/// Two different statuses never stand for the same error: no failure of the
/// engine is folded into another.
pub proof fn lemma_error_of_status_injective(a: int, b: int)
    requires
        error_of_status(a).is_some(),
        error_of_status(a) == error_of_status(b),
    ensures
        a == b,
{
}

/// No status of the engine stands for `InvalidTarget`.
pub proof fn lemma_invalid_target_is_local(status: int)
    ensures
        error_of_status(status) != Some(Error::InvalidTarget),
{
}

/// Every error but `InvalidTarget` is the meaning of some status.
pub proof fn lemma_every_engine_error_has_a_status(error: Error)
    requires
        error != Error::InvalidTarget,
    ensures
        exists|status: int| 1 <= status <= 14 && error_of_status(status) == Some(error),
{
    match error {
        Error::AlreadyInitialized => assert(error_of_status(1) == Some(error)),
        Error::NotInitialized => assert(error_of_status(2) == Some(error)),
        Error::UnableToInitialize => assert(error_of_status(3) == Some(error)),
        Error::AlreadyCreated => assert(error_of_status(4) == Some(error)),
        Error::NotCreated => assert(error_of_status(5) == Some(error)),
        Error::Enabled => assert(error_of_status(6) == Some(error)),
        Error::Disabled => assert(error_of_status(7) == Some(error)),
        Error::NotExecutable => assert(error_of_status(8) == Some(error)),
        Error::FailedTransactionBegin => assert(error_of_status(9) == Some(error)),
        Error::FailedTransactionCommit => assert(error_of_status(10) == Some(error)),
        Error::UnsupportedFunction => assert(error_of_status(11) == Some(error)),
        Error::FailedAllocatingMemory => assert(error_of_status(12) == Some(error)),
        Error::ModuleNotFound => assert(error_of_status(13) == Some(error)),
        Error::FunctionNotFound => assert(error_of_status(14) == Some(error)),
        Error::InvalidTarget => {},
    }
}

} // verus!
