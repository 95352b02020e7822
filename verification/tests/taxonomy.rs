//! The status codes, the errors they stand for, and the thread-freeze policy.

use minhook_detours_rs::error::{status_is_known, status_result, Error};
use minhook_detours_rs::guard::thread_freeze::{
    ThreadFreezeMethod, MH_FREEZE_METHOD_FAST_UNDOCUMENTED, MH_FREEZE_METHOD_NONE_UNSAFE,
    MH_FREEZE_METHOD_ORIGINAL,
};

const ENGINE_ERRORS: [(i32, Error); 14] = [
    (1, Error::AlreadyInitialized),
    (2, Error::NotInitialized),
    (3, Error::UnableToInitialize),
    (4, Error::AlreadyCreated),
    (5, Error::NotCreated),
    (6, Error::Enabled),
    (7, Error::Disabled),
    (8, Error::NotExecutable),
    (9, Error::FailedTransactionBegin),
    (10, Error::FailedTransactionCommit),
    (11, Error::UnsupportedFunction),
    (12, Error::FailedAllocatingMemory),
    (13, Error::ModuleNotFound),
    (14, Error::FunctionNotFound),
];

#[test]
fn every_failure_status_has_its_error() {
    for (status, error) in ENGINE_ERRORS {
        assert_eq!(Error::from(status), error);
        assert_eq!(status_result(status), Err(error));
    }
    assert_eq!(status_result(0), Ok(()));
}

#[test]
fn no_two_statuses_share_an_error() {
    for (a, first) in ENGINE_ERRORS {
        assert_ne!(first, Error::InvalidTarget);
        for (b, second) in ENGINE_ERRORS {
            assert_eq!(a == b, first == second);
        }
    }
}

#[test]
fn known_statuses_run_from_zero_to_fourteen() {
    assert!(!status_is_known(i32::MIN));
    assert!(!status_is_known(-1));
    assert!(status_is_known(0));
    assert!(status_is_known(1));
    assert!(status_is_known(14));
    assert!(!status_is_known(15));
    assert!(!status_is_known(i32::MAX));
}

#[test]
fn every_error_describes_itself() {
    assert_eq!(Error::AlreadyInitialized.message(), "MinHook is already initialized");
    assert_eq!(
        Error::NotInitialized.message(),
        "MinHook is not initialized yet, or already uninitialized"
    );
    assert_eq!(
        Error::UnableToInitialize.message(),
        "MinHook can't be uninitialized due to hooks that failed to be removed"
    );
    assert_eq!(
        Error::AlreadyCreated.message(),
        "The hook for the specified target function is already created"
    );
    assert_eq!(
        Error::NotCreated.message(),
        "The hook for the specified target function is not created yet"
    );
    assert_eq!(
        Error::Enabled.message(),
        "The hook for the specified target function is already enabled"
    );
    assert_eq!(
        Error::Disabled.message(),
        "The hook for the specified target function is not enabled yet, or already disabled"
    );
    assert_eq!(
        Error::NotExecutable.message(),
        "The specified pointer is invalid. It points the address of non-allocated and/or non-executable region"
    );
    assert_eq!(
        Error::FailedTransactionBegin.message(),
        "Detours failed to begin the hooking transaction"
    );
    assert_eq!(
        Error::FailedTransactionCommit.message(),
        "Detours failed to commit the hooking transaction"
    );
    assert_eq!(
        Error::UnsupportedFunction.message(),
        "The specified target function cannot be hooked"
    );
    assert_eq!(Error::FailedAllocatingMemory.message(), "Failed to allocate memory");
    assert_eq!(Error::ModuleNotFound.message(), "The specified module is not loaded");
    assert_eq!(Error::FunctionNotFound.message(), "The specified function is not found");
    assert_eq!(Error::InvalidTarget.message(), "The specified pointer is known to be invalid");
}

#[test]
fn native_freeze_methods_collapse_onto_two_policies() {
    assert_eq!(ThreadFreezeMethod::from(MH_FREEZE_METHOD_ORIGINAL), ThreadFreezeMethod::Original);
    assert_eq!(
        ThreadFreezeMethod::from(MH_FREEZE_METHOD_FAST_UNDOCUMENTED),
        ThreadFreezeMethod::Original
    );
    assert_eq!(
        ThreadFreezeMethod::from(MH_FREEZE_METHOD_NONE_UNSAFE),
        ThreadFreezeMethod::NoneUnsafe
    );
    assert_eq!(ThreadFreezeMethod::from(0), ThreadFreezeMethod::Original);
    assert_eq!(ThreadFreezeMethod::from(1), ThreadFreezeMethod::Original);
    assert_eq!(ThreadFreezeMethod::from(2), ThreadFreezeMethod::NoneUnsafe);
}

#[test]
fn policies_go_to_their_native_numbers_and_back() {
    assert_eq!(ThreadFreezeMethod::Original.into(), 0);
    assert_eq!(ThreadFreezeMethod::NoneUnsafe.into(), 2);
    for method in [ThreadFreezeMethod::Original, ThreadFreezeMethod::NoneUnsafe] {
        assert_eq!(ThreadFreezeMethod::from(method.into()), method);
    }
    assert_eq!(ThreadFreezeMethod::from(1).into(), 0);
}
