//! Host-managed service runtime: the run-level state machine that reconciles
//! asynchronous control requests from the operating system's service control
//! manager with an application task, and the status records reported back to
//! the host on the required protocol.
//!
//! The OS-facing plumbing (handler registration, status delivery, the registry
//! configuration store) lives outside this crate; here stand the decisions:
//! how a raw control code is decoded and acknowledged, how the run-level
//! intention and its two level-triggered signals move, what each status
//! report must contain, and what the dispatch loop does at each level.

use vstd::prelude::*;

pub mod dispatch;
pub mod registry;
pub mod run_level;
pub mod service_configuration;
pub mod service_control_manager;
pub mod service_dispatcher;
pub mod std_cli;

verus! {

/// A numeric operating-system error code.
#[derive(Copy, Clone, PartialEq, Eq, Structural, Debug)]
pub struct Error {
    pub code: u32,
}

/// Types that can be used for true/false checks on API results.
pub trait IsTrue {
    spec fn spec_is_true(&self) -> bool;

    fn is_true(&self) -> (r: bool)
        ensures
            r == self.spec_is_true(),
    ;
}

impl IsTrue for bool {
    open spec fn spec_is_true(&self) -> bool {
        *self
    }

    fn is_true(&self) -> (r: bool) {
        *self
    }
}

impl IsTrue for u32 {
    open spec fn spec_is_true(&self) -> bool {
        *self != 0
    }

    fn is_true(&self) -> (r: bool) {
        *self != 0
    }
}

impl IsTrue for i32 {
    open spec fn spec_is_true(&self) -> bool {
        *self != 0
    }

    fn is_true(&self) -> (r: bool) {
        *self != 0
    }
}

impl Error {
    /// Turn a boolean-style API result into a `Result`, reporting `last_error`
    /// (the error code the caller read from the operating system) on failure.
    pub fn check_true<T: IsTrue>(value: T, last_error: Error) -> (r: Result<(), Error>)
        ensures
            value.spec_is_true() <==> r is Ok,
            r matches Err(e) ==> e == last_error,
    {
        if value.is_true() {
            Ok(())
        } else {
            Err(last_error)
        }
    }

    /// Turn an API result that returns an error code directly (zero meaning
    /// success) into a `Result`.
    pub fn check_code(code: i32) -> (r: Result<(), Error>)
        ensures
            code == 0 <==> r is Ok,
            r matches Err(e) ==> e.code == code as u32,
    {
        if code == 0 {
            Ok(())
        } else {
            Err(Error { code: #[verifier::truncate] (code as u32) })
        }
    }
}

} // verus!
