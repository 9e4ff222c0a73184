//! Provisioning actions: the capability every step offers, the lifecycle state
//! that guards it, and the concrete steps.

use vstd::prelude::*;

pub mod base;
pub mod lib;
pub mod report;
pub mod stateful;

use crate::action::stateful::{ActionErrorKind, ActionState, StatefulAction};

verus! {

/// One provisioning step against a host of type `H`.
///
/// An action is a plain value: it holds the parameters of the step and never
/// changes. `execute` brings the step's effect about; `revert` undoes it as far
/// as it can and tolerates an effect that never existed. What either does to
/// the host, and what it reports, is the implementation's to say: it says so
/// in `executed` and `reverted`, and whoever calls the action passes on what
/// these say.
pub trait Action<H> {
    /// Whether executing the action on a host that was `before` can leave it
    /// as `after` and report `r`. An implementation that does not say allows
    /// everything.
    open spec fn executed(&self, before: H, after: H, r: Result<(), ActionErrorKind>) -> bool {
        true
    }

    /// Whether reverting the action on a host that was `before` can leave it
    /// as `after` and report `r`. An implementation that does not say allows
    /// everything.
    open spec fn reverted(&self, before: H, after: H, r: Result<(), ActionErrorKind>) -> bool {
        true
    }

    fn execute(&self, host: &mut H) -> (r: Result<(), ActionErrorKind>)
        ensures
            self.executed(*old(host), *final(host), r),
    ;

    fn revert(&self, host: &mut H) -> (r: Result<(), ActionErrorKind>)
        ensures
            self.reverted(*old(host), *final(host), r),
    ;

    /// The action with the state of an effect that is still to be brought
    /// about.
    fn stateful(self) -> (r: StatefulAction<Self>) where Self: Sized
        ensures
            r.action() == self,
            r.state() == ActionState::Uncompleted,
    {
        StatefulAction::uncompleted(self)
    }
}

} // verus!
