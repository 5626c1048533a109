//! The ways in which activating a policy fails.

use vstd::prelude::*;
use crate::native::{ArgCompare, NativeAction};

verus! {

#[derive(Clone, Debug, PartialEq, Eq)]
pub enum SeccompError {
    /// The policy's default action is notify.
    NotifyAsDefaultAction,
    /// A notify rule names the `write` syscall.
    NotifyOnWrite,
    /// A trace action's value does not fit in 16 bits.
    InvalidTraceValue,
    /// A control flag that the library does not know.
    UnsupportedFlag(String),
    /// libseccomp could not create the filter.
    FilterCreation,
    /// libseccomp refused a control flag or the no-new-privileges setting.
    ControlConfiguration,
    /// libseccomp refused an architecture.
    ArchRegistration,
    /// The engine refused the rule with this action on the named syscall,
    /// under this condition where it had one.
    RuleCompilation { action: NativeAction, name: String, cond: Option<ArgCompare> },
    /// The filter could not be loaded into the kernel.
    Activation,
    /// The filter was loaded but its notification descriptor could not be had.
    NotificationHandle,
}

} // verus!
