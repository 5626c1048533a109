//! The checks that a policy must pass before any filter is built, and the
//! question whether a policy notifies.

use vstd::prelude::*;
use crate::error::SeccompError;
use crate::policy::{LinuxSeccomp, LinuxSeccompAction, LinuxSyscall};

verus! {

/// The rules of a policy, none where it has no list.
pub open spec fn rules_of(seccomp: LinuxSeccomp) -> Seq<LinuxSyscall> {
    match seccomp.syscalls {
        Some(v) => v@,
        None => Seq::empty(),
    }
}

/// The name of the syscall that a notifying process needs to hand its
/// notification descriptor on.
pub open spec fn write_name() -> Seq<char> {
    "write"@
}

pub open spec fn names_write(names: Seq<String>) -> bool {
    exists|i: int| 0 <= i < names.len() && #[trigger] names[i]@ == write_name()
}

/// A rule that would intercept `write` with notify.
pub open spec fn notifies_write(rule: LinuxSyscall) -> bool {
    rule.action == LinuxSeccompAction::ScmpActNotify && names_write(rule.names@)
}

/// What is wrong with a policy, first the default action and then the rules;
/// `None` where nothing is.
pub open spec fn violation_of(seccomp: LinuxSeccomp) -> Option<SeccompError> {
    if seccomp.default_action == LinuxSeccompAction::ScmpActNotify {
        Some(SeccompError::NotifyAsDefaultAction)
    } else if exists|j: int|
        0 <= j < rules_of(seccomp).len() && notifies_write(#[trigger] rules_of(seccomp)[j]) {
        Some(SeccompError::NotifyOnWrite)
    } else {
        None
    }
}

/// Whether some rule of the policy has the notify action.
pub open spec fn uses_notify(seccomp: LinuxSeccomp) -> bool {
    exists|j: int|
        0 <= j < rules_of(seccomp).len() && (#[trigger] rules_of(seccomp)[j]).action
            == LinuxSeccompAction::ScmpActNotify
}

fn is_write(name: &String) -> (r: bool)
    ensures
        r == (name@ == write_name()),
{
    let w = String::from_str("write");
    name.eq(&w)
}

fn has_write(names: &Vec<String>) -> (r: bool)
    ensures
        r == names_write(names@),
{
    let mut i: usize = 0;
    while i < names.len()
        invariant
            i <= names@.len(),
            forall|k: int| 0 <= k < i ==> #[trigger] names@[k]@ != write_name(),
        decreases names@.len() - i,
    {
        if is_write(&names[i]) {
            return true;
        }
        i = i + 1;
    }
    false
}

/// Refuses a policy that would leave a notifying process unable to hand its
/// notification descriptor on.
pub fn check_seccomp(seccomp: &LinuxSeccomp) -> (r: Result<(), SeccompError>)
    ensures
        match violation_of(*seccomp) {
            Some(e) => r == Err::<(), SeccompError>(e),
            None => r is Ok,
        },
{
    if seccomp.default_action == LinuxSeccompAction::ScmpActNotify {
        return Err(SeccompError::NotifyAsDefaultAction);
    }
    if let Some(syscalls) = &seccomp.syscalls {
        let mut i: usize = 0;
        while i < syscalls.len()
            invariant
                i <= syscalls@.len(),
                rules_of(*seccomp) == syscalls@,
                seccomp.default_action != LinuxSeccompAction::ScmpActNotify,
                forall|k: int| 0 <= k < i ==> !notifies_write(#[trigger] syscalls@[k]),
            decreases syscalls@.len() - i,
        {
            let rule = &syscalls[i];
            if rule.action == LinuxSeccompAction::ScmpActNotify && has_write(&rule.names) {
                assert(notifies_write(rules_of(*seccomp)[i as int]));
                return Err(SeccompError::NotifyOnWrite);
            }
            i = i + 1;
        }
    }
    Ok(())
}

/// Whether the policy intercepts any syscall with notify.
pub fn is_notify(seccomp: &LinuxSeccomp) -> (r: bool)
    ensures
        r == uses_notify(*seccomp),
{
    if let Some(syscalls) = &seccomp.syscalls {
        let mut i: usize = 0;
        while i < syscalls.len()
            invariant
                i <= syscalls@.len(),
                rules_of(*seccomp) == syscalls@,
                forall|k: int|
                    0 <= k < i ==> (#[trigger] syscalls@[k]).action
                        != LinuxSeccompAction::ScmpActNotify,
            decreases syscalls@.len() - i,
        {
            if syscalls[i].action == LinuxSeccompAction::ScmpActNotify {
                return true;
            }
            i = i + 1;
        }
    }
    false
}

/// A notify default action is refused, whatever else the policy holds.
pub proof fn lemma_notify_default_refused(seccomp: LinuxSeccomp)
    requires
        seccomp.default_action == LinuxSeccompAction::ScmpActNotify,
    ensures
        violation_of(seccomp) == Some(SeccompError::NotifyAsDefaultAction),
{
}

/// A notify rule that names `write` is refused, whatever other names it holds.
pub proof fn lemma_notify_on_write_refused(seccomp: LinuxSeccomp, j: int, i: int)
    requires
        0 <= j < rules_of(seccomp).len(),
        rules_of(seccomp)[j].action == LinuxSeccompAction::ScmpActNotify,
        0 <= i < rules_of(seccomp)[j].names@.len(),
        rules_of(seccomp)[j].names@[i]@ == write_name(),
    ensures
        violation_of(seccomp) is Some,
{
    assert(notifies_write(rules_of(seccomp)[j]));
}

/// Notify rules pass as long as none names `write` and the default is not
/// notify.
pub proof fn lemma_notify_without_write_accepted(seccomp: LinuxSeccomp)
    requires
        seccomp.default_action != LinuxSeccompAction::ScmpActNotify,
        forall|j: int, i: int|
            0 <= j < rules_of(seccomp).len() && 0 <= i < rules_of(seccomp)[j].names@.len()
                ==> (#[trigger] rules_of(seccomp)[j].names@[i])@ != write_name(),
    ensures
        violation_of(seccomp) is None,
{
    assert forall|j: int| 0 <= j < rules_of(seccomp).len() implies !notifies_write(
        #[trigger] rules_of(seccomp)[j],
    ) by {
        if names_write(rules_of(seccomp)[j].names@) {
            let i = choose|i: int|
                0 <= i < rules_of(seccomp)[j].names@.len() && #[trigger] rules_of(
                    seccomp,
                )[j].names@[i]@ == write_name();
            assert(rules_of(seccomp)[j].names@[i]@ != write_name());
        }
    }
}

} // verus!
