//! The parts of a policy that compilation leaves out without failing: rules
//! whose action is the default action, and names that the running kernel
//! does not know.

use vstd::prelude::*;
use crate::compile::{lookup, resolved_at, rule_action};
use crate::native::NativeAction;
use crate::policy::{LinuxSeccomp, LinuxSyscall};
use crate::translate::{action_of, translate_action};
use crate::validate::rules_of;

verus! {

/// Something that compilation leaves out, for the caller to report.
#[derive(Clone, Debug, PartialEq, Eq)]
pub enum Skipped {
    /// The rule at this index has the default action and adds nothing.
    RedundantRule(usize),
    /// A name of a rule that the kernel does not know.
    UnresolvedName { rule: usize, name: String },
}

/// The unresolved names among the first `n` names of rule `j`.
pub open spec fn names_skipped(
    rule: LinuxSyscall,
    resolved: Seq<Vec<Option<i32>>>,
    j: int,
    n: int,
) -> Seq<Skipped>
    decreases n,
{
    if n <= 0 {
        Seq::empty()
    } else {
        names_skipped(rule, resolved, j, n - 1) + if resolved_at(resolved, j, n - 1) is None {
            seq![Skipped::UnresolvedName { rule: j as usize, name: rule.names@[n - 1] }]
        } else {
            Seq::empty()
        }
    }
}

/// What rule `j` leaves out: all of itself where its action is the default.
pub open spec fn rule_skipped(
    rule: LinuxSyscall,
    default: NativeAction,
    resolved: Seq<Vec<Option<i32>>>,
    j: int,
) -> Seq<Skipped> {
    match rule_action(rule) {
        Some(a) => if a == default {
            seq![Skipped::RedundantRule(j as usize)]
        } else {
            names_skipped(rule, resolved, j, rule.names@.len() as int)
        },
        None => Seq::empty(),
    }
}

/// What the first `k` rules leave out, in order.
pub open spec fn rules_skipped(
    rules: Seq<LinuxSyscall>,
    default: NativeAction,
    resolved: Seq<Vec<Option<i32>>>,
    k: int,
) -> Seq<Skipped>
    decreases k,
{
    if k <= 0 {
        Seq::empty()
    } else {
        rules_skipped(rules, default, resolved, k - 1) + rule_skipped(
            rules[k - 1],
            default,
            resolved,
            k - 1,
        )
    }
}

/// Lists, in order, the rules and names that compiling the policy with these
/// resolved numbers leaves out; nothing where the default action does not
/// translate.
pub fn skipped_items(seccomp: &LinuxSeccomp, resolved: &Vec<Vec<Option<i32>>>) -> (r: Vec<Skipped>)
    ensures
        match action_of(seccomp.default_action, seccomp.default_errno_ret) {
            Some(d) => r@ == rules_skipped(
                rules_of(*seccomp),
                d,
                resolved@,
                rules_of(*seccomp).len() as int,
            ),
            None => r@ == Seq::<Skipped>::empty(),
        },
{
    let mut out: Vec<Skipped> = Vec::new();
    let default = match translate_action(seccomp.default_action, seccomp.default_errno_ret) {
        Ok(d) => d,
        Err(_) => return out,
    };
    if let Some(rules) = &seccomp.syscalls {
        let mut j: usize = 0;
        while j < rules.len()
            invariant
                j <= rules@.len(),
                rules_of(*seccomp) == rules@,
                action_of(seccomp.default_action, seccomp.default_errno_ret) == Some(default),
                out@ == rules_skipped(rules@, default, resolved@, j as int),
            decreases rules@.len() - j,
        {
            let rule = &rules[j];
            let ghost before = out@;
            if let Ok(action) = translate_action(rule.action, rule.errno_ret) {
                if action == default {
                    out.push(Skipped::RedundantRule(j));
                } else {
                    let mut i: usize = 0;
                    while i < rule.names.len()
                        invariant
                            i <= rule.names@.len(),
                            out@ == before + names_skipped(*rule, resolved@, j as int, i as int),
                        decreases rule.names@.len() - i,
                    {
                        if lookup(resolved, j, i).is_none() {
                            out.push(Skipped::UnresolvedName { rule: j, name: rule.names[i].clone() });
                        }
                        assert(out@ == before + names_skipped(*rule, resolved@, j as int, i + 1));
                        i = i + 1;
                    }
                }
            }
            assert(out@ == rules_skipped(rules@, default, resolved@, j + 1));
            j = j + 1;
        }
    }
    out
}

} // verus!
