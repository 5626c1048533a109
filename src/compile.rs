//! Compilation of a policy into the ordered steps that build, configure and
//! load the kernel filter.

use vstd::prelude::*;
use crate::error::SeccompError;
use crate::flags::{all_flags_known, first_unknown_flag, flag_of, parse_flags, FilterFlag};
use crate::native::{ArgCompare, NativeAction, NativeArch};
use crate::policy::{Arch, LinuxSeccomp, LinuxSeccompAction, LinuxSeccompArg, LinuxSyscall};
use crate::translate::{action_of, arch_of, op_of, param_of, translate_action, translate_arch, translate_op};
use crate::validate::{check_seccomp, is_notify, rules_of, uses_notify, violation_of};

verus! {

/// One call into the filter engine, in the order in which they are made.
#[derive(Clone, Debug, PartialEq, Eq)]
pub enum FilterStep {
    /// Create the filter with its default action.
    NewFilter(NativeAction),
    /// Turn a control flag on.
    SetFlag(FilterFlag),
    /// Register an architecture.
    AddArch(NativeArch),
    /// Keep the engine from setting the no-new-privileges bit on load.
    DisableNoNewPrivs,
    /// Add an unconditional rule on the named syscall, whose number is given.
    AddRule { action: NativeAction, syscall: i32, name: String },
    /// Add a rule on the named syscall under one condition.
    AddConditionalRule { action: NativeAction, syscall: i32, name: String, cond: ArgCompare },
    /// Load the filter into the kernel.
    Load,
    /// Fetch the descriptor on which notifications arrive.
    GetNotifyFd,
}

/// The number that the running kernel gives to name `i` of rule `j`, where
/// the resolution found one.
pub open spec fn resolved_at(resolved: Seq<Vec<Option<i32>>>, j: int, i: int) -> Option<i32> {
    if 0 <= j < resolved.len() && 0 <= i < resolved[j]@.len() {
        resolved[j]@[i]
    } else {
        None
    }
}

/// The engine's condition of a policy's argument condition.
pub open spec fn cond_of(arg: LinuxSeccompArg) -> ArgCompare {
    ArgCompare { arg: arg.index as u32, op: op_of(arg.op, arg.value_two), datum: arg.value }
}

pub open spec fn rule_action(rule: LinuxSyscall) -> Option<NativeAction> {
    action_of(rule.action, rule.errno_ret)
}

/// Whether a rule has at least one argument condition; an absent list and an
/// empty one both mean none.
pub open spec fn has_conditions(rule: LinuxSyscall) -> bool {
    match rule.args {
        Some(args) => args@.len() > 0,
        None => false,
    }
}

/// The steps for name `i` of rule `j` under `action`: none where the name did
/// not resolve, one per condition where there are conditions, else one.
pub open spec fn name_steps(
    rule: LinuxSyscall,
    action: NativeAction,
    resolved: Seq<Vec<Option<i32>>>,
    j: int,
    i: int,
) -> Seq<FilterStep> {
    match resolved_at(resolved, j, i) {
        None => Seq::empty(),
        Some(sc) => if has_conditions(rule) {
            rule.args->0@.map_values(
                |a: LinuxSeccompArg|
                    FilterStep::AddConditionalRule {
                        action,
                        syscall: sc,
                        name: rule.names@[i],
                        cond: cond_of(a),
                    },
            )
        } else {
            seq![FilterStep::AddRule { action, syscall: sc, name: rule.names@[i] }]
        },
    }
}

/// The steps for the first `n` names of rule `j`.
pub open spec fn names_steps(
    rule: LinuxSyscall,
    action: NativeAction,
    resolved: Seq<Vec<Option<i32>>>,
    j: int,
    n: int,
) -> Seq<FilterStep>
    decreases n,
{
    if n <= 0 {
        Seq::empty()
    } else {
        names_steps(rule, action, resolved, j, n - 1) + name_steps(rule, action, resolved, j, n - 1)
    }
}

/// The steps for rule `j`: none where its action is the default one.
pub open spec fn rule_steps(
    rule: LinuxSyscall,
    default: NativeAction,
    resolved: Seq<Vec<Option<i32>>>,
    j: int,
) -> Seq<FilterStep> {
    match rule_action(rule) {
        Some(a) => if a == default {
            Seq::empty()
        } else {
            names_steps(rule, a, resolved, j, rule.names@.len() as int)
        },
        None => Seq::empty(),
    }
}

/// The steps for the first `k` rules.
pub open spec fn rules_steps(
    rules: Seq<LinuxSyscall>,
    default: NativeAction,
    resolved: Seq<Vec<Option<i32>>>,
    k: int,
) -> Seq<FilterStep>
    decreases k,
{
    if k <= 0 {
        Seq::empty()
    } else {
        rules_steps(rules, default, resolved, k - 1) + rule_steps(
            rules[k - 1],
            default,
            resolved,
            k - 1,
        )
    }
}

pub open spec fn flags_of(seccomp: LinuxSeccomp) -> Seq<String> {
    match seccomp.flags {
        Some(v) => v@,
        None => Seq::empty(),
    }
}

pub open spec fn archs_of(seccomp: LinuxSeccomp) -> Seq<Arch> {
    match seccomp.architectures {
        Some(v) => v@,
        None => Seq::empty(),
    }
}

/// Whether every rule's action has an engine action.
pub open spec fn rule_actions_valid(seccomp: LinuxSeccomp) -> bool {
    forall|j: int| 0 <= j < rules_of(seccomp).len() ==> rule_action(#[trigger] rules_of(seccomp)[j]) is Some
}

/// The steps that build, configure, fill and load the filter of a policy
/// whose translation succeeds, given the resolved syscall numbers.
pub open spec fn steps_of(
    seccomp: LinuxSeccomp,
    default: NativeAction,
    resolved: Seq<Vec<Option<i32>>>,
) -> Seq<FilterStep> {
    seq![FilterStep::NewFilter(default)] + flags_of(seccomp).map_values(
        |t: String| FilterStep::SetFlag(flag_of(t@)->0),
    ) + archs_of(seccomp).map_values(|a: Arch| FilterStep::AddArch(arch_of(a))) + seq![
        FilterStep::DisableNoNewPrivs,
    ] + rules_steps(rules_of(seccomp), default, resolved, rules_of(seccomp).len() as int) + seq![
        FilterStep::Load,
    ] + if uses_notify(seccomp) {
        seq![FilterStep::GetNotifyFd]
    } else {
        Seq::empty()
    }
}

pub(crate) fn lookup(resolved: &Vec<Vec<Option<i32>>>, j: usize, i: usize) -> (r: Option<i32>)
    ensures
        r == resolved_at(resolved@, j as int, i as int),
{
    if j < resolved.len() && i < resolved[j].len() {
        resolved[j][i]
    } else {
        None
    }
}

fn push_conditional_rules(
    steps: &mut Vec<FilterStep>,
    action: NativeAction,
    syscall: i32,
    name: &String,
    args: &Vec<LinuxSeccompArg>,
)
    ensures
        final(steps)@ == old(steps)@ + args@.map_values(
            |a: LinuxSeccompArg|
                FilterStep::AddConditionalRule { action, syscall, name: *name, cond: cond_of(a) },
        ),
{
    let ghost start = steps@;
    let ghost all = args@.map_values(
        |a: LinuxSeccompArg|
            FilterStep::AddConditionalRule { action, syscall, name: *name, cond: cond_of(a) },
    );
    let mut k: usize = 0;
    while k < args.len()
        invariant
            k <= args@.len(),
            all.len() == args@.len(),
            all == args@.map_values(
                |a: LinuxSeccompArg|
                    FilterStep::AddConditionalRule { action, syscall, name: *name, cond: cond_of(a) },
            ),
            steps@ == start + all.take(k as int),
        decreases args@.len() - k,
    {
        let arg = args[k];
        let cond = ArgCompare {
            arg: arg.index as u32,
            op: translate_op(arg.op, arg.value_two),
            datum: arg.value,
        };
        steps.push(FilterStep::AddConditionalRule { action, syscall, name: name.clone(), cond });
        proof {
            assert(all.take(k + 1) == all.take(k as int).push(all[k as int]));
        }
        k = k + 1;
    }
    proof {
        assert(all.take(args@.len() as int) == all);
    }
}

fn push_rule(
    steps: &mut Vec<FilterStep>,
    rule: &LinuxSyscall,
    action: NativeAction,
    resolved: &Vec<Vec<Option<i32>>>,
    j: usize,
)
    ensures
        final(steps)@ == old(steps)@ + names_steps(
            *rule,
            action,
            resolved@,
            j as int,
            rule.names@.len() as int,
        ),
{
    let ghost start = steps@;
    let mut i: usize = 0;
    while i < rule.names.len()
        invariant
            i <= rule.names@.len(),
            steps@ == start + names_steps(*rule, action, resolved@, j as int, i as int),
        decreases rule.names@.len() - i,
    {
        let ghost before = steps@;
        match lookup(resolved, j, i) {
            None => {},
            Some(sc) => {
                let conditional = match &rule.args {
                    Some(args) => args.len() > 0,
                    None => false,
                };
                if conditional {
                    if let Some(args) = &rule.args {
                        push_conditional_rules(steps, action, sc, &rule.names[i], args);
                    }
                } else {
                    steps.push(
                        FilterStep::AddRule { action, syscall: sc, name: rule.names[i].clone() },
                    );
                    assert(steps@ == before + name_steps(
                        *rule,
                        action,
                        resolved@,
                        j as int,
                        i as int,
                    ));
                }
            },
        }
        assert(steps@ == before + name_steps(*rule, action, resolved@, j as int, i as int));
        assert(steps@ == start + names_steps(*rule, action, resolved@, j as int, i + 1));
        i = i + 1;
    }
}

/// The rule steps of a list of rules, or the error of the first rule whose
/// action has no engine action.
pub fn compile_rules(
    rules: &Vec<LinuxSyscall>,
    default: NativeAction,
    resolved: &Vec<Vec<Option<i32>>>,
) -> (r: Result<Vec<FilterStep>, SeccompError>)
    ensures
        r is Ok <==> forall|j: int| 0 <= j < rules@.len() ==> rule_action(#[trigger] rules@[j]) is Some,
        r matches Ok(v) ==> v@ == rules_steps(rules@, default, resolved@, rules@.len() as int),
        r matches Err(e) ==> e == SeccompError::InvalidTraceValue,
{
    let mut steps: Vec<FilterStep> = Vec::new();
    let mut j: usize = 0;
    while j < rules.len()
        invariant
            j <= rules@.len(),
            steps@ == rules_steps(rules@, default, resolved@, j as int),
            forall|k: int| 0 <= k < j ==> rule_action(#[trigger] rules@[k]) is Some,
        decreases rules@.len() - j,
    {
        let rule = &rules[j];
        match translate_action(rule.action, rule.errno_ret) {
            Err(e) => {
                return Err(e);
            },
            Ok(action) => {
                if action != default {
                    push_rule(&mut steps, rule, action, resolved, j);
                }
            },
        }
        assert(steps@ == rules_steps(rules@, default, resolved@, j + 1));
        j = j + 1;
    }
    Ok(steps)
}

/// Compiles a policy into the engine calls that build, configure, fill and
/// load its filter, and fetch the notification descriptor where a rule
/// notifies. `resolved[j][i]` is the number of name `i` of rule `j` on the
/// running kernel, `None` (or missing) where it has none: such a name is
/// skipped. Every error comes before any step is taken.
pub fn compile_seccomp(seccomp: &LinuxSeccomp, resolved: &Vec<Vec<Option<i32>>>) -> (r: Result<
    Vec<FilterStep>,
    SeccompError,
>)
    ensures
        violation_of(*seccomp) matches Some(e) ==> r == Err::<Vec<FilterStep>, SeccompError>(e),
        violation_of(*seccomp) is None && action_of(
            seccomp.default_action,
            seccomp.default_errno_ret,
        ) is None ==> r == Err::<Vec<FilterStep>, SeccompError>(SeccompError::InvalidTraceValue),
        violation_of(*seccomp) is None && action_of(
            seccomp.default_action,
            seccomp.default_errno_ret,
        ) is Some && !all_flags_known(flags_of(*seccomp)) ==> (r matches Err(e) && exists|i: int|
            first_unknown_flag(flags_of(*seccomp), i) && e == SeccompError::UnsupportedFlag(
                #[trigger] flags_of(*seccomp)[i],
            )),
        violation_of(*seccomp) is None && action_of(
            seccomp.default_action,
            seccomp.default_errno_ret,
        ) is Some && all_flags_known(flags_of(*seccomp)) && !rule_actions_valid(*seccomp) ==> r
            == Err::<Vec<FilterStep>, SeccompError>(SeccompError::InvalidTraceValue),
        violation_of(*seccomp) is None && action_of(
            seccomp.default_action,
            seccomp.default_errno_ret,
        ) is Some && all_flags_known(flags_of(*seccomp)) && rule_actions_valid(*seccomp) ==> (r
            matches Ok(v) && v@ == steps_of(
            *seccomp,
            action_of(seccomp.default_action, seccomp.default_errno_ret)->0,
            resolved@,
        )),
{
    check_seccomp(seccomp)?;
    let default = translate_action(seccomp.default_action, seccomp.default_errno_ret)?;
    let ghost d = default;
    let mut steps: Vec<FilterStep> = Vec::new();
    steps.push(FilterStep::NewFilter(default));

    let ghost tokens = flags_of(*seccomp);
    let ghost flag_steps = tokens.map_values(|t: String| FilterStep::SetFlag(flag_of(t@)->0));
    if let Some(flags) = &seccomp.flags {
        let parsed = parse_flags(flags)?;
        let mut i: usize = 0;
        while i < parsed.len()
            invariant
                i <= parsed@.len(),
                parsed@.len() == tokens.len(),
                tokens == flags@,
                forall|k: int| 0 <= k < tokens.len() ==> flag_of((#[trigger] tokens[k])@) == Some(parsed@[k]),
                flag_steps == tokens.map_values(|t: String| FilterStep::SetFlag(flag_of(t@)->0)),
                steps@ == seq![FilterStep::NewFilter(d)] + flag_steps.take(i as int),
            decreases parsed@.len() - i,
        {
            steps.push(FilterStep::SetFlag(parsed[i]));
            proof {
                assert(flag_steps.take(i + 1) == flag_steps.take(i as int).push(flag_steps[i as int]));
            }
            i = i + 1;
        }
        proof {
            assert(flag_steps.take(tokens.len() as int) == flag_steps);
        }
    } else {
        assert(flag_steps =~= Seq::empty());
    }
    assert(steps@ == seq![FilterStep::NewFilter(d)] + flag_steps);

    let ghost prefix = steps@;
    let ghost archs = archs_of(*seccomp);
    let ghost arch_steps = archs.map_values(|a: Arch| FilterStep::AddArch(arch_of(a)));
    if let Some(architectures) = &seccomp.architectures {
        let mut i: usize = 0;
        while i < architectures.len()
            invariant
                i <= architectures@.len(),
                archs == architectures@,
                arch_steps == archs.map_values(|a: Arch| FilterStep::AddArch(arch_of(a))),
                steps@ == prefix + arch_steps.take(i as int),
            decreases architectures@.len() - i,
        {
            steps.push(FilterStep::AddArch(translate_arch(architectures[i])));
            proof {
                assert(arch_steps.take(i + 1) == arch_steps.take(i as int).push(arch_steps[i as int]));
            }
            i = i + 1;
        }
        proof {
            assert(arch_steps.take(archs.len() as int) == arch_steps);
        }
    } else {
        assert(arch_steps =~= Seq::empty());
    }
    steps.push(FilterStep::DisableNoNewPrivs);

    let ghost rules = rules_of(*seccomp);
    let rule_steps = match &seccomp.syscalls {
        Some(syscalls) => compile_rules(syscalls, default, resolved)?,
        None => Vec::new(),
    };
    assert(rule_steps@ == rules_steps(rules, d, resolved@, rules.len() as int));
    let mut rule_steps = rule_steps;
    steps.append(&mut rule_steps);
    steps.push(FilterStep::Load);
    if is_notify(seccomp) {
        steps.push(FilterStep::GetNotifyFd);
    }
    assert(steps@ =~= steps_of(*seccomp, d, resolved@));
    Ok(steps)
}

/// The error of a policy whose step `step` the engine refused.
pub open spec fn failure_of(step: FilterStep) -> SeccompError {
    match step {
        FilterStep::NewFilter(_) => SeccompError::FilterCreation,
        FilterStep::SetFlag(_) => SeccompError::ControlConfiguration,
        FilterStep::AddArch(_) => SeccompError::ArchRegistration,
        FilterStep::DisableNoNewPrivs => SeccompError::ControlConfiguration,
        FilterStep::AddRule { action, name, .. } => SeccompError::RuleCompilation {
            action,
            name,
            cond: None,
        },
        FilterStep::AddConditionalRule { action, name, cond, .. } => SeccompError::RuleCompilation {
            action,
            name,
            cond: Some(cond),
        },
        FilterStep::Load => SeccompError::Activation,
        FilterStep::GetNotifyFd => SeccompError::NotificationHandle,
    }
}

/// The error to report where the engine refused `step`.
pub fn step_failure(step: &FilterStep) -> (r: SeccompError)
    ensures
        r == failure_of(*step),
{
    match step {
        FilterStep::NewFilter(_) => SeccompError::FilterCreation,
        FilterStep::SetFlag(_) => SeccompError::ControlConfiguration,
        FilterStep::AddArch(_) => SeccompError::ArchRegistration,
        FilterStep::DisableNoNewPrivs => SeccompError::ControlConfiguration,
        FilterStep::AddRule { action, name, .. } => SeccompError::RuleCompilation {
            action: *action,
            name: name.clone(),
            cond: None,
        },
        FilterStep::AddConditionalRule { action, name, cond, .. } => SeccompError::RuleCompilation {
            action: *action,
            name: name.clone(),
            cond: Some(*cond),
        },
        FilterStep::Load => SeccompError::Activation,
        FilterStep::GetNotifyFd => SeccompError::NotificationHandle,
    }
}

pub open spec fn is_rule_step(step: FilterStep) -> bool {
    step is AddRule || step is AddConditionalRule
}

proof fn lemma_names_steps_add_rules(
    rule: LinuxSyscall,
    action: NativeAction,
    resolved: Seq<Vec<Option<i32>>>,
    j: int,
    n: int,
)
    ensures
        forall|x: int|
            0 <= x < names_steps(rule, action, resolved, j, n).len() ==> is_rule_step(
                #[trigger] names_steps(rule, action, resolved, j, n)[x],
            ),
    decreases n,
{
    if n > 0 {
        lemma_names_steps_add_rules(rule, action, resolved, j, n - 1);
        let prev = names_steps(rule, action, resolved, j, n - 1);
        let last = name_steps(rule, action, resolved, j, n - 1);
        assert forall|x: int| 0 <= x < last.len() implies is_rule_step(#[trigger] last[x]) by {}
        assert forall|x: int|
            0 <= x < names_steps(rule, action, resolved, j, n).len() implies is_rule_step(
            #[trigger] names_steps(rule, action, resolved, j, n)[x],
        ) by {
            if x >= prev.len() {
                assert(names_steps(rule, action, resolved, j, n)[x] == last[x - prev.len()]);
            } else {
                assert(names_steps(rule, action, resolved, j, n)[x] == prev[x]);
            }
        }
    }
}

proof fn lemma_rules_steps_add_rules(
    rules: Seq<LinuxSyscall>,
    default: NativeAction,
    resolved: Seq<Vec<Option<i32>>>,
    k: int,
)
    ensures
        forall|x: int|
            0 <= x < rules_steps(rules, default, resolved, k).len() ==> is_rule_step(
                #[trigger] rules_steps(rules, default, resolved, k)[x],
            ),
    decreases k,
{
    if k > 0 {
        lemma_rules_steps_add_rules(rules, default, resolved, k - 1);
        let rule = rules[k - 1];
        if let Some(a) = rule_action(rule) {
            lemma_names_steps_add_rules(rule, a, resolved, k - 1, rule.names@.len() as int);
        }
        let prev = rules_steps(rules, default, resolved, k - 1);
        let last = rule_steps(rule, default, resolved, k - 1);
        assert forall|x: int|
            0 <= x < rules_steps(rules, default, resolved, k).len() implies is_rule_step(
            #[trigger] rules_steps(rules, default, resolved, k)[x],
        ) by {
            if x >= prev.len() {
                assert(rules_steps(rules, default, resolved, k)[x] == last[x - prev.len()]);
            } else {
                assert(rules_steps(rules, default, resolved, k)[x] == prev[x]);
            }
        }
    }
}

/// The compiled policy asks for the notification descriptor exactly when one
/// of its rules notifies, and then as its last step, after the load.
pub proof fn lemma_notify_descriptor_iff_notify_rule(
    seccomp: LinuxSeccomp,
    default: NativeAction,
    resolved: Seq<Vec<Option<i32>>>,
)
    ensures
        steps_of(seccomp, default, resolved).contains(FilterStep::GetNotifyFd) <==> uses_notify(
            seccomp,
        ),
        uses_notify(seccomp) ==> steps_of(seccomp, default, resolved).last()
            == FilterStep::GetNotifyFd && steps_of(seccomp, default, resolved)[steps_of(
            seccomp,
            default,
            resolved,
        ).len() - 2] == FilterStep::Load,
{
    let steps = steps_of(seccomp, default, resolved);
    let rs = rules_steps(rules_of(seccomp), default, resolved, rules_of(seccomp).len() as int);
    lemma_rules_steps_add_rules(rules_of(seccomp), default, resolved, rules_of(seccomp).len() as int);
    if uses_notify(seccomp) {
        assert(steps[steps.len() - 1] == FilterStep::GetNotifyFd);
    } else {
        let flag_steps = flags_of(seccomp).map_values(
            |t: String| FilterStep::SetFlag(flag_of(t@)->0),
        );
        let arch_steps = archs_of(seccomp).map_values(|a: Arch| FilterStep::AddArch(arch_of(a)));
        let body = seq![FilterStep::NewFilter(default)] + flag_steps + arch_steps + seq![
            FilterStep::DisableNoNewPrivs,
        ] + rs + seq![FilterStep::Load];
        assert(steps =~= body);
        assert forall|x: int| 0 <= x < steps.len() implies steps[x] != FilterStep::GetNotifyFd by {
            let a = 1 + flag_steps.len();
            let b = a + arch_steps.len() + 1;
            if x >= b && x < b + rs.len() {
                assert(rs[x - b] == steps[x]);
                assert(is_rule_step(rs[x - b]));
            }
        }
    }
}

/// A rule whose action is the default action adds no step.
pub proof fn lemma_redundant_rule_elided(
    rules: Seq<LinuxSyscall>,
    default: NativeAction,
    resolved: Seq<Vec<Option<i32>>>,
    k: int,
)
    requires
        0 <= k < rules.len(),
        rule_action(rules[k]) == Some(default),
    ensures
        rules_steps(rules, default, resolved, k + 1) == rules_steps(rules, default, resolved, k),
{
    assert(rules_steps(rules, default, resolved, k + 1) =~= rules_steps(rules, default, resolved, k));
}

/// A name that the kernel does not know adds no step, while a known name
/// without conditions adds its rule, whatever its siblings are.
pub proof fn lemma_unresolved_name_skipped(
    rule: LinuxSyscall,
    action: NativeAction,
    resolved: Seq<Vec<Option<i32>>>,
    j: int,
    i: int,
)
    requires
        0 <= i < rule.names@.len(),
    ensures
        resolved_at(resolved, j, i) is None ==> names_steps(rule, action, resolved, j, i + 1)
            == names_steps(rule, action, resolved, j, i),
        resolved_at(resolved, j, i) is Some && !has_conditions(rule) ==> names_steps(
            rule,
            action,
            resolved,
            j,
            i + 1,
        ) == names_steps(rule, action, resolved, j, i).push(
            FilterStep::AddRule {
                action,
                syscall: resolved_at(resolved, j, i)->0,
                name: rule.names@[i],
            },
        ),
{
    assert(names_steps(rule, action, resolved, j, i + 1) == names_steps(rule, action, resolved, j, i)
        + name_steps(rule, action, resolved, j, i));
    if resolved_at(resolved, j, i) is None {
        assert(names_steps(rule, action, resolved, j, i + 1) =~= names_steps(
            rule,
            action,
            resolved,
            j,
            i,
        ));
    } else if !has_conditions(rule) {
        assert(names_steps(rule, action, resolved, j, i + 1) =~= names_steps(
            rule,
            action,
            resolved,
            j,
            i,
        ).push(FilterStep::AddRule { action, syscall: resolved_at(resolved, j, i)->0, name: rule.names@[i] }));
    }
}

proof fn lemma_names_steps_same_row(
    rule: LinuxSyscall,
    action: NativeAction,
    res1: Seq<Vec<Option<i32>>>,
    j1: int,
    res2: Seq<Vec<Option<i32>>>,
    j2: int,
    n: int,
)
    requires
        forall|i: int| 0 <= i < n ==> #[trigger] resolved_at(res1, j1, i) == resolved_at(res2, j2, i),
    ensures
        names_steps(rule, action, res1, j1, n) == names_steps(rule, action, res2, j2, n),
    decreases n,
{
    if n > 0 {
        lemma_names_steps_same_row(rule, action, res1, j1, res2, j2, n - 1);
        assert(resolved_at(res1, j1, n - 1) == resolved_at(res2, j2, n - 1));
    }
}

proof fn lemma_rule_steps_same_row(
    rule: LinuxSyscall,
    default: NativeAction,
    res1: Seq<Vec<Option<i32>>>,
    j1: int,
    res2: Seq<Vec<Option<i32>>>,
    j2: int,
)
    requires
        forall|i: int| #[trigger] resolved_at(res1, j1, i) == resolved_at(res2, j2, i),
    ensures
        rule_steps(rule, default, res1, j1) == rule_steps(rule, default, res2, j2),
{
    if let Some(a) = rule_action(rule) {
        lemma_names_steps_same_row(rule, a, res1, j1, res2, j2, rule.names@.len() as int);
    }
}

proof fn lemma_rules_steps_without(
    rules: Seq<LinuxSyscall>,
    default: NativeAction,
    resolved: Seq<Vec<Option<i32>>>,
    k: int,
    n: int,
)
    requires
        0 <= k < rules.len(),
        resolved.len() == rules.len(),
        rule_action(rules[k]) == Some(default),
        0 <= n <= rules.len(),
    ensures
        n <= k ==> rules_steps(rules, default, resolved, n) == rules_steps(
            rules.remove(k),
            default,
            resolved.remove(k),
            n,
        ),
        n > k ==> rules_steps(rules, default, resolved, n) == rules_steps(
            rules.remove(k),
            default,
            resolved.remove(k),
            n - 1,
        ),
    decreases n,
{
    let rem = rules.remove(k);
    let res_rem = resolved.remove(k);
    if n > 0 {
        lemma_rules_steps_without(rules, default, resolved, k, n - 1);
        if n - 1 < k {
            assert(rem[n - 1] == rules[n - 1]);
            assert forall|i: int| #[trigger] resolved_at(resolved, n - 1, i) == resolved_at(
                res_rem,
                n - 1,
                i,
            ) by {
                assert(res_rem[n - 1] == resolved[n - 1]);
            }
            lemma_rule_steps_same_row(rules[n - 1], default, resolved, n - 1, res_rem, n - 1);
        } else if n - 1 == k {
            assert(rules_steps(rules, default, resolved, n) =~= rules_steps(
                rules,
                default,
                resolved,
                n - 1,
            ));
        } else {
            assert(rem[n - 2] == rules[n - 1]);
            assert forall|i: int| #[trigger] resolved_at(resolved, n - 1, i) == resolved_at(
                res_rem,
                n - 2,
                i,
            ) by {
                assert(res_rem[n - 2] == resolved[n - 1]);
            }
            lemma_rule_steps_same_row(rules[n - 1], default, resolved, n - 1, res_rem, n - 2);
        }
    }
}

/// Taking out of a policy a rule whose action is the default action, with
/// its row of resolved numbers, leaves the engine calls exactly as they were.
pub proof fn lemma_redundant_rule_removable(
    seccomp: LinuxSeccomp,
    without: LinuxSeccomp,
    default: NativeAction,
    resolved: Seq<Vec<Option<i32>>>,
    k: int,
)
    requires
        seccomp.default_action != LinuxSeccompAction::ScmpActNotify,
        action_of(seccomp.default_action, seccomp.default_errno_ret) == Some(default),
        resolved.len() == rules_of(seccomp).len(),
        0 <= k < rules_of(seccomp).len(),
        rule_action(rules_of(seccomp)[k]) == Some(default),
        rules_of(without) == rules_of(seccomp).remove(k),
        without.default_action == seccomp.default_action,
        without.default_errno_ret == seccomp.default_errno_ret,
        without.architectures == seccomp.architectures,
        without.flags == seccomp.flags,
    ensures
        steps_of(seccomp, default, resolved) == steps_of(without, default, resolved.remove(k)),
{
    let rules = rules_of(seccomp);
    lemma_rules_steps_without(rules, default, resolved, k, rules.len() as int);
    assert(rules[k].action != LinuxSeccompAction::ScmpActNotify);
    if uses_notify(seccomp) {
        let j = choose|j: int|
            0 <= j < rules.len() && (#[trigger] rules[j]).action
                == LinuxSeccompAction::ScmpActNotify;
        if j < k {
            assert(rules_of(without)[j] == rules[j]);
        } else {
            assert(rules_of(without)[j - 1] == rules[j]);
        }
    }
    if uses_notify(without) {
        let j = choose|j: int|
            0 <= j < rules_of(without).len() && (#[trigger] rules_of(without)[j]).action
                == LinuxSeccompAction::ScmpActNotify;
        if j < k {
            assert(rules[j] == rules_of(without)[j]);
        } else {
            assert(rules[j + 1] == rules_of(without)[j]);
        }
    }
}

proof fn lemma_names_steps_grow(
    rule: LinuxSyscall,
    action: NativeAction,
    resolved: Seq<Vec<Option<i32>>>,
    j: int,
    m: int,
    n: int,
    step: FilterStep,
)
    requires
        0 <= m <= n,
        names_steps(rule, action, resolved, j, m).contains(step),
    ensures
        names_steps(rule, action, resolved, j, n).contains(step),
    decreases n,
{
    if n > m {
        lemma_names_steps_grow(rule, action, resolved, j, m, n - 1, step);
        let prev = names_steps(rule, action, resolved, j, n - 1);
        let x = choose|x: int| 0 <= x < prev.len() && #[trigger] prev[x] == step;
        assert(names_steps(rule, action, resolved, j, n)[x] == step);
    }
}

proof fn lemma_rules_steps_grow(
    rules: Seq<LinuxSyscall>,
    default: NativeAction,
    resolved: Seq<Vec<Option<i32>>>,
    m: int,
    n: int,
    step: FilterStep,
)
    requires
        0 <= m <= n,
        rules_steps(rules, default, resolved, m).contains(step),
    ensures
        rules_steps(rules, default, resolved, n).contains(step),
    decreases n,
{
    if n > m {
        lemma_rules_steps_grow(rules, default, resolved, m, n - 1, step);
        let prev = rules_steps(rules, default, resolved, n - 1);
        let x = choose|x: int| 0 <= x < prev.len() && #[trigger] prev[x] == step;
        assert(rules_steps(rules, default, resolved, n)[x] == step);
    }
}

/// In a policy, a name that resolves, in a rule without conditions whose
/// action is not the default, gets its rule whatever its sibling names are,
/// while a name that does not resolve adds nothing to its rule's steps.
pub proof fn lemma_resolved_name_compiled(
    seccomp: LinuxSeccomp,
    default: NativeAction,
    resolved: Seq<Vec<Option<i32>>>,
    j: int,
    i: int,
    action: NativeAction,
)
    requires
        0 <= j < rules_of(seccomp).len(),
        0 <= i < rules_of(seccomp)[j].names@.len(),
        rule_action(rules_of(seccomp)[j]) == Some(action),
        action != default,
    ensures
        resolved_at(resolved, j, i) is None ==> name_steps(
            rules_of(seccomp)[j],
            action,
            resolved,
            j,
            i,
        ) == Seq::<FilterStep>::empty(),
        resolved_at(resolved, j, i) is Some && !has_conditions(rules_of(seccomp)[j]) ==> steps_of(
            seccomp,
            default,
            resolved,
        ).contains(
            FilterStep::AddRule {
                action,
                syscall: resolved_at(resolved, j, i)->0,
                name: rules_of(seccomp)[j].names@[i],
            },
        ),
{
    let rules = rules_of(seccomp);
    let rule = rules[j];
    if resolved_at(resolved, j, i) is Some && !has_conditions(rule) {
        let step = FilterStep::AddRule {
            action,
            syscall: resolved_at(resolved, j, i)->0,
            name: rule.names@[i],
        };
        let upto = names_steps(rule, action, resolved, j, i + 1);
        assert(upto == names_steps(rule, action, resolved, j, i) + name_steps(
            rule,
            action,
            resolved,
            j,
            i,
        ));
        assert(upto[upto.len() - 1] == step);
        lemma_names_steps_grow(rule, action, resolved, j, i + 1, rule.names@.len() as int, step);
        let rs = rules_steps(rules, default, resolved, j + 1);
        let own = rule_steps(rule, default, resolved, j);
        let x = choose|x: int| 0 <= x < own.len() && #[trigger] own[x] == step;
        assert(rs[rules_steps(rules, default, resolved, j).len() + x] == step);
        lemma_rules_steps_grow(rules, default, resolved, j + 1, rules.len() as int, step);
        let all = rules_steps(rules, default, resolved, rules.len() as int);
        let y = choose|y: int| 0 <= y < all.len() && #[trigger] all[y] == step;
        let flag_steps = flags_of(seccomp).map_values(
            |t: String| FilterStep::SetFlag(flag_of(t@)->0),
        );
        let arch_steps = archs_of(seccomp).map_values(|a: Arch| FilterStep::AddArch(arch_of(a)));
        let before = seq![FilterStep::NewFilter(default)] + flag_steps + arch_steps + seq![
            FilterStep::DisableNoNewPrivs,
        ];
        assert(steps_of(seccomp, default, resolved)[before.len() + y] == step);
    }
}

/// Under a default of allow, a policy whose one rule fails one syscall with
/// error number `e` compiles to exactly one rule, which fails that syscall
/// with `e`, between the configuration and the load; no descriptor is asked
/// for.
pub proof fn lemma_single_errno_rule(
    seccomp: LinuxSeccomp,
    resolved: Seq<Vec<Option<i32>>>,
    e: u32,
)
    requires
        seccomp.default_action == LinuxSeccompAction::ScmpActAllow,
        rules_of(seccomp).len() == 1,
        rules_of(seccomp)[0].names@.len() == 1,
        rules_of(seccomp)[0].action == LinuxSeccompAction::ScmpActErrno,
        rules_of(seccomp)[0].errno_ret == Some(e),
        !has_conditions(rules_of(seccomp)[0]),
        resolved_at(resolved, 0, 0) is Some,
    ensures
        action_of(seccomp.default_action, seccomp.default_errno_ret) == Some(NativeAction::Allow),
        rules_steps(rules_of(seccomp), NativeAction::Allow, resolved, 1) == seq![
            FilterStep::AddRule {
                action: NativeAction::Errno(param_of(Some(e))),
                syscall: resolved_at(resolved, 0, 0)->0,
                name: rules_of(seccomp)[0].names@[0],
            },
        ],
        !uses_notify(seccomp),
        steps_of(seccomp, NativeAction::Allow, resolved).last() == FilterStep::Load,
{
    let rule = rules_of(seccomp)[0];
    let a = NativeAction::Errno(param_of(Some(e)));
    assert(names_steps(rule, a, resolved, 0, 0) =~= Seq::<FilterStep>::empty());
    assert(rules_steps(rules_of(seccomp), NativeAction::Allow, resolved, 0) =~= Seq::<
        FilterStep,
    >::empty());
    assert(names_steps(rule, NativeAction::Errno(param_of(Some(e))), resolved, 0, 1) =~= seq![
        FilterStep::AddRule {
            action: NativeAction::Errno(param_of(Some(e))),
            syscall: resolved_at(resolved, 0, 0)->0,
            name: rule.names@[0],
        },
    ]);
    assert(rules_steps(rules_of(seccomp), NativeAction::Allow, resolved, 1) =~= rule_steps(
        rule,
        NativeAction::Allow,
        resolved,
        0,
    ));
}

} // verus!
