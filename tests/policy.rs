use seccomp_policy::compile::{compile_seccomp, step_failure, FilterStep};
use seccomp_policy::error::SeccompError;
use seccomp_policy::flags::{parse_flag, parse_flags, FilterFlag};
use seccomp_policy::native::{ArgCompare, NativeAction, NativeArch, NativeCompare};
use seccomp_policy::policy::{
    Arch, LinuxSeccomp, LinuxSeccompAction, LinuxSeccompArg, LinuxSeccompOperator, LinuxSyscall,
};
use seccomp_policy::skipped::{skipped_items, Skipped};
use seccomp_policy::validate::{check_seccomp, is_notify};

fn rule(names: &[&str], action: LinuxSeccompAction, errno_ret: Option<u32>) -> LinuxSyscall {
    LinuxSyscall {
        names: names.iter().map(|n| n.to_string()).collect(),
        action,
        errno_ret,
        args: None,
    }
}

fn policy(default_action: LinuxSeccompAction, syscalls: Vec<LinuxSyscall>) -> LinuxSeccomp {
    LinuxSeccomp {
        default_action,
        default_errno_ret: None,
        architectures: Some(vec![Arch::ScmpArchNative]),
        flags: None,
        syscalls: Some(syscalls),
    }
}

#[test]
fn notify_default_action_is_refused() {
    let p = policy(LinuxSeccompAction::ScmpActNotify, vec![]);
    assert_eq!(check_seccomp(&p), Err(SeccompError::NotifyAsDefaultAction));
    let q = policy(
        LinuxSeccompAction::ScmpActNotify,
        vec![rule(&["getcwd"], LinuxSeccompAction::ScmpActAllow, None)],
    );
    assert_eq!(check_seccomp(&q), Err(SeccompError::NotifyAsDefaultAction));
    assert_eq!(compile_seccomp(&q, &vec![vec![Some(79)]]), Err(SeccompError::NotifyAsDefaultAction));
}

#[test]
fn notify_on_write_is_refused() {
    let p = policy(
        LinuxSeccompAction::ScmpActAllow,
        vec![
            rule(&["getcwd"], LinuxSeccompAction::ScmpActErrno, None),
            rule(&["read", "write", "close"], LinuxSeccompAction::ScmpActNotify, None),
        ],
    );
    assert_eq!(check_seccomp(&p), Err(SeccompError::NotifyOnWrite));
    assert_eq!(compile_seccomp(&p, &vec![]), Err(SeccompError::NotifyOnWrite));
}

#[test]
fn write_under_other_actions_is_accepted() {
    let p = policy(
        LinuxSeccompAction::ScmpActAllow,
        vec![rule(&["write"], LinuxSeccompAction::ScmpActErrno, None)],
    );
    assert_eq!(check_seccomp(&p), Ok(()));
}

#[test]
fn notify_without_write_is_accepted() {
    let p = policy(
        LinuxSeccompAction::ScmpActAllow,
        vec![rule(&["read", "writev", "close"], LinuxSeccompAction::ScmpActNotify, None)],
    );
    assert_eq!(check_seccomp(&p), Ok(()));
    assert!(is_notify(&p));
}

#[test]
fn is_notify_looks_at_every_rule() {
    let none = LinuxSeccomp {
        default_action: LinuxSeccompAction::ScmpActAllow,
        default_errno_ret: None,
        architectures: None,
        flags: None,
        syscalls: None,
    };
    assert!(!is_notify(&none));
    let p = policy(
        LinuxSeccompAction::ScmpActAllow,
        vec![
            rule(&["getcwd"], LinuxSeccompAction::ScmpActErrno, None),
            rule(&["mkdir"], LinuxSeccompAction::ScmpActNotify, None),
        ],
    );
    assert!(is_notify(&p));
    let q = policy(
        LinuxSeccompAction::ScmpActAllow,
        vec![rule(&["getcwd"], LinuxSeccompAction::ScmpActErrno, None)],
    );
    assert!(!is_notify(&q));
}

#[test]
fn flags_parse() {
    assert_eq!(parse_flag(&"SECCOMP_FILTER_FLAG_LOG".to_string()), Some(FilterFlag::Log));
    assert_eq!(parse_flag(&"SECCOMP_FILTER_FLAG_TSYNC".to_string()), Some(FilterFlag::Tsync));
    assert_eq!(
        parse_flag(&"SECCOMP_FILTER_FLAG_SPEC_ALLOW".to_string()),
        Some(FilterFlag::SpecAllow)
    );
    assert_eq!(parse_flag(&"SECCOMP_FILTER_FLAG_log".to_string()), None);
    assert_eq!(
        parse_flags(&vec!["SECCOMP_FILTER_FLAG_TSYNC".to_string(), "BOGUS".to_string(), "X".to_string()]),
        Err(SeccompError::UnsupportedFlag("BOGUS".to_string()))
    );
    assert_eq!(
        parse_flags(&vec!["SECCOMP_FILTER_FLAG_SPEC_ALLOW".to_string(), "SECCOMP_FILTER_FLAG_LOG".to_string()]),
        Ok(vec![FilterFlag::SpecAllow, FilterFlag::Log])
    );
}

#[test]
fn unknown_flag_fails_before_any_step() {
    let mut p = policy(
        LinuxSeccompAction::ScmpActAllow,
        vec![rule(&["getcwd"], LinuxSeccompAction::ScmpActErrno, None)],
    );
    p.flags = Some(vec!["SECCOMP_FILTER_FLAG_LOG".to_string(), "SECCOMP_FILTER_FLAG_NOPE".to_string()]);
    assert_eq!(
        compile_seccomp(&p, &vec![vec![Some(79)]]),
        Err(SeccompError::UnsupportedFlag("SECCOMP_FILTER_FLAG_NOPE".to_string()))
    );
}

#[test]
fn test_basic() {
    let expect_error = libc::EAGAIN;
    let p = policy(
        LinuxSeccompAction::ScmpActAllow,
        vec![rule(&["getcwd"], LinuxSeccompAction::ScmpActErrno, Some(expect_error as u32))],
    );
    let steps = compile_seccomp(&p, &vec![vec![Some(79)]]).unwrap();
    assert_eq!(
        steps,
        vec![
            FilterStep::NewFilter(NativeAction::Allow),
            FilterStep::AddArch(NativeArch::Native),
            FilterStep::DisableNoNewPrivs,
            FilterStep::AddRule {
                action: NativeAction::Errno(expect_error),
                syscall: 79,
                name: "getcwd".to_string()
            },
            FilterStep::Load,
        ]
    );
}

#[test]
fn test_seccomp_notify() {
    let p = policy(
        LinuxSeccompAction::ScmpActAllow,
        vec![rule(&["getcwd"], LinuxSeccompAction::ScmpActNotify, None)],
    );
    let steps = compile_seccomp(&p, &vec![vec![Some(79)]]).unwrap();
    assert_eq!(steps.last(), Some(&FilterStep::GetNotifyFd));
    assert_eq!(steps[steps.len() - 2], FilterStep::Load);
    assert_eq!(
        steps[3],
        FilterStep::AddRule { action: NativeAction::Notify, syscall: 79, name: "getcwd".to_string() }
    );
}

#[test]
fn flags_and_architectures_come_in_order() {
    let mut p = policy(LinuxSeccompAction::ScmpActErrno, vec![]);
    p.default_errno_ret = Some(38);
    p.architectures = Some(vec![Arch::ScmpArchX86_64, Arch::ScmpArchX86, Arch::ScmpArchX32]);
    p.flags = Some(vec!["SECCOMP_FILTER_FLAG_TSYNC".to_string(), "SECCOMP_FILTER_FLAG_LOG".to_string()]);
    let steps = compile_seccomp(&p, &vec![]).unwrap();
    assert_eq!(
        steps,
        vec![
            FilterStep::NewFilter(NativeAction::Errno(38)),
            FilterStep::SetFlag(FilterFlag::Tsync),
            FilterStep::SetFlag(FilterFlag::Log),
            FilterStep::AddArch(NativeArch::X8664),
            FilterStep::AddArch(NativeArch::X86),
            FilterStep::AddArch(NativeArch::X32),
            FilterStep::DisableNoNewPrivs,
            FilterStep::Load,
        ]
    );
}

#[test]
fn rule_with_default_action_is_elided() {
    let mut p = policy(
        LinuxSeccompAction::ScmpActErrno,
        vec![
            rule(&["mkdir"], LinuxSeccompAction::ScmpActErrno, Some(1)),
            rule(&["getcwd"], LinuxSeccompAction::ScmpActAllow, None),
        ],
    );
    p.architectures = None;
    let steps = compile_seccomp(&p, &vec![vec![Some(83)], vec![Some(79)]]).unwrap();
    assert_eq!(
        steps,
        vec![
            FilterStep::NewFilter(NativeAction::Errno(1)),
            FilterStep::DisableNoNewPrivs,
            FilterStep::AddRule { action: NativeAction::Allow, syscall: 79, name: "getcwd".to_string() },
            FilterStep::Load,
        ]
    );
}

#[test]
fn unknown_syscall_is_skipped_and_siblings_kept() {
    let mut p = policy(
        LinuxSeccompAction::ScmpActAllow,
        vec![rule(&["getcwd", "no_such_call", "mkdir"], LinuxSeccompAction::ScmpActKillProcess, None)],
    );
    p.architectures = None;
    let steps = compile_seccomp(&p, &vec![vec![Some(79), None, Some(83)]]).unwrap();
    assert_eq!(
        steps,
        vec![
            FilterStep::NewFilter(NativeAction::Allow),
            FilterStep::DisableNoNewPrivs,
            FilterStep::AddRule {
                action: NativeAction::KillProcess,
                syscall: 79,
                name: "getcwd".to_string()
            },
            FilterStep::AddRule {
                action: NativeAction::KillProcess,
                syscall: 83,
                name: "mkdir".to_string()
            },
            FilterStep::Load,
        ]
    );
}

#[test]
fn each_condition_is_its_own_rule() {
    let mut r = rule(&["personality"], LinuxSeccompAction::ScmpActAllow, None);
    r.args = Some(vec![
        LinuxSeccompArg { index: 0, value: 8, value_two: None, op: LinuxSeccompOperator::ScmpCmpEq },
        LinuxSeccompArg {
            index: 1,
            value: 4,
            value_two: Some(0xff),
            op: LinuxSeccompOperator::ScmpCmpMaskedEq,
        },
    ]);
    let mut p = policy(LinuxSeccompAction::ScmpActErrno, vec![r]);
    p.architectures = None;
    let steps = compile_seccomp(&p, &vec![vec![Some(135)]]).unwrap();
    assert_eq!(steps.len(), 5);
    assert_eq!(
        steps[2],
        FilterStep::AddConditionalRule {
            action: NativeAction::Allow,
            syscall: 135,
            name: "personality".to_string(),
            cond: ArgCompare { arg: 0, op: NativeCompare::Equal, datum: 8 },
        }
    );
    assert_eq!(
        steps[3],
        FilterStep::AddConditionalRule {
            action: NativeAction::Allow,
            syscall: 135,
            name: "personality".to_string(),
            cond: ArgCompare { arg: 1, op: NativeCompare::MaskedEqual(0xff), datum: 4 },
        }
    );
}

#[test]
fn bad_trace_value_is_an_error() {
    let mut p = policy(
        LinuxSeccompAction::ScmpActAllow,
        vec![rule(&["ptrace"], LinuxSeccompAction::ScmpActTrace, Some(70000))],
    );
    assert_eq!(compile_seccomp(&p, &vec![vec![Some(101)]]), Err(SeccompError::InvalidTraceValue));
    p.syscalls = None;
    p.default_action = LinuxSeccompAction::ScmpActTrace;
    p.default_errno_ret = Some(1 << 20);
    assert_eq!(compile_seccomp(&p, &vec![]), Err(SeccompError::InvalidTraceValue));
}

#[test]
fn refused_steps_map_to_errors() {
    assert_eq!(
        step_failure(&FilterStep::NewFilter(NativeAction::Allow)),
        SeccompError::FilterCreation
    );
    assert_eq!(
        step_failure(&FilterStep::SetFlag(FilterFlag::Tsync)),
        SeccompError::ControlConfiguration
    );
    assert_eq!(
        step_failure(&FilterStep::AddArch(NativeArch::Arm)),
        SeccompError::ArchRegistration
    );
    assert_eq!(step_failure(&FilterStep::DisableNoNewPrivs), SeccompError::ControlConfiguration);
    assert_eq!(
        step_failure(&FilterStep::AddRule {
            action: NativeAction::Log,
            syscall: 2,
            name: "open".to_string()
        }),
        SeccompError::RuleCompilation {
            action: NativeAction::Log,
            name: "open".to_string(),
            cond: None
        }
    );
    let cond = ArgCompare { arg: 2, op: NativeCompare::Greater, datum: 9 };
    assert_eq!(
        step_failure(&FilterStep::AddConditionalRule {
            action: NativeAction::Errno(1),
            syscall: 2,
            name: "open".to_string(),
            cond
        }),
        SeccompError::RuleCompilation {
            action: NativeAction::Errno(1),
            name: "open".to_string(),
            cond: Some(cond)
        }
    );
    assert_eq!(step_failure(&FilterStep::Load), SeccompError::Activation);
    assert_eq!(step_failure(&FilterStep::GetNotifyFd), SeccompError::NotificationHandle);
}

#[test]
fn empty_condition_list_adds_unconditional_rule() {
    let mut r = rule(&["getcwd"], LinuxSeccompAction::ScmpActErrno, None);
    r.args = Some(vec![]);
    let mut p = policy(LinuxSeccompAction::ScmpActAllow, vec![r]);
    p.architectures = None;
    let steps = compile_seccomp(&p, &vec![vec![Some(79)]]).unwrap();
    assert_eq!(
        steps,
        vec![
            FilterStep::NewFilter(NativeAction::Allow),
            FilterStep::DisableNoNewPrivs,
            FilterStep::AddRule {
                action: NativeAction::Errno(libc::EPERM),
                syscall: 79,
                name: "getcwd".to_string()
            },
            FilterStep::Load,
        ]
    );
}

#[test]
fn skipped_items_are_listed_in_order() {
    let p = policy(
        LinuxSeccompAction::ScmpActErrno,
        vec![
            rule(&["getcwd", "no_such_call"], LinuxSeccompAction::ScmpActAllow, None),
            rule(&["mkdir"], LinuxSeccompAction::ScmpActErrno, Some(1)),
            rule(&["ghost_call", "rmdir"], LinuxSeccompAction::ScmpActLog, None),
        ],
    );
    let resolved = vec![vec![Some(79), None], vec![Some(83)], vec![None, Some(84)]];
    assert_eq!(
        skipped_items(&p, &resolved),
        vec![
            Skipped::UnresolvedName { rule: 0, name: "no_such_call".to_string() },
            Skipped::RedundantRule(1),
            Skipped::UnresolvedName { rule: 2, name: "ghost_call".to_string() },
        ]
    );
    let clean = policy(
        LinuxSeccompAction::ScmpActAllow,
        vec![rule(&["getcwd"], LinuxSeccompAction::ScmpActErrno, None)],
    );
    assert_eq!(skipped_items(&clean, &vec![vec![Some(79)]]), vec![]);
}

#[test]
fn removing_a_redundant_rule_changes_no_step() {
    let with = policy(
        LinuxSeccompAction::ScmpActErrno,
        vec![
            rule(&["getcwd"], LinuxSeccompAction::ScmpActAllow, None),
            rule(&["mkdir"], LinuxSeccompAction::ScmpActErrno, None),
            rule(&["rmdir"], LinuxSeccompAction::ScmpActLog, None),
        ],
    );
    let without = policy(
        LinuxSeccompAction::ScmpActErrno,
        vec![
            rule(&["getcwd"], LinuxSeccompAction::ScmpActAllow, None),
            rule(&["rmdir"], LinuxSeccompAction::ScmpActLog, None),
        ],
    );
    assert_eq!(
        compile_seccomp(&with, &vec![vec![Some(79)], vec![Some(83)], vec![Some(84)]]),
        compile_seccomp(&without, &vec![vec![Some(79)], vec![Some(84)]])
    );
}
