use seccomp_policy::error::SeccompError;
use seccomp_policy::native::{NativeAction, NativeArch, NativeCompare};
use seccomp_policy::policy::{Arch, LinuxSeccompAction, LinuxSeccompOperator};
use seccomp_policy::translate::{translate_action, translate_arch, translate_op};

#[test]
fn arch_tokens_translate_one_to_one() {
    let all = [
        Arch::ScmpArchNative,
        Arch::ScmpArchX86,
        Arch::ScmpArchX86_64,
        Arch::ScmpArchX32,
        Arch::ScmpArchArm,
        Arch::ScmpArchAarch64,
        Arch::ScmpArchMips,
        Arch::ScmpArchMips64,
        Arch::ScmpArchMips64n32,
        Arch::ScmpArchMipsel,
        Arch::ScmpArchMipsel64,
        Arch::ScmpArchMipsel64n32,
        Arch::ScmpArchPpc,
        Arch::ScmpArchPpc64,
        Arch::ScmpArchPpc64le,
        Arch::ScmpArchS390,
        Arch::ScmpArchS390x,
    ];
    for a in all.iter() {
        for b in all.iter() {
            assert_eq!(translate_arch(*a) == translate_arch(*b), a == b);
        }
    }
    assert_eq!(translate_arch(Arch::ScmpArchX86_64), NativeArch::X8664);
    assert_eq!(translate_arch(Arch::ScmpArchNative), NativeArch::Native);
    assert_eq!(translate_arch(Arch::ScmpArchS390x), NativeArch::S390X);
}

#[test]
fn errno_action_defaults_to_eperm() {
    assert_eq!(
        translate_action(LinuxSeccompAction::ScmpActErrno, None),
        Ok(NativeAction::Errno(libc::EPERM))
    );
    assert_eq!(
        translate_action(LinuxSeccompAction::ScmpActErrno, Some(libc::EAGAIN as u32)),
        Ok(NativeAction::Errno(libc::EAGAIN))
    );
}

#[test]
fn actions_translate() {
    assert_eq!(
        translate_action(LinuxSeccompAction::ScmpActKill, None),
        Ok(NativeAction::KillThread)
    );
    assert_eq!(
        translate_action(LinuxSeccompAction::ScmpActKillProcess, None),
        Ok(NativeAction::KillProcess)
    );
    assert_eq!(translate_action(LinuxSeccompAction::ScmpActTrap, Some(4)), Ok(NativeAction::Trap));
    assert_eq!(translate_action(LinuxSeccompAction::ScmpActAllow, Some(4)), Ok(NativeAction::Allow));
    assert_eq!(translate_action(LinuxSeccompAction::ScmpActLog, None), Ok(NativeAction::Log));
    assert_eq!(
        translate_action(LinuxSeccompAction::ScmpActNotify, None),
        Ok(NativeAction::Notify)
    );
}

#[test]
fn trace_value_must_fit_sixteen_bits() {
    assert_eq!(
        translate_action(LinuxSeccompAction::ScmpActTrace, Some(7)),
        Ok(NativeAction::Trace(7))
    );
    assert_eq!(translate_action(LinuxSeccompAction::ScmpActTrace, None), Ok(NativeAction::Trace(1)));
    assert_eq!(
        translate_action(LinuxSeccompAction::ScmpActTrace, Some(65535)),
        Ok(NativeAction::Trace(65535))
    );
    assert_eq!(
        translate_action(LinuxSeccompAction::ScmpActTrace, Some(65536)),
        Err(SeccompError::InvalidTraceValue)
    );
    assert_eq!(
        translate_action(LinuxSeccompAction::ScmpActTrace, Some(u32::MAX)),
        Err(SeccompError::InvalidTraceValue)
    );
}

#[test]
fn operators_translate() {
    assert_eq!(translate_op(LinuxSeccompOperator::ScmpCmpNe, None), NativeCompare::NotEqual);
    assert_eq!(translate_op(LinuxSeccompOperator::ScmpCmpLt, None), NativeCompare::Less);
    assert_eq!(translate_op(LinuxSeccompOperator::ScmpCmpLe, None), NativeCompare::LessOrEqual);
    assert_eq!(translate_op(LinuxSeccompOperator::ScmpCmpEq, Some(3)), NativeCompare::Equal);
    assert_eq!(translate_op(LinuxSeccompOperator::ScmpCmpGe, None), NativeCompare::GreaterEqual);
    assert_eq!(translate_op(LinuxSeccompOperator::ScmpCmpGt, None), NativeCompare::Greater);
    assert_eq!(
        translate_op(LinuxSeccompOperator::ScmpCmpMaskedEq, Some(0xf0)),
        NativeCompare::MaskedEqual(0xf0)
    );
    assert_eq!(
        translate_op(LinuxSeccompOperator::ScmpCmpMaskedEq, None),
        NativeCompare::MaskedEqual(0)
    );
}
