//! Translation of the policy's portable tokens into the filter engine's values.

use vstd::prelude::*;
use crate::error::SeccompError;
use crate::native::{eperm, NativeAction, NativeArch, NativeCompare};
use crate::policy::{Arch, LinuxSeccompAction, LinuxSeccompOperator};

verus! {

/// The engine's architecture of each token.
pub open spec fn arch_of(arch: Arch) -> NativeArch {
    match arch {
        Arch::ScmpArchNative => NativeArch::Native,
        Arch::ScmpArchX86 => NativeArch::X86,
        Arch::ScmpArchX86_64 => NativeArch::X8664,
        Arch::ScmpArchX32 => NativeArch::X32,
        Arch::ScmpArchArm => NativeArch::Arm,
        Arch::ScmpArchAarch64 => NativeArch::Aarch64,
        Arch::ScmpArchMips => NativeArch::Mips,
        Arch::ScmpArchMips64 => NativeArch::Mips64,
        Arch::ScmpArchMips64n32 => NativeArch::Mips64N32,
        Arch::ScmpArchMipsel => NativeArch::Mipsel,
        Arch::ScmpArchMipsel64 => NativeArch::Mipsel64,
        Arch::ScmpArchMipsel64n32 => NativeArch::Mipsel64N32,
        Arch::ScmpArchPpc => NativeArch::Ppc,
        Arch::ScmpArchPpc64 => NativeArch::Ppc64,
        Arch::ScmpArchPpc64le => NativeArch::Ppc64Le,
        Arch::ScmpArchS390 => NativeArch::S390,
        Arch::ScmpArchS390x => NativeArch::S390X,
    }
}

pub fn translate_arch(arch: Arch) -> (r: NativeArch)
    ensures
        r == arch_of(arch),
{
    match arch {
        Arch::ScmpArchNative => NativeArch::Native,
        Arch::ScmpArchX86 => NativeArch::X86,
        Arch::ScmpArchX86_64 => NativeArch::X8664,
        Arch::ScmpArchX32 => NativeArch::X32,
        Arch::ScmpArchArm => NativeArch::Arm,
        Arch::ScmpArchAarch64 => NativeArch::Aarch64,
        Arch::ScmpArchMips => NativeArch::Mips,
        Arch::ScmpArchMips64 => NativeArch::Mips64,
        Arch::ScmpArchMips64n32 => NativeArch::Mips64N32,
        Arch::ScmpArchMipsel => NativeArch::Mipsel,
        Arch::ScmpArchMipsel64 => NativeArch::Mipsel64,
        Arch::ScmpArchMipsel64n32 => NativeArch::Mipsel64N32,
        Arch::ScmpArchPpc => NativeArch::Ppc,
        Arch::ScmpArchPpc64 => NativeArch::Ppc64,
        Arch::ScmpArchPpc64le => NativeArch::Ppc64Le,
        Arch::ScmpArchS390 => NativeArch::S390,
        Arch::ScmpArchS390x => NativeArch::S390X,
    }
}

/// Distinct architecture tokens translate to distinct engine architectures.
pub proof fn lemma_arch_translation_injective(a: Arch, b: Arch)
    ensures
        arch_of(a) == arch_of(b) ==> a == b,
{
}

} // verus!

verus! {

/// The error number or trace value of a rule: the one given, else EPERM.
pub open spec fn param_of(errno: Option<u32>) -> i32 {
    match errno {
        Some(e) => e as i32,
        None => 1,
    }
}

/// The engine's action of a portable action, or `None` where a trace value
/// does not fit in 16 bits.
pub open spec fn action_of(action: LinuxSeccompAction, errno: Option<u32>) -> Option<NativeAction> {
    let e = param_of(errno);
    match action {
        LinuxSeccompAction::ScmpActKill => Some(NativeAction::KillThread),
        LinuxSeccompAction::ScmpActKillProcess => Some(NativeAction::KillProcess),
        LinuxSeccompAction::ScmpActTrap => Some(NativeAction::Trap),
        LinuxSeccompAction::ScmpActErrno => Some(NativeAction::Errno(e)),
        LinuxSeccompAction::ScmpActTrace => if 0 <= e <= u16::MAX {
            Some(NativeAction::Trace(e as u16))
        } else {
            None
        },
        LinuxSeccompAction::ScmpActAllow => Some(NativeAction::Allow),
        LinuxSeccompAction::ScmpActLog => Some(NativeAction::Log),
        LinuxSeccompAction::ScmpActNotify => Some(NativeAction::Notify),
    }
}

pub fn translate_action(action: LinuxSeccompAction, errno: Option<u32>) -> (r: Result<
    NativeAction,
    SeccompError,
>)
    ensures
        match action_of(action, errno) {
            Some(a) => r == Ok::<NativeAction, SeccompError>(a),
            None => r == Err::<NativeAction, SeccompError>(SeccompError::InvalidTraceValue),
        },
{
    let e: i32 = match errno {
        Some(e) => e as i32,
        None => eperm(),
    };
    match action {
        LinuxSeccompAction::ScmpActKill => Ok(NativeAction::KillThread),
        LinuxSeccompAction::ScmpActKillProcess => Ok(NativeAction::KillProcess),
        LinuxSeccompAction::ScmpActTrap => Ok(NativeAction::Trap),
        LinuxSeccompAction::ScmpActErrno => Ok(NativeAction::Errno(e)),
        LinuxSeccompAction::ScmpActTrace => {
            if 0 <= e && e <= 0xffff {
                Ok(NativeAction::Trace(e as u16))
            } else {
                Err(SeccompError::InvalidTraceValue)
            }
        },
        LinuxSeccompAction::ScmpActAllow => Ok(NativeAction::Allow),
        LinuxSeccompAction::ScmpActLog => Ok(NativeAction::Log),
        LinuxSeccompAction::ScmpActNotify => Ok(NativeAction::Notify),
    }
}

/// The engine's comparison of a portable operator; a masked comparison
/// takes its mask from the second value, 0 where there is none.
pub open spec fn op_of(op: LinuxSeccompOperator, datum_b: Option<u64>) -> NativeCompare {
    match op {
        LinuxSeccompOperator::ScmpCmpNe => NativeCompare::NotEqual,
        LinuxSeccompOperator::ScmpCmpLt => NativeCompare::Less,
        LinuxSeccompOperator::ScmpCmpLe => NativeCompare::LessOrEqual,
        LinuxSeccompOperator::ScmpCmpEq => NativeCompare::Equal,
        LinuxSeccompOperator::ScmpCmpGe => NativeCompare::GreaterEqual,
        LinuxSeccompOperator::ScmpCmpGt => NativeCompare::Greater,
        LinuxSeccompOperator::ScmpCmpMaskedEq => NativeCompare::MaskedEqual(
            match datum_b {
                Some(m) => m,
                None => 0,
            },
        ),
    }
}

pub fn translate_op(op: LinuxSeccompOperator, datum_b: Option<u64>) -> (r: NativeCompare)
    ensures
        r == op_of(op, datum_b),
{
    match op {
        LinuxSeccompOperator::ScmpCmpNe => NativeCompare::NotEqual,
        LinuxSeccompOperator::ScmpCmpLt => NativeCompare::Less,
        LinuxSeccompOperator::ScmpCmpLe => NativeCompare::LessOrEqual,
        LinuxSeccompOperator::ScmpCmpEq => NativeCompare::Equal,
        LinuxSeccompOperator::ScmpCmpGe => NativeCompare::GreaterEqual,
        LinuxSeccompOperator::ScmpCmpGt => NativeCompare::Greater,
        LinuxSeccompOperator::ScmpCmpMaskedEq => NativeCompare::MaskedEqual(
            match datum_b {
                Some(m) => m,
                None => 0,
            },
        ),
    }
}

} // verus!
