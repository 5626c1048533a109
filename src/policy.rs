//! The policy that the library compiles: a default action, the architectures
//! and control flags, and the syscall rules.

use vstd::prelude::*;

verus! {

/// An architecture token of a policy.
#[derive(Clone, Copy, Debug, PartialEq, Eq, Structural)]
pub enum Arch {
    ScmpArchNative,
    ScmpArchX86,
    ScmpArchX86_64,
    ScmpArchX32,
    ScmpArchArm,
    ScmpArchAarch64,
    ScmpArchMips,
    ScmpArchMips64,
    ScmpArchMips64n32,
    ScmpArchMipsel,
    ScmpArchMipsel64,
    ScmpArchMipsel64n32,
    ScmpArchPpc,
    ScmpArchPpc64,
    ScmpArchPpc64le,
    ScmpArchS390,
    ScmpArchS390x,
}

/// What the filter does with a syscall that a rule (or the default) covers.
#[derive(Clone, Copy, Debug, PartialEq, Eq, Structural)]
pub enum LinuxSeccompAction {
    ScmpActKill,
    ScmpActKillProcess,
    ScmpActTrap,
    ScmpActErrno,
    ScmpActTrace,
    ScmpActAllow,
    ScmpActLog,
    ScmpActNotify,
}

/// How a syscall argument is compared with a condition's value.
#[derive(Clone, Copy, Debug, PartialEq, Eq, Structural)]
pub enum LinuxSeccompOperator {
    ScmpCmpNe,
    ScmpCmpLt,
    ScmpCmpLe,
    ScmpCmpEq,
    ScmpCmpGe,
    ScmpCmpGt,
    ScmpCmpMaskedEq,
}

/// A condition on one argument of a syscall.
#[derive(Clone, Copy, Debug, PartialEq, Eq, Structural)]
pub struct LinuxSeccompArg {
    /// The argument's position, 0 to 5.
    pub index: usize,
    /// The value compared with the argument.
    pub value: u64,
    /// The mask of a masked comparison.
    pub value_two: Option<u64>,
    pub op: LinuxSeccompOperator,
}

/// A rule: one action for each of the named syscalls, under each condition.
#[derive(Clone, Debug)]
pub struct LinuxSyscall {
    pub names: Vec<String>,
    pub action: LinuxSeccompAction,
    /// The error number of `ScmpActErrno`, or the value of `ScmpActTrace`.
    pub errno_ret: Option<u32>,
    pub args: Option<Vec<LinuxSeccompArg>>,
}

/// A whole syscall-filtering policy.
#[derive(Clone, Debug)]
pub struct LinuxSeccomp {
    pub default_action: LinuxSeccompAction,
    pub default_errno_ret: Option<u32>,
    pub architectures: Option<Vec<Arch>>,
    pub flags: Option<Vec<String>>,
    pub syscalls: Option<Vec<LinuxSyscall>>,
}

} // verus!
