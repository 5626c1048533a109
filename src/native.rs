//! The values that the kernel filter is built from: architectures, actions
//! and argument comparisons as the filter engine knows them.

use vstd::prelude::*;

verus! {

/// An architecture that the filter engine can register.
#[derive(Clone, Copy, Debug, PartialEq, Eq, Structural)]
pub enum NativeArch {
    Native,
    X86,
    X8664,
    X32,
    Arm,
    Aarch64,
    Mips,
    Mips64,
    Mips64N32,
    Mipsel,
    Mipsel64,
    Mipsel64N32,
    Ppc,
    Ppc64,
    Ppc64Le,
    S390,
    S390X,
}

/// What the filter does with a matching syscall.
#[derive(Clone, Copy, Debug, PartialEq, Eq, Structural)]
pub enum NativeAction {
    KillProcess,
    KillThread,
    Trap,
    Notify,
    /// Fails the syscall with this error number.
    Errno(i32),
    /// Hands the syscall to a tracer with this value.
    Trace(u16),
    Log,
    Allow,
}

/// How an argument is compared.
#[derive(Clone, Copy, Debug, PartialEq, Eq, Structural)]
pub enum NativeCompare {
    NotEqual,
    Less,
    LessOrEqual,
    Equal,
    GreaterEqual,
    Greater,
    /// Equality of the argument under this mask.
    MaskedEqual(u64),
}

/// One condition of a filter rule: argument `arg` compared with `datum`.
#[derive(Clone, Copy, Debug, PartialEq, Eq, Structural)]
pub struct ArgCompare {
    pub arg: u32,
    pub op: NativeCompare,
    pub datum: u64,
}

/// Relies on libc::EPERM: the "operation not permitted" error number, 1 on Linux.
#[verifier::external_body]
pub(crate) fn eperm() -> (r: i32)
    ensures
        r == 1,
{
    libc::EPERM
}

} // verus!
