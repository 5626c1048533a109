//! Validates a portable syscall-filtering policy and compiles it into the
//! ordered calls that build, configure and load a kernel seccomp filter.

pub mod compile;
pub mod error;
pub mod flags;
pub mod native;
pub mod policy;
pub mod skipped;
pub mod translate;
pub mod validate;

pub use compile::compile_seccomp;
pub use validate::{check_seccomp, is_notify};
