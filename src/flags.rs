//! The control flags that a policy may ask the filter engine for.

use vstd::prelude::*;
use crate::error::SeccompError;

verus! {

/// A control flag of the filter.
#[derive(Clone, Copy, Debug, PartialEq, Eq, Structural)]
pub enum FilterFlag {
    /// Log every action but allow (`SECCOMP_FILTER_FLAG_LOG`).
    Log,
    /// Attach the filter to every thread of the process
    /// (`SECCOMP_FILTER_FLAG_TSYNC`).
    Tsync,
    /// Leave the speculative store bypass mitigation off
    /// (`SECCOMP_FILTER_FLAG_SPEC_ALLOW`).
    SpecAllow,
}

/// The flag that a token names, if it names one.
pub open spec fn flag_of(token: Seq<char>) -> Option<FilterFlag> {
    if token == "SECCOMP_FILTER_FLAG_LOG"@ {
        Some(FilterFlag::Log)
    } else if token == "SECCOMP_FILTER_FLAG_TSYNC"@ {
        Some(FilterFlag::Tsync)
    } else if token == "SECCOMP_FILTER_FLAG_SPEC_ALLOW"@ {
        Some(FilterFlag::SpecAllow)
    } else {
        None
    }
}

/// Whether every token names a flag.
pub open spec fn all_flags_known(tokens: Seq<String>) -> bool {
    forall|i: int| 0 <= i < tokens.len() ==> flag_of((#[trigger] tokens[i])@) is Some
}

/// Whether the token at `i` is the first that names no flag.
pub open spec fn first_unknown_flag(tokens: Seq<String>, i: int) -> bool {
    &&& 0 <= i < tokens.len()
    &&& flag_of(tokens[i]@) is None
    &&& forall|k: int| 0 <= k < i ==> flag_of((#[trigger] tokens[k])@) is Some
}

pub fn parse_flag(token: &String) -> (r: Option<FilterFlag>)
    ensures
        r == flag_of(token@),
{
    if token.eq(&String::from_str("SECCOMP_FILTER_FLAG_LOG")) {
        Some(FilterFlag::Log)
    } else if token.eq(&String::from_str("SECCOMP_FILTER_FLAG_TSYNC")) {
        Some(FilterFlag::Tsync)
    } else if token.eq(&String::from_str("SECCOMP_FILTER_FLAG_SPEC_ALLOW")) {
        Some(FilterFlag::SpecAllow)
    } else {
        None
    }
}

/// Parses every token, or names the first one that is no flag.
pub fn parse_flags(tokens: &Vec<String>) -> (r: Result<Vec<FilterFlag>, SeccompError>)
    ensures
        r is Ok <==> all_flags_known(tokens@),
        r matches Ok(v) ==> v@.len() == tokens@.len() && forall|i: int|
            0 <= i < tokens@.len() ==> flag_of(tokens@[i]@) == Some(#[trigger] v@[i]),
        r matches Err(e) ==> exists|i: int|
            first_unknown_flag(tokens@, i) && e == SeccompError::UnsupportedFlag(
                #[trigger] tokens@[i],
            ),
{
    let mut parsed: Vec<FilterFlag> = Vec::new();
    let mut i: usize = 0;
    while i < tokens.len()
        invariant
            i <= tokens@.len(),
            parsed@.len() == i,
            forall|k: int| 0 <= k < i ==> flag_of((#[trigger] tokens@[k])@) == Some(parsed@[k]),
        decreases tokens@.len() - i,
    {
        match parse_flag(&tokens[i]) {
            Some(f) => parsed.push(f),
            None => {
                let e = SeccompError::UnsupportedFlag(tokens[i].clone());
                assert(first_unknown_flag(tokens@, i as int));
                return Err(e);
            },
        }
        i = i + 1;
    }
    Ok(parsed)
}

} // verus!
