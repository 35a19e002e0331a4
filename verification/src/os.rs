//! The operating-system page-size resolver.

use vstd::prelude::*;

verus! {

/// The page size used when the operating system cannot be queried.
pub const FALLBACK_MEM_PAGE_SIZE: usize = 4096;

/// Relies on nix::unistd::sysconf with the page-size variable: returns the
/// system's memory-page size in bytes, or `None` where the variable is
/// unsupported or the query fails.
#[verifier::external_body]
fn sysconf_page_size() -> (r: Option<i64>) {
    match nix::unistd::sysconf(nix::unistd::SysconfVar::PAGE_SIZE) {
        Ok(Some(value)) => Some(value),
        Ok(None) => None,
        Err(_) => None,
    }
}

/// The page size chosen for a raw query answer: the reported value itself
/// where it is positive and representable as a size, the fallback otherwise
/// (the query failed, the variable is unsupported, or the answer cannot be a
/// size at all).
pub open spec fn spec_page_size_choice(raw: Option<i64>) -> usize {
    match raw {
        Some(value) => if 0 < value && value as int <= usize::MAX as int {
            value as usize
        } else {
            FALLBACK_MEM_PAGE_SIZE
        },
        None => FALLBACK_MEM_PAGE_SIZE,
    }
}

/// Turns a raw page-size query answer into the page size this process uses.
pub fn page_size_choice(raw: Option<i64>) -> (r: usize)
    ensures
        r == spec_page_size_choice(raw),
        0 < r,
{
    match raw {
        Some(value) => if 0 < value && (value as u64) <= (usize::MAX as u64) {
            value as usize
        } else {
            FALLBACK_MEM_PAGE_SIZE
        },
        None => FALLBACK_MEM_PAGE_SIZE,
    }
}

/// Retrieves the memory page size in bytes, as the OS reports it. If the page
/// size cannot be read from the OS, a fallback value of `4096` is returned;
/// resolution failure is never surfaced to callers as an error.
pub fn sys_page_size() -> (r: usize)
    ensures
        0 < r,
{
    let raw = sysconf_page_size();
    page_size_choice(raw)
}

} // verus!
