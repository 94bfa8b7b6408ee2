//! Trusted shims over the operating system's randomness source. A random
//! value depends on nothing the caller hands in, so nothing is promised
//! of it; only the failure case is pinned down.

use vstd::prelude::*;

use rand::TryRng;

use crate::error::TextError;

verus! {

/// Relies on `rand::rngs::SysRng::try_fill_bytes`: 32 fresh bytes from
/// the operating system's randomness source, or `RngUnavailable` when
/// that source fails.
#[verifier::external_body]
pub(crate) fn sys_random_seed() -> (r: Result<[u8; 32], TextError>)
    ensures
        r matches Err(e) ==> e == TextError::RngUnavailable,
{
    let mut seed = [0u8; 32];
    let mut rng = rand::rngs::SysRng;
    match rng.try_fill_bytes(&mut seed) {
        Ok(()) => Ok(seed),
        Err(_) => Err(TextError::RngUnavailable),
    }
}

/// Relies on `rand::rngs::SysRng::try_next_u64`: one draw from the
/// operating system's randomness source, or `RngUnavailable` when that
/// source fails.
#[verifier::external_body]
pub(crate) fn sys_random_u64() -> (r: Result<u64, TextError>)
    ensures
        r matches Err(e) ==> e == TextError::RngUnavailable,
{
    let mut rng = rand::rngs::SysRng;
    match rng.try_next_u64() {
        Ok(x) => Ok(x),
        Err(_) => Err(TextError::RngUnavailable),
    }
}

/// A fresh byte below `n`, or `RngUnavailable` when the randomness source
/// fails.
pub(crate) fn rand_below_u8(n: u8) -> (r: Result<u8, TextError>)
    requires
        n > 0,
    ensures
        r matches Ok(v) ==> v < n,
        r matches Err(e) ==> e == TextError::RngUnavailable,
{
    match sys_random_u64() {
        Result::Ok(x) => {
            let m = x % (n as u64);
            proof {
                assert(m < n as u64);
                assert(m < 256 ==> (m as u8) as u64 == m) by (bit_vector);
            }
            Result::Ok(m as u8)
        },
        Result::Err(e) => Result::Err(e),
    }
}

/// A fresh index below `n`, or `RngUnavailable` when the randomness
/// source fails.
pub(crate) fn rand_below(n: usize) -> (r: Result<usize, TextError>)
    requires
        n > 0,
    ensures
        r matches Ok(v) ==> v < n,
        r matches Err(e) ==> e == TextError::RngUnavailable,
{
    match sys_random_u64() {
        Result::Ok(x) => Result::Ok((x as usize) % n),
        Result::Err(e) => Result::Err(e),
    }
}

} // verus!
