//! CPU timer: accounts for the CPU time a child process consumed, from the
//! plain values the platform reports. Wait-based accounting reads cumulative
//! (seconds, microseconds) pairs around the child's lifetime; handle-based
//! accounting reports accumulated 100-nanosecond ticks for the one process.
//! The platform queries themselves live with the caller.

use vstd::prelude::*;

verus! {

/// One cumulative reading of consumed CPU time, as wait-based platform
/// accounting reports it: seconds and microseconds, for user and for system
/// time.
#[derive(Clone, Copy, Debug, PartialEq, Eq, Structural)]
pub struct CpuSample {
    pub user_sec: u64,
    pub user_usec: u64,
    pub system_sec: u64,
    pub system_usec: u64,
}

/// CPU time consumed over one child's lifetime, in whole microseconds.
#[derive(Clone, Copy, Debug, PartialEq, Eq, Structural)]
pub struct CpuInterval {
    pub user_micros: u64,
    pub system_micros: u64,
}

/// A (seconds, microseconds) pair as one count of microseconds.
pub open spec fn micros_of(sec: u64, usec: u64) -> int {
    sec * 1_000_000 + usec
}

/// The user time of a reading, in microseconds.
pub open spec fn user_micros_of(s: CpuSample) -> int {
    micros_of(s.user_sec, s.user_usec)
}

/// The system time of a reading, in microseconds.
pub open spec fn system_micros_of(s: CpuSample) -> int {
    micros_of(s.system_sec, s.system_usec)
}

fn total_micros(sec: u64, usec: u64) -> (r: Option<u64>)
    ensures
        r is Some <==> micros_of(sec, usec) <= u64::MAX,
        r matches Some(t) ==> t == micros_of(sec, usec),
{
    match sec.checked_mul(1_000_000) {
        Some(m) => m.checked_add(usec),
        None => None,
    }
}

/// The CPU time a child consumed under wait-based accounting: the difference
/// between the cumulative reading taken after the wait harvested the child's
/// usage and the one taken before the child was spawned.
///
/// Yields nothing exactly when the readings are no valid pair: when the later
/// one does not fit in whole microseconds, or when it lies below the earlier
/// one, which cumulative accounting never produces.
pub fn cpu_interval(start: &CpuSample, end: &CpuSample) -> (r: Option<CpuInterval>)
    ensures
        r is Some <==> {
            &&& user_micros_of(*end) <= u64::MAX
            &&& system_micros_of(*end) <= u64::MAX
            &&& user_micros_of(*start) <= user_micros_of(*end)
            &&& system_micros_of(*start) <= system_micros_of(*end)
        },
        r matches Some(iv) ==> iv.user_micros == user_micros_of(*end) - user_micros_of(*start),
        r matches Some(iv) ==> iv.system_micros == system_micros_of(*end) - system_micros_of(
            *start,
        ),
{
    let end_user = total_micros(end.user_sec, end.user_usec);
    let end_system = total_micros(end.system_sec, end.system_usec);
    let start_user = total_micros(start.user_sec, start.user_usec);
    let start_system = total_micros(start.system_sec, start.system_usec);
    match (end_user, end_system, start_user, start_system) {
        (Some(eu), Some(es), Some(su), Some(ss)) => {
            if su <= eu && ss <= es {
                Some(CpuInterval { user_micros: eu - su, system_micros: es - ss })
            } else {
                None
            }
        },
        _ => None,
    }
}

/// Whole microseconds in a count of 100-nanosecond ticks: handle-based
/// platform accounting reports accumulated kernel and user time in such
/// ticks.
pub fn ticks_to_micros(ticks: u64) -> (r: u64)
    ensures
        r == ticks / 10,
{
    ticks / 10
}

} // verus!
