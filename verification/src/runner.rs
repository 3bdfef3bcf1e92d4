//! Process runner: decides, for one execution request, whether a process is
//! spawned at all, supplies the randomized environment perturbation for the
//! child, and assembles the outcome of the run. Spawning and waiting
//! themselves live with the caller, which hands the timing readings and the
//! exit status back as plain values.

use vstd::prelude::*;
use crate::prepare::{prepare, spec_prepare, CommandError, PreparedCommand};
use crate::timer::CpuInterval;

verus! {

/// How a child process ended: a normal exit with a code, or an abnormal
/// termination (on POSIX, by a signal).
#[derive(Clone, Copy, Debug, PartialEq, Eq, Structural)]
pub enum CommandStatus {
    Exited { code: i32 },
    Terminated { signal: i32 },
}

/// The outcome of running a command once: the CPU time the child consumed,
/// in whole microseconds of user and of system time, and how it ended.
#[derive(Clone, Copy, Debug, PartialEq, Eq, Structural)]
pub struct ExecuteResult {
    pub user_time_micros: u64,
    pub system_time_micros: u64,
    pub status: CommandStatus,
}

/// A successful status: a normal exit with code zero.
pub open spec fn is_success(status: CommandStatus) -> bool {
    status == (CommandStatus::Exited { code: 0 })
}

/// The result an empty command yields: no process is created, so the run
/// consumed no CPU time and succeeded.
pub fn no_command_result() -> (r: ExecuteResult)
    ensures
        r.user_time_micros == 0,
        r.system_time_micros == 0,
        is_success(r.status),
{
    ExecuteResult {
        user_time_micros: 0,
        system_time_micros: 0,
        status: CommandStatus::Exited { code: 0 },
    }
}

/// The outcome of one timed run: the measured CPU interval together with the
/// exit status the wait reported.
pub fn assemble_result(times: CpuInterval, status: CommandStatus) -> (r: ExecuteResult)
    ensures
        r.user_time_micros == times.user_micros,
        r.system_time_micros == times.system_micros,
        r.status == status,
{
    ExecuteResult {
        user_time_micros: times.user_micros,
        system_time_micros: times.system_micros,
        status,
    }
}

/// What one execution request asks the caller to do: create no process and
/// report the given result as it stands, or spawn the prepared command and
/// time it.
#[derive(Clone, Debug)]
pub enum ExecutionPlan {
    NoProcess { result: ExecuteResult },
    Spawn { prepared: PreparedCommand },
}

/// Decides one execution request. A command that resolves to no words at all
/// asks for no process and a zero-time successful result; a command that
/// resolves to an executable asks for a spawn; a command that cannot be
/// tokenized is a parse error naming the offending text, and nothing is
/// spawned for it.
pub fn plan_execution(command: &str, shell: &str, shell_flag: &str) -> (r: Result<
    ExecutionPlan,
    CommandError,
>)
    ensures
        r matches Ok(ExecutionPlan::NoProcess { result }) ==> spec_prepare(
            command@,
            shell@,
            shell_flag@,
        ) == Ok::<Option<(Seq<char>, Seq<Seq<char>>)>, ()>(None) && result.user_time_micros == 0
            && result.system_time_micros == 0 && is_success(result.status),
        r matches Ok(ExecutionPlan::Spawn { prepared }) ==> spec_prepare(
            command@,
            shell@,
            shell_flag@,
        ) == Ok::<_, ()>(Some((prepared.executable@, prepared.arguments.deep_view()))),
        r matches Err(e) ==> spec_prepare(command@, shell@, shell_flag@) == Err::<
            Option<(Seq<char>, Seq<Seq<char>>)>,
            (),
        >(()) && (e matches CommandError::Parse { command: c } && c@ == command@),
{
    match prepare(command, shell, shell_flag) {
        Ok(Some(prepared)) => Ok(ExecutionPlan::Spawn { prepared }),
        Ok(None) => Ok(ExecutionPlan::NoProcess { result: no_command_result() }),
        Err(e) => Err(e),
    }
}

/// The length of the perturbation value stays below this bound.
pub const ENVIRONMENT_OFFSET_BOUND: usize = 4096;

/// The name of the variable injected into the child's environment to perturb
/// the size of its environment block.
pub fn environment_offset_variable() -> (r: String)
    ensures
        r@ == "HYPERFINE_RANDOMIZED_ENVIRONMENT_OFFSET"@,
{
    "HYPERFINE_RANDOMIZED_ENVIRONMENT_OFFSET".to_owned()
}

/// A sequence repeated end to end a given number of times.
pub open spec fn repeated(s: Seq<char>, n: nat) -> Seq<char>
    decreases n,
{
    if n == 0 {
        Seq::empty()
    } else {
        repeated(s, (n - 1) as nat) + s
    }
}

proof fn lemma_repeated_single(c: char, n: nat)
    ensures
        repeated(seq![c], n).len() == n,
        forall|i: int| 0 <= i < n ==> repeated(seq![c], n)[i] == c,
    decreases n,
{
    if n > 0 {
        lemma_repeated_single(c, (n - 1) as nat);
    }
}

/// Relies on `str::repeat`: the result is the input repeated `n` times, end
/// to end.
#[verifier::external_body]
fn repeat_str(s: &str, n: usize) -> (r: String)
    requires
        s@.len() * n <= usize::MAX,
    ensures
        r@ == repeated(s@, n as nat),
{
    s.repeat(n)
}

/// Relies on `rand::random` for the perturbation length; nothing is promised
/// of the value drawn.
pub assume_specification<T>[ rand::random::<T> ]() -> (r: T)
    where
        rand::distributions::Standard: rand::distributions::Distribution<T>,
;

/// The perturbation value for a drawn number `n`: filler characters with no
/// meaning to the benchmarked command, as many as `n` reduced below the
/// bound.
pub fn environment_offset_value(n: usize) -> (r: String)
    ensures
        r@.len() == (n as int) % (ENVIRONMENT_OFFSET_BOUND as int),
        forall|i: int| 0 <= i < r@.len() ==> r@[i] == 'X',
{
    let len = n % ENVIRONMENT_OFFSET_BOUND;
    proof {
        reveal_strlit("X");
        assert("X"@ =~= seq!['X']);
        lemma_repeated_single('X', len as nat);
    }
    repeat_str("X", len)
}

/// A fresh perturbation value: its length is drawn anew on every call so that
/// repeated identical invocations do not see an accidentally stable
/// environment block size.
pub fn randomized_environment_offset_value() -> (r: String)
    ensures
        r@.len() < ENVIRONMENT_OFFSET_BOUND,
        forall|i: int| 0 <= i < r@.len() ==> r@[i] == 'X',
{
    let n: usize = rand::random::<usize>();
    environment_offset_value(n)
}

} // verus!
