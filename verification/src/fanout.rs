//! Fan-out/fan-in support: the all-or-nothing aggregation used when one
//! operation is dispatched to many hosts concurrently.
//!
//! The surrounding process spawns one task per host and hands the finished
//! results back in completion order; `collect_or_first_error` then either
//! keeps every success or fails with the first error, so that no partial
//! outcome is ever presented as a complete one.

use vstd::prelude::*;

verus! {

/// The collected output of one finished remote command.
#[derive(Debug)]
pub struct CommandOutput {
    /// The exit code the remote process returned, or none when it was
    /// terminated by a signal.
    pub status_code: Option<i32>,
    /// The captured standard output bytes.
    pub stdout: Vec<u8>,
    /// The captured standard error bytes.
    pub stderr: Vec<u8>,
}

impl CommandOutput {
    /// Whether the remote process exited successfully.
    pub open spec fn spec_success(self) -> bool {
        self.status_code == Some(0i32)
    }

    /// Whether the remote process exited successfully.
    pub fn success(&self) -> (r: bool)
        ensures
            r == self.spec_success(),
    {
        match self.status_code {
            Some(c) => c == 0,
            None => false,
        }
    }
}

/// Whether every result of the batch is a success.
pub open spec fn all_ok<T, E>(rs: Seq<Result<T, E>>) -> bool {
    forall|i: int| 0 <= i < rs.len() ==> rs[i] is Ok
}

/// The success values of the batch, in order.
pub open spec fn ok_values<T, E>(rs: Seq<Result<T, E>>) -> Seq<T> {
    rs.map_values(|r: Result<T, E>| r->Ok_0)
}

/// Joins a batch of per-host results: returns every success value, in the
/// order given, or fails with the first error of the batch. No partial list
/// of successes is ever returned.
#[verifier::loop_isolation(false)]
pub fn collect_or_first_error<T, E>(results: Vec<Result<T, E>>) -> (r: Result<Vec<T>, E>)
    ensures
        r is Ok <==> all_ok(results@),
        r is Ok ==> r->Ok_0@ == ok_values(results@),
        r is Err ==> exists|k: int|
            {
                &&& 0 <= k < results@.len()
                &&& #[trigger] results@[k] is Err
                &&& r->Err_0 == results@[k]->Err_0
                &&& forall|j: int| 0 <= j < k ==> results@[j] is Ok
            },
{
    let ghost all = results@;
    let mut rest = results;
    let mut out: Vec<T> = Vec::new();
    while rest.len() > 0
        invariant
            out@.len() + rest@.len() == all.len(),
            forall|i: int|
                0 <= i < out@.len() ==> #[trigger] all[i] is Ok && out@[i] == all[i]->Ok_0,
            forall|j: int| 0 <= j < rest@.len() ==> #[trigger] rest@[j] == all[out@.len() + j],
        decreases rest@.len(),
    {
        let x = rest.remove(0);
        match x {
            Ok(v) => {
                out.push(v);
            },
            Err(e) => {
                proof {
                    assert(all[out@.len() as int] is Err);
                }
                return Err(e);
            },
        }
    }
    proof {
        assert(out@ =~= ok_values(all));
    }
    Ok(out)
}

/// What racing a task against a deadline produced.
pub enum RaceOutcome<T> {
    /// The task finished before the deadline, with this result.
    Completed(T),
    /// The deadline passed first.
    TimedOut,
}

/// The task was still running when the deadline passed; it has been killed
/// and its result discarded.
#[derive(Debug, PartialEq, Eq, Structural)]
pub struct RaceTimeout;

impl<T> RaceOutcome<T> {
    /// Resolves a race: the task's own result when it finished in time,
    /// otherwise an explicit timeout error. A timeout is never silently
    /// dropped, so a hung remote task always surfaces as a failure.
    pub fn into_result(self) -> (r: Result<T, RaceTimeout>)
        ensures
            self is Completed <==> r is Ok,
            self matches RaceOutcome::Completed(v) ==> r == Ok::<T, RaceTimeout>(v),
            self is TimedOut ==> r == Err::<T, RaceTimeout>(RaceTimeout),
    {
        match self {
            RaceOutcome::Completed(v) => Ok(v),
            RaceOutcome::TimedOut => Err(RaceTimeout),
        }
    }
}

} // verus!
