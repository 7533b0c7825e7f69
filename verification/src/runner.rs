//! The runner: it applies an operation list strictly in order against one
//! owned driver, dispatching each operation to the matching capability and
//! aborting on the first failure.

use vstd::prelude::*;

use crate::blackhole;
use crate::config::Config;
use crate::domain::Driver;
use crate::domain::Error;
use crate::domain::ErrorSpec;
use crate::domain::Operation;

verus! {

/// What dispatching one operation to its capability does to a driver log
/// in state `log`.
pub open spec fn spec_step<T: Driver>(log: Seq<(Seq<char>, Seq<char>)>, op: Operation) -> Result<
    Seq<(Seq<char>, Seq<char>)>,
    ErrorSpec,
> {
    match op {
        Operation::Copy { from, to } => T::step_copy(log, from.location@, to.location@),
        Operation::Link { from, to, overwrite } => T::step_link(
            log,
            from.location@,
            to.location@,
            overwrite,
        ),
        Operation::Exec { working_dir, command, args } => T::step_exec(
            log,
            working_dir@,
            command@,
            args.deep_view(),
        ),
    }
}

/// Applying the operations in list order, fail-fast: the first failing
/// step decides the result, and nothing after it is reached.
pub open spec fn spec_run<T: Driver>(log: Seq<(Seq<char>, Seq<char>)>, ops: Seq<Operation>) -> Result<
    Seq<(Seq<char>, Seq<char>)>,
    ErrorSpec,
>
    decreases ops.len(),
{
    if ops.len() == 0 {
        Ok(log)
    } else {
        match spec_step::<T>(log, ops[0]) {
            Ok(next) => spec_run::<T>(next, ops.skip(1)),
            Err(e) => Err(e),
        }
    }
}

/// Runs every operation in order against the driver.  On success the final
/// driver state comes back; the first failing capability call aborts the
/// run, the remaining operations are never attempted, and the error is
/// propagated unchanged.
#[verifier::loop_isolation(false)]
pub fn run<T: Driver>(input: Config, driver: T) -> (r: Result<T, Error>)
    ensures
        match spec_run::<T>(driver.log_view(), input.operations@) {
            Ok(entries) => r matches Ok(d) && d.log_view() == entries,
            Err(e) => r matches Err(f) && f@ == e,
        },
{
    let ghost all_ops = input.operations@;
    let ghost start_log = driver.log_view();
    let ops = &input.operations;
    let n = ops.len();
    let mut current = driver;
    let mut i: usize = 0;
    proof {
        assert(all_ops.skip(0) =~= all_ops);
    }
    while i < n
        invariant
            i <= n,
            ops@ == all_ops,
            n == all_ops.len(),
            spec_run::<T>(start_log, all_ops) == spec_run::<T>(
                current.log_view(),
                all_ops.skip(i as int),
            ),
        decreases n - i,
    {
        let ghost rest = all_ops.skip(i as int);
        let ghost cur_log = current.log_view();
        proof {
            assert(rest[0] == all_ops[i as int]);
            assert(rest.skip(1) =~= all_ops.skip(i as int + 1));
        }
        let op = &ops[i];
        let step = match op {
            Operation::Copy { from, to } => {
                let s = current.copy(from.location.as_str(), to.location.as_str());
                proof {
                    assert(spec_step::<T>(cur_log, rest[0]) == T::step_copy(
                        cur_log,
                        from.location@,
                        to.location@,
                    ));
                }
                s
            },
            Operation::Link { from, to, overwrite } => {
                let s = current.link(from.location.as_str(), to.location.as_str(), *overwrite);
                proof {
                    assert(spec_step::<T>(cur_log, rest[0]) == T::step_link(
                        cur_log,
                        from.location@,
                        to.location@,
                        *overwrite,
                    ));
                }
                s
            },
            Operation::Exec { working_dir, command, args } => {
                let s = current.exec(working_dir.as_str(), command.as_str(), args);
                proof {
                    assert(spec_step::<T>(cur_log, rest[0]) == T::step_exec(
                        cur_log,
                        working_dir@,
                        command@,
                        args.deep_view(),
                    ));
                }
                s
            },
        };
        current = match step {
            Ok(d) => d,
            Err(e) => {
                proof {
                    assert(spec_run::<T>(cur_log, rest) == Result::<
                        Seq<(Seq<char>, Seq<char>)>,
                        ErrorSpec,
                    >::Err(e@));
                }
                return Err(e);
            },
        };
        proof {
            assert(spec_run::<T>(cur_log, rest) == spec_run::<T>(
                current.log_view(),
                rest.skip(1),
            ));
        }
        i = i + 1;
    }
    proof {
        assert(all_ops.skip(n as int) =~= Seq::<Operation>::empty());
    }
    Ok(current)
}

/// Fail-fast ordering: when the operations before place `i` all succeed
/// and the operation at `i` fails, the whole run reports exactly that
/// failure, whatever operations stand after it; they are never reached.
pub proof fn lemma_run_fail_fast<T: Driver>(
    log: Seq<(Seq<char>, Seq<char>)>,
    ops: Seq<Operation>,
    i: int,
)
    requires
        0 <= i < ops.len(),
        spec_run::<T>(log, ops.take(i)) is Ok,
        spec_step::<T>(spec_run::<T>(log, ops.take(i))->Ok_0, ops[i]) is Err,
    ensures
        spec_run::<T>(log, ops) == Result::<Seq<(Seq<char>, Seq<char>)>, ErrorSpec>::Err(
            spec_step::<T>(spec_run::<T>(log, ops.take(i))->Ok_0, ops[i])->Err_0,
        ),
    decreases i,
{
    if i == 0 {
        assert(ops.take(0) =~= Seq::<Operation>::empty());
        assert(spec_run::<T>(log, ops.take(0)) == Ok::<_, ErrorSpec>(log));
    } else {
        let prefix = ops.take(i);
        assert(prefix[0] == ops[0]);
        let first = spec_step::<T>(log, ops[0]);
        assert(first is Ok) by {
            if first is Err {
                assert(spec_run::<T>(log, prefix) is Err);
            }
        }
        let next = first->Ok_0;
        assert(ops.skip(1).take(i - 1) =~= prefix.skip(1));
        assert(ops.skip(1)[i - 1] == ops[i]);
        lemma_run_fail_fast::<T>(next, ops.skip(1), i - 1);
    }
}

/// The entry the recording driver appends for one operation.
pub open spec fn spec_recorded_entry(op: Operation) -> (Seq<char>, Seq<char>) {
    match op {
        Operation::Copy { from, to } => blackhole::spec_copy_entry(from.location@, to.location@),
        Operation::Link { from, to, overwrite } => blackhole::spec_link_entry(
            from.location@,
            overwrite,
            to.location@,
        ),
        Operation::Exec { working_dir, command, args } => blackhole::spec_exec_entry(
            working_dir@,
            command@,
            args.deep_view(),
        ),
    }
}

/// Dry-run log exactness: against the recording driver a run of any
/// operation list always succeeds, and the final log is the starting log
/// followed by exactly one entry per operation, in input order, with no
/// deduplication.  The recording driver has no other state, so a dry run
/// changes nothing beyond this log.
pub proof fn lemma_dry_run_log(log: Seq<(Seq<char>, Seq<char>)>, ops: Seq<Operation>)
    ensures
        spec_run::<blackhole::Driver>(log, ops) == Result::<
            Seq<(Seq<char>, Seq<char>)>,
            ErrorSpec,
        >::Ok(log + ops.map_values(|op: Operation| spec_recorded_entry(op))),
    decreases ops.len(),
{
    let entries = ops.map_values(|op: Operation| spec_recorded_entry(op));
    if ops.len() == 0 {
        assert(log + entries =~= log);
    } else {
        let first = spec_step::<blackhole::Driver>(log, ops[0]);
        assert(first == Ok::<_, ErrorSpec>(log.push(spec_recorded_entry(ops[0]))));
        let next = log.push(spec_recorded_entry(ops[0]));
        lemma_dry_run_log(next, ops.skip(1));
        assert(next + ops.skip(1).map_values(|op: Operation| spec_recorded_entry(op)) =~= log
            + entries);
    }
}

} // verus!
