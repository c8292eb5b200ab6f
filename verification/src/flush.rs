//! When a store is written to its file, and the background worker that
//! writes it.

use crate::entries::Entries;
use crate::error::Error;
use crate::serializer::{json_object, laid_out};
use std::time::Duration;
use vstd::prelude::*;

verus! {

/// When the entries in memory are written to the file. A store has one
/// policy for its whole life.
#[non_exhaustive]
#[derive(Debug, Clone, Copy)]
pub enum FlushPolicy {
    /// After every mutation. Safest, and the most writing.
    Immediate,
    /// By a background worker, every interval and whenever it is nudged.
    Async(Duration),
    /// Only when `flush` is called.
    Manual,
}

/// What is left for the caller to do once a mutation has changed the
/// entries in memory.
#[derive(Debug)]
pub enum FlushAction {
    /// Nothing.
    Idle,
    /// Wake the background worker without waiting for it. Where the worker
    /// is busy the nudge may be dropped: its next round writes the newest
    /// state anyway.
    Nudge,
    /// Write these bytes to the store's file, atomically, before the
    /// mutation is reported as done.
    Write(Vec<u8>),
}

/// `bytes` are a file of a store that holds `m`: JSON that reads back as
/// exactly `m`, in the layout that `pretty` asks for, and not empty.
pub open spec fn mirrors(bytes: Seq<u8>, pretty: bool, m: Entries) -> bool {
    &&& bytes.len() > 0
    &&& json_object(bytes) == Some(m)
    &&& laid_out(pretty, bytes, m.len())
}

/// `action` is what `policy` asks for after a mutation that left the
/// entries `m` in a store with the layout `pretty`: under `Immediate` a
/// write of bytes that mirror `m`, under `Async` a nudge, under `Manual`
/// nothing.
pub open spec fn answers(policy: FlushPolicy, pretty: bool, action: FlushAction, m: Entries) -> bool {
    match policy {
        FlushPolicy::Immediate => action matches FlushAction::Write(bytes) && mirrors(
            bytes@,
            pretty,
            m,
        ),
        FlushPolicy::Async(_) => action is Nudge,
        FlushPolicy::Manual => action is Idle,
    }
}

/// `out` is how the policy step after a mutation may end where the
/// mutation left the entries `m`: with the action that `policy` asks for, or,
/// under `Immediate` alone, with the `Serialize` error of an encoding that
/// failed.
pub open spec fn reported(
    policy: FlushPolicy,
    pretty: bool,
    out: Result<FlushAction, Error>,
    m: Entries,
) -> bool {
    match out {
        Ok(action) => answers(policy, pretty, action, m),
        Err(e) => policy is Immediate && e is Serialize,
    }
}

/// How a wait of the background worker ended.
#[derive(Debug, Clone, Copy, PartialEq, Eq, Structural)]
pub enum Wake {
    /// A nudge arrived.
    Nudged,
    /// The interval passed without a nudge.
    TimedOut,
    /// Every sender of nudges is gone.
    Disconnected,
}

/// What the background worker does next.
#[derive(Debug, Clone, Copy, PartialEq, Eq, Structural)]
pub enum WorkerAction {
    /// Wait for a nudge, for one interval at most.
    Wait,
    /// Write the store to its file. A failed write is not reported and does
    /// not end the worker.
    Flush,
    /// Leave the loop for good.
    Exit,
}

/// The worker's decision at the top of its loop, from the stop flag.
pub open spec fn top_of_loop(stop_requested: bool) -> WorkerAction {
    if stop_requested {
        WorkerAction::Exit
    } else {
        WorkerAction::Wait
    }
}

/// The worker's decision when its wait has ended.
pub open spec fn end_of_wait(wake: Wake) -> WorkerAction {
    match wake {
        Wake::Nudged => WorkerAction::Flush,
        Wake::TimedOut => WorkerAction::Flush,
        Wake::Disconnected => WorkerAction::Exit,
    }
}

/// At the top of its loop the worker reads the stop flag: it leaves where
/// the flag is set, and waits otherwise.
pub fn before_wait(stop_requested: bool) -> (next: WorkerAction)
    ensures
        next == top_of_loop(stop_requested),
{
    if stop_requested {
        WorkerAction::Exit
    } else {
        WorkerAction::Wait
    }
}

/// When its wait has ended the worker writes the store, whether it was
/// nudged or the interval passed, and leaves where no sender is left.
pub fn after_wait(wake: Wake) -> (next: WorkerAction)
    ensures
        next == end_of_wait(wake),
{
    match wake {
        Wake::Nudged => WorkerAction::Flush,
        Wake::TimedOut => WorkerAction::Flush,
        Wake::Disconnected => WorkerAction::Exit,
    }
}

/// The number of writes that a worker makes over `rounds`. In each round it
/// reads the stop flag, the round's first part, and then, unless it leaves,
/// waits; the round's second part is how that wait ends.
pub open spec fn flushes(rounds: Seq<(bool, Wake)>) -> nat
    decreases rounds.len(),
{
    if rounds.len() == 0 {
        0
    } else if top_of_loop(rounds[0].0) == WorkerAction::Exit {
        0
    } else if end_of_wait(rounds[0].1) == WorkerAction::Exit {
        0
    } else {
        1 + flushes(rounds.skip(1))
    }
}

/// Shutdown is prompt: a round that finds the stop flag set, or ends with
/// the senders gone, is the worker's last, and no write is made in it. So
/// where round `k` is such a round, every write falls in the rounds before
/// it.
pub proof fn lemma_stop_ends_flushing(rounds: Seq<(bool, Wake)>, k: int)
    requires
        0 <= k < rounds.len(),
        rounds[k].0 || rounds[k].1 == Wake::Disconnected,
    ensures
        flushes(rounds) <= k,
    decreases k,
{
    if k > 0 && top_of_loop(rounds[0].0) != WorkerAction::Exit && end_of_wait(rounds[0].1)
        != WorkerAction::Exit {
        let rest = rounds.skip(1);
        assert(rest[k - 1] == rounds[k]);
        lemma_stop_ends_flushing(rest, k - 1);
    }
}

} // verus!
