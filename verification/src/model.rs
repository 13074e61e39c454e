//! The message protocol, as mathematics: what a worker executes from the
//! stream of messages it consumes, and why the shutdown coordinator's
//! counting — one `Terminate` per worker — stops every worker.
//!
//! The channel hands each sent message to exactly one worker; these laws
//! take the streams so consumed as given and pin down what the workers do
//! with them.

use vstd::prelude::*;
use vstd::multiset::Multiset;
use vstd::seq_lib::lemma_multiset_commutative;
use crate::message::Message;

verus! {

/// The messages that enqueue the given tasks, in order.
pub open spec fn enqueue<T>(tasks: Seq<T>) -> Seq<Message<T>> {
    tasks.map_values(|t: T| Message::NewTask(t))
}

/// The tasks a worker executes from the stream of messages it consumes:
/// every task payload strictly before the first `Terminate`, in arrival
/// order, each exactly once.
pub open spec fn executed_tasks<T>(msgs: Seq<Message<T>>) -> Seq<T>
    decreases msgs.len(),
{
    if msgs.len() == 0 {
        Seq::<T>::empty()
    } else if msgs[0] is Terminate {
        Seq::<T>::empty()
    } else {
        seq![msgs[0]->NewTask_0] + executed_tasks(msgs.drop_first())
    }
}

/// How many stop signals a stream carries.
pub open spec fn terminate_count<T>(msgs: Seq<Message<T>>) -> nat
    decreases msgs.len(),
{
    if msgs.len() == 0 {
        0
    } else {
        (if msgs[0] is Terminate {
            1nat
        } else {
            0nat
        }) + terminate_count(msgs.drop_first())
    }
}

/// A worker's loop ends exactly when its stream carries a stop signal.
pub open spec fn worker_halts<T>(msgs: Seq<Message<T>>) -> bool {
    terminate_count(msgs) >= 1
}

/// The stop signals carried by all workers' streams together.
pub open spec fn total_terminates<T>(streams: Seq<Seq<Message<T>>>) -> nat
    decreases streams.len(),
{
    if streams.len() == 0 {
        0
    } else {
        terminate_count(streams[0]) + total_terminates(streams.drop_first())
    }
}

/// A single consumer that is handed the enqueued tasks, then a stop
/// signal, executes each task exactly once, in submission order, before
/// stopping — whatever else may follow the stop signal.  This is the
/// drain-before-exit policy: queued work present at shutdown still runs.
pub proof fn lemma_worker_executes_each_task_once<T>(tasks: Seq<T>, rest: Seq<Message<T>>)
    ensures
        executed_tasks(enqueue(tasks) + seq![Message::<T>::Terminate] + rest) == tasks,
    decreases tasks.len(),
{
    let msgs = enqueue(tasks) + seq![Message::<T>::Terminate] + rest;
    if tasks.len() == 0 {
        assert(msgs[0] is Terminate);
        assert(executed_tasks(msgs) =~= tasks);
    } else {
        assert(msgs[0] == Message::NewTask(tasks[0]));
        lemma_worker_executes_each_task_once(tasks.drop_first(), rest);
        assert(msgs.drop_first() =~= enqueue(tasks.drop_first()) + seq![Message::<T>::Terminate]
            + rest);
        assert(executed_tasks(msgs) =~= tasks);
    }
}

/// Streams whose stop signals each amount to at most one carry at most
/// one per stream in total.
proof fn lemma_total_terminates_at_most_count<T>(streams: Seq<Seq<Message<T>>>)
    requires
        forall|i: int| 0 <= i < streams.len() ==> terminate_count(#[trigger] streams[i]) <= 1,
    ensures
        total_terminates(streams) <= streams.len(),
    decreases streams.len(),
{
    if streams.len() > 0 {
        let tail = streams.drop_first();
        assert forall|i: int| 0 <= i < tail.len() implies terminate_count(#[trigger] tail[i])
            <= 1 by {
            assert(tail[i] == streams[i + 1]);
        }
        lemma_total_terminates_at_most_count(tail);
    }
}

/// All task payloads a stream carries, wherever they stand.
pub open spec fn task_payloads<T>(msgs: Seq<Message<T>>) -> Multiset<T>
    decreases msgs.len(),
{
    if msgs.len() == 0 {
        Multiset::<T>::empty()
    } else if msgs[0] is NewTask {
        task_payloads(msgs.drop_first()).insert(msgs[0]->NewTask_0)
    } else {
        task_payloads(msgs.drop_first())
    }
}

/// A worker stops at its first stop signal and consumes nothing after
/// it, so in the stream it consumed, only the last message can be one.
pub open spec fn stops_at_first_terminate<T>(msgs: Seq<Message<T>>) -> bool {
    forall|i: int| 0 <= i < msgs.len() - 1 ==> (#[trigger] msgs[i]) is NewTask
}

/// The task payloads delivered across all workers' streams.
pub open spec fn delivered_tasks<T>(streams: Seq<Seq<Message<T>>>) -> Multiset<T>
    decreases streams.len(),
{
    if streams.len() == 0 {
        Multiset::<T>::empty()
    } else {
        task_payloads(streams[0]).add(delivered_tasks(streams.drop_first()))
    }
}

/// The tasks executed across all workers.
pub open spec fn pool_executed<T>(streams: Seq<Seq<Message<T>>>) -> Multiset<T>
    decreases streams.len(),
{
    if streams.len() == 0 {
        Multiset::<T>::empty()
    } else {
        executed_tasks(streams[0]).to_multiset().add(pool_executed(streams.drop_first()))
    }
}

/// A worker that stops only at its first stop signal executes exactly
/// the task payloads its stream delivered to it.
proof fn lemma_stream_executes_delivered<T>(msgs: Seq<Message<T>>)
    requires
        stops_at_first_terminate(msgs),
    ensures
        executed_tasks(msgs).to_multiset() == task_payloads(msgs),
    decreases msgs.len(),
{
    broadcast use vstd::seq_lib::group_to_multiset_ensures;
    broadcast use vstd::multiset::group_multiset_axioms;

    if msgs.len() == 0 {
        assert(executed_tasks(msgs).to_multiset() =~= Multiset::<T>::empty());
    } else if msgs[0] is Terminate {
        assert(msgs.len() == 1);
        assert(msgs.drop_first().len() == 0);
        assert(task_payloads(msgs.drop_first()) =~= Multiset::<T>::empty());
        assert(task_payloads(msgs) =~= Multiset::<T>::empty());
        assert(executed_tasks(msgs).to_multiset() =~= Multiset::<T>::empty());
    } else {
        let p = msgs[0]->NewTask_0;
        let tail = msgs.drop_first();
        assert forall|i: int| 0 <= i < tail.len() - 1 implies (#[trigger] tail[i])
            is NewTask by {
            assert(tail[i] == msgs[i + 1]);
        }
        lemma_stream_executes_delivered(tail);
        lemma_multiset_commutative(seq![p], executed_tasks(tail));
        assert(seq![p] =~= Seq::<T>::empty().push(p));
        assert(seq![p].to_multiset() =~= Multiset::<T>::empty().insert(p));
        assert(executed_tasks(msgs).to_multiset() =~= task_payloads(msgs));
    }
}

/// The whole pool loses no task and doubles none: if the channel handed
/// each submitted task to exactly one worker — the payloads delivered
/// across all streams are exactly the submitted tasks — and each worker
/// stops only at its first stop signal, then the tasks executed across
/// the pool are exactly the submitted tasks, and counting executions,
/// one per task, gives exactly the number of submissions.
pub proof fn lemma_pool_executes_each_task_once<T>(streams: Seq<Seq<Message<T>>>, tasks: Seq<T>)
    requires
        forall|i: int| 0 <= i < streams.len() ==> stops_at_first_terminate(#[trigger] streams[i]),
        delivered_tasks(streams) == tasks.to_multiset(),
    ensures
        pool_executed(streams) == tasks.to_multiset(),
        pool_executed(streams).len() == tasks.len(),
    decreases streams.len(),
{
    broadcast use vstd::seq_lib::group_to_multiset_ensures;
    broadcast use vstd::multiset::group_multiset_axioms;

    lemma_pool_executed_is_delivered(streams);
}

/// Stream by stream, what the pool executes is what was delivered.
proof fn lemma_pool_executed_is_delivered<T>(streams: Seq<Seq<Message<T>>>)
    requires
        forall|i: int| 0 <= i < streams.len() ==> stops_at_first_terminate(#[trigger] streams[i]),
    ensures
        pool_executed(streams) == delivered_tasks(streams),
    decreases streams.len(),
{
    if streams.len() > 0 {
        let tail = streams.drop_first();
        assert forall|i: int| 0 <= i < tail.len() implies stops_at_first_terminate(
            #[trigger] tail[i],
        ) by {
            assert(tail[i] == streams[i + 1]);
        }
        lemma_stream_executes_delivered(streams[0]);
        lemma_pool_executed_is_delivered(tail);
    }
}

/// Why shutdown stops the whole pool: the coordinator sends exactly as
/// many stop signals as there are workers, the channel delivers each to
/// exactly one worker, and a worker stops at its first — consuming no
/// second one.  Then no worker can be left without: every worker's
/// stream carries exactly one stop signal, so every worker halts.
pub proof fn lemma_every_worker_stops<T>(streams: Seq<Seq<Message<T>>>)
    requires
        forall|i: int| 0 <= i < streams.len() ==> terminate_count(#[trigger] streams[i]) <= 1,
        total_terminates(streams) == streams.len(),
    ensures
        forall|i: int| 0 <= i < streams.len() ==> terminate_count(#[trigger] streams[i]) == 1,
        forall|i: int| 0 <= i < streams.len() ==> worker_halts(#[trigger] streams[i]),
    decreases streams.len(),
{
    if streams.len() > 0 {
        let tail = streams.drop_first();
        assert forall|i: int| 0 <= i < tail.len() implies terminate_count(#[trigger] tail[i])
            <= 1 by {
            assert(tail[i] == streams[i + 1]);
        }
        lemma_total_terminates_at_most_count(tail);
        assert(terminate_count(streams[0]) == 1);
        lemma_every_worker_stops(tail);
        assert forall|i: int| 0 <= i < streams.len() implies terminate_count(
            #[trigger] streams[i],
        ) == 1 by {
            if i > 0 {
                assert(streams[i] == tail[i - 1]);
            }
        }
    }
}

} // verus!

