//! What holds of any series of operations on the task queue and the status
//! store, stated over the same models as the operations' own contracts:
//! `enqueue` is `push`, `dequeue` takes position 0 and leaves `skip(1)`,
//! `set_doc_status` is `insert`.

use crate::types::status::{DocStatusView, TaskID, TaskMessageView};
use vstd::prelude::*;

verus! {

/// The queue after the messages of `sent` were enqueued, in order.
pub open spec fn after_enqueues(queue: Seq<TaskMessageView>, sent: Seq<TaskMessageView>) -> Seq<
    TaskMessageView,
>
    decreases sent.len(),
{
    if sent.len() == 0 {
        queue
    } else {
        after_enqueues(queue.push(sent[0]), sent.skip(1))
    }
}

/// The queue after `turns` dequeues, one after the other. A dequeue on an
/// empty queue leaves it empty.
pub open spec fn after_dequeues(queue: Seq<TaskMessageView>, turns: nat) -> Seq<TaskMessageView>
    decreases turns,
{
    if turns == 0 {
        queue
    } else if queue.len() == 0 {
        after_dequeues(queue, (turns - 1) as nat)
    } else {
        after_dequeues(queue.skip(1), (turns - 1) as nat)
    }
}

/// What the dequeue of turn `turn` returns in a series of dequeues on
/// `queue`, the first dequeue being turn 0.
pub open spec fn taken_at(queue: Seq<TaskMessageView>, turn: nat) -> Option<TaskMessageView> {
    let left = after_dequeues(queue, turn);
    if left.len() > 0 {
        Some(left[0])
    } else {
        None
    }
}

/// The messages that `turns` dequeues return, in the order of the turns.
pub open spec fn taken_in(queue: Seq<TaskMessageView>, turns: nat) -> Seq<TaskMessageView>
    decreases turns,
{
    if turns == 0 || queue.len() == 0 {
        Seq::<TaskMessageView>::empty()
    } else {
        seq![queue[0]] + taken_in(queue.skip(1), (turns - 1) as nat)
    }
}

/// Enqueuing a series of messages appends them, in order.
pub proof fn lemma_enqueues_append(queue: Seq<TaskMessageView>, sent: Seq<TaskMessageView>)
    ensures
        after_enqueues(queue, sent) == queue + sent,
    decreases sent.len(),
{
    if sent.len() == 0 {
        assert(queue + sent =~= queue);
    } else {
        lemma_enqueues_append(queue.push(sent[0]), sent.skip(1));
        assert(queue.push(sent[0]) + sent.skip(1) =~= queue + sent);
    }
}

/// A series of dequeues removes the oldest messages, as many as there were
/// turns, or all of them.
pub proof fn lemma_dequeues_skip(queue: Seq<TaskMessageView>, turns: nat)
    ensures
        after_dequeues(queue, turns) == if turns <= queue.len() {
            queue.skip(turns as int)
        } else {
            Seq::<TaskMessageView>::empty()
        },
    decreases turns,
{
    if turns == 0 {
        assert(queue.skip(0) =~= queue);
    } else if queue.len() == 0 {
        lemma_dequeues_skip(queue, (turns - 1) as nat);
        assert(queue.skip(0) =~= Seq::<TaskMessageView>::empty());
    } else {
        lemma_dequeues_skip(queue.skip(1), (turns - 1) as nat);
        if turns <= queue.len() {
            assert(queue.skip(1).skip(turns - 1) =~= queue.skip(turns as int));
        }
    }
}

/// As many dequeues as messages wait return all of them, oldest first.
pub proof fn lemma_dequeues_return_in_order(queue: Seq<TaskMessageView>)
    ensures
        taken_in(queue, queue.len()) == queue,
    decreases queue.len(),
{
    if queue.len() > 0 {
        lemma_dequeues_return_in_order(queue.skip(1));
        assert(seq![queue[0]] + queue.skip(1) =~= queue);
    }
}

/// First in, first out: after the messages of `sent` were enqueued on an
/// empty queue, as many dequeues return exactly `sent`, in the order in
/// which they were enqueued.
pub proof fn lemma_queue_is_fifo(sent: Seq<TaskMessageView>)
    ensures
        taken_in(after_enqueues(Seq::<TaskMessageView>::empty(), sent), sent.len()) == sent,
{
    lemma_enqueues_append(Seq::<TaskMessageView>::empty(), sent);
    assert(Seq::<TaskMessageView>::empty() + sent =~= sent);
    lemma_dequeues_return_in_order(sent);
}

/// Each message is handed out once: in any series of dequeues on `queue`,
/// the message at position `p` is what turn `p` returns, and every turn
/// from `queue.len()` on returns nothing. Dequeues are taken one after the
/// other here: with several consumers, the turns are theirs in whatever
/// order they come to the queue, and the message of a turn goes to the
/// consumer whose turn it is and to no other.
pub proof fn lemma_each_message_is_taken_once(queue: Seq<TaskMessageView>)
    ensures
        forall|turn: nat|
            turn < queue.len() ==> #[trigger] taken_at(queue, turn) == Some(queue[turn as int]),
        forall|turn: nat| turn >= queue.len() ==> #[trigger] taken_at(queue, turn) is None,
{
    assert forall|turn: nat| turn < queue.len() implies #[trigger] taken_at(queue, turn) == Some(
        queue[turn as int],
    ) by {
        lemma_dequeues_skip(queue, turn);
    }
    assert forall|turn: nat| turn >= queue.len() implies #[trigger] taken_at(queue, turn)
        is None by {
        lemma_dequeues_skip(queue, turn);
    }
}

/// The records after the records of `written` were written, in order.
pub open spec fn after_writes(
    records: Map<TaskID, DocStatusView>,
    written: Seq<DocStatusView>,
) -> Map<TaskID, DocStatusView>
    decreases written.len(),
{
    if written.len() == 0 {
        records
    } else {
        after_writes(records.insert(written[0].request_id, written[0]), written.skip(1))
    }
}

/// Writing adds records under the written identifiers and under no other:
/// an identifier has a record after a series of writes exactly when it had
/// one before or one of the writes was under it.
pub proof fn lemma_writes_reach_only_their_ids(
    records: Map<TaskID, DocStatusView>,
    written: Seq<DocStatusView>,
    id: TaskID,
)
    ensures
        after_writes(records, written).contains_key(id) <==> (records.contains_key(id) || exists|
            i: int,
        |
            0 <= i < written.len() && #[trigger] written[i].request_id == id),
    decreases written.len(),
{
    if written.len() > 0 {
        let first = written[0];
        let rest = written.skip(1);
        lemma_writes_reach_only_their_ids(records.insert(first.request_id, first), rest, id);
        if exists|i: int| 0 <= i < rest.len() && #[trigger] rest[i].request_id == id {
            let i = choose|i: int| 0 <= i < rest.len() && #[trigger] rest[i].request_id == id;
            assert(written[i + 1].request_id == id);
        }
        if exists|i: int| 0 <= i < written.len() && #[trigger] written[i].request_id == id {
            let i = choose|i: int| 0 <= i < written.len() && #[trigger] written[i].request_id == id;
            if i > 0 {
                assert(rest[i - 1].request_id == id);
            }
        }
    }
}

/// An identifier that was never written has no record: in a store that
/// started empty, `get_doc_status` can answer it only with
/// `DocidNotFound`.
pub proof fn lemma_unwritten_id_has_no_record(written: Seq<DocStatusView>, id: TaskID)
    requires
        forall|i: int| 0 <= i < written.len() ==> written[i].request_id != id,
    ensures
        !after_writes(Map::<TaskID, DocStatusView>::empty(), written).contains_key(id),
{
    lemma_writes_reach_only_their_ids(Map::<TaskID, DocStatusView>::empty(), written, id);
}

/// The last write wins: after a series of writes, the record under the
/// identifier of the last one is the last one.
pub proof fn lemma_last_write_wins(
    records: Map<TaskID, DocStatusView>,
    written: Seq<DocStatusView>,
)
    requires
        written.len() > 0,
    ensures
        after_writes(records, written)[written.last().request_id] == written.last(),
        after_writes(records, written).contains_key(written.last().request_id),
    decreases written.len(),
{
    let first = written[0];
    let rest = written.skip(1);
    if rest.len() > 0 {
        lemma_last_write_wins(records.insert(first.request_id, first), rest);
        assert(rest.last() == written.last());
    } else {
        assert(after_writes(records.insert(first.request_id, first), rest) == records.insert(
            first.request_id,
            first,
        ));
    }
}

/// Writing is an idempotent upsert: a record written twice in a row is
/// held as if it had been written once.
pub proof fn lemma_write_is_idempotent(records: Map<TaskID, DocStatusView>, status: DocStatusView)
    ensures
        after_writes(records, seq![status, status]) == after_writes(records, seq![status]),
{
    let once = records.insert(status.request_id, status);
    assert(seq![status, status].skip(1) =~= seq![status]);
    assert(seq![status].skip(1) =~= Seq::<DocStatusView>::empty());
    assert(after_writes(once, Seq::<DocStatusView>::empty()) == once);
    assert(after_writes(records, seq![status]) == once);
    assert(once.insert(status.request_id, status) =~= once);
    assert(after_writes(once, seq![status]) == once);
}

} // verus!
