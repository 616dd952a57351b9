//! What the steps of the two sides add up to over whole runs: exhaustion,
//! the hand-over of values, failure, and forced unwinding.

use crate::error::Error;
use crate::record::Exit;
use crate::record::ForceUnwind;
use crate::record::item_of;
use crate::record::Record;
use crate::stack::first_fit;
use crate::stack::lemma_given_stack_is_reused;
use crate::stack::Segment;
use vstd::prelude::*;

verus! {

/// What a run of the two sides leaves behind: the record, what the body saw
/// each time it woke, and what the resumer got from each resume.
pub struct Trace<F, T, P> {
    pub record: Record<F, T, P>,
    pub body: Seq<Result<Option<T>, ForceUnwind>>,
    pub resumer: Seq<Result<Option<T>, Error<P>>>,
}

/// One resume of a coroutine whose body has ended. The resumer sends a
/// value or nothing and gives control away; the coroutine parks and gives
/// control back; the resumer empties the slot. Gives the record afterwards
/// and what the resumer got.
pub open spec fn resume_ended<F, T, P>(r: Record<F, T, P>, sent: Option<T>) -> (
    Record<F, T, P>,
    Result<Option<T>, Error<P>>,
) {
    let staged = match sent {
        Some(v) => r.sent(v),
        None => r,
    };
    let parked = staged.parked();
    (parked.drained(), parked.received())
}

/// The record after a coroutine whose body has ended was resumed once for
/// each entry of `sends`.
pub open spec fn after_resumes<F, T, P>(r: Record<F, T, P>, sends: Seq<Option<T>>) -> Record<
    F,
    T,
    P,
>
    decreases sends.len(),
{
    if sends.len() == 0 {
        r
    } else {
        resume_ended(after_resumes(r, sends.drop_last()), sends.last()).0
    }
}

/// Exhaustion is permanent: once the body has ended without a failure,
/// every resume finds no value, however often the coroutine is resumed and
/// whatever is sent to it, and the coroutine stays finished.
pub proof fn lemma_exhaustion_is_permanent<F, T, P>(
    r: Record<F, T, P>,
    sends: Seq<Option<T>>,
    sent: Option<T>,
)
    requires
        r.state is Finished,
        !r.panicked,
    ensures
        after_resumes(r, sends).state is Finished,
        !after_resumes(r, sends).panicked,
        resume_ended(after_resumes(r, sends), sent).1 == Ok::<Option<T>, Error<P>>(None),
    decreases sends.len(),
{
    if sends.len() > 0 {
        lemma_exhaustion_is_permanent(r, sends.drop_last(), sends.last());
    }
}

/// The resume during which the body returns finds no value, and leaves a
/// coroutine whose exhaustion is permanent.
pub proof fn lemma_return_yields_no_value<F, T, P>(r: Record<F, T, P>)
    ensures
        r.finished(Exit::Returned).received() == Ok::<Option<T>, Error<P>>(None),
        r.finished(Exit::Returned).state is Finished,
        !r.panicked ==> !r.finished(Exit::Returned).panicked,
{
}

/// A failure is delivered once: the resume during which the body fails gets
/// the failure with its payload, and every resume after that gets the
/// sentinel, never the payload again.
pub proof fn lemma_failure_is_delivered_once<F, T, P>(
    r: Record<F, T, P>,
    payload: P,
    message: Option<String>,
    sends: Seq<Option<T>>,
    sent: Option<T>,
)
    ensures
        r.finished(Exit::Panicked { payload, message }).received() == Err::<Option<T>, Error<P>>(
            Error::Panicking(payload),
        ),
        resume_ended(
            after_resumes(r.finished(Exit::Panicked { payload, message }).drained(), sends),
            sent,
        ).1 == Err::<Option<T>, Error<P>>(Error::Panicked),
{
    lemma_failed_stays_failed(r.finished(Exit::Panicked { payload, message }).drained(), sends);
}

/// A coroutine whose body has failed stays so under any number of resumes.
pub proof fn lemma_failed_stays_failed<F, T, P>(r: Record<F, T, P>, sends: Seq<Option<T>>)
    requires
        r.panicked,
    ensures
        after_resumes(r, sends).panicked,
        after_resumes(r, sends).state == r.state,
    decreases sends.len(),
{
    if sends.len() > 0 {
        lemma_failed_stays_failed(r, sends.drop_last());
    }
}

/// A value that the resumer sends is seen by the body when it next wakes,
/// and only then: a second look into the slot finds nothing.
pub proof fn lemma_value_is_seen_once<F, T, P>(r: Record<F, T, P>, v: T)
    requires
        !(r.state is ForceUnwind),
    ensures
        r.sent(v).observed() == Ok::<Option<T>, ForceUnwind>(Some(v)),
        r.sent(v).woken().observed() == Ok::<Option<T>, ForceUnwind>(None),
        r.sent(v).woken().result is None,
{
}

/// A run of a body that is suspended in a yield: for each entry of `sent`
/// the resumer sends it and gives control away, the body wakes and looks
/// into the slot, answers with the matching entry of `replies` (a value, or
/// nothing) and gives control back, and the resumer empties the slot.
pub open spec fn exchanges<F, T, P>(
    r: Record<F, T, P>,
    sent: Seq<T>,
    replies: Seq<Option<T>>,
) -> Trace<F, T, P>
    decreases sent.len(),
{
    if sent.len() == 0 || replies.len() != sent.len() {
        Trace { record: r, body: Seq::empty(), resumer: Seq::empty() }
    } else {
        let before = exchanges(r, sent.drop_last(), replies.drop_last());
        let staged = before.record.sent(sent.last());
        let woke = staged.woken();
        let answered = match replies.last() {
            Some(w) => woke.sent(w),
            None => woke,
        };
        Trace {
            record: answered.drained(),
            body: before.body.push(staged.observed()),
            resumer: before.resumer.push(answered.received()),
        }
    }
}

/// Single-slot hand-over in strict alternation: over any run of resumes
/// with a value, the body sees exactly the values that were sent, each once
/// and in the order sent, and the resumer gets exactly the body's answers,
/// in order. Nothing else in the record changes.
pub proof fn lemma_values_arrive_in_order<F, T, P>(
    r: Record<F, T, P>,
    sent: Seq<T>,
    replies: Seq<Option<T>>,
)
    requires
        !(r.state is ForceUnwind),
        replies.len() == sent.len(),
    ensures
        exchanges(r, sent, replies).body.len() == sent.len(),
        exchanges(r, sent, replies).resumer.len() == sent.len(),
        forall|i: int|
            0 <= i < sent.len() ==> #[trigger] exchanges(r, sent, replies).body[i] == Ok::<
                Option<T>,
                ForceUnwind,
            >(Some(sent[i])),
        forall|i: int|
            0 <= i < sent.len() ==> #[trigger] exchanges(r, sent, replies).resumer[i] == Ok::<
                Option<T>,
                Error<P>,
            >(replies[i]),
        sent.len() > 0 ==> exchanges(r, sent, replies).record == r.drained(),
        exchanges(r, sent, replies).record.state == r.state,
    decreases sent.len(),
{
    if sent.len() > 0 {
        lemma_values_arrive_in_order(r, sent.drop_last(), replies.drop_last());
    }
}

/// Letting go of a coroutine whose body is suspended mid-way: the body is
/// asked to unwind, and when it wakes it finds the signal to unwind, not a
/// value, whatever the slot holds, and as often as it looks. Until the
/// unwinding has run through the body, the stack cannot be reclaimed. Once
/// it has, the coroutine is finished without a failure, the resumer finds
/// nothing to report, and the stack, which is the same throughout, can be
/// reclaimed.
pub proof fn lemma_abandoned_body_is_unwound<F, T, P>(r: Record<F, T, P>)
    requires
        r.wf(),
        r.state is Running,
    ensures
        r.unwinding().state is ForceUnwind,
        r.unwinding().observed() == Err::<Option<T>, ForceUnwind>(ForceUnwind),
        r.unwinding().woken().state is ForceUnwind,
        r.unwinding().woken().observed() == Err::<Option<T>, ForceUnwind>(ForceUnwind),
        !r.reclaimable(),
        !r.unwinding().reclaimable(),
        r.unwinding().reclaimed() == r.unwinding(),
        r.unwinding().finished(Exit::Unwound).state is Finished,
        !r.unwinding().finished(Exit::Unwound).panicked,
        r.unwinding().finished(Exit::Unwound).received() == Ok::<Option<T>, Error<P>>(None),
        r.unwinding().finished(Exit::Unwound).segment() == r.segment(),
        r.unwinding().finished(Exit::Unwound).reclaimable(),
        r.unwinding().finished(Exit::Unwound).reclaimed().segment() is None,
{
}

/// A coroutine whose body is not suspended mid-way is let go of as it is:
/// nothing is asked of it.
pub proof fn lemma_only_a_running_body_is_unwound<F, T, P>(r: Record<F, T, P>)
    requires
        !(r.state is Running),
    ensures
        r.unwinding() == r,
{
}

/// The resumer never reads what it wrote: whichever way control comes to
/// the coroutine after the resumer sent `v`, by the first entry, by waking
/// from a yield or by waking after the body's end, the slot no longer holds
/// a value for the resumer to find. What it finds when control is back was
/// put there by the coroutine after that.
pub proof fn lemma_resumer_never_reads_its_own_value<F, T, P>(r: Record<F, T, P>, v: T)
    ensures
        r.state is Created ==> r.sent(v).started().result is None,
        r.sent(v).woken().result is None,
        r.sent(v).parked().pending() is None,
        r.state is Created ==> r.sent(v).started().received() == Ok::<Option<T>, Error<P>>(None),
        r.sent(v).woken().received() == Ok::<Option<T>, Error<P>>(None),
{
}

/// The value of the resume that first enters a body waits for the body and
/// is handed out once: the first take gets it, the next finds nothing, and
/// a body that yields without taking it leaves its resumer with no value.
pub proof fn lemma_first_value_waits_for_the_body<F, T, P>(r: Record<F, T, P>, v: T)
    requires
        r.state is Created,
    ensures
        r.sent(v).started().state is Running,
        r.sent(v).started().taken() == Some(v),
        r.sent(v).started().after_take().taken() is None,
        r.sent(v).started().received() == Ok::<Option<T>, Error<P>>(None),
        r.sent(v).started().drained().taken() == Some(v),
{
}

/// Read as a sequence, a coroutine whose body fails gives one failure item,
/// with the payload, and is exhausted after that: every further pull ends
/// the sequence, however often it is pulled and whatever is sent.
pub proof fn lemma_sequence_ends_after_a_failure<F, T, P>(
    r: Record<F, T, P>,
    payload: P,
    message: Option<String>,
    sends: Seq<Option<T>>,
    sent: Option<T>,
)
    ensures
        item_of(r.finished(Exit::Panicked { payload, message }).received()) == Some(
            Err::<T, Error<P>>(Error::Panicking(payload)),
        ),
        item_of(
            resume_ended(
                after_resumes(r.finished(Exit::Panicked { payload, message }).drained(), sends),
                sent,
            ).1,
        ) == None::<Result<T, Error<P>>>,
{
    lemma_failure_is_delivered_once(r, payload, message, sends, sent);
}

/// Read as a sequence, a coroutine whose body has returned is exhausted:
/// every pull ends the sequence.
pub proof fn lemma_sequence_ends_after_a_return<F, T, P>(
    r: Record<F, T, P>,
    sends: Seq<Option<T>>,
    sent: Option<T>,
)
    requires
        r.state is Finished,
        !r.panicked,
    ensures
        item_of(resume_ended(after_resumes(r, sends), sent).1) == None::<Result<T, Error<P>>>,
{
    lemma_exhaustion_is_permanent(r, sends, sent);
}

/// No step of either side moves the coroutine's stack segment: it stays
/// with the coroutine from the spawn until it is reclaimed.
pub proof fn lemma_steps_keep_the_stack<F, T, P>(r: Record<F, T, P>, v: T, exit: Exit<P>)
    ensures
        r.sent(v).segment() == r.segment(),
        r.drained().segment() == r.segment(),
        r.cleared().segment() == r.segment(),
        r.after_take().segment() == r.segment(),
        r.woken().segment() == r.segment(),
        r.started().segment() == r.segment(),
        r.finished(exit).segment() == r.segment(),
        r.parked().segment() == r.segment(),
        r.unwinding().segment() == r.segment(),
{
}

/// The round trip of a stack: once a coroutine's segment has been given to
/// the pool that holds `idle`, the next spawn that asks for no more than
/// the segment's size is served from the pool, without a fresh allocation;
/// and where no older idle segment is large enough, it gets that very
/// segment, and the pool is left as it was before.
pub proof fn lemma_reclaimed_stack_is_reused<F, T, P>(
    r: Record<F, T, P>,
    idle: Seq<Segment>,
    size: usize,
)
    requires
        r.segment() is Some,
        size <= r.segment()->0.size(),
    ensures
        first_fit(idle.push(r.segment()->0), size) < idle.push(r.segment()->0).len(),
        first_fit(idle, size) >= idle.len() ==> {
            &&& idle.push(r.segment()->0)[first_fit(idle.push(r.segment()->0), size)]
                == r.segment()->0
            &&& idle.push(r.segment()->0).remove(first_fit(idle.push(r.segment()->0), size))
                == idle
        },
{
    lemma_given_stack_is_reused(idle, r.segment()->0, size);
}

} // verus!
