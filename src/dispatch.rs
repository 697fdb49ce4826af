//! What a frame does with the events it drained from one queue: each goes to
//! the first subscriber that the registry lists for the event's class when
//! that event comes up; at the first event for which the registry lists none,
//! that event is discarded and the frame stops delivering from the queue.
use vstd::prelude::*;

verus! {

/// The deliveries a frame makes. `answers[i]` is the registry's first
/// subscriber as read for `events[i]`. Events are paired with their answers
/// in order, up to the first empty answer (or the end of either list).
pub open spec fn deliveries<T, R>(events: Seq<T>, answers: Seq<Option<R>>) -> Seq<(T, R)>
    decreases events.len(),
{
    if events.len() == 0 || answers.len() == 0 {
        Seq::empty()
    } else {
        match answers[0] {
            Some(r) => seq![(events[0], r)] + deliveries(events.drop_first(), answers.drop_first()),
            None => Seq::empty(),
        }
    }
}

/// Pairs each drained event with the subscriber that will receive it,
/// stopping at the first event for which the registry had none.
pub fn plan_deliveries<T, R>(drained: Vec<T>, answers: Vec<Option<R>>) -> (r: Vec<(T, R)>)
    ensures
        r@ == deliveries(drained@, answers@),
{
    let ghost all_events = drained@;
    let ghost all_answers = answers@;
    let mut out: Vec<(T, R)> = Vec::new();
    let mut events = drained;
    let mut pending = answers;
    while events.len() > 0 && pending.len() > 0
        invariant
            all_events == drained@,
            all_answers == answers@,
            out@ + deliveries(events@, pending@) == deliveries(all_events, all_answers),
        decreases events.len(),
    {
        let ghost before_events = events@;
        let ghost before_answers = pending@;
        let event = events.remove(0);
        let answer = pending.remove(0);
        proof {
            assert(events@ =~= before_events.drop_first());
            assert(pending@ =~= before_answers.drop_first());
        }
        match answer {
            Some(target) => {
                let ghost old_out = out@;
                out.push((event, target));
                proof {
                    assert(old_out + (seq![(event, target)] + deliveries(events@, pending@))
                        =~= out@ + deliveries(events@, pending@));
                }
            },
            None => {
                proof {
                    assert(before_answers[0] is None);
                    assert(deliveries(before_events, before_answers) =~= Seq::<(T, R)>::empty());
                    assert(out@ + Seq::<(T, R)>::empty() =~= out@);
                }
                return out;
            },
        }
    }
    proof {
        assert(out@ + Seq::<(T, R)>::empty() =~= out@);
    }
    out
}

/// When the registry has no subscriber for the first event a frame takes,
/// nothing drained from the queue is delivered: the event is discarded.
pub proof fn lemma_no_subscriber_discards<T, R>(events: Seq<T>, answers: Seq<Option<R>>)
    requires
        answers.len() > 0,
        answers[0] is None,
    ensures
        deliveries(events, answers).len() == 0,
{
}

/// When the registry lists one subscriber for every event, every drained
/// event is delivered to it exactly once, and in the order it was drained.
pub proof fn lemma_one_subscriber_gets_all<T, R>(
    events: Seq<T>,
    answers: Seq<Option<R>>,
    subscriber: R,
)
    requires
        answers.len() == events.len(),
        forall|i: int| 0 <= i < answers.len() ==> #[trigger] answers[i] == Some(subscriber),
    ensures
        deliveries(events, answers).len() == events.len(),
        forall|i: int|
            0 <= i < events.len() ==> #[trigger] deliveries(events, answers)[i] == (
            events[i],
            subscriber,
        ),
    decreases events.len(),
{
    if events.len() > 0 {
        let tail_events = events.drop_first();
        let tail_answers = answers.drop_first();
        assert forall|i: int| 0 <= i < tail_answers.len() implies #[trigger] tail_answers[i] == Some(
            subscriber,
        ) by {
            assert(tail_answers[i] == answers[i + 1]);
        }
        lemma_one_subscriber_gets_all(tail_events, tail_answers, subscriber);
        assert(answers[0] == Some(subscriber));
        let d = deliveries(events, answers);
        assert(d == seq![(events[0], subscriber)] + deliveries(tail_events, tail_answers));
        assert forall|i: int| 0 <= i < events.len() implies #[trigger] d[i] == (
            events[i],
            subscriber,
        ) by {
            if i > 0 {
                assert(d[i] == deliveries(tail_events, tail_answers)[i - 1]);
                assert(tail_events[i - 1] == events[i]);
            }
        }
    }
}

} // verus!
