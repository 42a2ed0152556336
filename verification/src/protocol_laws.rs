//! What holds of every run of the protocol client.
//!
//! A run is a sequence of steps, each either the receipt of an event or an
//! attempt to submit a change of configuration. The laws below speak of the
//! requests that a client sends over a whole run.

use crate::transform::Transform;
use crate::wayland::{known_transform, transform_of_head, ClientView, Event, Request};
use vstd::prelude::*;

verus! {

/// One step of a run.
pub enum Step {
    /// An event is received.
    Receive(Event),
    /// A change of the target's transform is attempted.
    Submit(Transform),
}

/// The state after one step.
pub open spec fn after_step(state: ClientView, step: Step) -> ClientView {
    match step {
        Step::Receive(event) => state.after_event(event),
        Step::Submit(_) => state.after_submit(),
    }
}

/// The requests that one step sends.
pub open spec fn sent_by(state: ClientView, step: Step) -> Seq<Request> {
    match step {
        Step::Receive(event) => match state.answer(event) {
            Some(request) => seq![request],
            None => Seq::empty(),
        },
        Step::Submit(transform) => state.submitted(transform),
    }
}

/// The state after a run.
pub open spec fn after_run(state: ClientView, steps: Seq<Step>) -> ClientView
    decreases steps.len(),
{
    if steps.len() == 0 {
        state
    } else {
        after_step(after_run(state, steps.drop_last()), steps.last())
    }
}

/// All requests sent during a run, in order.
pub open spec fn sent(state: ClientView, steps: Seq<Step>) -> Seq<Request>
    decreases steps.len(),
{
    if steps.len() == 0 {
        Seq::empty()
    } else {
        sent(state, steps.drop_last()) + sent_by(
            after_run(state, steps.drop_last()),
            steps.last(),
        )
    }
}

/// The serials against which `requests` create transactions, in order.
pub open spec fn created(requests: Seq<Request>) -> Seq<u32>
    decreases requests.len(),
{
    if requests.len() == 0 {
        Seq::empty()
    } else {
        match requests.last() {
            Request::CreateConfiguration { serial } => created(requests.drop_last()).push(serial),
            _ => created(requests.drop_last()),
        }
    }
}

/// The transactions that `requests` release, in order.
pub open spec fn destroyed(requests: Seq<Request>) -> Seq<u32>
    decreases requests.len(),
{
    if requests.len() == 0 {
        Seq::empty()
    } else {
        match requests.last() {
            Request::Destroy { transaction } => destroyed(requests.drop_last()).push(transaction),
            _ => destroyed(requests.drop_last()),
        }
    }
}

/// The serials that the compositor announces during a run, in order.
pub open spec fn announced(steps: Seq<Step>) -> Seq<u32>
    decreases steps.len(),
{
    if steps.len() == 0 {
        Seq::empty()
    } else {
        match steps.last() {
            Step::Receive(Event::Done { serial }) => announced(steps.drop_last()).push(serial),
            _ => announced(steps.drop_last()),
        }
    }
}

/// Holds when each element is larger than all before it.
pub open spec fn strictly_increasing(s: Seq<u32>) -> bool {
    forall|i: int, j: int| 0 <= i < j < s.len() ==> s[i] < s[j]
}

/// `created` distributes over concatenation.
proof fn lemma_created_concat(a: Seq<Request>, b: Seq<Request>)
    ensures
        created(a + b) == created(a) + created(b),
    decreases b.len(),
{
    if b.len() == 0 {
        assert(a + b == a);
    } else {
        assert((a + b).drop_last() == a + b.drop_last());
        assert((a + b).last() == b.last());
        lemma_created_concat(a, b.drop_last());
    }
}

/// `destroyed` distributes over concatenation.
proof fn lemma_destroyed_concat(a: Seq<Request>, b: Seq<Request>)
    ensures
        destroyed(a + b) == destroyed(a) + destroyed(b),
    decreases b.len(),
{
    if b.len() == 0 {
        assert(a + b == a);
    } else {
        assert((a + b).drop_last() == a + b.drop_last());
        assert((a + b).last() == b.last());
        lemma_destroyed_concat(a, b.drop_last());
    }
}

/// What one step creates and releases.
proof fn lemma_step_effect(state: ClientView, step: Step)
    ensures
        created(sent_by(state, step)) == (match step {
            Step::Submit(_) => if state.can_submit() {
                seq![state.serial.unwrap()]
            } else {
                Seq::empty()
            },
            _ => Seq::empty(),
        }),
        destroyed(sent_by(state, step)) == (if after_step(state, step).pending
            != state.pending && state.pending.is_some() && !(step is Submit) {
            seq![state.pending.unwrap()]
        } else {
            Seq::empty()
        }),
{
    let r = sent_by(state, step);
    reveal_with_fuel(created, 6);
    reveal_with_fuel(destroyed, 6);
    if r.len() == 1 {
        assert(r.drop_last().len() == 0);
    } else if r.len() == 4 {
        let r3 = r.drop_last();
        let r2 = r3.drop_last();
        let r1 = r2.drop_last();
        assert(r1.drop_last().len() == 0);
        assert(r1.last() == r[0]);
        assert(r2.last() == r[1]);
        assert(r3.last() == r[2]);
    }
}

/// The serials announced up to the last step but one are a prefix of all
/// that are announced.
proof fn lemma_announced_prefix(steps: Seq<Step>)
    requires
        steps.len() > 0,
        strictly_increasing(announced(steps)),
    ensures
        strictly_increasing(announced(steps.drop_last())),
{
    let all = announced(steps);
    let earlier = announced(steps.drop_last());
    assert(all == earlier || all.drop_last() == earlier);
    assert forall|i: int, j: int| 0 <= i < j < earlier.len() implies earlier[i] < earlier[j] by {
        assert(earlier[i] == all[i]);
        assert(earlier[j] == all[j]);
    }
}

/// How the outstanding transaction relates to what was created and released.
proof fn lemma_bookkeeping(target: Seq<char>, steps: Seq<Step>)
    ensures
        ({
            let start = ClientView::fresh(target);
            let state = after_run(start, steps);
            let made = created(sent(start, steps));
            let gone = destroyed(sent(start, steps));
            &&& state.pending.is_some() ==> made.len() > 0 && state.pending == Some(made.last())
            &&& gone == if state.pending.is_some() {
                made.drop_last()
            } else {
                made
            }
        }),
    decreases steps.len(),
{
    let start = ClientView::fresh(target);
    if steps.len() > 0 {
        let before = after_run(start, steps.drop_last());
        lemma_bookkeeping(target, steps.drop_last());
        lemma_step_effect(before, steps.last());
        lemma_created_concat(sent(start, steps.drop_last()), sent_by(before, steps.last()));
        lemma_destroyed_concat(sent(start, steps.drop_last()), sent_by(before, steps.last()));
        let made0 = created(sent(start, steps.drop_last()));
        let made = created(sent(start, steps));
        let gone0 = destroyed(sent(start, steps.drop_last()));
        let gone = destroyed(sent(start, steps));
        let state = after_run(start, steps);
        if made.len() > made0.len() {
            assert(made.drop_last() == made0);
        }
        if gone.len() > gone0.len() {
            assert(gone == made0.drop_last().push(made0.last()));
            assert(gone == made0);
        }
    }
}

/// How the serial at hand relates to what was announced and created.
proof fn lemma_serial_order(target: Seq<char>, steps: Seq<Step>)
    requires
        strictly_increasing(announced(steps)),
    ensures
        ({
            let start = ClientView::fresh(target);
            let state = after_run(start, steps);
            let made = created(sent(start, steps));
            let told = announced(steps);
            &&& strictly_increasing(made)
            &&& forall|i: int| 0 <= i < made.len() ==> told.contains(#[trigger] made[i])
            &&& made.len() > 0 ==> told.len() > 0 && made.last() <= told.last()
            &&& state.serial.is_some() ==> told.len() > 0 && state.serial == Some(told.last()) && (
            made.len() > 0 ==> made.last() < told.last())
        }),
    decreases steps.len(),
{
    let start = ClientView::fresh(target);
    if steps.len() > 0 {
        let before = after_run(start, steps.drop_last());
        lemma_announced_prefix(steps);
        lemma_serial_order(target, steps.drop_last());
        lemma_step_effect(before, steps.last());
        lemma_created_concat(sent(start, steps.drop_last()), sent_by(before, steps.last()));
        let made0 = created(sent(start, steps.drop_last()));
        let made = created(sent(start, steps));
        let told0 = announced(steps.drop_last());
        let told = announced(steps);
        assert forall|i: int| 0 <= i < made0.len() implies told.contains(made0[i]) by {
            let k = choose|k: int| 0 <= k < told0.len() && told0[k] == made0[i];
            assert(told[k] == made0[i]);
        }
        if told.len() > told0.len() {
            assert(told.drop_last() == told0);
            if told0.len() > 0 {
                assert(told[told0.len() - 1] < told[told.len() - 1]);
            }
        }
        if made.len() > made0.len() {
            assert(made.drop_last() == made0);
            assert(told == told0);
            assert(told[told.len() - 1] == made.last());
        }
    }
}

/// Over a run in which no settled state is announced, there is never a
/// serial at hand nor a transaction outstanding, and nothing is sent but
/// the binding of the output manager.
proof fn lemma_unsettled_run(target: Seq<char>, steps: Seq<Step>)
    requires
        announced(steps).len() == 0,
    ensures
        after_run(ClientView::fresh(target), steps).serial.is_none(),
        after_run(ClientView::fresh(target), steps).pending.is_none(),
        forall|i: int|
            0 <= i < sent(ClientView::fresh(target), steps).len() ==> (#[trigger] sent(
                ClientView::fresh(target),
                steps,
            )[i]) is BindManager,
    decreases steps.len(),
{
    if steps.len() > 0 {
        lemma_unsettled_run(target, steps.drop_last());
    }
}

/// Before the compositor has announced a settled state, an attempt to change
/// the configuration sends nothing and leaves the client as it was. Over
/// such a run nothing at all is sent but the binding of the output manager.
pub proof fn law_nothing_submitted_before_settled(
    target: Seq<char>,
    steps: Seq<Step>,
    transform: Transform,
)
    requires
        announced(steps).len() == 0,
    ensures
        after_run(ClientView::fresh(target), steps).serial.is_none(),
        after_run(ClientView::fresh(target), steps).submitted(transform) == Seq::<Request>::empty(),
        after_run(ClientView::fresh(target), steps).after_submit() == after_run(
            ClientView::fresh(target),
            steps,
        ),
        forall|i: int|
            0 <= i < sent(ClientView::fresh(target), steps).len() ==> (#[trigger] sent(
                ClientView::fresh(target),
                steps,
            )[i]) is BindManager,
{
    lemma_unsettled_run(target, steps);
}

/// The steps that receive `events`, in order.
pub open spec fn receipts(events: Seq<Event>) -> Seq<Step> {
    Seq::new(events.len(), |i: int| Step::Receive(events[i]))
}

/// Draining events is a run of receipts, and applying a transform after
/// draining is that run with one attempt to submit at its end: what holds
/// of all runs holds of every sequence of calls that drain and apply.
pub proof fn law_calls_are_runs(state: ClientView, events: Seq<Event>, transform: Transform)
    ensures
        after_run(state, receipts(events)) == state.after_events(events),
        sent(state, receipts(events)) == state.answers(events),
        after_run(state, receipts(events).push(Step::Submit(transform))) == state.after_events(
            events,
        ).after_submit(),
        sent(state, receipts(events).push(Step::Submit(transform))) == state.answers(events)
            + state.after_events(events).submitted(transform),
    decreases events.len(),
{
    if events.len() > 0 {
        law_calls_are_runs(state, events.drop_last(), transform);
        assert(receipts(events).drop_last() == receipts(events.drop_last()));
        assert(receipts(events).last() == Step::Receive(events.last()));
        let earlier = state.answers(events.drop_last());
        match state.after_events(events.drop_last()).answer(events.last()) {
            Some(request) => {
                assert(earlier + seq![request] == earlier.push(request));
            },
            None => {
                assert(earlier + Seq::<Request>::empty() == earlier);
            },
        }
    } else {
        assert(receipts(events).len() == 0);
    }
    let all = receipts(events).push(Step::Submit(transform));
    assert(all.drop_last() == receipts(events));
    assert(all.last() == Step::Submit(transform));
    assert(sent(state, all) == sent(state, all.drop_last()) + sent_by(
        after_run(state, all.drop_last()),
        all.last(),
    ));
}

/// Runs compose: a run of two parts sends what the first part sends, then
/// what the second part sends from where the first left off.
pub proof fn law_runs_compose(state: ClientView, first: Seq<Step>, second: Seq<Step>)
    ensures
        after_run(state, first + second) == after_run(after_run(state, first), second),
        sent(state, first + second) == sent(state, first) + sent(
            after_run(state, first),
            second,
        ),
    decreases second.len(),
{
    if second.len() == 0 {
        assert(first + second == first);
        assert(sent(state, first) + Seq::<Request>::empty() == sent(state, first));
    } else {
        law_runs_compose(state, first, second.drop_last());
        assert((first + second).drop_last() == first + second.drop_last());
        assert((first + second).last() == second.last());
        let middle = after_run(state, first);
        let a = sent(state, first);
        let b = sent(middle, second.drop_last());
        let c = sent_by(after_run(middle, second.drop_last()), second.last());
        assert((a + b) + c == a + (b + c));
    }
}

/// Every transaction uses up one announced serial, and no serial is
/// submitted twice: over a run in which the compositor announces serials in
/// increasing order, the serials of the transactions that the client creates
/// are announced ones and increase strictly, so that no two are equal.
pub proof fn law_serial_never_reused(target: Seq<char>, steps: Seq<Step>)
    requires
        strictly_increasing(announced(steps)),
    ensures
        strictly_increasing(created(sent(ClientView::fresh(target), steps))),
        forall|i: int, j: int|
            0 <= i < j < created(sent(ClientView::fresh(target), steps)).len() ==> created(
                sent(ClientView::fresh(target), steps),
            )[i] != created(sent(ClientView::fresh(target), steps))[j],
        forall|i: int|
            0 <= i < created(sent(ClientView::fresh(target), steps)).len() ==> announced(
                steps,
            ).contains(#[trigger] created(sent(ClientView::fresh(target), steps))[i]),
{
    lemma_serial_order(target, steps);
}

/// A serial is used up by the transaction that is created against it: right
/// after a transaction was submitted, a second attempt sends nothing.
pub proof fn law_submit_uses_serial_up(state: ClientView, first: Transform, second: Transform)
    requires
        state.can_submit(),
    ensures
        state.after_submit().submitted(second) == Seq::<Request>::empty(),
        state.after_submit().pending == state.serial,
        created(state.submitted(first)) == seq![state.serial.unwrap()],
{
    lemma_step_effect(state, Step::Submit(first));
}

/// Every transaction is released exactly once, when the compositor resolves
/// it: over any run, the transactions released are, in order, the
/// transactions created, but for the one that is still outstanding at the
/// end, if there is one. At most one is outstanding, the last that was created.
pub proof fn law_transactions_released_once(target: Seq<char>, steps: Seq<Step>)
    ensures
        ({
            let start = ClientView::fresh(target);
            let state = after_run(start, steps);
            let made = created(sent(start, steps));
            let gone = destroyed(sent(start, steps));
            &&& state.pending.is_some() ==> made.len() > 0 && state.pending == Some(made.last())
            &&& state.pending.is_some() ==> gone == made.drop_last()
            &&& state.pending.is_none() ==> gone == made
        }),
{
    lemma_bookkeeping(target, steps);
}

/// Whatever the outcome of the outstanding transaction, its resolution
/// releases it once and leaves none outstanding; the same event, received
/// again, releases nothing.
pub proof fn law_resolution_releases(state: ClientView, transaction: u32)
    requires
        state.pending == Some(transaction),
    ensures
        state.answer(Event::Succeeded { transaction }) == Some(Request::Destroy { transaction }),
        state.answer(Event::Failed { transaction }) == Some(Request::Destroy { transaction }),
        state.answer(Event::Cancelled { transaction }) == Some(Request::Destroy { transaction }),
        state.after_event(Event::Succeeded { transaction }).pending.is_none(),
        state.after_event(Event::Failed { transaction }) == state.after_event(
            Event::Succeeded { transaction },
        ),
        state.after_event(Event::Cancelled { transaction }) == state.after_event(
            Event::Succeeded { transaction },
        ),
        state.after_event(Event::Succeeded { transaction }).answer(
            Event::Succeeded { transaction },
        ).is_none(),
        state.after_event(Event::Failed { transaction }).answer(Event::Failed { transaction })
            .is_none(),
        state.after_event(Event::Cancelled { transaction }).answer(
            Event::Cancelled { transaction },
        ).is_none(),
{
}

/// The head that announced the name `target` last among `events`.
pub open spec fn named_head(events: Seq<Event>, target: Seq<char>) -> Option<u32>
    decreases events.len(),
{
    if events.len() == 0 {
        None
    } else {
        match events.last() {
            Event::HeadName { head, name } => if name@ == target {
                Some(head)
            } else {
                named_head(events.drop_last(), target)
            },
            _ => named_head(events.drop_last(), target),
        }
    }
}

/// The transform that `head` announced last among `events`.
pub open spec fn announced_transform(events: Seq<Event>, head: u32) -> Option<Transform>
    decreases events.len(),
{
    if events.len() == 0 {
        None
    } else {
        match events.last() {
            Event::HeadTransform { head: announcer, transform } => if announcer == head {
                Some(transform)
            } else {
                announced_transform(events.drop_last(), head)
            },
            _ => announced_transform(events.drop_last(), head),
        }
    }
}

/// After any events, the client knows of each head the transform that it
/// announced last, and takes for the target the head that announced the
/// target's name last.
proof fn lemma_what_is_kept(target: Seq<char>, events: Seq<Event>, head: u32)
    ensures
        ClientView::fresh(target).after_events(events).target == target,
        ClientView::fresh(target).after_events(events).head == named_head(events, target),
        transform_of_head(ClientView::fresh(target).after_events(events).transforms, head)
            == announced_transform(events, head),
    decreases events.len(),
{
    if events.len() > 0 {
        lemma_what_is_kept(target, events.drop_last(), head);
    }
}

/// What a query answers: the transform that the head of the target's name
/// announced last, in whatever order the name and the transform came. There
/// is no answer exactly where no head announced the name or that head
/// announced no transform. What other heads announce plays no part.
pub proof fn law_query_answers_for_named_head(target: Seq<char>, events: Seq<Event>)
    ensures
        known_transform(ClientView::fresh(target).after_events(events)) == (match named_head(
            events,
            target,
        ) {
            Some(head) => announced_transform(events, head),
            None => None,
        }),
{
    match named_head(events, target) {
        Some(head) => {
            lemma_what_is_kept(target, events, head);
        },
        None => {
            lemma_what_is_kept(target, events, 0);
        },
    }
}

/// The transform of another head leaves the answer of a query alone, and
/// the order of a head's name and transform makes no difference.
pub proof fn law_query_ignores_other_heads(
    state: ClientView,
    head: u32,
    transform: Transform,
    name: String,
)
    ensures
        state.head != Some(head) ==> known_transform(
            state.after_event(Event::HeadTransform { head, transform }),
        ) == known_transform(state),
        state.head == Some(head) ==> known_transform(
            state.after_event(Event::HeadTransform { head, transform }),
        ) == Some(transform),
        name@ == state.target ==> known_transform(
            state.after_event(Event::HeadTransform { head, transform }).after_event(
                Event::HeadName { head, name },
            ),
        ) == Some(transform),
        name@ == state.target ==> known_transform(
            state.after_event(Event::HeadName { head, name }).after_event(
                Event::HeadTransform { head, transform },
            ),
        ) == Some(transform),
{
}

/// Answering events creates no transaction: what a query sends holds no
/// request to configure anything.
pub proof fn law_answers_configure_nothing(state: ClientView, events: Seq<Event>)
    ensures
        created(state.answers(events)).len() == 0,
        forall|i: int|
            0 <= i < state.answers(events).len() ==> (#[trigger] state.answers(events)[i])
                is BindManager || state.answers(events)[i] is Destroy,
    decreases events.len(),
{
    if events.len() > 0 {
        law_answers_configure_nothing(state, events.drop_last());
        let earlier = state.answers(events.drop_last());
        match state.after_events(events.drop_last()).answer(events.last()) {
            Some(request) => {
                assert(earlier.push(request).drop_last() == earlier);
            },
            None => {},
        }
    }
}

} // verus!
