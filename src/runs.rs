//! Runs of the watch loop over whole sequences of inputs, and what holds of
//! every such run.
use crate::event::EventOps;
use crate::session::{action_for, transition, Action, Decision, Input, Phase, RETRY_TIMEOUT_SECS};
use core::time::Duration;
use vstd::prelude::*;

verus! {

/// The phase reached from `p` after `inputs`, and how many reload
/// notifications were sent on the way.
pub open spec fn run(p: Phase, inputs: Seq<Input>) -> (Phase, nat)
    decreases inputs.len(),
{
    if inputs.len() == 0 {
        (p, 0nat)
    } else {
        let d = transition(p, inputs[0]);
        let rest = run(d.phase, inputs.drop_first());
        (rest.0, rest.1 + if d.notify { 1nat } else { 0nat })
    }
}

/// Each operation set received as an event, in order.
pub open spec fn events(es: Seq<EventOps>) -> Seq<Input> {
    es.map_values(|e: EventOps| Input::Event(e))
}

/// Inputs that carry nothing new: an event without a relevant operation, or
/// one that could not be read.
pub open spec fn is_noise(i: Input) -> bool {
    match i {
        Input::Event(ops) => !ops.relevant(),
        Input::Garbled => true,
        _ => false,
    }
}

/// `n` retry intervals, each followed by a failed attempt to create a watcher.
pub open spec fn failed_retries(n: nat) -> Seq<Input>
    decreases n,
{
    if n == 0 {
        Seq::empty()
    } else {
        failed_retries((n - 1) as nat) + seq![Input::RetryElapsed, Input::WatcherFailed]
    }
}

/// A run over two sequences is the run over the first, continued over the second.
pub proof fn lemma_run_append(p: Phase, a: Seq<Input>, b: Seq<Input>)
    ensures
        run(p, a + b) == (run(run(p, a).0, b).0, run(p, a).1 + run(run(p, a).0, b).1),
    decreases a.len(),
{
    if a.len() == 0 {
        assert(a + b =~= b);
    } else {
        let d = transition(p, a[0]);
        assert((a + b)[0] == a[0]);
        assert((a + b).drop_first() =~= a.drop_first() + b);
        lemma_run_append(d.phase, a.drop_first(), b);
    }
}

proof fn lemma_draining_absorbs_events(s: Seq<Input>)
    requires
        forall|i: int| 0 <= i < s.len() ==> (s[i] is Event || s[i] is Garbled),
    ensures
        run(Phase::Draining, s) == (Phase::Draining, 0nat),
    decreases s.len(),
{
    if s.len() > 0 {
        assert(s[0] is Event || s[0] is Garbled);
        let t = s.drop_first();
        assert forall|i: int| 0 <= i < t.len() implies (t[i] is Event || t[i] is Garbled) by {
            assert(t[i] == s[i + 1]);
        }
        lemma_draining_absorbs_events(t);
    }
}

/// A burst of relevant events that arrive one after another, each before the
/// quiet period since the one before it has run out, notifies nothing while it
/// lasts: after every event of it the session is draining, which re-arms a
/// wait of one full quiet period from that event on. Once that wait runs out
/// after the last event, exactly one notification is sent and the session is
/// idle again.
pub proof fn lemma_burst_notifies_once(es: Seq<EventOps>, quiet_period: Duration)
    requires
        es.len() > 0,
        forall|i: int| 0 <= i < es.len() ==> es[i].relevant(),
    ensures
        forall|k: int|
            1 <= k <= es.len() ==> #[trigger] run(Phase::Idle, events(es.take(k))) == (
            Phase::Draining,
            0nat,
        ),
        action_for(Phase::Draining, quiet_period) == Action::ReceiveWithin(quiet_period),
        run(Phase::Idle, events(es).push(Input::TimedOut)) == (Phase::Idle, 1nat),
{
    assert forall|k: int| 1 <= k <= es.len() implies #[trigger] run(
        Phase::Idle,
        events(es.take(k)),
    ) == (Phase::Draining, 0nat) by {
        let s = events(es.take(k));
        assert(s[0] == Input::Event(es[0]));
        let t = s.drop_first();
        assert forall|i: int| 0 <= i < t.len() implies (t[i] is Event || t[i] is Garbled) by {
            assert(t[i] == s[i + 1]);
        }
        lemma_draining_absorbs_events(t);
    }
    assert(es.take(es.len() as int) =~= es);
    let s = events(es);
    assert(run(Phase::Idle, events(es.take(es.len() as int))) == (Phase::Draining, 0nat));
    lemma_run_append(Phase::Idle, s, seq![Input::TimedOut]);
    assert(s + seq![Input::TimedOut] =~= s.push(Input::TimedOut));
    assert(seq![Input::TimedOut].drop_first() =~= Seq::<Input>::empty());
    assert(run(Phase::Idle, Seq::<Input>::empty()) == (Phase::Idle, 0nat));
    assert(run(Phase::Draining, seq![Input::TimedOut]) == (Phase::Idle, 1nat));
}

/// Without a relevant event and without a recreated watcher, nothing is ever
/// notified: from any phase but draining, such inputs send no notification
/// and never start a quiet-period wait.
pub proof fn lemma_silence_never_notifies(p: Phase, inputs: Seq<Input>)
    requires
        p != Phase::Draining,
        forall|i: int|
            0 <= i < inputs.len() ==> !(#[trigger] inputs[i] matches Input::Event(ops) && ops.relevant())
                && inputs[i] != Input::WatcherCreated,
    ensures
        run(p, inputs).1 == 0,
        run(p, inputs).0 != Phase::Draining,
    decreases inputs.len(),
{
    if inputs.len() > 0 {
        let t = inputs.drop_first();
        assert forall|i: int| 0 <= i < t.len() implies !(#[trigger] t[i] matches Input::Event(
            ops,
        ) && ops.relevant()) && t[i] != Input::WatcherCreated by {
            assert(t[i] == inputs[i + 1]);
        }
        assert(!(inputs[0] matches Input::Event(ops) && ops.relevant()));
        assert(inputs[0] != Input::WatcherCreated);
        lemma_silence_never_notifies(transition(p, inputs[0]).phase, t);
    }
}

/// Events that carry nothing new, received while idle, leave the session
/// idle, notify nothing, and start no timed wait: the loop goes on waiting
/// for the next event without a deadline.
pub proof fn lemma_noise_is_ignored(inputs: Seq<Input>, quiet_period: Duration)
    requires
        forall|i: int| 0 <= i < inputs.len() ==> is_noise(#[trigger] inputs[i]),
    ensures
        run(Phase::Idle, inputs) == (Phase::Idle, 0nat),
        action_for(Phase::Idle, quiet_period) == Action::Receive,
    decreases inputs.len(),
{
    if inputs.len() > 0 {
        let t = inputs.drop_first();
        assert forall|i: int| 0 <= i < t.len() implies is_noise(#[trigger] t[i]) by {
            assert(t[i] == inputs[i + 1]);
        }
        assert(is_noise(inputs[0]));
        lemma_noise_is_ignored(t, quiet_period);
    }
}

proof fn lemma_failed_retries_stay_unwatched(n: nat)
    ensures
        run(Phase::Unwatched, failed_retries(n)) == (Phase::Unwatched, 0nat),
    decreases n,
{
    if n == 0 {
    } else {
        let m = (n - 1) as nat;
        lemma_failed_retries_stay_unwatched(m);
        let pair = seq![Input::RetryElapsed, Input::WatcherFailed];
        lemma_run_append(Phase::Unwatched, failed_retries(m), pair);
        assert(pair.drop_first() =~= seq![Input::WatcherFailed]);
        assert(seq![Input::WatcherFailed].drop_first() =~= Seq::<Input>::empty());
        assert(run(Phase::Unwatched, Seq::<Input>::empty()) == (Phase::Unwatched, 0nat));
        assert(run(Phase::Recreating, seq![Input::WatcherFailed]) == (Phase::Unwatched, 0nat));
    }
}

/// Once the watcher dies, the session retries without end: after any number
/// of failed attempts it is again waiting out the fixed retry interval, with
/// nothing notified, and each attempt comes only after such a wait. The first
/// attempt that succeeds sends exactly one notification, at once, whatever
/// happened to the files meanwhile, and the session is idle again.
pub proof fn lemma_recovery_notifies_once(p: Phase, n: nat, quiet_period: Duration)
    requires
        p == Phase::Idle || p == Phase::Draining,
    ensures
        run(p, seq![Input::Disconnected] + failed_retries(n)) == (Phase::Unwatched, 0nat),
        action_for(Phase::Unwatched, quiet_period) == Action::SleepSecs(RETRY_TIMEOUT_SECS),
        run(p, seq![Input::Disconnected] + failed_retries(n) + seq![Input::RetryElapsed]) == (
        Phase::Recreating,
        0nat,
        ),
        action_for(Phase::Recreating, quiet_period) == Action::CreateWatcher,
        transition(Phase::Recreating, Input::WatcherCreated) == (Decision {
            phase: Phase::Idle,
            notify: true,
        }),
        run(
            p,
            seq![Input::Disconnected] + failed_retries(n) + seq![
                Input::RetryElapsed,
                Input::WatcherCreated,
            ],
        ) == (Phase::Idle, 1nat),
{
    let head = seq![Input::Disconnected];
    let empty = Seq::<Input>::empty();
    assert(head.drop_first() =~= empty);
    assert(run(Phase::Unwatched, empty) == (Phase::Unwatched, 0nat));
    assert(run(p, head) == (Phase::Unwatched, 0nat));
    lemma_failed_retries_stay_unwatched(n);
    lemma_run_append(p, head, failed_retries(n));
    let dead = head + failed_retries(n);

    let tick = seq![Input::RetryElapsed];
    assert(tick.drop_first() =~= empty);
    assert(run(Phase::Recreating, empty) == (Phase::Recreating, 0nat));
    assert(run(Phase::Unwatched, tick) == (Phase::Recreating, 0nat));
    lemma_run_append(p, dead, tick);

    let back = seq![Input::RetryElapsed, Input::WatcherCreated];
    assert(back.drop_first() =~= seq![Input::WatcherCreated]);
    assert(seq![Input::WatcherCreated].drop_first() =~= empty);
    assert(run(Phase::Idle, empty) == (Phase::Idle, 0nat));
    assert(run(Phase::Recreating, seq![Input::WatcherCreated]) == (Phase::Idle, 1nat));
    assert(run(Phase::Unwatched, back) == (Phase::Idle, 1nat));
    lemma_run_append(p, dead, back);
}

} // verus!
