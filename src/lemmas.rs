//! What holds of whole spawn attempts: the order of the attaches, the path
//! on which every attach succeeds, and the end of an attempt that failed.
use vstd::prelude::*;
use crate::jail::RunningJail;
use crate::jail::JailError;
use crate::process::{next, SpawnAction, SpawnEvent, SpawnState};

verus! {

/// The actions that a spawn attempt attaching to `jails` takes, from state
/// `s`, on the events `events`, one action per event.
pub open spec fn run(jails: Seq<RunningJail>, s: SpawnState, events: Seq<SpawnEvent>) -> Seq<SpawnAction>
    decreases events.len(),
{
    if events.len() == 0 {
        Seq::empty()
    } else {
        let (s1, a) = next(jails, s, events[0]);
        seq![a] + run(jails, s1, events.drop_first())
    }
}

/// The jails attached to by `actions`, in order.
pub open spec fn attached_in(actions: Seq<SpawnAction>) -> Seq<RunningJail>
    decreases actions.len(),
{
    if actions.len() == 0 {
        Seq::empty()
    } else {
        let rest = attached_in(actions.drop_first());
        match actions[0] {
            SpawnAction::Attach(j) => seq![j] + rest,
            _ => rest,
        }
    }
}

proof fn lemma_run_len(jails: Seq<RunningJail>, s: SpawnState, events: Seq<SpawnEvent>)
    ensures
        run(jails, s, events).len() == events.len(),
    decreases events.len(),
{
    if events.len() > 0 {
        let (s1, a) = next(jails, s, events[0]);
        lemma_run_len(jails, s1, events.drop_first());
    }
}

/// The states after which a spawn attempt takes no action any more.
pub open spec fn settled(s: SpawnState) -> bool {
    match s {
        SpawnState::Configured | SpawnState::Duplicated { .. } => false,
        _ => true,
    }
}

/// The index of the first jail not yet attached to in state `s`.
pub open spec fn first_unattached(jails: Seq<RunningJail>, s: SpawnState) -> int {
    match s {
        SpawnState::Configured => 0,
        SpawnState::Duplicated { current } => current + 1,
        _ => jails.len() as int,
    }
}

/// A state that a spawn attempt attaching to `jails` can be in, with as
/// many jails as a `Vec` can hold.
pub open spec fn state_wf(jails: Seq<RunningJail>, s: SpawnState) -> bool {
    &&& jails.len() <= usize::MAX
    &&& match s {
        SpawnState::Duplicated { current } => current < jails.len(),
        _ => true,
    }
}

/// Once an attempt has settled (its image replaced, or being replaced, or
/// its spawn failed or escalated), every further event leaves it waiting:
/// no attach is retried and the image is not replaced after a failure.
pub proof fn lemma_settled_waits(jails: Seq<RunningJail>, s: SpawnState, events: Seq<SpawnEvent>)
    requires
        settled(s),
    ensures
        run(jails, s, events).len() == events.len(),
        forall|i: int| 0 <= i < events.len() ==> #[trigger] run(jails, s, events)[i] == SpawnAction::Wait,
    decreases events.len(),
{
    if events.len() > 0 {
        let (s1, a) = next(jails, s, events[0]);
        lemma_settled_waits(jails, s1, events.drop_first());
        let rest = run(jails, s1, events.drop_first());
        assert forall|i: int| 0 <= i < events.len() implies #[trigger] run(jails, s, events)[i]
            == SpawnAction::Wait by {
            if i > 0 {
                assert(run(jails, s, events)[i] == rest[i - 1]);
            }
        }
    }
}

proof fn lemma_waits_attach_nothing(actions: Seq<SpawnAction>)
    requires
        forall|i: int| 0 <= i < actions.len() ==> actions[i] == SpawnAction::Wait,
    ensures
        attached_in(actions) == Seq::<RunningJail>::empty(),
    decreases actions.len(),
{
    if actions.len() > 0 {
        let rest = actions.drop_first();
        assert forall|i: int| 0 <= i < rest.len() implies rest[i] == SpawnAction::Wait by {
            assert(rest[i] == actions[i + 1]);
        }
        lemma_waits_attach_nothing(rest);
    }
}

proof fn lemma_attaches_from(jails: Seq<RunningJail>, s: SpawnState, events: Seq<SpawnEvent>)
    requires
        state_wf(jails, s),
    ensures
        ({
            let acts = run(jails, s, events);
            let r = attached_in(acts);
            let k = first_unattached(jails, s);
            &&& k + r.len() <= jails.len()
            &&& r == jails.subrange(k, k + r.len())
            &&& acts.contains(SpawnAction::Exec) ==> k + r.len() == jails.len()
        }),
    decreases events.len(),
{
    let acts = run(jails, s, events);
    let k = first_unattached(jails, s);
    if settled(s) {
        lemma_settled_waits(jails, s, events);
        lemma_waits_attach_nothing(acts);
        assert(jails.subrange(k, k) =~= Seq::<RunningJail>::empty());
        if acts.contains(SpawnAction::Exec) {
            let i = choose|i: int| 0 <= i < acts.len() && acts[i] == SpawnAction::Exec;
            assert(acts[i] == SpawnAction::Wait);
        }
    } else if events.len() == 0 {
        assert(jails.subrange(k, k) =~= Seq::<RunningJail>::empty());
    } else {
        let (s1, a) = next(jails, s, events[0]);
        let rest = run(jails, s1, events.drop_first());
        lemma_attaches_from(jails, s1, events.drop_first());
        assert(acts == seq![a] + rest);
        assert(acts.drop_first() =~= rest);
        let r1 = attached_in(rest);
        let k1 = first_unattached(jails, s1);
        if let SpawnAction::Attach(j) = a {
            assert(k1 == k + 1);
            assert(j == jails[k]);
            assert(attached_in(acts) =~= jails.subrange(k, k1 + r1.len()));
        } else if settled(s1) {
            lemma_settled_waits(jails, s1, events.drop_first());
            lemma_waits_attach_nothing(rest);
            assert(jails.subrange(k, k) =~= Seq::<RunningJail>::empty());
        } else {
            assert(s1 == s);
        }
        if acts.contains(SpawnAction::Exec) && a != SpawnAction::Exec {
            let i = choose|i: int| 0 <= i < acts.len() && acts[i] == SpawnAction::Exec;
            assert(rest[i - 1] == SpawnAction::Exec);
            assert(rest.contains(SpawnAction::Exec));
            if settled(s1) {
                assert(rest[i - 1] == SpawnAction::Wait);
            }
        }
    }
}

/// Whatever events a spawn attempt meets, the jails it attaches to are the
/// first ones recorded, in the order of registration, each at most once; and
/// the image is replaced only after an attach to every recorded jail.
pub proof fn lemma_attaches_in_order(jails: Seq<RunningJail>, events: Seq<SpawnEvent>)
    requires
        jails.len() <= usize::MAX,
    ensures
        ({
            let acts = run(jails, SpawnState::Configured, events);
            let r = attached_in(acts);
            &&& r.len() <= jails.len()
            &&& r == jails.take(r.len() as int)
            &&& acts.contains(SpawnAction::Exec) ==> r == jails
        }),
{
    lemma_attaches_from(jails, SpawnState::Configured, events);
    let r = attached_in(run(jails, SpawnState::Configured, events));
    assert(jails.subrange(0, r.len() as int) =~= jails.take(r.len() as int));
    assert(jails.subrange(0, jails.len() as int) =~= jails);
}

/// `n` events, each an attach that succeeded.
pub open spec fn successes(n: nat) -> Seq<SpawnEvent> {
    Seq::new(n, |i: int| SpawnEvent::AttachReturned(Ok(())))
}

/// The attaches to the jails of `jails` from index `k` on, in order.
pub open spec fn attaches_from(jails: Seq<RunningJail>, k: int) -> Seq<SpawnAction> {
    Seq::new((jails.len() - k) as nat, |i: int| SpawnAction::Attach(jails[k + i]))
}

proof fn lemma_successes_from(jails: Seq<RunningJail>, c: int)
    requires
        jails.len() <= usize::MAX,
        0 <= c < jails.len(),
    ensures
        run(jails, SpawnState::Duplicated { current: c as usize }, successes((jails.len() - c) as nat))
            == attaches_from(jails, c + 1).push(SpawnAction::Exec),
    decreases jails.len() - c,
{
    let events = successes((jails.len() - c) as nat);
    let (s1, a) = next(jails, SpawnState::Duplicated { current: c as usize }, events[0]);
    let rest = run(jails, s1, events.drop_first());
    if c + 1 < jails.len() {
        assert(events.drop_first() =~= successes((jails.len() - (c + 1)) as nat));
        lemma_successes_from(jails, c + 1);
        assert(seq![a] + rest =~= attaches_from(jails, c + 1).push(SpawnAction::Exec));
    } else {
        assert(events.drop_first() =~= Seq::<SpawnEvent>::empty());
        assert(seq![a] + rest =~= attaches_from(jails, c + 1).push(SpawnAction::Exec));
    }
}

/// When the process is duplicated and every attach succeeds, the attempt
/// attaches to each recorded jail once, in the order of registration, and
/// only then lets the image be replaced.
pub proof fn lemma_all_attached_then_exec(jails: Seq<RunningJail>)
    requires
        jails.len() <= usize::MAX,
    ensures
        run(jails, SpawnState::Configured, seq![SpawnEvent::Duplicated] + successes(jails.len()))
            == Seq::new(jails.len(), |i: int| SpawnAction::Attach(jails[i])).push(SpawnAction::Exec),
{
    let events = seq![SpawnEvent::Duplicated] + successes(jails.len());
    let (s1, a) = next(jails, SpawnState::Configured, events[0]);
    let rest = run(jails, s1, events.drop_first());
    assert(events.drop_first() =~= successes(jails.len()));
    if jails.len() > 0 {
        lemma_successes_from(jails, 0);
    } else {
        assert(successes(0) =~= Seq::<SpawnEvent>::empty());
    }
    assert(seq![a] + rest =~= Seq::new(jails.len(), |i: int| SpawnAction::Attach(jails[i])).push(
        SpawnAction::Exec,
    ));
}

/// An attach that fails with an OS error code aborts the spawn with that
/// code; after it no attach is made and the image is never replaced.
pub proof fn lemma_failed_attach_ends_spawn(
    jails: Seq<RunningJail>,
    current: usize,
    errno: i32,
    events: Seq<SpawnEvent>,
)
    requires
        current < jails.len(),
        events.len() > 0,
        events[0] == SpawnEvent::AttachReturned(Err(JailError::JailAttachError(errno))),
    ensures
        run(jails, SpawnState::Duplicated { current }, events)[0] == SpawnAction::FailSpawn(errno),
        forall|i: int|
            1 <= i < events.len() ==> #[trigger] run(jails, SpawnState::Duplicated { current }, events)[i]
                == SpawnAction::Wait,
{
    let s1 = SpawnState::AttachFailed { errno };
    let rest = run(jails, s1, events.drop_first());
    lemma_settled_waits(jails, s1, events.drop_first());
    assert forall|i: int| 1 <= i < events.len() implies #[trigger] run(
        jails,
        SpawnState::Duplicated { current },
        events,
    )[i] == SpawnAction::Wait by {
        assert(run(jails, SpawnState::Duplicated { current }, events)[i] == rest[i - 1]);
    }
}

/// An attach that returns an error other than an attach error does not fail
/// the spawn: the duplicated process is aborted, and nothing follows.
pub proof fn lemma_unexpected_error_aborts(
    jails: Seq<RunningJail>,
    current: usize,
    err: JailError,
    events: Seq<SpawnEvent>,
)
    requires
        current < jails.len(),
        !(err is JailAttachError),
        events.len() > 0,
        events[0] == SpawnEvent::AttachReturned(Err(err)),
    ensures
        run(jails, SpawnState::Duplicated { current }, events)[0] == SpawnAction::Abort,
        forall|i: int|
            1 <= i < events.len() ==> #[trigger] run(jails, SpawnState::Duplicated { current }, events)[i]
                == SpawnAction::Wait,
{
    let s1 = SpawnState::Escalated;
    let rest = run(jails, s1, events.drop_first());
    lemma_settled_waits(jails, s1, events.drop_first());
    assert forall|i: int| 1 <= i < events.len() implies #[trigger] run(
        jails,
        SpawnState::Duplicated { current },
        events,
    )[i] == SpawnAction::Wait by {
        assert(run(jails, SpawnState::Duplicated { current }, events)[i] == rest[i - 1]);
    }
}

/// Before the process is duplicated nothing is attached: on events that do
/// not include the duplication, a configured attempt only waits, so the
/// process that configured the spawn never joins a jail.
pub proof fn lemma_no_attach_before_duplication(jails: Seq<RunningJail>, events: Seq<SpawnEvent>)
    requires
        forall|i: int| 0 <= i < events.len() ==> !(#[trigger] events[i] is Duplicated),
    ensures
        forall|i: int|
            0 <= i < events.len() ==> #[trigger] run(jails, SpawnState::Configured, events)[i]
                == SpawnAction::Wait,
    decreases events.len(),
{
    if events.len() > 0 {
        let rest_events = events.drop_first();
        assert forall|i: int| 0 <= i < rest_events.len() implies !(#[trigger] rest_events[i] is Duplicated) by {
            assert(rest_events[i] == events[i + 1]);
        }
        lemma_no_attach_before_duplication(jails, rest_events);
        lemma_run_len(jails, SpawnState::Configured, rest_events);
        let rest = run(jails, SpawnState::Configured, rest_events);
        assert forall|i: int| 0 <= i < events.len() implies #[trigger] run(
            jails,
            SpawnState::Configured,
            events,
        )[i] == SpawnAction::Wait by {
            if i > 0 {
                assert(run(jails, SpawnState::Configured, events)[i] == rest[i - 1]);
            } else {
                assert(!(events[0] is Duplicated));
            }
        }
    }
}

} // verus!
