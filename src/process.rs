//! Attaching a spawned child to a jail.
//!
//! A builder that is jailed records, in order, the jails that the child must
//! join. At spawn time the duplicated process runs one pre-exec step per
//! recorded jail, each an attach, before its program image is replaced. The
//! first attach that fails aborts the spawn with that attach's OS error; an
//! error that an attach cannot give is a defect and is escalated, never
//! reported as an ordinary spawn error.
use vstd::prelude::*;
use crate::jail::{JailError, RunningJail};

verus! {

/// What the pre-exec step makes of the outcome of one attach.
#[derive(Clone, Copy, Debug, PartialEq, Eq, Structural)]
pub enum HookVerdict {
    /// The attach succeeded: the spawn goes on.
    Proceed,
    /// The attach failed with this OS error code: the spawn fails with it.
    Fail(i32),
    /// The attach returned an error that it cannot give: a broken contract,
    /// to be escalated as a fatal defect.
    Defect,
}

/// The verdict on the outcome `r` of an attach.
pub open spec fn verdict_of(r: Result<(), JailError>) -> HookVerdict {
    match r {
        Ok(()) => HookVerdict::Proceed,
        Err(JailError::JailAttachError(e)) => HookVerdict::Fail(e),
        Err(_) => HookVerdict::Defect,
    }
}

/// Translates the outcome of an attach into the pre-exec step's result: an
/// attach error keeps its OS error code, and every other error is a defect.
pub fn attach_verdict(r: &Result<(), JailError>) -> (v: HookVerdict)
    ensures
        v == verdict_of(*r),
{
    match r {
        Ok(()) => HookVerdict::Proceed,
        Err(JailError::JailAttachError(e)) => HookVerdict::Fail(*e),
        Err(_) => HookVerdict::Defect,
    }
}

/// A process builder whose children can be run inside a jail.
pub trait Jailed: Sized {
    /// The jails that a child of this builder joins, in the order in which
    /// they were given.
    spec fn jails(&self) -> Seq<RunningJail>;

    /// Sets the child process to be executed within `jail`: the child calls
    /// `jail_attach` on it before its program image is replaced, and a
    /// failure of that call makes the spawn fail. Each call adds one more
    /// attach, after those already recorded.
    fn jail(&mut self, jail: &RunningJail) -> (r: &mut Self)
        ensures
            r.jails() == old(self).jails().push(*jail),
            *final(self) == *final(r),
    ;
}

/// The pre-exec attaches recorded for a spawn, in the order of registration.
pub struct AttachPlan {
    pub jails: Vec<RunningJail>,
}

impl AttachPlan {
    /// A plan that attaches to no jail.
    pub fn new() -> (r: AttachPlan)
        ensures
            r.jails@ == Seq::<RunningJail>::empty(),
    {
        AttachPlan { jails: Vec::new() }
    }

    /// A spawn attempt that will run the attaches of this plan, not yet
    /// started.
    pub fn spawn_attempt(&self) -> (r: SpawnAttempt)
        ensures
            r.jails@ == self.jails@,
            r.state == SpawnState::Configured,
            r.wf(),
    {
        let mut jails: Vec<RunningJail> = Vec::new();
        let mut i: usize = 0;
        while i < self.jails.len()
            invariant
                i <= self.jails@.len(),
                jails@ == self.jails@.take(i as int),
            decreases self.jails@.len() - i,
        {
            jails.push(self.jails[i]);
            i = i + 1;
            assert(jails@ =~= self.jails@.take(i as int));
        }
        assert(jails@ =~= self.jails@);
        SpawnAttempt { jails, state: SpawnState::Configured }
    }
}

impl Jailed for AttachPlan {
    open spec fn jails(&self) -> Seq<RunningJail> {
        self.jails@
    }

    fn jail(&mut self, jail: &RunningJail) -> (r: &mut Self) {
        self.jails.push(*jail);
        self
    }
}

/// Where one spawn attempt stands.
#[derive(Clone, Copy, Debug, PartialEq, Eq, Structural)]
pub enum SpawnState {
    /// The attaches are recorded; the process is not duplicated yet.
    Configured,
    /// The process is duplicated; the attaches before `current` succeeded
    /// and the one at `current` is running.
    Duplicated { current: usize },
    /// Every attach succeeded: the program image is being replaced.
    Attached,
    /// An attach failed with this OS error code: the spawn is aborted.
    AttachFailed { errno: i32 },
    /// An attach returned an error that it cannot give: the duplicated
    /// process is to terminate abnormally.
    Escalated,
    /// The program image is replaced.
    Replaced,
}

/// What happened in the duplicated process.
#[derive(Clone, Copy, Debug)]
pub enum SpawnEvent {
    /// The process has been duplicated.
    Duplicated,
    /// The running attach returned this.
    AttachReturned(Result<(), JailError>),
    /// The program image has been replaced.
    ImageReplaced,
}

/// What the duplicated process is to do next.
#[derive(Clone, Copy, Debug, PartialEq, Eq, Structural)]
pub enum SpawnAction {
    /// Attach the calling process to this jail, and report the outcome.
    Attach(RunningJail),
    /// Let the program image be replaced.
    Exec,
    /// Abort the spawn: the parent sees an error with this OS error code.
    FailSpawn(i32),
    /// Terminate the duplicated process abnormally.
    Abort,
    /// Nothing: the event does not apply in this state.
    Wait,
}

/// The state after attach `i` of `jails` was started or skipped past, with
/// the action that goes with it: the attach of jail `i`, or the image
/// replacement once none is left.
pub open spec fn attach_from(jails: Seq<RunningJail>, i: int) -> (SpawnState, SpawnAction) {
    if i < jails.len() {
        (SpawnState::Duplicated { current: i as usize }, SpawnAction::Attach(jails[i]))
    } else {
        (SpawnState::Attached, SpawnAction::Exec)
    }
}

/// One step of a spawn attempt that attaches to `jails`: the next state and
/// the action that the event `e` leads to in state `s`.
pub open spec fn next(jails: Seq<RunningJail>, s: SpawnState, e: SpawnEvent) -> (SpawnState, SpawnAction) {
    match (s, e) {
        (SpawnState::Configured, SpawnEvent::Duplicated) => attach_from(jails, 0),
        (SpawnState::Duplicated { current }, SpawnEvent::AttachReturned(r)) => match verdict_of(r) {
            HookVerdict::Proceed => attach_from(jails, current + 1),
            HookVerdict::Fail(errno) => (SpawnState::AttachFailed { errno }, SpawnAction::FailSpawn(errno)),
            HookVerdict::Defect => (SpawnState::Escalated, SpawnAction::Abort),
        },
        (SpawnState::Attached, SpawnEvent::ImageReplaced) => (SpawnState::Replaced, SpawnAction::Wait),
        _ => (s, SpawnAction::Wait),
    }
}

/// One spawn attempt: the attaches it runs and where it stands.
pub struct SpawnAttempt {
    pub jails: Vec<RunningJail>,
    pub state: SpawnState,
}

impl SpawnAttempt {
    /// The attach in progress is one of the recorded jails.
    pub open spec fn wf(&self) -> bool {
        match self.state {
            SpawnState::Duplicated { current } => current < self.jails@.len(),
            _ => true,
        }
    }

    /// Moves the attempt on by the event `e` and returns the action to take.
    pub fn step(&mut self, e: SpawnEvent) -> (a: SpawnAction)
        requires
            old(self).wf(),
        ensures
            final(self).wf(),
            final(self).jails@ == old(self).jails@,
            (final(self).state, a) == next(old(self).jails@, old(self).state, e),
    {
        match (self.state, e) {
            (SpawnState::Configured, SpawnEvent::Duplicated) => self.attach_from(0),
            (SpawnState::Duplicated { current }, SpawnEvent::AttachReturned(r)) => {
                match attach_verdict(&r) {
                    HookVerdict::Proceed => {
                        // `current` indexes the jails, so the next index fits.
                        let len: usize = self.jails.len();
                        assert(current < len);
                        self.attach_from(current + 1)
                    },
                    HookVerdict::Fail(errno) => {
                        self.state = SpawnState::AttachFailed { errno };
                        SpawnAction::FailSpawn(errno)
                    },
                    HookVerdict::Defect => {
                        self.state = SpawnState::Escalated;
                        SpawnAction::Abort
                    },
                }
            },
            (SpawnState::Attached, SpawnEvent::ImageReplaced) => {
                self.state = SpawnState::Replaced;
                SpawnAction::Wait
            },
            _ => SpawnAction::Wait,
        }
    }

    /// Starts attach `i`, or the image replacement once none is left.
    fn attach_from(&mut self, i: usize) -> (a: SpawnAction)
        requires
            i <= old(self).jails@.len(),
        ensures
            final(self).wf(),
            final(self).jails@ == old(self).jails@,
            (final(self).state, a) == attach_from(old(self).jails@, i as int),
    {
        if i < self.jails.len() {
            self.state = SpawnState::Duplicated { current: i };
            SpawnAction::Attach(self.jails[i])
        } else {
            self.state = SpawnState::Attached;
            SpawnAction::Exec
        }
    }
}

} // verus!
