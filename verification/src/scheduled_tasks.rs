//! The task scheduler's decision core.
//!
//! Two task kinds exist: one-shot reminders scheduled by a wall-clock time,
//! and recurring tasks driven by cron expressions. Each live task has a
//! unique string id in its registry. The timers themselves and the cron
//! engine run outside this core; the core decides, for each submission or
//! cancellation, whether it is allowed, what changes in the registries, and
//! which handle the caller must arm or abort.

use crate::datetime::compute_delay_ms;
use crate::datetime::datetime_parses;
use crate::datetime::local_to_epoch_ms;
use crate::datetime::now_epoch_ms;
use crate::datetime::parse_datetime;
use crate::registry::Registry;
use vstd::prelude::*;

verus! {

/// A one-shot reminder task: fire once at `remind_time`, written in the form
/// `YYYY-MM-DD HH:MM:SS` and read as local time.
#[derive(Debug, Clone)]
pub struct Todo {
    pub id: String,
    pub content: String,
    pub remind_time: String,
}

/// A recurring task driven by a cron expression.
#[derive(Debug, Clone)]
pub struct CronTask {
    pub id: String,
    pub content: String,
    pub cron_expr: String,
}

/// Errors of the scheduler core.
#[derive(Clone, Copy, Debug, PartialEq, Eq, Structural)]
pub enum SchedError {
    /// The reminder time does not have the form `YYYY-MM-DD HH:MM:SS` or
    /// names no real calendar time.
    ParseError,
    /// The reminder time is ambiguous or nonexistent in the host time zone.
    InvalidLocalTime,
    /// A task with the same id is already registered.
    DuplicateId,
    /// No task with the id is registered.
    NotFound,
    /// The scheduler engine has not been initialized.
    NotInitialized,
}

/// The scheduler core: whether the engine was started, and the two
/// registries. A reminder entry holds the caller's cancellation token for
/// the armed timer; a cron entry holds the engine's job uuid as its 128-bit
/// value.
pub struct SchedulerCore {
    initialized: bool,
    reminders: Registry<u64>,
    crons: Registry<u128>,
}

impl SchedulerCore {
    /// Whether `init_once` has run.
    pub closed spec fn spec_initialized(self) -> bool {
        self.initialized
    }

    /// The live reminders: each id with its cancellation token.
    pub closed spec fn reminder_map(self) -> Map<Seq<char>, u64> {
        self.reminders@
    }

    /// The live cron tasks: each id with its engine job uuid.
    pub closed spec fn cron_map(self) -> Map<Seq<char>, u128> {
        self.crons@
    }

    /// The invariant: ids are unique within each registry.
    pub closed spec fn wf(self) -> bool {
        self.reminders.wf() && self.crons.wf()
    }

    /// An empty, not yet initialized core.
    pub fn new() -> (r: SchedulerCore)
        ensures
            r.wf(),
            !r.spec_initialized(),
            r.reminder_map() == Map::<Seq<char>, u64>::empty(),
            r.cron_map() == Map::<Seq<char>, u128>::empty(),
    {
        SchedulerCore { initialized: false, reminders: Registry::new(), crons: Registry::new() }
    }

    /// Marks the scheduler initialized. Only the first call reports that it
    /// started anything; every later call changes nothing.
    pub fn init_once(&mut self) -> (started: bool)
        requires
            old(self).wf(),
        ensures
            final(self).wf(),
            init_step(*old(self), *final(self), started),
    {
        let started = !self.initialized;
        self.initialized = true;
        started
    }

    /// Whether the scheduler engine was initialized.
    pub fn is_initialized(&self) -> (r: bool)
        ensures
            r == self.spec_initialized(),
    {
        self.initialized
    }

    /// Admits a reminder: its time must parse, convert to a local instant,
    /// and its id must be fresh. On success the id is registered with the
    /// caller's cancellation token and the wait until the reminder instant is
    /// returned, clamped to zero for an instant already past; the caller then
    /// arms a one-shot timer for that wait. On failure nothing changes.
    pub fn schedule_reminder(&mut self, todo: &Todo, token: u64) -> (r: Result<u64, SchedError>)
        requires
            old(self).wf(),
        ensures
            final(self).wf(),
            final(self).spec_initialized() == old(self).spec_initialized(),
            final(self).cron_map() == old(self).cron_map(),
            r matches Ok(delay) ==> reminder_scheduled(*old(self), *final(self), todo.id@, token)
                && datetime_parses(todo.remind_time@),
            r is Err ==> *final(self) == *old(self),
            r == Err::<u64, SchedError>(SchedError::ParseError) <==> !datetime_parses(todo.remind_time@),
            r matches Err(e) ==> e == SchedError::ParseError || e == SchedError::InvalidLocalTime
                || e == SchedError::DuplicateId,
            r == Err::<u64, SchedError>(SchedError::DuplicateId) ==> old(self).reminder_map().contains_key(todo.id@),
            r == Err::<u64, SchedError>(SchedError::InvalidLocalTime) ==> datetime_parses(todo.remind_time@),
            old(self).reminder_map().contains_key(todo.id@) ==> r is Err,
    {
        let parts = match parse_datetime(todo.remind_time.as_str()) {
            Some(p) => p,
            None => {
                return Err(SchedError::ParseError);
            },
        };
        let remind_ms = match local_to_epoch_ms(&parts) {
            Some(m) => m,
            None => {
                return Err(SchedError::InvalidLocalTime);
            },
        };
        let now_ms = now_epoch_ms();
        let delay = compute_delay_ms(remind_ms, now_ms);
        match self.reminders.insert_new(&todo.id, token) {
            Ok(_) => Ok(delay),
            Err(_) => Err(SchedError::DuplicateId),
        }
    }

    /// Cancels a reminder: removes its registry entry and hands back the
    /// cancellation token stored for it, so the caller aborts exactly the
    /// timer that was armed. An unknown id is refused and nothing changes.
    pub fn cancel_reminder(&mut self, id: &String) -> (r: Result<u64, SchedError>)
        requires
            old(self).wf(),
        ensures
            final(self).wf(),
            final(self).spec_initialized() == old(self).spec_initialized(),
            final(self).cron_map() == old(self).cron_map(),
            r is Ok <==> old(self).reminder_map().contains_key(id@),
            r matches Ok(token) ==> token == old(self).reminder_map()[id@] && reminder_cancelled(
                *old(self),
                *final(self),
                id@,
            ),
            r is Err ==> *final(self) == *old(self),
            r matches Err(e) ==> e == SchedError::NotFound,
    {
        match self.reminders.remove(id) {
            Some(token) => Ok(token),
            None => Err(SchedError::NotFound),
        }
    }

    /// Purges a reminder whose one-shot timer has fired, but only while the
    /// registry still holds the very token of that timer: an entry that was
    /// cancelled and re-registered under the same id in the meantime carries
    /// a newer token and is left untouched, its own timer still armed.
    pub fn purge_fired_reminder(&mut self, id: &String, token: u64) -> (purged: bool)
        requires
            old(self).wf(),
        ensures
            final(self).wf(),
            final(self).spec_initialized() == old(self).spec_initialized(),
            final(self).cron_map() == old(self).cron_map(),
            purged <==> old(self).reminder_map().contains_key(id@) && old(
                self,
            ).reminder_map()[id@] == token,
            purged ==> reminder_cancelled(*old(self), *final(self), id@),
            !purged ==> *final(self) == *old(self),
    {
        match self.reminders.get(id) {
            Some(stored) => {
                if stored == token {
                    self.reminders.remove(id);
                    true
                } else {
                    false
                }
            },
            None => false,
        }
    }

    /// Refuses cron submissions while the engine is not initialized.
    pub fn check_initialized(&self) -> (r: Result<(), SchedError>)
        ensures
            r is Ok <==> self.spec_initialized(),
            r matches Err(e) ==> e == SchedError::NotInitialized,
    {
        if self.initialized {
            Ok(())
        } else {
            Err(SchedError::NotInitialized)
        }
    }

    /// Records a cron task that the engine accepted under `job_uuid`. A
    /// duplicate id is refused with nothing changed; the caller must then
    /// unregister the job from the engine so it never fires.
    pub fn record_cron_job(&mut self, id: &String, job_uuid: u128) -> (r: Result<
        (),
        SchedError,
    >)
        requires
            old(self).wf(),
        ensures
            final(self).wf(),
            final(self).spec_initialized() == old(self).spec_initialized(),
            final(self).reminder_map() == old(self).reminder_map(),
            r is Ok <==> !old(self).cron_map().contains_key(id@),
            r is Ok ==> cron_recorded(*old(self), *final(self), id@, job_uuid),
            r is Err ==> *final(self) == *old(self),
            r matches Err(e) ==> e == SchedError::DuplicateId,
    {
        match self.crons.insert_new(id, job_uuid) {
            Ok(_) => Ok(()),
            Err(_) => Err(SchedError::DuplicateId),
        }
    }

    /// Cancels a cron task: removes its registry entry first, and only then
    /// reports whether the engine can be asked to drop the job. An unknown id
    /// is refused with nothing changed. With the entry removed but the engine
    /// not initialized, the removal stands and the call fails; on success the
    /// engine job uuid recorded for the id is handed back for removal.
    pub fn cancel_cron_task(&mut self, id: &String) -> (r: Result<u128, SchedError>)
        requires
            old(self).wf(),
        ensures
            final(self).wf(),
            final(self).spec_initialized() == old(self).spec_initialized(),
            final(self).reminder_map() == old(self).reminder_map(),
            r == Err::<u128, SchedError>(SchedError::NotFound) <==> !old(self).cron_map().contains_key(id@),
            r == Err::<u128, SchedError>(SchedError::NotFound) ==> *final(self) == *old(self),
            old(self).cron_map().contains_key(id@) ==> cron_cancelled(
                *old(self),
                *final(self),
                id@,
            ),
            r is Ok <==> old(self).cron_map().contains_key(id@) && old(self).spec_initialized(),
            r matches Ok(job_uuid) ==> job_uuid == old(self).cron_map()[id@],
            r matches Err(e) ==> e == SchedError::NotFound || e == SchedError::NotInitialized,
            r == Err::<u128, SchedError>(SchedError::NotInitialized) ==> old(self).cron_map().contains_key(id@)
                && !old(self).spec_initialized(),
    {
        let job_uuid = match self.crons.remove(id) {
            Some(u) => u,
            None => {
                return Err(SchedError::NotFound);
            },
        };
        if !self.initialized {
            return Err(SchedError::NotInitialized);
        }
        Ok(job_uuid)
    }
}

/// One `init_once` step: the core reports a start exactly when it was not
/// initialized before, ends initialized, and touches no registry.
pub open spec fn init_step(pre: SchedulerCore, post: SchedulerCore, started: bool) -> bool {
    &&& started == !pre.spec_initialized()
    &&& post.spec_initialized()
    &&& post.reminder_map() == pre.reminder_map()
    &&& post.cron_map() == pre.cron_map()
}

/// One successful reminder submission: the id was fresh and is now
/// registered with the caller's cancellation token.
pub open spec fn reminder_scheduled(
    pre: SchedulerCore,
    post: SchedulerCore,
    id: Seq<char>,
    token: u64,
) -> bool {
    &&& !pre.reminder_map().contains_key(id)
    &&& post.reminder_map() == pre.reminder_map().insert(id, token)
}

/// One successful reminder cancellation: the id was present and its entry is
/// gone.
pub open spec fn reminder_cancelled(pre: SchedulerCore, post: SchedulerCore, id: Seq<char>) -> bool {
    &&& pre.reminder_map().contains_key(id)
    &&& post.reminder_map() == pre.reminder_map().remove(id)
}

/// One successful cron recording: the id was fresh and is now registered
/// with the engine's job uuid.
pub open spec fn cron_recorded(
    pre: SchedulerCore,
    post: SchedulerCore,
    id: Seq<char>,
    job_uuid: u128,
) -> bool {
    &&& !pre.cron_map().contains_key(id)
    &&& post.cron_map() == pre.cron_map().insert(id, job_uuid)
}

/// One cron removal: the id was present and its entry is gone.
pub open spec fn cron_cancelled(pre: SchedulerCore, post: SchedulerCore, id: Seq<char>) -> bool {
    &&& pre.cron_map().contains_key(id)
    &&& post.cron_map() == pre.cron_map().remove(id)
}

/// Law: however many times `init_once` runs, only the first call starts the
/// scheduler; every later call reports nothing started and leaves the state
/// initialized.
pub proof fn lemma_init_once_idempotent(
    s0: SchedulerCore,
    s1: SchedulerCore,
    s2: SchedulerCore,
    first: bool,
    second: bool,
)
    requires
        !s0.spec_initialized(),
        init_step(s0, s1, first),
        init_step(s1, s2, second),
    ensures
        first,
        !second,
        s2.spec_initialized(),
{
}

/// Law: a reminder that is scheduled and then cancelled hands the very token
/// back that was stored for it — the timer the caller aborts is the one that
/// was armed — and afterwards the registry is as before the pair, with the
/// id gone. No entry for the id remains that could arm it again.
pub proof fn lemma_schedule_then_cancel_reminder(
    s0: SchedulerCore,
    s1: SchedulerCore,
    s2: SchedulerCore,
    id: Seq<char>,
    token: u64,
)
    requires
        reminder_scheduled(s0, s1, id, token),
        reminder_cancelled(s1, s2, id),
    ensures
        s1.reminder_map()[id] == token,
        !s2.reminder_map().contains_key(id),
        s2.reminder_map() == s0.reminder_map(),
{
    assert(s0.reminder_map().insert(id, token).remove(id) =~= s0.reminder_map());
}

/// Law: cancelling the same reminder id twice fails the second time with
/// `NotFound`: after a successful cancellation the id is absent, and
/// `cancel_reminder` succeeds exactly on present ids.
pub proof fn lemma_double_cancel_reminder(pre: SchedulerCore, post: SchedulerCore, id: Seq<char>)
    requires
        reminder_cancelled(pre, post, id),
    ensures
        !post.reminder_map().contains_key(id),
{
}

/// Law: a cron task that is recorded and then cancelled hands the engine job
/// uuid back that was recorded for it, and afterwards the registry is as
/// before the pair, with the id gone: the core never asks to fire it again.
pub proof fn lemma_record_then_cancel_cron(
    s0: SchedulerCore,
    s1: SchedulerCore,
    s2: SchedulerCore,
    id: Seq<char>,
    job_uuid: u128,
)
    requires
        cron_recorded(s0, s1, id, job_uuid),
        cron_cancelled(s1, s2, id),
    ensures
        s1.cron_map()[id] == job_uuid,
        !s2.cron_map().contains_key(id),
        s2.cron_map() == s0.cron_map(),
{
    assert(s0.cron_map().insert(id, job_uuid).remove(id) =~= s0.cron_map());
}

/// Law: cancelling the same cron id twice fails the second time with
/// `NotFound`: after a removal the id is absent, and `cancel_cron_task`
/// reports `NotFound` exactly on absent ids.
pub proof fn lemma_double_cancel_cron(pre: SchedulerCore, post: SchedulerCore, id: Seq<char>)
    requires
        cron_cancelled(pre, post, id),
    ensures
        !post.cron_map().contains_key(id),
{
}

} // verus!
