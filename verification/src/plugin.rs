//! The plugin state: the immutable metadata descriptor, one optional handler
//! per lifecycle hook, and the scheduled-job table; plus the single
//! process-wide slot that holds it.
//!
//! The handler slots are generic: `J` is the type of the zero-argument
//! handlers (install, initialize, scheduled jobs), `M` of the chat-message
//! handler, `C` of the chat-command handler. A plugin ordinarily instantiates
//! them with plain function pointers, but any copyable callable serves.

use vstd::prelude::*;

use crate::jobs::JobTable;
use hank_types::cron::{CronJob, OneShotJob};
use hank_types::plugin::Metadata;
use hank_types::{CronInput, OneShotInput};

verus! {

/// The plugin's state. Exactly one value of this type is ever installed into
/// the process-wide [`StateSlot`]; the four hook slots are filled during
/// construction, before installation, while the job table keeps growing as
/// handlers register jobs.
pub struct Hank<J, M, C> {
    pub metadata: Metadata,
    pub install_handler: Option<J>,
    pub initialize_handler: Option<J>,
    pub chat_message_handler: Option<M>,
    pub chat_command_handler: Option<C>,
    pub scheduled_jobs: JobTable<J>,
}

impl<J, M, C> Hank<J, M, C> {
    /// The job table keeps its keys pairwise distinct.
    pub open spec fn wf(self) -> bool {
        self.scheduled_jobs.wf()
    }

    /// A fresh state: the given metadata, no handlers, no scheduled jobs.
    pub fn new(metadata: Metadata) -> (r: Self)
        ensures
            r.metadata == metadata,
            r.install_handler is None,
            r.initialize_handler is None,
            r.chat_message_handler is None,
            r.chat_command_handler is None,
            forall|id: Seq<char>| r.scheduled_jobs.spec_lookup(id) is None,
            r.wf(),
    {
        Hank {
            metadata,
            install_handler: None,
            initialize_handler: None,
            chat_message_handler: None,
            chat_command_handler: None,
            scheduled_jobs: JobTable::new(),
        }
    }

    /// Sets the install hook; a second registration overwrites the first.
    pub fn register_install_handler(&mut self, handler: J)
        ensures
            *final(self) == (Hank { install_handler: Some(handler), ..*old(self) }),
    {
        self.install_handler = Some(handler);
    }

    /// Sets the initialize hook; a second registration overwrites the first.
    pub fn register_initialize_handler(&mut self, handler: J)
        ensures
            *final(self) == (Hank { initialize_handler: Some(handler), ..*old(self) }),
    {
        self.initialize_handler = Some(handler);
    }

    /// Sets the chat-message hook; a second registration overwrites the
    /// first.
    pub fn register_chat_message_handler(&mut self, handler: M)
        ensures
            *final(self) == (Hank { chat_message_handler: Some(handler), ..*old(self) }),
    {
        self.chat_message_handler = Some(handler);
    }

    /// Sets the chat-command hook; a second registration overwrites the
    /// first.
    pub fn register_chat_command_handler(&mut self, handler: C)
        ensures
            *final(self) == (Hank { chat_command_handler: Some(handler), ..*old(self) }),
    {
        self.chat_command_handler = Some(handler);
    }
}

impl<J: Copy, M: Copy, C: Copy> Hank<J, M, C> {
    /// The metadata descriptor, cloned for the caller.
    pub fn metadata(&self) -> (r: Metadata)
        ensures
            r == self.metadata,
    {
        self.metadata.clone()
    }

    /// The currently registered install hook.
    pub fn install_handler(&self) -> (r: Option<J>)
        ensures
            r == self.install_handler,
    {
        self.install_handler
    }

    /// The currently registered initialize hook.
    pub fn initialize_handler(&self) -> (r: Option<J>)
        ensures
            r == self.initialize_handler,
    {
        self.initialize_handler
    }

    /// The currently registered chat-message hook.
    pub fn chat_message_handler(&self) -> (r: Option<M>)
        ensures
            r == self.chat_message_handler,
    {
        self.chat_message_handler
    }

    /// The currently registered chat-command hook.
    pub fn chat_command_handler(&self) -> (r: Option<C>)
        ensures
            r == self.chat_command_handler,
    {
        self.chat_command_handler
    }
}

/// Relies on `uuid::Uuid::new_v4` and its hyphenated `Display` form: a random
/// 128-bit identifier rendered as a string. Nothing is assumed of the value;
/// in particular, freshness against earlier identifiers is not promised here.
#[verifier::external_body]
fn generate_job_id() -> (r: String) {
    uuid::Uuid::new_v4().to_string()
}

impl<J: Fn() + Copy, M: Copy, C: Copy> Hank<J, M, C> {
    /// Every job in the table may be invoked with no arguments.
    pub open spec fn jobs_callable(self) -> bool {
        forall|id: Seq<char>|
            (#[trigger] self.scheduled_jobs.spec_lookup(id)) matches Some(j) ==> call_requires(
                j,
                (),
            )
    }

    /// What both registration paths promise: the request carries a freshly
    /// generated identifier, the table now maps that identifier to `job`, and
    /// everything else — other table entries, the metadata, every hook slot —
    /// is untouched.
    pub open spec fn registered(self, new: Self, id: Seq<char>, job: J) -> bool {
        &&& new.scheduled_jobs.spec_lookup(id) == Some(job)
        &&& forall|k: Seq<char>|
            k != id ==> new.scheduled_jobs.spec_lookup(k) == self.scheduled_jobs.spec_lookup(k)
        &&& new.metadata == self.metadata
        &&& new.install_handler == self.install_handler
        &&& new.initialize_handler == self.initialize_handler
        &&& new.chat_message_handler == self.chat_message_handler
        &&& new.chat_command_handler == self.chat_command_handler
        &&& new.wf()
        &&& (self.jobs_callable() && call_requires(job, ()) ==> new.jobs_callable())
    }

    /// Registers `job` under a freshly generated identifier and returns the
    /// recurring-schedule request to hand to the host: the cron expression
    /// together with that identifier.
    pub fn add_cron(&mut self, cron: String, job: J) -> (r: CronInput)
        requires
            old(self).wf(),
        ensures
            r.cron_job matches Some(c) && c.cron == cron && old(self).registered(
                *final(self),
                c.job@,
                job,
            ),
    {
        let id = generate_job_id();
        let id_for_host = id.clone();
        self.scheduled_jobs.insert(id, job);
        CronInput { cron_job: Some(CronJob { cron, job: id_for_host }) }
    }

    /// Registers `job` under a freshly generated identifier and returns the
    /// one-shot request to hand to the host: the delay in seconds together
    /// with that identifier.
    pub fn add_one_shot(&mut self, duration: i32, job: J) -> (r: OneShotInput)
        requires
            old(self).wf(),
        ensures
            r.one_shot_job matches Some(o) && o.duration == duration && old(self).registered(
                *final(self),
                o.job@,
                job,
            ),
    {
        let id = generate_job_id();
        let id_for_host = id.clone();
        self.scheduled_jobs.insert(id, job);
        OneShotInput { one_shot_job: Some(OneShotJob { duration, job: id_for_host }) }
    }

    /// Delivery of a scheduled-job callback: runs the job the identifier
    /// names. An identifier the table does not hold — a stale replay, or any
    /// identifier after a reload emptied the table — is a silent no-op, never
    /// an error.
    pub fn scheduled_job_handler(&self, uuid: String)
        requires
            self.jobs_callable(),
        ensures
            (match self.scheduled_jobs.spec_lookup(uuid@) {
                Some(j) => call_ensures(j, (), ()),
                None => true,
            }),
    {
        if let Some(job) = self.scheduled_jobs.get(&uuid) {
            job();
        }
    }
}

/// One registration event, as the author's startup routine performs them
/// before handing the state to `start`.
pub enum Registration<J, M, C> {
    Install(J),
    Initialize(J),
    ChatMessage(M),
    ChatCommand(C),
}

/// The state a registration leaves behind: exactly what the matching
/// `register_*` method ensures.
pub open spec fn apply_registration<J, M, C>(
    h: Hank<J, M, C>,
    r: Registration<J, M, C>,
) -> Hank<J, M, C> {
    match r {
        Registration::Install(f) => Hank { install_handler: Some(f), ..h },
        Registration::Initialize(f) => Hank { initialize_handler: Some(f), ..h },
        Registration::ChatMessage(f) => Hank { chat_message_handler: Some(f), ..h },
        Registration::ChatCommand(f) => Hank { chat_command_handler: Some(f), ..h },
    }
}

/// The state after a whole sequence of registrations, first to last.
pub open spec fn apply_registrations<J, M, C>(
    h: Hank<J, M, C>,
    rs: Seq<Registration<J, M, C>>,
) -> Hank<J, M, C>
    decreases rs.len(),
{
    if rs.len() == 0 {
        h
    } else {
        apply_registration(apply_registrations(h, rs.drop_last()), rs.last())
    }
}

/// The handler of the last install registration in `rs`, if any.
pub open spec fn last_install<J, M, C>(rs: Seq<Registration<J, M, C>>) -> Option<J>
    decreases rs.len(),
{
    if rs.len() == 0 {
        None
    } else {
        match rs.last() {
            Registration::Install(f) => Some(f),
            _ => last_install(rs.drop_last()),
        }
    }
}

/// The handler of the last initialize registration in `rs`, if any.
pub open spec fn last_initialize<J, M, C>(rs: Seq<Registration<J, M, C>>) -> Option<J>
    decreases rs.len(),
{
    if rs.len() == 0 {
        None
    } else {
        match rs.last() {
            Registration::Initialize(f) => Some(f),
            _ => last_initialize(rs.drop_last()),
        }
    }
}

/// The handler of the last chat-message registration in `rs`, if any.
pub open spec fn last_chat_message<J, M, C>(rs: Seq<Registration<J, M, C>>) -> Option<M>
    decreases rs.len(),
{
    if rs.len() == 0 {
        None
    } else {
        match rs.last() {
            Registration::ChatMessage(f) => Some(f),
            _ => last_chat_message(rs.drop_last()),
        }
    }
}

/// The handler of the last chat-command registration in `rs`, if any.
pub open spec fn last_chat_command<J, M, C>(rs: Seq<Registration<J, M, C>>) -> Option<C>
    decreases rs.len(),
{
    if rs.len() == 0 {
        None
    } else {
        match rs.last() {
            Registration::ChatCommand(f) => Some(f),
            _ => last_chat_command(rs.drop_last()),
        }
    }
}

/// Law: whatever sequence of registrations precedes `start`, each hook slot
/// ends up holding exactly the handler registered last for that hook — or
/// stays as it began when the sequence never touched the hook — and nothing
/// else of the state moves. Each dispatcher's own contract says it invokes
/// precisely the handler in its hook's slot, so a dispatch after `start`
/// invokes the handler registered for that hook, or no-ops when there was
/// none.
pub proof fn lemma_last_registration_wins<J, M, C>(
    h: Hank<J, M, C>,
    rs: Seq<Registration<J, M, C>>,
)
    ensures
        apply_registrations(h, rs).install_handler == (match last_install(rs) {
            Some(f) => Some(f),
            None => h.install_handler,
        }),
        apply_registrations(h, rs).initialize_handler == (match last_initialize(rs) {
            Some(f) => Some(f),
            None => h.initialize_handler,
        }),
        apply_registrations(h, rs).chat_message_handler == (match last_chat_message(rs) {
            Some(f) => Some(f),
            None => h.chat_message_handler,
        }),
        apply_registrations(h, rs).chat_command_handler == (match last_chat_command(rs) {
            Some(f) => Some(f),
            None => h.chat_command_handler,
        }),
        apply_registrations(h, rs).metadata == h.metadata,
        apply_registrations(h, rs).scheduled_jobs == h.scheduled_jobs,
    decreases rs.len(),
{
    if rs.len() > 0 {
        lemma_last_registration_wins(h, rs.drop_last());
    }
}

/// The process-wide slot for the one plugin state. Its lifecycle has two
/// phases, uninstalled then installed, and no operation ever takes it back:
/// `install` makes it installed and both borrows keep it so.
pub struct StateSlot<J, M, C> {
    pub state: Option<Hank<J, M, C>>,
}

impl<J, M, C> StateSlot<J, M, C> {
    pub open spec fn installed(self) -> bool {
        self.state is Some
    }

    /// The slot every module instance begins with: nothing installed.
    pub fn new() -> (r: Self)
        ensures
            !r.installed(),
    {
        StateSlot { state: None }
    }

    /// Installs the fully constructed state. The plugin's startup routine
    /// calls this exactly once; the slot itself keeps whatever is given last.
    pub fn install(&mut self, hank: Hank<J, M, C>)
        ensures
            final(self).state == Some(hank),
            final(self).installed(),
    {
        self.state = Some(hank);
    }

    /// Whether the startup routine has run. Every entry point other than
    /// startup requires an installed slot; observing an uninstalled one there
    /// is a fatal integration error, and the unverified shell aborts on it.
    pub fn is_installed(&self) -> (r: bool)
        ensures
            r == self.installed(),
    {
        self.state.is_some()
    }

    /// Read access to the installed state.
    pub fn hank_ref(&self) -> (r: &Hank<J, M, C>)
        requires
            self.installed(),
        ensures
            self.state == Some(*r),
    {
        match &self.state {
            Some(h) => h,
            None => unreached(),
        }
    }

    /// Write access to the installed state; the slot stays installed and ends
    /// up holding exactly what the caller leaves behind.
    pub fn hank_mut(&mut self) -> (r: &mut Hank<J, M, C>)
        requires
            old(self).installed(),
        ensures
            *r == old(self).state->Some_0,
            final(self).state == Some(*final(r)),
            final(self).installed(),
    {
        match &mut self.state {
            Some(h) => h,
            None => unreached(),
        }
    }
}

} // verus!
