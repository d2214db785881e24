//! The entry-point dispatchers: one function per hook the host may call.
//!
//! Each takes the installed state and the decoded request, invokes exactly
//! the handler registered for that hook — or does nothing when the slot is
//! empty — and returns the response value the host expects. Decoding the
//! request bytes, finding the state behind its lock, and encoding the
//! response are the unverified shell's work; a sub-field the protocol
//! guarantees must be present before the shell calls in, and the shell aborts
//! the call when it is not.

use vstd::prelude::*;

use crate::plugin::Hank;
use hank_types::message::Message;
use hank_types::plugin::CommandContext;
use hank_types::scheduled_job_input::ScheduledJob;
use hank_types::{
    ChatCommandInput, ChatCommandOutput, ChatMessageInput, ChatMessageOutput, GetMetadataOutput,
    InitializeOutput, InstallOutput, ScheduledJobInput, ScheduledJobOutput,
};

verus! {

/// The metadata query: returns a copy of the descriptor, nothing more.
pub fn dispatch_get_metadata<J: Copy, M: Copy, C: Copy>(hank: &Hank<J, M, C>) -> (r:
    GetMetadataOutput)
    ensures
        r.metadata == Some(hank.metadata),
{
    GetMetadataOutput { metadata: Some(hank.metadata()) }
}

/// The install hook: runs the registered install handler, or does nothing
/// when none was registered.
pub fn dispatch_install<J: Fn() + Copy, M: Copy, C: Copy>(hank: &Hank<J, M, C>) -> (r:
    InstallOutput)
    requires
        hank.install_handler matches Some(h) ==> call_requires(h, ()),
    ensures
        (match hank.install_handler {
            Some(h) => call_ensures(h, (), ()),
            None => true,
        }),
{
    if let Some(handler) = hank.install_handler() {
        handler();
    }
    InstallOutput {  }
}

/// The invocation half of the initialize hook. The dispatcher must not hold
/// the state lock while the handler runs — the handler may register jobs,
/// which takes its own short write access to the same state — so the shell
/// copies the hook out under its read access, releases it, and only then
/// calls here, outside any lock.
pub fn run_initialize_handler<J: Fn()>(handler: Option<J>) -> (r: InitializeOutput)
    requires
        handler matches Some(h) ==> call_requires(h, ()),
    ensures
        (match handler {
            Some(h) => call_ensures(h, (), ()),
            None => true,
        }),
{
    if let Some(h) = handler {
        h();
    }
    InitializeOutput {  }
}

/// Chat-message delivery: hands the message to the registered handler, or
/// does nothing when none was registered. The protocol guarantees the
/// message field is present whenever the delivery matters.
pub fn dispatch_chat_message<J: Copy, M: Fn(Message) + Copy, C: Copy>(
    hank: &Hank<J, M, C>,
    input: ChatMessageInput,
) -> (r: ChatMessageOutput)
    requires
        hank.chat_message_handler is Some ==> input.message is Some,
        hank.chat_message_handler matches Some(h) && input.message matches Some(m)
            ==> call_requires(h, (m,)),
    ensures
        (match (hank.chat_message_handler, input.message) {
            (Some(h), Some(m)) => call_ensures(h, (m,), ()),
            _ => true,
        }),
{
    if let Some(handler) = hank.chat_message_handler() {
        match input.message {
            Some(message) => handler(message),
            None => (),
        }
    }
    ChatMessageOutput {  }
}

/// Chat-command delivery: hands the parsed command context and the message to
/// the registered handler, or does nothing when none was registered. The
/// protocol guarantees both fields are present whenever the delivery matters.
pub fn dispatch_chat_command<J: Copy, M: Copy, C: Fn(CommandContext, Message) + Copy>(
    hank: &Hank<J, M, C>,
    input: ChatCommandInput,
) -> (r: ChatCommandOutput)
    requires
        hank.chat_command_handler is Some ==> input.context is Some && input.message is Some,
        hank.chat_command_handler matches Some(h) && input.context matches Some(cx)
            && input.message matches Some(m) ==> call_requires(h, (cx, m)),
    ensures
        (match (hank.chat_command_handler, input.context, input.message) {
            (Some(h), Some(cx), Some(m)) => call_ensures(h, (cx, m), ()),
            _ => true,
        }),
{
    if let Some(handler) = hank.chat_command_handler() {
        match (input.context, input.message) {
            (Some(context), Some(message)) => handler(context, message),
            _ => (),
        }
    }
    ChatCommandOutput {  }
}

/// The identifier a scheduled-job delivery carries, whichever variant echoes
/// it back.
pub open spec fn scheduled_job_id(input: ScheduledJobInput) -> Option<Seq<char>> {
    match input.scheduled_job {
        Some(ScheduledJob::CronJob(c)) => Some(c.job@),
        Some(ScheduledJob::OneShotJob(o)) => Some(o.job@),
        None => None,
    }
}

/// Scheduled-job delivery: extracts the identifier from either echo variant
/// and runs the job registered under it. A payload without an echo, or an
/// identifier the table no longer holds, is a silent no-op — replays are
/// best-effort across module reloads, never an error.
pub fn dispatch_scheduled_job<J: Fn() + Copy, M: Copy, C: Copy>(
    hank: &Hank<J, M, C>,
    input: ScheduledJobInput,
) -> (r: ScheduledJobOutput)
    requires
        hank.jobs_callable(),
    ensures
        (match scheduled_job_id(input) {
            Some(id) => match hank.scheduled_jobs.spec_lookup(id) {
                Some(j) => call_ensures(j, (), ()),
                None => true,
            },
            None => true,
        }),
{
    if let Some(scheduled_job) = input.scheduled_job {
        let job = match scheduled_job {
            ScheduledJob::CronJob(cron) => cron.job,
            ScheduledJob::OneShotJob(oneshot) => oneshot.job,
        };
        hank.scheduled_job_handler(job);
    }
    ScheduledJobOutput {  }
}

} // verus!
