use std::cell::Cell;

use hank_pdk::dispatch::dispatch_scheduled_job;
use hank_pdk::jobs::JobTable;
use hank_pdk::plugin::{Hank, StateSlot};
use hank_types::cron::{CronJob, OneShotJob};
use hank_types::message::Message;
use hank_types::plugin::{CommandContext, Metadata};
use hank_types::scheduled_job_input::ScheduledJob;
use hank_types::ScheduledJobInput;

type NoopMessage = fn(Message);
type NoopCommand = fn(CommandContext, Message);

fn cron_echo(id: String) -> ScheduledJobInput {
    ScheduledJobInput {
        scheduled_job: Some(ScheduledJob::CronJob(CronJob {
            cron: "*/5 * * * *".to_string(),
            job: id,
        })),
    }
}

fn one_shot_echo(id: String) -> ScheduledJobInput {
    ScheduledJobInput {
        scheduled_job: Some(ScheduledJob::OneShotJob(OneShotJob {
            duration: 60,
            job: id,
        })),
    }
}

#[test]
fn cron_registration_entry_is_invoked_once_per_replay() {
    let count = Cell::new(0u32);
    let c = &count;
    let mut hank: Hank<_, NoopMessage, NoopCommand> = Hank::new(Metadata::default());
    let request = hank.add_cron("*/5 * * * *".to_string(), move || c.set(c.get() + 1));
    let cron_job = request.cron_job.unwrap();
    assert_eq!(cron_job.cron, "*/5 * * * *");
    let id = cron_job.job;

    dispatch_scheduled_job(&hank, cron_echo(id.clone()));
    assert_eq!(count.get(), 1);
    dispatch_scheduled_job(&hank, cron_echo(id));
    assert_eq!(count.get(), 2);
}

#[test]
fn one_shot_registration_entry_is_invoked_on_replay() {
    let count = Cell::new(0u32);
    let c = &count;
    let mut hank: Hank<_, NoopMessage, NoopCommand> = Hank::new(Metadata::default());
    let request = hank.add_one_shot(60, move || c.set(c.get() + 1));
    let one_shot_job = request.one_shot_job.unwrap();
    assert_eq!(one_shot_job.duration, 60);
    let id = one_shot_job.job;

    dispatch_scheduled_job(&hank, one_shot_echo(id));
    assert_eq!(count.get(), 1);
}

#[test]
fn replaying_an_unknown_identifier_is_a_silent_noop() {
    let count = Cell::new(0u32);
    let c = &count;
    let mut hank: Hank<_, NoopMessage, NoopCommand> = Hank::new(Metadata::default());
    hank.add_cron("* * * * *".to_string(), move || c.set(c.get() + 1));

    dispatch_scheduled_job(&hank, cron_echo("no-such-identifier".to_string()));
    dispatch_scheduled_job(&hank, one_shot_echo("another-stale-one".to_string()));
    dispatch_scheduled_job(
        &hank,
        ScheduledJobInput {
            scheduled_job: None,
        },
    );
    assert_eq!(count.get(), 0);

    hank.scheduled_job_handler("still-nothing".to_string());
    assert_eq!(count.get(), 0);
}

#[test]
fn identifiers_are_unique_across_registrations() {
    let count = Cell::new(0u32);
    let c = &count;
    let mut hank: Hank<_, NoopMessage, NoopCommand> = Hank::new(Metadata::default());
    let mut ids: Vec<String> = Vec::new();
    for _ in 0..8 {
        let request = hank.add_cron("* * * * *".to_string(), move || c.set(c.get() + 1));
        ids.push(request.cron_job.unwrap().job);
    }
    for i in 0..ids.len() {
        for j in 0..i {
            assert_ne!(ids[i], ids[j]);
        }
    }
    assert_eq!(hank.scheduled_jobs.entries.len(), 8);
}

#[test]
fn jobs_can_be_registered_after_install() {
    let count = Cell::new(0u32);
    let c = &count;
    let mut slot: StateSlot<_, NoopMessage, NoopCommand> = StateSlot::new();
    slot.install(Hank::new(Metadata::default()));

    // What a job-registration stub does from inside a handler: take brief
    // write access, insert, hand the request to the host.
    let request = slot
        .hank_mut()
        .add_one_shot(5, move || c.set(c.get() + 1));
    let id = request.one_shot_job.unwrap().job;

    dispatch_scheduled_job(slot.hank_ref(), one_shot_echo(id));
    assert_eq!(count.get(), 1);
}

fn first() {}

fn second() {}

#[test]
fn job_table_insert_overwrites_an_existing_key() {
    let mut table: JobTable<fn()> = JobTable::new();
    table.insert("k".to_string(), first as fn());
    table.insert("k".to_string(), second as fn());
    assert_eq!(table.entries.len(), 1);
    assert_eq!(table.get(&"k".to_string()), Some(second as fn()));
    assert_eq!(table.get(&"missing".to_string()), None);
}
