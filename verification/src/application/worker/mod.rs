//! The background worker's bookkeeping of a job's state around running its task.

pub mod tasks;

use crate::domain::job::{Job, JobStatus};
use crate::time::Timestamp;
use vstd::prelude::*;

pub use tasks::{
    merge_refetched, pdf_output_paths, playlist_not_found_message, refetch_source, GeneratePlaylistPdfsResult,
};

verus! {

/// How running a job's task ended.
#[derive(Debug, Clone)]
pub enum TaskOutcome {
    /// The task succeeded and its output serialised to this JSON.
    Output(String),
    /// The task succeeded but its output could not be serialised.
    OutputNotSerializable,
    /// The task failed.
    Failed,
}

/// The job taken up: processing, nothing else changed.
pub open spec fn started_job(job: Job) -> Job {
    Job { status: JobStatus::Processing, ..job }
}

/// The job after its task ended at `now`: completed with the output when there is one,
/// failed otherwise, and completed at `now` either way.
pub open spec fn finished_job(job: Job, outcome: TaskOutcome, now: Timestamp) -> Job {
    match outcome {
        TaskOutcome::Output(json) => Job {
            status: JobStatus::Completed,
            completed_at: Some(now),
            result: Some(json),
            ..job
        },
        _ => Job { status: JobStatus::Failed, completed_at: Some(now), ..job },
    }
}

/// The job as the worker records it when it takes the job up: processing, nothing else changed.
pub fn job_started(job: Job) -> (r: Job)
    ensures
        r == started_job(job),
        r.status == JobStatus::Processing,
        r.id == job.id,
        r.created_at == job.created_at,
        r.completed_at == job.completed_at,
        r.kind == job.kind,
        r.payload == job.payload,
        r.result == job.result,
{
    Job { status: JobStatus::Processing, ..job }
}

/// The job as the worker records it when its task has ended at `now`: completed with the
/// output when there is one, failed otherwise; the completion time is set either way.
pub fn job_finished(job: Job, outcome: TaskOutcome, now: Timestamp) -> (r: Job)
    ensures
        r == finished_job(job, outcome, now),
        r.completed_at == Some(now),
        r.id == job.id,
        r.created_at == job.created_at,
        r.kind == job.kind,
        r.payload == job.payload,
        match outcome {
            TaskOutcome::Output(json) => r.status == JobStatus::Completed && r.result == Some(json),
            TaskOutcome::OutputNotSerializable => r.status == JobStatus::Failed && r.result == job.result,
            TaskOutcome::Failed => r.status == JobStatus::Failed && r.result == job.result,
        },
{
    match outcome {
        TaskOutcome::Output(json) => Job {
            status: JobStatus::Completed,
            completed_at: Some(now),
            result: Some(json),
            ..job
        },
        TaskOutcome::OutputNotSerializable => Job {
            status: JobStatus::Failed,
            completed_at: Some(now),
            ..job
        },
        TaskOutcome::Failed => Job { status: JobStatus::Failed, completed_at: Some(now), ..job },
    }
}

/// What the worker learned at its last step.
#[derive(Debug)]
pub enum WorkerEvent {
    /// A job and its task were taken from the queue.
    Received(Job),
    /// Recording the job as processing succeeded (`true`) or failed (`false`).
    StartRecorded(Job, bool),
    /// The job's task ended at the given instant.
    TaskEnded(Job, TaskOutcome, Timestamp),
    /// The finished job was recorded, or recording it failed.
    FinishRecorded,
}

/// What the worker does next.
#[derive(Debug)]
pub enum WorkerAction {
    /// Store this job, which is now processing.
    RecordStart(Job),
    /// Run the job's task.
    RunTask(Job),
    /// Store this finished job.
    RecordFinish(Job),
    /// Take the next job from the queue.
    TakeNext,
}

/// The worker's next step, one job at a time: a job taken up is first recorded as
/// processing; its task runs only when that record was stored, else the job is left and
/// the next one taken; after the task the finished job is recorded, and then the next
/// job is taken.
pub fn worker_step(event: WorkerEvent) -> (r: WorkerAction)
    ensures
        match event {
            WorkerEvent::Received(job) => r == WorkerAction::RecordStart(started_job(job)),
            WorkerEvent::StartRecorded(job, stored) => if stored {
                r == WorkerAction::RunTask(job)
            } else {
                r == WorkerAction::TakeNext
            },
            WorkerEvent::TaskEnded(job, outcome, now) => r == WorkerAction::RecordFinish(finished_job(job, outcome, now)),
            WorkerEvent::FinishRecorded => r == WorkerAction::TakeNext,
        },
{
    match event {
        WorkerEvent::Received(job) => WorkerAction::RecordStart(job_started(job)),
        WorkerEvent::StartRecorded(job, stored) => {
            if stored {
                WorkerAction::RunTask(job)
            } else {
                WorkerAction::TakeNext
            }
        },
        WorkerEvent::TaskEnded(job, outcome, now) => WorkerAction::RecordFinish(job_finished(job, outcome, now)),
        WorkerEvent::FinishRecorded => WorkerAction::TakeNext,
    }
}

} // verus!
