//! A worker's rules: whether a job taken off the queue still runs, how long
//! it waited, which playing time the runner is told, and what is reported
//! when the runner is done.
//!
//! The worker's loop, its runner and its scratch files are the caller's. What
//! the loop decides, it decides here.

use crate::protocol::{JobMetrics, JobResult, TranscriptionJob};
use crate::wav::{derive_duration_ms, wav_probe};
use std::collections::HashSet;
use vstd::prelude::*;

verus! {

/// The requests whose cancellation has been asked for. Nothing ever leaves
/// the set.
pub struct CancelSet {
    ids: HashSet<u64>,
}

impl View for CancelSet {
    type V = Set<u64>;

    closed spec fn view(&self) -> Set<u64> {
        self.ids@
    }
}

impl CancelSet {
    pub fn new() -> (s: CancelSet)
        ensures
            s@ == Set::<u64>::empty(),
    {
        CancelSet { ids: HashSet::new() }
    }

    /// Marks a request as cancelled: a worker that takes its job up later
    /// drops it.
    pub fn cancel_request(&mut self, request_id: u64)
        ensures
            final(self)@ == old(self)@.insert(request_id),
    {
        broadcast use vstd::std_specs::hash::group_hash_axioms;

        self.ids.insert(request_id);
    }
}

/// Whether a request has been cancelled.
pub fn is_cancelled(request_id: u64, cancelled: &CancelSet) -> (b: bool)
    ensures
        b == cancelled@.contains(request_id),
{
    broadcast use vstd::std_specs::hash::group_hash_axioms;

    cancelled.ids.contains(&request_id)
}

/// The milliseconds from one clock reading to a later one: 0 where the second
/// is not later, and no more than a `u64` holds.
pub open spec fn elapsed_ms(from_ms: u128, to_ms: u128) -> u64 {
    if to_ms <= from_ms {
        0
    } else if to_ms - from_ms > u64::MAX {
        u64::MAX
    } else {
        (to_ms - from_ms) as u64
    }
}

pub fn elapsed(from_ms: u128, to_ms: u128) -> (d: u64)
    ensures
        d == elapsed_ms(from_ms, to_ms),
{
    if to_ms <= from_ms {
        0
    } else {
        let span: u128 = to_ms - from_ms;
        if span > u64::MAX as u128 {
            u64::MAX
        } else {
            span as u64
        }
    }
}

/// A span that lies inside another is no longer than it: with clock readings
/// in the order in which a worker takes them, the time in the runner is at
/// most the worker's total.
pub proof fn lemma_inner_span_is_shorter(outer_from: u128, from: u128, to: u128, outer_to: u128)
    requires
        outer_from <= from,
        to <= outer_to,
    ensures
        elapsed_ms(from, to) <= elapsed_ms(outer_from, outer_to),
{
}

/// What a worker does with a job that it has taken off the queue.
#[derive(Debug, Clone, Copy, PartialEq, Eq, Structural)]
pub enum Dequeued {
    /// The request was cancelled in time: the runner is not called and
    /// nothing is reported.
    Discard,
    /// The job runs; it waited this long in the queue.
    Process { queue_wait_ms: u64 },
}

/// Decides on a job at the moment a worker takes it up; `dequeue_ms` is the
/// clock's reading at that moment.
pub fn on_dequeue(job: &TranscriptionJob, cancelled: &CancelSet, dequeue_ms: u128) -> (d:
    Dequeued)
    ensures
        d == if cancelled@.contains(job.request_id) {
            Dequeued::Discard
        } else {
            Dequeued::Process { queue_wait_ms: elapsed_ms(job.enqueue_at, dequeue_ms) }
        },
{
    let queue_wait_ms = elapsed(job.enqueue_at, dequeue_ms);
    if is_cancelled(job.request_id, cancelled) {
        Dequeued::Discard
    } else {
        Dequeued::Process { queue_wait_ms }
    }
}

/// Once a request is cancelled, a worker that takes its job up discards it,
/// whatever else has been cancelled before or since.
pub proof fn lemma_cancelled_stays_cancelled(before: Set<u64>, request_id: u64, later: Seq<u64>)
    ensures
        cancel_all(before.insert(request_id), later).contains(request_id),
    decreases later.len(),
{
    if later.len() > 0 {
        lemma_cancelled_stays_cancelled(before, request_id, later.drop_last());
    }
}

/// The set after a run of cancellations.
pub open spec fn cancel_all(set: Set<u64>, ids: Seq<u64>) -> Set<u64>
    decreases ids.len(),
{
    if ids.len() == 0 {
        set
    } else {
        cancel_all(set, ids.drop_last()).insert(ids.last())
    }
}

/// The playing time that the runner is told: the declared one unless it is
/// 0, then the one derived from the audio, and 0 where none can be derived.
pub open spec fn chosen_duration(declared_ms: u64, derived_ms: Option<u64>) -> u64 {
    if declared_ms > 0 {
        declared_ms
    } else {
        match derived_ms {
            Some(d) => d,
            None => 0,
        }
    }
}

pub fn choose_duration(declared_ms: u64, derived_ms: Option<u64>) -> (d: u64)
    ensures
        d == chosen_duration(declared_ms, derived_ms),
{
    if declared_ms > 0 {
        declared_ms
    } else {
        match derived_ms {
            Some(d) => d,
            None => 0,
        }
    }
}

/// The playing time that the runner is told for a job.
pub fn effective_duration_ms(job: &TranscriptionJob) -> (d: u64)
    ensures
        d == chosen_duration(
            job.duration_ms,
            match wav_probe(job.audio_data@) {
                Ok(p) => p.duration_ms(),
                Err(_) => None,
            },
        ),
{
    if job.duration_ms > 0 {
        job.duration_ms
    } else {
        choose_duration(0, derive_duration_ms(job.audio_data.as_slice()))
    }
}

/// Reports on a job that ran. `outcome` holds the subtitles that the runner
/// left (none at all is a success too) and the time it took, or the text of
/// its failure; `queue_wait_ms` is what `on_dequeue` gave, `dequeue_ms` the
/// reading it was given, and `done_ms` the reading now.
pub fn conclude(
    request_id: u64,
    outcome: Result<(Vec<u8>, u64), String>,
    queue_wait_ms: u64,
    dequeue_ms: u128,
    done_ms: u128,
) -> (r: JobResult)
    ensures
        match outcome {
            Ok((srt, inference_ms)) => {
                &&& r matches JobResult::Success { request_id: id, srt_data, metrics }
                &&& id == request_id
                &&& srt_data@ == srt@
                &&& metrics.queue_wait_ms == queue_wait_ms
                &&& metrics.inference_ms == inference_ms
                &&& metrics.worker_total_ms == elapsed_ms(dequeue_ms, done_ms)
            },
            Err(m) => {
                &&& r matches JobResult::Error { request_id: id, message }
                &&& id == request_id
                &&& message@ == m@
            },
        },
{
    match outcome {
        Ok((srt_data, inference_ms)) => JobResult::Success {
            request_id,
            srt_data,
            metrics: JobMetrics {
                queue_wait_ms,
                inference_ms,
                worker_total_ms: elapsed(dequeue_ms, done_ms),
            },
        },
        Err(message) => JobResult::Error { request_id, message },
    }
}

} // verus!
