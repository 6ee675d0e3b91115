use vstd::prelude::*;

verus! {

/// Heap figures of one engine instance, in bytes.
#[derive(Clone, Copy, Debug, PartialEq, Eq, Structural)]
pub struct WorkerHeapStatistics {
    pub total_heap_size: usize,
    pub total_heap_executable: usize,
    pub total_physical_size: usize,
    pub total_available_size: usize,
    pub total_global_handles_size: usize,
    pub used_global_handles_size: usize,
    pub used_heap_size: usize,
    pub malloced_memory: usize,
    pub external_memory: usize,
    pub peak_malloced_memory: usize,
}

impl WorkerHeapStatistics {
    pub open spec fn zero() -> WorkerHeapStatistics {
        WorkerHeapStatistics {
            total_heap_size: 0,
            total_heap_executable: 0,
            total_physical_size: 0,
            total_available_size: 0,
            total_global_handles_size: 0,
            used_global_handles_size: 0,
            used_heap_size: 0,
            malloced_memory: 0,
            external_memory: 0,
            peak_malloced_memory: 0,
        }
    }
}

impl Default for WorkerHeapStatistics {
    fn default() -> (r: WorkerHeapStatistics)
        ensures
            r == WorkerHeapStatistics::zero(),
    {
        WorkerHeapStatistics {
            total_heap_size: 0,
            total_heap_executable: 0,
            total_physical_size: 0,
            total_available_size: 0,
            total_global_handles_size: 0,
            used_global_handles_size: 0,
            used_heap_size: 0,
            malloced_memory: 0,
            external_memory: 0,
            peak_malloced_memory: 0,
        }
    }
}

/// How a request for an engine's heap figures ended. The request runs as a
/// callback at the engine's next safe point, so it may never run.
#[derive(Clone, Copy, Debug, PartialEq, Eq, Structural)]
pub enum HeapStatsReply {
    /// The engine had no interrupt slot for the request.
    NotScheduled,
    /// The request was scheduled, but the engine stopped before it replied.
    Dropped,
    /// The engine replied with its figures.
    Replied(WorkerHeapStatistics),
}

impl HeapStatsReply {
    pub open spec fn spec_figures(self) -> Option<WorkerHeapStatistics> {
        match self {
            HeapStatsReply::Replied(s) => Some(s),
            _ => None,
        }
    }

    /// The figures, where the engine replied.
    pub fn figures(&self) -> (r: Option<WorkerHeapStatistics>)
        ensures
            r == self.spec_figures(),
    {
        match self {
            HeapStatsReply::Replied(s) => Some(*s),
            _ => None,
        }
    }
}

/// Heap figures of a runtime: its main worker and, if it has one, its event worker.
#[derive(Clone, Copy, Debug, PartialEq, Eq, Structural)]
pub struct RuntimeHeapStatistics {
    pub main_worker_heap_stats: WorkerHeapStatistics,
    pub event_worker_heap_stats: Option<WorkerHeapStatistics>,
}

impl RuntimeHeapStatistics {
    /// Puts together the replies of the main worker and of the event worker,
    /// if one was asked. A main worker that did not reply counts as zeros; an
    /// event worker that did not reply, or was not asked, has no figures.
    pub fn from_replies(main: HeapStatsReply, event: Option<HeapStatsReply>) -> (r:
        RuntimeHeapStatistics)
        ensures
            r.main_worker_heap_stats == (match main.spec_figures() {
                Some(s) => s,
                None => WorkerHeapStatistics::zero(),
            }),
            r.event_worker_heap_stats == (match event {
                Some(e) => e.spec_figures(),
                None => None,
            }),
    {
        let main_worker_heap_stats = match main.figures() {
            Some(s) => s,
            None => WorkerHeapStatistics::default(),
        };
        let event_worker_heap_stats = match event {
            Some(e) => e.figures(),
            None => None,
        };
        RuntimeHeapStatistics { main_worker_heap_stats, event_worker_heap_stats }
    }
}

/// What the runtime reports of itself when tenant code asks.
#[derive(Clone, Copy, Debug, PartialEq, Eq, Structural)]
pub struct RuntimeMetrics {
    pub heap_stats: RuntimeHeapStatistics,
    pub active_user_workers_count: usize,
    pub retired_user_workers_count: usize,
    pub received_requests_count: usize,
    pub handled_requests_count: usize,
}

impl RuntimeMetrics {
    /// Metrics that carry these heap figures and zero for every count.
    pub fn from_heap_stats(heap_stats: RuntimeHeapStatistics) -> (r: RuntimeMetrics)
        ensures
            r.heap_stats == heap_stats,
            r.active_user_workers_count == 0,
            r.retired_user_workers_count == 0,
            r.received_requests_count == 0,
            r.handled_requests_count == 0,
    {
        RuntimeMetrics {
            heap_stats,
            active_user_workers_count: 0,
            retired_user_workers_count: 0,
            received_requests_count: 0,
            handled_requests_count: 0,
        }
    }
}

/// Reading a line from a prompt is not offered to tenant code: there is never a line.
pub fn op_read_line_prompt(_prompt_text: &str, _default_value: &str) -> (r: Option<String>)
    ensures
        r is None,
{
    None
}

} // verus!
