use worker_core::metrics::{
    op_read_line_prompt, HeapStatsReply, RuntimeHeapStatistics, RuntimeMetrics,
    WorkerHeapStatistics,
};

fn stats(used: usize) -> WorkerHeapStatistics {
    WorkerHeapStatistics { used_heap_size: used, total_heap_size: 2 * used, ..Default::default() }
}

#[test]
fn missing_main_reply_counts_as_zero() {
    let r = RuntimeHeapStatistics::from_replies(HeapStatsReply::NotScheduled, None);
    assert_eq!(r.main_worker_heap_stats, WorkerHeapStatistics::default());
    assert_eq!(r.event_worker_heap_stats, None);
}

#[test]
fn replies_are_kept() {
    let r = RuntimeHeapStatistics::from_replies(
        HeapStatsReply::Replied(stats(10)),
        Some(HeapStatsReply::Replied(stats(4))),
    );
    assert_eq!(r.main_worker_heap_stats, stats(10));
    assert_eq!(r.event_worker_heap_stats, Some(stats(4)));
    let d = RuntimeHeapStatistics::from_replies(
        HeapStatsReply::Replied(stats(1)),
        Some(HeapStatsReply::Dropped),
    );
    assert_eq!(d.event_worker_heap_stats, None);
}

#[test]
fn metrics_carry_heap_figures() {
    let h = RuntimeHeapStatistics::from_replies(HeapStatsReply::Replied(stats(3)), None);
    let m = RuntimeMetrics::from_heap_stats(h);
    assert_eq!(m.heap_stats, h);
    assert_eq!(m.active_user_workers_count, 0);
    assert_eq!(m.handled_requests_count, 0);
}

#[test]
fn read_line_prompt_never_reads() {
    assert_eq!(op_read_line_prompt("name?", "x"), None);
}
