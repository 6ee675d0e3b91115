use worker_core::pool::{PoolError, PoolMessage, WorkerPool};

#[test]
fn shutdown_for_unknown_identity_is_a_no_op() {
    let mut p = WorkerPool::new();
    assert_eq!(p.register(1), Ok(()));
    assert!(!p.handle_message(PoolMessage::Shutdown(2)));
    assert_eq!(p.active_count(), 1);
    assert_eq!(p.retired(), 0);
    assert!(p.contains(1));
}

#[test]
fn shutdown_releases_the_record_once() {
    let mut p = WorkerPool::new();
    p.register(1).unwrap();
    p.register(2).unwrap();
    assert!(p.handle_message(PoolMessage::Shutdown(1)));
    assert!(!p.contains(1));
    assert_eq!(p.active_count(), 1);
    assert_eq!(p.retired(), 1);
    assert!(!p.handle_message(PoolMessage::Shutdown(1)));
    assert_eq!(p.retired(), 1);
}

#[test]
fn identity_is_held_by_one_live_worker() {
    let mut p = WorkerPool::new();
    p.register(3).unwrap();
    assert_eq!(p.register(3), Err(PoolError::DuplicateIdentity));
    assert_eq!(p.active_count(), 1);
    p.handle_message(PoolMessage::Shutdown(3));
    assert_eq!(p.register(3), Ok(()));
}

#[test]
fn routing_needs_a_live_worker() {
    let mut p = WorkerPool::new();
    assert_eq!(p.route_connection(8), Err(PoolError::UnknownIdentity));
    p.register(8).unwrap();
    assert_eq!(p.route_connection(8), Ok(()));
    assert_eq!(p.route_connection(8), Ok(()));
    assert_eq!(p.active_count(), 1);
}
