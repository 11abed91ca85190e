use server_service::counter::ConnCounter;
use server_service::handler::{ConnHandler, ReadyState, RecordingHandler};
use server_service::pool::PoolId;
use server_service::service::{AdapterEvent, ServerMessage, StreamService};
use server_service::stream::RawStream;

fn ready_service(tag: &'static str) -> StreamService<RecordingHandler> {
    StreamService::new(RecordingHandler::new(ReadyState::Ready), tag, PoolId { id: 1 })
}

#[test]
fn connect_dispatches_then_releases_guard() {
    let mut svc = ready_service("srv");
    let mut counter = ConnCounter::new();
    let guard = counter.get();
    assert_eq!(counter.count, 1);

    let r = svc.call(
        &mut counter,
        Some(guard),
        ServerMessage::Connect(RawStream { id: 7, convertible: true }),
    );

    assert!(r.is_ok());
    assert_eq!(counter.count, 0);
    assert_eq!(svc.service.log.len(), 1);
    assert_eq!(svc.service.log[0].id, 7);
    assert_eq!(svc.service.log[0].tag, Some("srv"));
    assert_eq!(svc.service.log[0].pool, Some(1));
    assert_eq!(
        svc.events,
        vec![AdapterEvent::Dispatched(7), AdapterEvent::GuardReleased]
    );
}

#[test]
fn conversion_failure_reports_and_skips_dispatch() {
    let mut svc = ready_service("srv");
    let mut counter = ConnCounter::new();
    let guard = counter.get();

    let r = svc.call(
        &mut counter,
        Some(guard),
        ServerMessage::Connect(RawStream { id: 9, convertible: false }),
    );

    assert!(r.is_err());
    // no dispatch, so no tag or pool was attached to anything
    assert!(svc.service.log.is_empty());
    // the failure was reported with the stream's identity, and the guard
    // still went back to the counter
    assert_eq!(counter.count, 0);
    assert_eq!(
        svc.events,
        vec![AdapterEvent::ConvertFailed(9), AdapterEvent::GuardReleased]
    );
}

#[test]
fn readiness_requires_both_signals() {
    let mut svc = ready_service("srv");
    assert_eq!(svc.poll_ready(), ReadyState::Ready);

    // pool exhausted: combined readiness flips on the next query
    svc.set_pool_ready(false);
    assert_eq!(svc.poll_ready(), ReadyState::Pending);
    svc.set_pool_ready(true);
    assert_eq!(svc.poll_ready(), ReadyState::Ready);

    // handler not ready: combined readiness flips too
    svc.service.set_ready(ReadyState::Pending);
    assert_eq!(svc.poll_ready(), ReadyState::Pending);
    svc.service.set_ready(ReadyState::Ready);
    assert_eq!(svc.poll_ready(), ReadyState::Ready);

    // handler poll failure collapses to a generic failure
    svc.service.set_ready(ReadyState::Failed);
    assert_eq!(svc.poll_ready(), ReadyState::Failed);
}

#[test]
fn pool_exhausted_reports_not_ready_and_nothing_is_dispatched() {
    let mut svc = ready_service("srv");
    svc.set_pool_ready(false);
    assert_eq!(svc.poll_ready(), ReadyState::Pending);
    // the scheduler does not call a service that reported not-ready, so the
    // handler saw nothing
    assert!(svc.service.log.is_empty());
    assert!(svc.events.is_empty());
}

#[test]
fn graceful_shutdown_is_inert_at_this_layer() {
    let mut svc = ready_service("srv");
    let mut counter = ConnCounter::new();

    let r = svc.call(&mut counter, None, ServerMessage::Shutdown(5000));

    assert!(r.is_ok());
    assert!(svc.service.log.is_empty());
    assert!(svc.events.is_empty());
}

#[test]
fn force_shutdown_is_inert_at_this_layer() {
    let mut svc = ready_service("srv");
    let mut counter = ConnCounter::new();
    let guard = counter.get();

    let r = svc.call(&mut counter, Some(guard), ServerMessage::ForceShutdown);

    assert!(r.is_ok());
    assert!(svc.service.log.is_empty());
    // the guard is still returned to the counter
    assert_eq!(counter.count, 0);
    assert_eq!(svc.events, vec![AdapterEvent::GuardReleased]);
}

#[test]
fn shutdown_forwarding_reaches_the_handler() {
    let svc = ready_service("srv");
    assert!(svc.poll_shutdown());
}

#[test]
fn counter_counts_each_guard_once() {
    let mut counter = ConnCounter::new();
    let a = counter.get();
    let b = counter.get();
    assert_eq!(counter.count, 2);
    counter.release(a);
    assert_eq!(counter.count, 1);
    counter.release(b);
    assert_eq!(counter.count, 0);
}

#[test]
fn consecutive_connections_dispatch_in_order() {
    let mut svc = ready_service("srv");
    let mut counter = ConnCounter::new();

    let g1 = counter.get();
    let g2 = counter.get();
    let r1 = svc.call(
        &mut counter,
        Some(g1),
        ServerMessage::Connect(RawStream { id: 1, convertible: true }),
    );
    let r2 = svc.call(
        &mut counter,
        Some(g2),
        ServerMessage::Connect(RawStream { id: 2, convertible: true }),
    );

    assert!(r1.is_ok() && r2.is_ok());
    assert_eq!(counter.count, 0);
    assert_eq!(svc.service.log.len(), 2);
    assert_eq!(svc.service.log[0].id, 1);
    assert_eq!(svc.service.log[1].id, 2);
    assert_eq!(
        svc.events,
        vec![
            AdapterEvent::Dispatched(1),
            AdapterEvent::GuardReleased,
            AdapterEvent::Dispatched(2),
            AdapterEvent::GuardReleased,
        ]
    );
}

#[test]
fn failed_connection_does_not_poison_the_service() {
    let mut svc = ready_service("srv");
    let mut counter = ConnCounter::new();

    let g1 = counter.get();
    let r1 = svc.call(
        &mut counter,
        Some(g1),
        ServerMessage::Connect(RawStream { id: 3, convertible: false }),
    );
    assert!(r1.is_err());

    let g2 = counter.get();
    let r2 = svc.call(
        &mut counter,
        Some(g2),
        ServerMessage::Connect(RawStream { id: 4, convertible: true }),
    );
    assert!(r2.is_ok());
    assert_eq!(svc.service.log.len(), 1);
    assert_eq!(svc.service.log[0].id, 4);
}
