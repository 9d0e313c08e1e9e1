use scored::admission::{
    AdmissionAction, AdmissionController, AdmissionDecision, AdmissionEvent, AdmissionState,
    drop_warning, processing_message,
};
use scored::decimal::dec_string;
use scored::pool::PoolModel;
use scored::response::{build, build_response, is_get};
use scored::startup::{
    destination, peer_label, SinkKind, StartupEvent, StartupPipeline, StartupStage,
    BIND_FAILURE_EXIT_CODE,
};

fn get_request() -> Vec<u8> {
    b"GET / HTTP/1.1\r\n".to_vec()
}

#[test]
fn decimal_of_zero() {
    assert_eq!(dec_string(0), "0");
}

#[test]
fn decimal_of_single_digit() {
    assert_eq!(dec_string(7), "7");
}

#[test]
fn decimal_of_ten() {
    assert_eq!(dec_string(10), "10");
}

#[test]
fn decimal_of_buffer_size() {
    assert_eq!(dec_string(512), "512");
}

#[test]
fn decimal_of_large_count() {
    assert_eq!(dec_string(18446744073709551615), "18446744073709551615");
}

#[test]
fn get_prefix_is_recognized() {
    assert!(is_get(&get_request()));
}

#[test]
fn get_prefix_with_trailing_bytes_is_recognized() {
    // The handler checks the whole read buffer, zero padding included.
    let mut data = get_request();
    data.resize(512, 0);
    assert!(is_get(&data));
}

#[test]
fn short_input_is_not_a_get() {
    assert!(!is_get(&b"GET / HTTP/1.1\r".to_vec()));
}

#[test]
fn empty_input_is_not_a_get() {
    assert!(!is_get(&Vec::new()));
}

#[test]
fn deviating_byte_is_not_a_get() {
    assert!(!is_get(&b"GET / HTTP/1.0\r\n".to_vec()));
    assert!(!is_get(&b"PUT / HTTP/1.1\r\n".to_vec()));
}

#[test]
fn browser_request_gets_ok_status_line() {
    let (status, body) = build(&get_request(), 16);
    assert_eq!(status, "HTTP/1.1 200 OK\r\n\r\n");
    assert_eq!(body, "invoked from browser: got 16 bytes");
}

#[test]
fn direct_access_gets_empty_status_line() {
    let (status, body) = build(&b"hello".to_vec(), 5);
    assert_eq!(status, "");
    assert_eq!(body, "direct access: got 5 bytes");
}

#[test]
fn empty_input_gets_empty_status_line() {
    let (status, body) = build(&Vec::new(), 0);
    assert_eq!(status, "");
    assert_eq!(body, "direct access: got 0 bytes");
}

#[test]
fn body_names_the_largest_read() {
    let mut data = vec![0u8; 512];
    data[0] = b'x';
    let (_, body) = build(&data, 512);
    assert_eq!(body, "direct access: got 512 bytes");
}

#[test]
fn browser_scenario_full_response() {
    // 16 raw bytes of the GET request line over the wire.
    let response = build_response(&get_request(), 16);
    assert_eq!(
        response,
        "HTTP/1.1 200 OK\r\n\r\ninvoked from browser: got 16 bytes"
    );
}

#[test]
fn direct_scenario_full_response() {
    // "hello": 5 bytes, no leading status line.
    let response = build_response(&b"hello".to_vec(), 5);
    assert_eq!(response, "direct access: got 5 bytes");
}

#[test]
fn building_twice_gives_identical_output() {
    let data = get_request();
    assert_eq!(build(&data, 16), build(&data, 16));
    let other = b"hello".to_vec();
    assert_eq!(build_response(&other, 5), build_response(&other, 5));
}

#[test]
fn connection_at_threshold_is_dispatched() {
    let mut c = AdmissionController::new(10);
    assert_eq!(c.evaluate_connection(10), AdmissionDecision::Dispatched);
}

#[test]
fn connection_over_threshold_is_dropped() {
    let mut c = AdmissionController::new(10);
    assert_eq!(c.evaluate_connection(11), AdmissionDecision::Dropped);
}

#[test]
fn controller_continues_after_a_drop() {
    let mut c = AdmissionController::new(0);
    assert_eq!(c.evaluate_connection(5), AdmissionDecision::Dropped);
    assert_eq!(c.state, AdmissionState::AwaitingConnection);
    assert_eq!(c.evaluate_connection(0), AdmissionDecision::Dispatched);
    assert_eq!(c.state, AdmissionState::AwaitingConnection);
}

#[test]
fn controller_continues_after_accept_error() {
    let mut c = AdmissionController::new(10);
    assert_eq!(c.accept_failed(), AdmissionAction::WarnAcceptError);
    assert_eq!(c.state, AdmissionState::AwaitingConnection);
    assert_eq!(c.evaluate_connection(3), AdmissionDecision::Dispatched);
}

#[test]
fn step_by_step_evaluation_walks_the_states() {
    let mut c = AdmissionController::new(10);
    assert_eq!(
        c.step(AdmissionEvent::ConnectionArrived),
        AdmissionAction::ObserveLoad
    );
    assert_eq!(c.state, AdmissionState::Evaluating);
    assert_eq!(
        c.step(AdmissionEvent::LoadObserved { queued_count: 11 }),
        AdmissionAction::DropConnection
    );
    assert_eq!(c.state, AdmissionState::Dropping);
    assert_eq!(
        c.step(AdmissionEvent::ActionCompleted),
        AdmissionAction::NoAction
    );
    assert_eq!(c.state, AdmissionState::AwaitingConnection);
}

#[test]
fn stray_event_changes_nothing() {
    let mut c = AdmissionController::new(10);
    assert_eq!(
        c.step(AdmissionEvent::ActionCompleted),
        AdmissionAction::NoAction
    );
    assert_eq!(c.state, AdmissionState::AwaitingConnection);
}

#[test]
fn saturation_scenario_drops_exactly_the_overloaded() {
    // Threshold 10, 4 workers, 12 connections arriving faster than any
    // worker picks work up: the queue grows by one per admitted connection,
    // so the counts observed are 0, 1, ..., and only the connection that
    // sees a count of 11 is dropped.
    let mut controller = AdmissionController::new(10);
    let mut pool = PoolModel::new(4);
    let mut decisions = Vec::new();
    for _ in 0..12 {
        let observed = pool.queued_count();
        let d = controller.evaluate_connection(observed);
        if d == AdmissionDecision::Dispatched {
            pool.submit();
        }
        decisions.push((observed, d));
    }
    let dropped: Vec<usize> = decisions
        .iter()
        .filter(|(_, d)| *d == AdmissionDecision::Dropped)
        .map(|(q, _)| *q)
        .collect();
    assert_eq!(dropped, vec![11]);
    for (q, d) in &decisions {
        if *q <= 10 {
            assert_eq!(*d, AdmissionDecision::Dispatched);
        } else {
            assert_eq!(*d, AdmissionDecision::Dropped);
        }
    }
    assert_eq!(pool.queued, 11);
}

#[test]
fn saturation_scenario_with_workers_draining() {
    // Same shape, but workers pick items up between arrivals: the observed
    // count then never exceeds the threshold and nothing is dropped.
    let mut controller = AdmissionController::new(10);
    let mut pool = PoolModel::new(4);
    for _ in 0..12 {
        let observed = pool.queued_count();
        let d = controller.evaluate_connection(observed);
        assert_eq!(d, AdmissionDecision::Dispatched);
        pool.submit();
        if pool.queued > 0 && pool.running < pool.workers {
            pool.start_next();
        }
        if pool.running > 0 {
            pool.finish();
        }
    }
}

#[test]
fn pool_counts_follow_the_work() {
    let mut pool = PoolModel::new(4);
    assert_eq!(pool.queued_count(), 0);
    pool.submit();
    pool.submit();
    assert_eq!(pool.queued_count(), 2);
    assert_eq!(pool.running, 0);
    pool.start_next();
    assert_eq!(pool.queued_count(), 1);
    assert_eq!(pool.running, 1);
    pool.finish();
    assert_eq!(pool.running, 0);
    assert_eq!(pool.queued_count(), 1);
}

#[test]
fn drop_warning_names_count_and_peer() {
    assert_eq!(
        drop_warning(11, "127.0.0.1:50000"),
        "Too many streams queued: 11. Dropping peer 127.0.0.1:50000..."
    );
}

#[test]
fn processing_message_names_peer() {
    assert_eq!(
        processing_message("127.0.0.1:50000"),
        "Processing incoming stream of peer 127.0.0.1:50000."
    );
}

#[test]
fn file_sink_success_proceeds_to_bind() {
    let mut p = StartupPipeline::new();
    let stage = p.step(StartupEvent::FileSinkInit { ok: true });
    assert_eq!(
        stage,
        StartupStage::Binding {
            sink: SinkKind::FileSink
        }
    );
}

#[test]
fn logging_fallback_keeps_startup_alive() {
    // A failed file sink must leave a console sink active, not abort.
    let mut p = StartupPipeline::new();
    assert_eq!(
        p.step(StartupEvent::FileSinkInit { ok: false }),
        StartupStage::ActivatingFallback
    );
    assert_eq!(
        p.step(StartupEvent::ConsoleSinkInit { ok: true }),
        StartupStage::Binding {
            sink: SinkKind::ConsoleSink
        }
    );
    assert_eq!(
        p.step(StartupEvent::BindAttempt { ok: true }),
        StartupStage::Serving {
            sink: SinkKind::ConsoleSink
        }
    );
}

#[test]
fn double_logging_failure_is_unrecoverable() {
    let mut p = StartupPipeline::new();
    p.step(StartupEvent::FileSinkInit { ok: false });
    assert_eq!(
        p.step(StartupEvent::ConsoleSinkInit { ok: false }),
        StartupStage::LoggingUnrecoverable
    );
}

#[test]
fn bind_failure_aborts_with_nonzero_code() {
    let mut p = StartupPipeline::new();
    p.step(StartupEvent::FileSinkInit { ok: true });
    let stage = p.step(StartupEvent::BindAttempt { ok: false });
    assert_eq!(
        stage,
        StartupStage::Aborted {
            exit_code: BIND_FAILURE_EXIT_CODE
        }
    );
    assert_ne!(BIND_FAILURE_EXIT_CODE, 0);
}

#[test]
fn destination_joins_address_and_port() {
    assert_eq!(destination("127.0.0.1", 7878), "127.0.0.1:7878");
}

#[test]
fn peer_label_uses_resolved_address() {
    assert_eq!(
        peer_label(Some(String::from("10.0.0.2:1234"))),
        "10.0.0.2:1234"
    );
}

#[test]
fn peer_label_falls_back_to_placeholder() {
    assert_eq!(peer_label(None), "unknown");
}
