use sidecar_supervisor::health::{probe_verdict, response_is_healthy, HealthWait, WaitStep};

#[test]
fn success_responses_are_healthy() {
    assert!(response_is_healthy(&b"HTTP/1.1 200 OK\r\n\r\n".to_vec()));
    assert!(response_is_healthy(&b"HTTP/1.0 204 No Content\r\n".to_vec()));
}

#[test]
fn other_responses_are_unhealthy() {
    assert!(!response_is_healthy(&b"HTTP/1.1 503 Service Unavailable\r\n".to_vec()));
    assert!(!response_is_healthy(&b"HTTP/1.1 301 Moved\r\n".to_vec()));
    assert!(!response_is_healthy(&b"HTTP/1.1 20".to_vec()));
    assert!(!response_is_healthy(&b"garbage".to_vec()));
    assert!(!response_is_healthy(&Vec::new()));
}

#[test]
fn failed_probe_is_unhealthy() {
    assert!(!probe_verdict(None));
    assert!(probe_verdict(Some(b"HTTP/1.1 200 OK\r\n".to_vec())));
}

#[test]
fn wait_ends_when_healthy() {
    let mut w = HealthWait::new(30, 500);
    assert_eq!(w.on_probe(false), WaitStep::Retry);
    assert_eq!(w.on_probe(true), WaitStep::Ready);
    assert_eq!(w.interval_ms(), 500);
}

#[test]
fn wait_times_out_after_bounded_probes() {
    let mut w = HealthWait::new(30, 500);
    let mut probes = 0;
    loop {
        probes += 1;
        match w.on_probe(false) {
            WaitStep::Retry => continue,
            WaitStep::TimedOut => break,
            WaitStep::Ready => panic!("never healthy"),
        }
    }
    assert_eq!(probes, 31);
    assert_eq!(w.on_probe(false), WaitStep::TimedOut);
    assert_eq!(w.on_probe(true), WaitStep::Ready);
}

#[test]
fn wait_with_no_retries_times_out_at_once() {
    let mut w = HealthWait::new(0, 200);
    assert_eq!(w.on_probe(false), WaitStep::TimedOut);
}
