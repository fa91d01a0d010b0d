use snowsched::network_util::classify_probe;
use snowsched::network_util::CheckPortResult;
use snowsched::network_util::ProbeOutcome;

#[test]
fn test_check_port_result_new() {
    let r = CheckPortResult::new(true, "reachable");
    assert!(r.result);
    assert_eq!(r.reason, "reachable");
}

#[test]
fn test_classify_connected() {
    let r = classify_probe(ProbeOutcome::Connected).unwrap();
    assert!(r.result);
    assert_eq!(r.reason, "端口开放");
}

#[test]
fn test_classify_refused() {
    let r = classify_probe(ProbeOutcome::Refused).unwrap();
    assert!(!r.result);
    assert_eq!(r.reason, "端口关闭或被拒绝");
}

#[test]
fn test_classify_timeout() {
    let r = classify_probe(ProbeOutcome::TimedOut);
    assert_eq!(r.err().unwrap(), "连接超时");
}
