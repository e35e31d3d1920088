use ping_check::probe::{
    new_request, ping_ip, prepare_probe, reason_text, IpAddress, ProbeError, ProbeRequest,
    PROBE_ATTEMPTS, PROBE_TIMEOUT_SECS, PROBE_TTL,
};

fn v4(a: u8, b: u8, c: u8, d: u8) -> IpAddress {
    IpAddress::V4([a, b, c, d])
}

#[test]
fn request_has_fixed_parameters() {
    let q = new_request(v4(1, 1, 1, 1));
    assert_eq!(q.address, v4(1, 1, 1, 1));
    assert_eq!(q.timeout_secs, 1);
    assert_eq!(q.ttl, 3);
    assert_eq!(q.attempts, 5);
    assert_eq!(PROBE_TIMEOUT_SECS, 1);
    assert_eq!(PROBE_TTL, 3);
    assert_eq!(PROBE_ATTEMPTS, 5);
}

#[test]
fn request_identifiers_vary_between_calls() {
    let first = new_request(v4(8, 8, 8, 8));
    let mut differs = false;
    for _ in 0..64 {
        let q = new_request(v4(8, 8, 8, 8));
        if q.ident != first.ident || q.payload != first.payload {
            differs = true;
        }
    }
    assert!(differs);
}

#[test]
fn request_keeps_ipv6_address() {
    let a = IpAddress::V6([0x2606, 0x4700, 0x4700, 0, 0, 0, 0, 0x1111]);
    let q = new_request(a);
    assert_eq!(q.address, a);
}

#[test]
fn prepare_rejects_unparsed_address() {
    let r = prepare_probe(Err("invalid IP address syntax".to_string()));
    match r {
        Err(ProbeError::InvalidAddress(m)) => assert_eq!(m, "invalid IP address syntax"),
        other => panic!("unexpected {:?}", other),
    }
}

#[test]
fn prepare_builds_request_for_parsed_address() {
    let r = prepare_probe(Ok(v4(10, 255, 255, 1)));
    let q = r.unwrap();
    assert_eq!(q.address, v4(10, 255, 255, 1));
    assert_eq!((q.timeout_secs, q.ttl, q.attempts), (1, 3, 5));
}

#[test]
fn malformed_address_is_never_sent() {
    let r = ping_ip(Err("invalid IP address syntax".to_string()), |_q: ProbeRequest| {
        panic!("a malformed target must not be probed")
    });
    assert!(matches!(r, Err(ProbeError::InvalidAddress(_))));
}

#[test]
fn parsed_address_is_sent_once_with_fixed_parameters() {
    let mut seen: Vec<ProbeRequest> = Vec::new();
    let r = ping_ip(Ok(v4(1, 1, 1, 1)), |q: ProbeRequest| {
        seen.push(q);
        Ok(())
    });
    assert!(r.is_ok());
    assert_eq!(seen.len(), 1);
    assert_eq!(seen[0].address, v4(1, 1, 1, 1));
    assert_eq!((seen[0].timeout_secs, seen[0].ttl, seen[0].attempts), (1, 3, 5));
}

#[test]
fn send_failure_is_the_task_result() {
    let r = ping_ip(Ok(v4(10, 255, 255, 1)), |_q: ProbeRequest| {
        Err(ProbeError::Unreachable("io error: timed out".to_string()))
    });
    match r {
        Err(ProbeError::Unreachable(m)) => assert_eq!(m, "io error: timed out"),
        other => panic!("unexpected {:?}", other),
    }
}

#[test]
fn reason_text_of_each_error_kind() {
    assert_eq!(
        reason_text(&ProbeError::InvalidAddress("invalid IP address syntax".to_string())),
        "PING ERROR: invalid IP address syntax"
    );
    assert_eq!(
        reason_text(&ProbeError::Unreachable("io error: timed out".to_string())),
        "PING ERROR: io error: timed out"
    );
    assert_eq!(
        reason_text(&ProbeError::PermissionDenied("io error: Operation not permitted".to_string())),
        "PING ERROR: io error: Operation not permitted"
    );
    assert_eq!(reason_text(&ProbeError::Unreachable(String::new())), "PING ERROR: ");
}
