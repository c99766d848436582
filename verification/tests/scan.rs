use portscan::port::{
    annotate_ports, annotate_target, annotate_targets, classify_probe, probe_addresses,
    IpAddress, Port, ProbeOutcome, ProbePhase, SocketAddress, Target, PROBE_TIMEOUT_MILLIS,
};

fn unprobed(service: &str, number: u16) -> Port {
    Port { service: service.to_string(), number, is_open: None }
}

fn localhost(port: u16) -> SocketAddress {
    SocketAddress { ip: IpAddress::V4(127, 0, 0, 1), port }
}

/// Only an established connection classifies as open.
#[test]
fn classify_probe_totality() {
    assert!(classify_probe(ProbeOutcome::Connected));
    assert!(!classify_probe(ProbeOutcome::Refused));
    assert!(!classify_probe(ProbeOutcome::Reset));
    assert!(!classify_probe(ProbeOutcome::Unreachable));
    assert!(!classify_probe(ProbeOutcome::TimedOut));
}

/// Substituting the port number keeps the address.
#[test]
fn with_port_keeps_address() {
    let base = localhost(0);
    let a = base.with_port(443);
    assert_eq!(a.ip, IpAddress::V4(127, 0, 0, 1));
    assert_eq!(a.port, 443);
    let v6 = SocketAddress { ip: IpAddress::V6(0, 0, 0, 0, 0, 0, 0, 1), port: 0 };
    let b = v6.with_port(22);
    assert_eq!(b.ip, IpAddress::V6(0, 0, 0, 0, 0, 0, 0, 1));
    assert_eq!(b.port, 22);
}

/// The plan holds one fully-specified address per port, in input order.
#[test]
fn probe_addresses_plan() {
    let base = localhost(0);
    let ports = vec![unprobed("http", 80), unprobed("https", 443), unprobed("ssh", 22)];
    let plan = probe_addresses(&base, &ports);
    assert_eq!(plan.len(), 3);
    assert_eq!(plan[0], localhost(80));
    assert_eq!(plan[1], localhost(443));
    assert_eq!(plan[2], localhost(22));
}

/// Fan-in attaches each outcome to its own port and settles every status.
#[test]
fn annotate_ports_settles_statuses() {
    let ports = vec![unprobed("http", 80), unprobed("ssh", 22)];
    let outcomes = vec![true, false];
    let r = annotate_ports(ports, &outcomes);
    assert_eq!(r.len(), 2);
    assert_eq!(r[0], Port { service: "http".to_string(), number: 80, is_open: Some(true) });
    assert_eq!(r[1], Port { service: "ssh".to_string(), number: 22, is_open: Some(false) });
}

/// An empty port list is returned unchanged and empty.
#[test]
fn annotate_target_empty_ports() {
    let target =
        Target { name: "localhost".to_string(), address: localhost(0), ports: Vec::new() };
    let r = annotate_target(target, &Vec::new());
    assert_eq!(r.name, "localhost".to_string());
    assert_eq!(r.address, localhost(0));
    assert!(r.ports.is_empty());
}

/// Annotation keeps the target's name and address and annotates its ports.
#[test]
fn annotate_target_keeps_identity() {
    let target = Target {
        name: "localhost".to_string(),
        address: localhost(0),
        ports: vec![unprobed("http", 80)],
    };
    let r = annotate_target(target, &vec![false]);
    assert_eq!(r.name, "localhost".to_string());
    assert_eq!(r.address, localhost(0));
    assert_eq!(r.ports.len(), 1);
    assert_eq!(r.ports[0].is_open, Some(false));
}

/// Two targets of three ports each, one open per target: each comes back
/// with exactly three annotated ports and exactly one open, and every
/// returned port was present in that target's own input.
#[test]
fn annotate_targets_batch() {
    let t1 = Target {
        name: "one".to_string(),
        address: localhost(0),
        ports: vec![unprobed("http", 80), unprobed("https", 443), unprobed("ssh", 22)],
    };
    let t2 = Target {
        name: "two".to_string(),
        address: SocketAddress { ip: IpAddress::V4(127, 0, 0, 2), port: 0 },
        ports: vec![unprobed("ftp", 21), unprobed("smtp", 25), unprobed("telnet", 23)],
    };
    let inputs = vec![t1.clone(), t2.clone()];
    let outcomes = vec![vec![false, true, false], vec![true, false, false]];
    let r = annotate_targets(inputs, &outcomes);

    assert_eq!(r.len(), 2);
    for (k, (input, result)) in [(&t1, &r[0]), (&t2, &r[1])].iter().enumerate() {
        assert_eq!(result.name, input.name);
        assert_eq!(result.address, input.address);
        assert_eq!(result.ports.len(), 3);
        let open: Vec<u16> =
            result.ports.iter().filter(|p| p.is_open == Some(true)).map(|p| p.number).collect();
        assert_eq!(open.len(), 1);
        assert_eq!(open[0], if k == 0 { 443 } else { 21 });
        for port in result.ports.iter() {
            assert!(port.is_open.is_some());
            assert!(input
                .ports
                .iter()
                .any(|q| q.number == port.number && q.service == port.service));
        }
    }
}

/// A unit of work moves pending -> resolved -> collected, never backwards.
#[test]
fn probe_phase_transitions() {
    let p = ProbePhase::Pending;
    let r = p.advance();
    assert_eq!(r, ProbePhase::Resolved);
    let c = r.advance();
    assert_eq!(c, ProbePhase::Collected);
}

/// The probe budget is the fixed three seconds.
#[test]
fn probe_timeout_constant() {
    assert_eq!(PROBE_TIMEOUT_MILLIS, 3000);
}
