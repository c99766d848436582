use std::time::{Duration, Instant};

use portscan::port::{
    annotate_target, classify_probe, probe_addresses, IpAddress, Port, ProbeOutcome,
    SocketAddress, Target, PROBE_TIMEOUT_MILLIS,
};

fn runtime() -> tokio::runtime::Runtime {
    tokio::runtime::Builder::new_multi_thread().enable_all().build().unwrap()
}

fn unprobed(service: &str, number: u16) -> Port {
    Port { service: service.to_string(), number, is_open: None }
}

fn localhost(port: u16) -> SocketAddress {
    SocketAddress { ip: IpAddress::V4(127, 0, 0, 1), port }
}

fn connect_text(a: &SocketAddress) -> String {
    match a.ip {
        IpAddress::V4(o1, o2, o3, o4) => format!("{}.{}.{}.{}:{}", o1, o2, o3, o4, a.port),
        IpAddress::V6(g1, g2, g3, g4, g5, g6, g7, g8) => format!(
            "[{:x}:{:x}:{:x}:{:x}:{:x}:{:x}:{:x}:{:x}]:{}",
            g1, g2, g3, g4, g5, g6, g7, g8, a.port
        ),
    }
}

async fn probe(address: SocketAddress) -> ProbeOutcome {
    let budget = Duration::from_millis(PROBE_TIMEOUT_MILLIS);
    let attempt = tokio::net::TcpStream::connect(connect_text(&address));
    match tokio::time::timeout(budget, attempt).await {
        Ok(Ok(_)) => ProbeOutcome::Connected,
        Ok(Err(_)) => ProbeOutcome::Refused,
        Err(_) => ProbeOutcome::TimedOut,
    }
}

async fn scan_one(target: Target) -> Target {
    let plan = probe_addresses(&target.address, &target.ports);
    let mut tasks = Vec::new();
    for address in plan {
        tasks.push(tokio::spawn(probe(address)));
    }
    let mut outcomes = Vec::new();
    for task in tasks {
        outcomes.push(classify_probe(task.await.unwrap()));
    }
    annotate_target(target, &outcomes)
}

/// A port with no listener comes back closed — never unset, never an
/// error — and the scan resolves well within the probe's time budget.
#[test]
fn scan_closed_port_resolves_quickly() {
    let rt = runtime();
    let started = Instant::now();
    rt.block_on(async {
        let target = Target {
            name: "localhost".to_string(),
            address: localhost(0),
            ports: vec![unprobed("tcpmux", 1)],
        };
        let result = scan_one(target).await;
        assert_eq!(result.ports.len(), 1);
        assert_eq!(result.ports[0].number, 1);
        assert_eq!(result.ports[0].is_open, Some(false));
    });
    let elapsed = started.elapsed();
    assert!(elapsed < Duration::from_millis(PROBE_TIMEOUT_MILLIS + 500));
}

/// A batch of closed ports is probed concurrently: the whole batch still
/// resolves within one probe budget plus slack, and every port of every
/// target comes back annotated.
#[test]
fn scan_closed_batch_within_budget() {
    let rt = runtime();
    let started = Instant::now();
    rt.block_on(async {
        let ports: Vec<Port> =
            (1u16..9u16).map(|n| unprobed("unknown", n)).collect();
        let target = Target {
            name: "localhost".to_string(),
            address: localhost(0),
            ports,
        };
        let result = scan_one(target).await;
        assert_eq!(result.ports.len(), 8);
        for port in result.ports.iter() {
            assert_eq!(port.is_open, Some(false));
        }
    });
    let elapsed = started.elapsed();
    assert!(elapsed < Duration::from_millis(PROBE_TIMEOUT_MILLIS + 500));
}
