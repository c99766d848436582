use portscan::common_ports::get_common_ports;
use portscan::port::Port;

/// Check if the first 10 ports are correct
#[test]
fn get_common_ports_10() {
    let expected = &[
        Port { service: "http".to_string(), number: 80, is_open: None },
        Port { service: "telnet".to_string(), number: 23, is_open: None },
        Port { service: "https".to_string(), number: 443, is_open: None },
        Port { service: "ftp".to_string(), number: 21, is_open: None },
        Port { service: "ssh".to_string(), number: 22, is_open: None },
        Port { service: "smtp".to_string(), number: 25, is_open: None },
        Port { service: "ms-wbt-server".to_string(), number: 3389, is_open: None },
        Port { service: "pop3".to_string(), number: 110, is_open: None },
        Port { service: "microsoft-ds".to_string(), number: 445, is_open: None },
        Port { service: "netbios-ssn".to_string(), number: 139, is_open: None },
    ];

    let result = get_common_ports(10);

    assert!(result.len() == 10);
    for i in 0..10 {
        assert_eq!(result[i], expected[i]);
    }
}

/// Check that `get_common_ports(0)` returns an empty vector
#[test]
fn get_common_ports_0() {
    let result = get_common_ports(0);

    assert!(result.is_empty());
}

/// Check that `n` is capped at 5000
#[test]
fn get_common_ports_6000() {
    let result = get_common_ports(6000);

    assert!(result.len() == 5000);
}

/// Every entry of the table comes out unprobed, with a nonzero port number.
#[test]
fn get_common_ports_entries_unprobed() {
    let result = get_common_ports(5000);

    assert_eq!(result.len(), 5000);
    for port in result.iter() {
        assert!(port.number >= 1);
        assert!(port.is_open.is_none());
    }
}
