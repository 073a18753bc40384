use monero_harness::endpoint::{localhost_url, random_local_ports, FIRST_LOCAL_PORT};

#[test]
fn url_names_port_and_path() {
    assert_eq!(localhost_url(28081), "http://127.0.0.1:28081/json_rpc");
    assert_eq!(localhost_url(28083), "http://127.0.0.1:28083/json_rpc");
    assert_eq!(localhost_url(0), "http://127.0.0.1:0/json_rpc");
    assert_eq!(localhost_url(u16::MAX), "http://127.0.0.1:65535/json_rpc");
}

#[test]
fn random_ports_lie_in_the_range() {
    assert_eq!(FIRST_LOCAL_PORT, 1024);
    for _ in 0..2000 {
        let (daemon, wallet) = random_local_ports();
        assert!(daemon >= 1024 && daemon < u16::MAX);
        assert!(wallet >= 1024 && wallet < u16::MAX);
    }
}

#[test]
fn random_ports_are_not_always_the_same() {
    let (first, _) = random_local_ports();
    let mut differs = false;
    for _ in 0..200 {
        let (daemon, wallet) = random_local_ports();
        if daemon != first || wallet != first {
            differs = true;
        }
    }
    assert!(differs);
}
