use srv_shim::addr::{SockAddr, AF_INET};
use srv_shim::srvhook::{apply_srv_result, Resolution, Rewrite, PLACEHOLDER_PORT};
use srv_shim::SRVHook;

fn name(s: &str) -> String {
    s.to_string()
}

#[test]
fn first_addresses_come_from_the_reserved_block() {
    let mut h = SRVHook::new();
    assert_eq!(h.resolve_or_allocate(&name("_a._tcp.x")), Some([250, 0, 0, 0]));
    assert_eq!(h.resolve_or_allocate(&name("_b._tcp.x")), Some([250, 0, 0, 1]));
    assert_eq!(h.len(), 2);
}

#[test]
fn distinct_names_get_distinct_addresses() {
    let mut h = SRVHook::new();
    let mut seen: Vec<[u8; 4]> = Vec::new();
    for i in 0..300 {
        let ip = h.resolve_or_allocate(&format!("_svc{}._tcp.example", i)).unwrap();
        assert!(!seen.contains(&ip));
        seen.push(ip);
    }
    assert_eq!(seen[256], [250, 0, 1, 0]);
}

#[test]
fn repeated_resolution_returns_the_same_address() {
    let mut h = SRVHook::new();
    let a = h.resolve_or_allocate(&name("_x._udp.y"));
    h.resolve_or_allocate(&name("_other._udp.y"));
    let b = h.resolve_or_allocate(&name("_x._udp.y"));
    assert_eq!(a, b);
    assert_eq!(h.len(), 2);
}

#[test]
fn many_callers_allocate_one_address() {
    let mut h = SRVHook::new();
    let n = name("_svc._tcp.example");
    let first = h.resolve_or_allocate(&n);
    for _ in 0..63 {
        assert_eq!(h.resolve_or_allocate(&n), first);
    }
    assert_eq!(h.len(), 1);
    assert_eq!(h.resolve_or_allocate(&name("_next._tcp.example")), Some([250, 0, 0, 1]));
}

#[test]
fn lookup_returns_the_name_that_produced_an_address() {
    let mut h = SRVHook::new();
    let a = h.resolve_or_allocate(&name("_a._tcp.x")).unwrap();
    let b = h.resolve_or_allocate(&name("_b._tcp.x")).unwrap();
    assert_eq!(h.lookup_name(a), Some(name("_a._tcp.x")));
    assert_eq!(h.lookup_name(b), Some(name("_b._tcp.x")));
}

#[test]
fn lookup_of_unknown_addresses_is_none() {
    let mut h = SRVHook::new();
    h.resolve_or_allocate(&name("_a._tcp.x"));
    assert_eq!(h.lookup_name([250, 0, 0, 1]), None);
    assert_eq!(h.lookup_name([249, 255, 255, 255]), None);
    assert_eq!(h.lookup_name([10, 0, 0, 1]), None);
    assert_eq!(SRVHook::new().lookup_name([250, 0, 0, 0]), None);
}

#[test]
fn ordinary_names_are_delegated_untouched() {
    let mut h = SRVHook::new();
    assert!(matches!(h.getaddrinfo(&name("example.com")), Resolution::Delegate));
    assert!(matches!(h.getaddrinfo(&name("")), Resolution::Delegate));
    assert!(matches!(h.getaddrinfo(&name("a_b._tcp")), Resolution::Delegate));
    assert_eq!(h.len(), 0);
}

#[test]
fn discovery_names_get_a_placeholder_record() {
    let mut h = SRVHook::new();
    match h.getaddrinfo(&name("_http._tcp.svc")) {
        Resolution::Synthetic(info) => {
            assert_eq!(info.flags, 0);
            assert_eq!(info.family, 2);
            assert_eq!(info.socktype, 1);
            assert_eq!(info.protocol, 6);
            assert_eq!(info.addrlen, 16);
            assert_eq!(info.addr.family, 2);
            assert_eq!(info.addr.data, [0x1f, 0x90, 250, 0, 0, 0, 0, 0, 0, 0, 0, 0, 0, 0]);
        }
        _ => panic!("expected a synthetic record"),
    }
    assert_eq!(h.len(), 1);
}

#[test]
fn inet_encodes_port_and_address() {
    let sa = SockAddr::inet(9999, [10, 0, 0, 5]);
    assert_eq!(sa.family, AF_INET);
    assert_eq!(sa.data, [0x27, 0x0f, 10, 0, 0, 5, 0, 0, 0, 0, 0, 0, 0, 0]);
    assert_eq!(sa.port_ip(), (9999, [10, 0, 0, 5]));
}

fn stub(n: &String) -> Result<(u16, [u8; 4]), String> {
    match n.as_str() {
        "_n._tcp.x" => Ok((9999, [10, 0, 0, 5])),
        "_http._tcp.svc" => Ok((8080, [10, 0, 0, 1])),
        _ => Err("srv lookup failed".to_string()),
    }
}

#[test]
fn found_record_rewrites_the_destination() {
    let mut h = SRVHook::new();
    let a = h.resolve_or_allocate(&name("_n._tcp.x")).unwrap();
    let mut sa = SockAddr::inet(PLACEHOLDER_PORT, a);
    let r = h.set_sockaddr(&mut sa, stub);
    assert!(matches!(r, Rewrite::Rewritten));
    assert_eq!(sa.family, AF_INET);
    assert_eq!(sa.port_ip(), (9999, [10, 0, 0, 5]));
    assert_eq!(sa.data, [0x27, 0x0f, 10, 0, 0, 5, 0, 0, 0, 0, 0, 0, 0, 0]);
}

#[test]
fn apply_found_record_on_inet_address() {
    let mut sa = SockAddr { family: AF_INET, data: [0, 1, 250, 0, 0, 3, 9, 9, 9, 9, 9, 9, 9, 9] };
    let r = apply_srv_result(&mut sa, Ok((9999, [10, 0, 0, 5])));
    assert!(matches!(r, Rewrite::Rewritten));
    assert_eq!(sa.data, [0x27, 0x0f, 10, 0, 0, 5, 0, 0, 0, 0, 0, 0, 0, 0]);
}

#[test]
fn unknown_destination_is_left_byte_for_byte() {
    let mut h = SRVHook::new();
    h.resolve_or_allocate(&name("_n._tcp.x"));
    let mut sa = SockAddr { family: AF_INET, data: [1, 2, 10, 0, 0, 9, 7, 7, 7, 7, 7, 7, 7, 7] };
    let r = h.set_sockaddr(&mut sa, |_n: &String| -> Result<(u16, [u8; 4]), String> {
        panic!("the resolver must not be asked")
    });
    assert!(matches!(r, Rewrite::NotSynthetic));
    assert_eq!(sa.family, AF_INET);
    assert_eq!(sa.data, [1, 2, 10, 0, 0, 9, 7, 7, 7, 7, 7, 7, 7, 7]);
}

#[test]
fn failed_lookup_leaves_the_stale_address() {
    let mut h = SRVHook::new();
    let a = h.resolve_or_allocate(&name("_gone._tcp.x")).unwrap();
    let mut sa = SockAddr::inet(PLACEHOLDER_PORT, a);
    let r = h.set_sockaddr(&mut sa, stub);
    match r {
        Rewrite::LookupFailed(e) => assert_eq!(e, "srv lookup failed"),
        _ => panic!("expected a failed lookup"),
    }
    assert_eq!(sa.port_ip(), (PLACEHOLDER_PORT, [250, 0, 0, 0]));
}

#[test]
fn apply_failure_leaves_the_address() {
    let mut sa = SockAddr::inet(PLACEHOLDER_PORT, [250, 0, 0, 0]);
    let r = apply_srv_result(&mut sa, Err(name("no records found")));
    assert!(matches!(r, Rewrite::LookupFailed(_)));
    assert_eq!(sa.data, [0x1f, 0x90, 250, 0, 0, 0, 0, 0, 0, 0, 0, 0, 0, 0]);
}

#[test]
fn other_families_are_not_rewritten() {
    let mut h = SRVHook::new();
    h.resolve_or_allocate(&name("_n._tcp.x"));
    let mut sa = SockAddr { family: 10, data: [0, 80, 250, 0, 0, 0, 1, 2, 3, 4, 5, 6, 7, 8] };
    let r = h.set_sockaddr(&mut sa, stub);
    assert!(matches!(r, Rewrite::UnsupportedFamily));
    assert_eq!(sa.family, 10);
    assert_eq!(sa.data, [0, 80, 250, 0, 0, 0, 1, 2, 3, 4, 5, 6, 7, 8]);
}

#[test]
fn resolve_then_connect_reaches_the_real_host() {
    let mut h = SRVHook::new();
    let info = match h.getaddrinfo(&name("_http._tcp.svc")) {
        Resolution::Synthetic(info) => info,
        _ => panic!("expected a synthetic record"),
    };
    let mut dest = info.addr;
    let (p0, s1) = dest.port_ip();
    assert_eq!(p0, 8080);
    assert_eq!(h.lookup_name(s1), Some(name("_http._tcp.svc")));
    let r = h.set_sockaddr(&mut dest, stub);
    assert!(matches!(r, Rewrite::Rewritten));
    assert_eq!(dest.port_ip(), (8080, [10, 0, 0, 1]));
}
