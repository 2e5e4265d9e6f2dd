use qprobe::address::{
    decode, family_of, ipv4_string, ipv6_string, u32_from_be, AddressFamily, Addresses,
    SocketIdentity, AF_INET, AF_INET6,
};
use qprobe::hook::{
    q_inet_csk_accept, q_tcp_conn_request, q_tcp_fastopen_queue_check, start, step, Action, Event,
    HookKind, Invocation, HOOK_FAILED, HOOK_OK,
};
use qprobe::record::{format_record, QueueSnapshot};
use qprobe::simulate::{KernelImage, KernelSocket, ReadKind, EFAULT};

fn v4_identity(source: u32, dest: u32) -> SocketIdentity {
    SocketIdentity {
        family: AF_INET,
        v4_source: source.to_be_bytes(),
        v4_dest: dest.to_be_bytes(),
        v6_source: [0; 16],
        v6_dest: [0; 16],
    }
}

fn v6_identity(source: [u8; 16], dest: [u8; 16]) -> SocketIdentity {
    SocketIdentity {
        family: AF_INET6,
        v4_source: [0; 4],
        v4_dest: [0; 4],
        v6_source: source,
        v6_dest: dest,
    }
}

fn socket(address: u64, identity: SocketIdentity, qlen: u32, qmax: u32) -> KernelSocket {
    KernelSocket {
        address,
        identity: Some(identity),
        ack_backlog: Some(qlen),
        max_ack_backlog: Some(qmax),
    }
}

const DOC_V6: [u8; 16] = [0x20, 0x01, 0x0d, 0xb8, 0, 0, 0, 0, 0, 0, 0, 0, 0, 0, 0, 0x01];
const LINK_V6: [u8; 16] = [0xfe, 0x80, 0, 0, 0, 0, 0, 0, 0, 0, 0, 0, 0, 0, 0, 0x02];

#[test]
fn decode_ipv4_loopback_and_private() {
    let id = v4_identity(0x7f000001, 0xc0a80101);
    match decode(&id) {
        Addresses::V4 { source, dest } => {
            assert_eq!(source, 0x7f000001);
            assert_eq!(dest, 0xc0a80101);
            assert_eq!(ipv4_string(source), "127.0.0.1");
            assert_eq!(ipv4_string(dest), "192.168.1.1");
        }
        other => panic!("unexpected {:?}", other),
    }
}

#[test]
fn decode_ipv6_documentation_prefix() {
    let id = v6_identity(DOC_V6, LINK_V6);
    match decode(&id) {
        Addresses::V6 { source, dest } => {
            assert_eq!(ipv6_string(&source), "2001:db8::1");
            assert_eq!(ipv6_string(&dest), "fe80::2");
        }
        other => panic!("unexpected {:?}", other),
    }
}

#[test]
fn decode_unsupported_family() {
    let mut id = v4_identity(1, 2);
    id.family = 7;
    assert!(matches!(decode(&id), Addresses::Unsupported { family: 7 }));
    assert_eq!(format_record(&decode(&id), None), None);
}

#[test]
fn family_tags() {
    assert_eq!(family_of(2), AddressFamily::Inet);
    assert_eq!(family_of(10), AddressFamily::Inet6);
    assert_eq!(family_of(0), AddressFamily::Other(0));
    assert_eq!(family_of(u16::MAX), AddressFamily::Other(u16::MAX));
}

#[test]
fn big_endian_octets() {
    assert_eq!(u32_from_be(&[0x7f, 0, 0, 1]), 0x7f000001);
    assert_eq!(u32_from_be(&[0xff, 0xff, 0xff, 0xff]), u32::MAX);
    assert_eq!(u32_from_be(&[0, 0, 0, 0]), 0);
}

#[test]
fn ipv4_text_edges() {
    assert_eq!(ipv4_string(0), "0.0.0.0");
    assert_eq!(ipv4_string(u32::MAX), "255.255.255.255");
    assert_eq!(ipv4_string(0x0a000001), "10.0.0.1");
    assert_eq!(ipv4_string(0x01020304), "1.2.3.4");
}

#[test]
fn ipv6_text_edges() {
    assert_eq!(ipv6_string(&[0; 16]), "::");
    let mut loopback = [0u8; 16];
    loopback[15] = 1;
    assert_eq!(ipv6_string(&loopback), "::1");
    let mut leading = [0u8; 16];
    leading[1] = 1;
    assert_eq!(ipv6_string(&leading), "1::");
    // A single zero group is not shortened.
    let single = [0, 1, 0, 0, 0, 2, 0, 3, 0, 4, 0, 5, 0, 6, 0, 7];
    assert_eq!(ipv6_string(&single), "1:0:2:3:4:5:6:7");
    // Of two equally long runs the first is shortened.
    let tie = [0, 1, 0, 0, 0, 0, 0, 2, 0, 0, 0, 0, 0, 3, 0, 4];
    assert_eq!(ipv6_string(&tie), "1::2:0:0:3:4");
    // The longer run wins over an earlier shorter one.
    let longer = [0, 1, 0, 0, 0, 0, 0, 2, 0, 0, 0, 0, 0, 0, 0, 3];
    assert_eq!(ipv6_string(&longer), "1:0:0:2::3");
    let full = [0xab, 0xcd, 0, 0x0f, 1, 0, 0x10, 0, 0xff, 0xff, 0, 1, 0, 1, 0, 1];
    assert_eq!(ipv6_string(&full), "abcd:f:100:1000:ffff:1:1:1");
}

#[test]
fn connection_request_scenario() {
    let image = KernelImage {
        sockets: vec![socket(0x1000, v4_identity(0x0a000001, 0x0a000002), 3, 128)],
    };
    let report = image.run(HookKind::ConnectionRequest, &vec![0, 0, 0x1000, 0]);
    assert_eq!(report.code, HOOK_OK);
    assert_eq!(
        report.record.as_deref(),
        Some("AF_INET 'accept queue' qlen: 3, qmax: 128, src address: 10.0.0.1, dest address: 10.0.0.2")
    );
    assert_eq!(
        report.reads,
        vec![ReadKind::Identity, ReadKind::QueueLength, ReadKind::QueueMax]
    );
}

#[test]
fn ipv6_queue_record() {
    let image = KernelImage { sockets: vec![socket(7, v6_identity(DOC_V6, LINK_V6), 0, u32::MAX)] };
    let report = image.run(HookKind::Accept { socket_arg: 0 }, &vec![7, 0, 0, 0]);
    assert_eq!(report.code, HOOK_OK);
    assert_eq!(
        report.record.as_deref(),
        Some("AF_INET6 'accept queue' qlen: 0, qmax: 4294967295, src address: 2001:db8::1, dest address: fe80::2")
    );
}

#[test]
fn outbound_connect_has_no_counters() {
    let image = KernelImage { sockets: vec![socket(9, v4_identity(0x7f000001, 0xc0a80101), 5, 6)] };
    let report = image.run(HookKind::OutboundConnect, &vec![9]);
    assert_eq!(report.code, HOOK_OK);
    assert_eq!(
        report.record.as_deref(),
        Some("AF_INET src address: 127.0.0.1, dest address: 192.168.1.1")
    );
    assert_eq!(report.reads, vec![ReadKind::Identity]);
    let image = KernelImage { sockets: vec![socket(9, v6_identity(DOC_V6, [0; 16]), 5, 6)] };
    let report = image.run(HookKind::OutboundConnect, &vec![9]);
    assert_eq!(
        report.record.as_deref(),
        Some("AF_INET6 src address: 2001:db8::1, dest address: ::")
    );
}

#[test]
fn accept_argument_index_follows_kernel_abi() {
    let image = KernelImage {
        sockets: vec![
            socket(1, v4_identity(0x01010101, 0x02020202), 1, 10),
            socket(3, v4_identity(0x03030303, 0x04040404), 2, 20),
        ],
    };
    let args = vec![1, 0, 3, 0];
    let first = image.run(HookKind::Accept { socket_arg: 0 }, &args);
    let third = image.run(HookKind::Accept { socket_arg: 2 }, &args);
    assert_eq!(
        first.record.as_deref(),
        Some("AF_INET 'accept queue' qlen: 1, qmax: 10, src address: 1.1.1.1, dest address: 2.2.2.2")
    );
    assert_eq!(
        third.record.as_deref(),
        Some("AF_INET 'accept queue' qlen: 2, qmax: 20, src address: 3.3.3.3, dest address: 4.4.4.4")
    );
}

#[test]
fn unsupported_family_is_skipped_with_success() {
    let mut id = v4_identity(1, 2);
    id.family = 1;
    let image = KernelImage { sockets: vec![socket(5, id, 3, 4)] };
    let report = image.run(HookKind::ConnectionRequest, &vec![0, 0, 5]);
    assert_eq!(report.code, HOOK_OK);
    assert_eq!(report.record, None);
    let report = image.run(HookKind::OutboundConnect, &vec![5]);
    assert_eq!(report.code, HOOK_OK);
    assert_eq!(report.record, None);
}

#[test]
fn queue_reads_are_repeatable() {
    let image = KernelImage { sockets: vec![socket(5, v4_identity(1, 2), 17, 64)] };
    assert_eq!(image.read_queue_length(5), Ok(17));
    assert_eq!(image.read_queue_length(5), Ok(17));
    assert_eq!(image.read_queue_max(5), Ok(64));
    assert_eq!(image.read_queue_max(5), Ok(64));
    let args = vec![0, 0, 5];
    let a = image.run(HookKind::ConnectionRequest, &args);
    let b = image.run(HookKind::ConnectionRequest, &args);
    assert_eq!(a.record, b.record);
    assert_eq!(a.code, b.code);
    assert_eq!(a.reads, b.reads);
}

#[test]
fn identity_failure_stops_before_queue_reads() {
    let image = KernelImage {
        sockets: vec![KernelSocket {
            address: 5,
            identity: None,
            ack_backlog: Some(1),
            max_ack_backlog: Some(2),
        }],
    };
    let report = image.run(HookKind::ConnectionRequest, &vec![0, 0, 5]);
    assert_eq!(report.code, HOOK_FAILED);
    assert_eq!(report.record, None);
    assert_eq!(report.reads, vec![ReadKind::Identity]);
    // An address with no socket at all fails the same way.
    let report = image.run(HookKind::ConnectionRequest, &vec![0, 0, 6]);
    assert_eq!(report.code, HOOK_FAILED);
    assert_eq!(report.reads, vec![ReadKind::Identity]);
    assert_eq!(image.read_identity(6).err(), Some(EFAULT));
}

#[test]
fn queue_read_failures_emit_nothing() {
    let mut k = socket(5, v4_identity(1, 2), 1, 2);
    k.ack_backlog = None;
    let image = KernelImage { sockets: vec![k] };
    let report = image.run(HookKind::ConnectionRequest, &vec![0, 0, 5]);
    assert_eq!(report.code, HOOK_FAILED);
    assert_eq!(report.record, None);
    assert_eq!(report.reads, vec![ReadKind::Identity, ReadKind::QueueLength]);
    let mut k = socket(5, v4_identity(1, 2), 1, 2);
    k.max_ack_backlog = None;
    let image = KernelImage { sockets: vec![k] };
    let report = image.run(HookKind::ConnectionRequest, &vec![0, 0, 5]);
    assert_eq!(report.code, HOOK_FAILED);
    assert_eq!(report.record, None);
    assert_eq!(
        report.reads,
        vec![ReadKind::Identity, ReadKind::QueueLength, ReadKind::QueueMax]
    );
}

#[test]
fn missing_argument_fails_without_reads() {
    let image = KernelImage { sockets: vec![socket(5, v4_identity(1, 2), 1, 2)] };
    let report = image.run(HookKind::ConnectionRequest, &vec![5, 5]);
    assert_eq!(report.code, HOOK_FAILED);
    assert_eq!(report.record, None);
    assert!(report.reads.is_empty());
    match q_tcp_conn_request(&vec![1, 2]) {
        (Invocation::Finished, Action::Finish { code, record }) => {
            assert_eq!(code, HOOK_FAILED);
            assert_eq!(record, None);
        }
        other => panic!("unexpected {:?}", other),
    }
}

#[test]
fn fastopen_check_always_succeeds_silently() {
    let image = KernelImage { sockets: vec![] };
    let report = image.run(HookKind::FastOpenCheck, &vec![]);
    assert_eq!(report.code, HOOK_OK);
    assert_eq!(report.record, None);
    assert!(report.reads.is_empty());
    match q_tcp_fastopen_queue_check(&vec![1, 2, 3]) {
        (Invocation::Finished, Action::Finish { code, record }) => {
            assert_eq!(code, HOOK_OK);
            assert_eq!(record, None);
        }
        other => panic!("unexpected {:?}", other),
    }
}

#[test]
fn named_handlers_read_their_argument() {
    assert!(matches!(
        q_tcp_conn_request(&vec![10, 11, 12, 13]),
        (Invocation::ReadingIdentity { socket: 12 }, Action::ReadIdentity { socket: 12 })
    ));
    assert!(matches!(
        q_inet_csk_accept(0, &vec![10, 11, 12, 13]),
        (Invocation::ReadingIdentity { socket: 10 }, Action::ReadIdentity { socket: 10 })
    ));
    assert!(matches!(
        q_inet_csk_accept(2, &vec![10, 11, 12, 13]),
        (Invocation::ReadingIdentity { socket: 12 }, Action::ReadIdentity { socket: 12 })
    ));
    assert!(matches!(
        q_inet_csk_accept(4, &vec![10, 11, 12, 13]),
        (Invocation::Finished, Action::Finish { code: 1, record: None })
    ));
}

#[test]
fn unexpected_event_fails_the_invocation() {
    let state = Invocation::ReadingIdentity { socket: 4 };
    match step(HookKind::ConnectionRequest, state, Event::QueueMax(Ok(3))) {
        (Invocation::Finished, Action::Finish { code, record }) => {
            assert_eq!(code, HOOK_FAILED);
            assert_eq!(record, None);
        }
        other => panic!("unexpected {:?}", other),
    }
    match step(HookKind::ConnectionRequest, Invocation::Finished, Event::Identity(Err(EFAULT))) {
        (Invocation::Finished, Action::Finish { code, .. }) => assert_eq!(code, HOOK_FAILED),
        other => panic!("unexpected {:?}", other),
    }
}

#[test]
fn interleaved_invocations_stay_separate() {
    let hook = HookKind::ConnectionRequest;
    let a = v4_identity(0x0a000001, 0x0a000002);
    let b = v6_identity(DOC_V6, LINK_V6);
    let (sa, _) = start(hook, &vec![0, 0, 100]);
    let (sb, _) = start(hook, &vec![0, 0, 200]);
    let (sa, _) = step(hook, sa, Event::Identity(Ok(a)));
    let (sb, _) = step(hook, sb, Event::Identity(Ok(b)));
    let (sb, _) = step(hook, sb, Event::QueueLength(Ok(9)));
    let (sa, _) = step(hook, sa, Event::QueueLength(Ok(3)));
    let (_, done_a) = step(hook, sa, Event::QueueMax(Ok(128)));
    let (_, done_b) = step(hook, sb, Event::QueueMax(Ok(99)));
    match (done_a, done_b) {
        (Action::Finish { code: 0, record: Some(ra) }, Action::Finish { code: 0, record: Some(rb) }) => {
            assert_eq!(
                ra,
                "AF_INET 'accept queue' qlen: 3, qmax: 128, src address: 10.0.0.1, dest address: 10.0.0.2"
            );
            assert_eq!(
                rb,
                "AF_INET6 'accept queue' qlen: 9, qmax: 99, src address: 2001:db8::1, dest address: fe80::2"
            );
        }
        other => panic!("unexpected {:?}", other),
    }
}

#[test]
fn record_without_queue_for_each_family() {
    let v4 = Addresses::V4 { source: 0x7f000001, dest: 0x08080808 };
    assert_eq!(
        format_record(&v4, None).as_deref(),
        Some("AF_INET src address: 127.0.0.1, dest address: 8.8.8.8")
    );
    let q = QueueSnapshot { current_length: 10, maximum_length: 4096 };
    assert_eq!(
        format_record(&v4, Some(q)).as_deref(),
        Some("AF_INET 'accept queue' qlen: 10, qmax: 4096, src address: 127.0.0.1, dest address: 8.8.8.8")
    );
}
