use acars_bridge::backoff::{retry_delay_secs, schedule_head};
use acars_bridge::config::Config;
use acars_bridge::framing::{
    compose_parts, decode_datagram, ensure_trailing_newline, split_datagrams,
    strip_line_terminator, MAX_DATAGRAM_BYTES,
};
use acars_bridge::protocol::SocketType;
use acars_bridge::stats::{interval_seconds, report_lines, Stats};
use acars_bridge::text::decimal_string;
use acars_bridge::transport::{
    endpoint_address, Egress, Ingress, IngressAction, SendFailure, RELAY_QUEUE_CAPACITY,
    STATS_QUEUE_CAPACITY,
};

fn forwarded(actions: &[IngressAction]) -> Vec<String> {
    actions
        .iter()
        .filter_map(|a| match a {
            IngressAction::Forward(m) => Some(m.clone()),
            IngressAction::CountMessage => None,
        })
        .collect()
}

fn counted(actions: &[IngressAction]) -> usize {
    actions.iter().filter(|a| matches!(a, IngressAction::CountMessage)).count()
}

#[test]
fn backoff_first_fourteen_retries_wait_five_seconds() {
    for n in 1..=14 {
        assert_eq!(retry_delay_secs(n), 5);
    }
}

#[test]
fn backoff_ramps_up_then_holds_at_sixty() {
    assert_eq!(retry_delay_secs(15), 10);
    assert_eq!(retry_delay_secs(16), 20);
    assert_eq!(retry_delay_secs(17), 30);
    assert_eq!(retry_delay_secs(18), 40);
    assert_eq!(retry_delay_secs(19), 50);
    assert_eq!(retry_delay_secs(20), 60);
    assert_eq!(retry_delay_secs(21), 60);
    assert_eq!(retry_delay_secs(1000), 60);
    assert_eq!(retry_delay_secs(u64::MAX), 60);
}

#[test]
fn backoff_attempt_zero_reads_as_first() {
    assert_eq!(retry_delay_secs(0), 5);
}

#[test]
fn backoff_schedule_head_matches_table() {
    let mut expected = vec![5u64; 14];
    expected.extend_from_slice(&[10, 20, 30, 40, 50, 60]);
    assert_eq!(schedule_head(), expected);
}

#[test]
fn egress_appends_missing_newline() {
    assert_eq!(ensure_trailing_newline("hello".to_string()), "hello\n");
    assert_eq!(ensure_trailing_newline(String::new()), "\n");
}

#[test]
fn egress_keeps_existing_newline() {
    assert_eq!(ensure_trailing_newline("hello\n".to_string()), "hello\n");
    assert_eq!(ensure_trailing_newline("a\n\n".to_string()), "a\n\n");
}

#[test]
fn strip_removes_one_terminator() {
    assert_eq!(strip_line_terminator("abc\r\n"), "abc");
    assert_eq!(strip_line_terminator("abc\n"), "abc");
    assert_eq!(strip_line_terminator("abc\n\n"), "abc\n");
    assert_eq!(strip_line_terminator("abc\r"), "abc\r");
    assert_eq!(strip_line_terminator("abc"), "abc");
    assert_eq!(strip_line_terminator(""), "");
    assert_eq!(strip_line_terminator("\n"), "");
}

#[test]
fn compose_joins_parts_with_spaces() {
    let parts = vec![Some("a".to_string()), Some("b c".to_string()), Some("d\n".to_string())];
    assert_eq!(compose_parts(&parts), "a b c d\n");
    assert_eq!(compose_parts(&vec![]), "");
    assert_eq!(compose_parts(&vec![Some("only".to_string())]), "only");
}

#[test]
fn compose_marks_undecodable_parts() {
    let parts = vec![Some("a".to_string()), None];
    assert_eq!(compose_parts(&parts), "a invalid text");
}

#[test]
fn datagram_decoding_is_lossy() {
    assert_eq!(decode_datagram(b"plain"), Some("plain".to_string()));
    assert_eq!(decode_datagram(&[0x61, 0xff, 0x62]), Some("a\u{fffd}b".to_string()));
    assert_eq!(decode_datagram(&[]), None);
}

#[test]
fn split_short_payload_is_one_chunk() {
    let chunks = split_datagrams(b"abc\n");
    assert_eq!(chunks, vec![b"abc\n".to_vec()]);
    assert!(split_datagrams(&[]).is_empty());
}

#[test]
fn split_exact_block_is_one_chunk() {
    let payload = vec![7u8; MAX_DATAGRAM_BYTES];
    let chunks = split_datagrams(&payload);
    assert_eq!(chunks.len(), 1);
    assert_eq!(chunks[0], payload);
}

#[test]
fn split_oversized_payload_reassembles() {
    let payload: Vec<u8> = (0..20001u32).map(|i| (i % 251) as u8).collect();
    let chunks = split_datagrams(&payload);
    let sizes: Vec<usize> = chunks.iter().map(|c| c.len()).collect();
    assert_eq!(sizes, vec![8192, 8192, 3617]);
    assert_eq!(chunks.concat(), payload);
}

#[test]
fn ingress_forwards_then_counts() {
    let ingress = Ingress::new(SocketType::Tcp, "localhost", 9000, true);
    let actions = ingress.on_line("msg\r\n");
    assert_eq!(actions.len(), 2);
    assert!(matches!(&actions[0], IngressAction::Forward(m) if m == "msg"));
    assert!(matches!(actions[1], IngressAction::CountMessage));
}

#[test]
fn ingress_without_destination_only_counts() {
    let ingress = Ingress::new(SocketType::Tcp, "localhost", 9000, false);
    let actions = ingress.on_line("msg");
    assert!(forwarded(&actions).is_empty());
    assert_eq!(counted(&actions), 1);
}

#[test]
fn ingress_skips_empty_datagram() {
    let ingress = Ingress::new(SocketType::Udp, "0.0.0.0", 9000, true);
    let actions = ingress.on_datagram(&[]);
    assert!(actions.is_empty());
}

#[test]
fn ingress_datagram_is_stripped_and_counted() {
    let ingress = Ingress::new(SocketType::Udp, "0.0.0.0", 9000, true);
    let actions = ingress.on_datagram(b"hello\n");
    assert_eq!(forwarded(&actions), vec!["hello".to_string()]);
    assert_eq!(counted(&actions), 1);
}

#[test]
fn ingress_parts_are_joined_and_stripped() {
    let ingress = Ingress::new(SocketType::Zmq, "h", 5550, true);
    let parts = vec![Some("topic".to_string()), Some("body\r\n".to_string())];
    let actions = ingress.on_parts(&parts);
    assert_eq!(forwarded(&actions), vec!["topic body".to_string()]);
    assert_eq!(counted(&actions), 1);
}

#[test]
fn ingress_names() {
    assert_eq!(Ingress::new(SocketType::Tcp, "h", 1, true).format_name(), "[TCP Input h:1] ");
    assert_eq!(Ingress::new(SocketType::Udp, "h", 9000, true).format_name(), "[UDP Input 9000] ");
    assert_eq!(Ingress::new(SocketType::Zmq, "h", 45, false).format_name(), "[ZMQ Input h:45] ");
}

#[test]
fn egress_names() {
    assert_eq!(Egress::new(SocketType::Tcp, "h", 1).format_name(), "[TCP Output h:1] ");
    assert_eq!(Egress::new(SocketType::Udp, "h", 65535).format_name(), "[UDP Output h:65535] ");
    assert_eq!(Egress::new(SocketType::Zmq, "h", 0).format_name(), "[ZMQ Output h:0] ");
}

#[test]
fn addresses() {
    assert_eq!(endpoint_address(SocketType::Tcp, "10.0.0.1", 9001), "10.0.0.1:9001");
    assert_eq!(endpoint_address(SocketType::Udp, "h", 9000), "h:9000");
    assert_eq!(endpoint_address(SocketType::Zmq, "h", 5550), "tcp://h:5550");
    assert_eq!(Ingress::new(SocketType::Zmq, "h", 5550, true).address(), "tcp://h:5550");
    assert_eq!(Egress::new(SocketType::Udp, "h", 9).address(), "h:9");
}

#[test]
fn stream_egress_sends_line_with_newline() {
    let egress = Egress::new(SocketType::Tcp, "h", 1);
    assert_eq!(egress.outgoing_units("abc".to_string()), vec![b"abc\n".to_vec()]);
    assert_eq!(egress.outgoing_units("abc\n".to_string()), vec![b"abc\n".to_vec()]);
}

#[test]
fn pubsub_egress_sends_message_unchanged() {
    let egress = Egress::new(SocketType::Zmq, "h", 1);
    assert_eq!(egress.outgoing_units("abc".to_string()), vec![b"abc".to_vec()]);
}

#[test]
fn datagram_egress_chunks_large_message() {
    let egress = Egress::new(SocketType::Udp, "h", 9001);
    let message = "x".repeat(20000);
    let units = egress.outgoing_units(message.clone());
    let sizes: Vec<usize> = units.iter().map(|u| u.len()).collect();
    assert_eq!(sizes, vec![8192, 8192, 3617]);
    let mut expected = message.into_bytes();
    expected.push(b'\n');
    assert_eq!(units.concat(), expected);
}

#[test]
fn send_failure_policy() {
    assert_eq!(Egress::new(SocketType::Udp, "h", 1).on_send_failure(), SendFailure::AbandonMessage);
    assert_eq!(Egress::new(SocketType::Tcp, "h", 1).on_send_failure(), SendFailure::Fatal);
    assert_eq!(Egress::new(SocketType::Zmq, "h", 1).on_send_failure(), SendFailure::Fatal);
}

#[test]
fn socket_type_names_any_case() {
    assert_eq!(SocketType::try_from("tcp").ok(), Some(SocketType::Tcp));
    assert_eq!(SocketType::try_from("UDP").ok(), Some(SocketType::Udp));
    assert_eq!(SocketType::try_from("ZmQ".to_string()).ok(), Some(SocketType::Zmq));
    assert_eq!(SocketType::from_lowercase("TCP"), None);
}

#[test]
fn socket_type_unknown_name() {
    let err = SocketType::try_from("Serial").unwrap_err();
    assert_eq!(err.name, "Serial");
    assert_eq!(err.message(), "Unknown Socket Type: Serial");
}

#[test]
fn relay_queue_suspends_thirty_third_message() {
    let (tx, mut rx) = tokio::sync::mpsc::channel::<String>(RELAY_QUEUE_CAPACITY);
    for i in 0..32 {
        assert!(tx.try_send(format!("m{i}")).is_ok());
    }
    assert!(matches!(
        tx.try_send("m32".to_string()),
        Err(tokio::sync::mpsc::error::TrySendError::Full(_))
    ));
    assert_eq!(rx.try_recv().ok(), Some("m0".to_string()));
    assert!(tx.try_send("m32".to_string()).is_ok());
    assert_eq!(STATS_QUEUE_CAPACITY, 32);
}

#[test]
fn stats_interval_counts_signals_since_report() {
    let mut stats = Stats::new();
    for _ in 0..7 {
        stats.increment();
    }
    assert_eq!(stats.get_total_last_interval(), 7);
    assert_eq!(stats.get_total_all_time(), 7);
    stats.reset_interval();
    for _ in 0..3 {
        stats.increment();
    }
    assert_eq!(stats.get_total_last_interval(), 3);
    assert_eq!(stats.get_total_all_time(), 10);
}

#[test]
fn stats_counters_saturate() {
    let mut stats = Stats { total_all_time: u64::MAX, total_since_last: u64::MAX - 1 };
    stats.increment();
    stats.increment();
    assert_eq!(stats.get_total_all_time(), u64::MAX);
    assert_eq!(stats.get_total_last_interval(), u64::MAX);
}

#[test]
fn stats_report_lines() {
    assert_eq!(
        report_lines(5, 120, 7),
        vec![
            "[STATS] Total since container start: 120".to_string(),
            "[STATS] Total in the last 5 minutes: 7".to_string(),
        ]
    );
    assert_eq!(report_lines(1, 0, 0)[1], "[STATS] Total in the last 1 minute: 0");
}

#[test]
fn stats_interval_in_seconds() {
    assert_eq!(interval_seconds(5), 300);
    assert_eq!(interval_seconds(0), 0);
    assert_eq!(interval_seconds(u64::MAX), u64::MAX);
}

#[test]
fn decimal_rendering() {
    assert_eq!(decimal_string(0), "0");
    assert_eq!(decimal_string(9), "9");
    assert_eq!(decimal_string(10), "10");
    assert_eq!(decimal_string(65535), "65535");
    assert_eq!(decimal_string(u64::MAX), "18446744073709551615");
}

fn sample_config(with_destination: bool) -> Config {
    Config {
        log_level: "info".to_string(),
        source_host: "0.0.0.0".to_string(),
        source_port: 9000,
        source_protocol: "udp".to_string(),
        destination_host: if with_destination { Some("relay".to_string()) } else { None },
        destination_port: if with_destination { Some(9001) } else { None },
        destination_protocol: if with_destination { Some("tcp".to_string()) } else { None },
        stat_interval: 5,
    }
}

#[test]
fn config_getters() {
    let c = sample_config(true);
    assert_eq!(c.get_log_level(), "info");
    assert_eq!(c.get_source_host(), "0.0.0.0");
    assert_eq!(c.get_source_port(), 9000);
    assert_eq!(c.get_source_protocol(), "udp");
    assert_eq!(c.get_destination_host(), &Some("relay".to_string()));
    assert_eq!(c.get_destination_port(), Some(9001));
    assert_eq!(c.get_destination_protocol(), &Some("tcp".to_string()));
    assert_eq!(c.get_stat_interval(), 5);
}

#[test]
fn config_destination_needs_all_three() {
    assert!(sample_config(true).is_destination_set());
    assert!(!sample_config(false).is_destination_set());
    let mut partial = sample_config(true);
    partial.destination_port = None;
    assert!(!partial.is_destination_set());
}

#[test]
fn config_summary_lines() {
    let lines = sample_config(false).show_config();
    assert_eq!(
        lines,
        vec![
            "Log Level: info",
            "Source Host: 0.0.0.0",
            "Source Port: 9000",
            "Source Protocol: udp",
            "Destination Host: None",
            "Destination Port: None",
            "Destination Protocol: None",
            "Stat Interval: 5",
            "Would start output server: false",
        ]
    );
    let lines = sample_config(true).show_config();
    assert_eq!(lines[4], "Destination Host: relay");
    assert_eq!(lines[5], "Destination Port: 9001");
    assert_eq!(lines[8], "Would start output server: true");
}
