use pulsecore::fixed::Fixed;
use pulsecore::ping::{
    clamp_count, jitter, mean, parse_packet_loss, parse_ping_samples, ping_arguments, run_ping,
    samples_from_captures, summarize, ProbeError,
};

fn ms(x: Fixed) -> f64 {
    x.units as f64 / 10_000.0
}

const LINUX_OUTPUT: &str = "PING example.org (93.184.216.34) 56(84) bytes of data.\n\
64 bytes from 93.184.216.34: icmp_seq=1 ttl=56 time=23.4 ms\n\
64 bytes from 93.184.216.34: icmp_seq=2 ttl=56 time=25.1 ms\n\
64 bytes from 93.184.216.34: icmp_seq=3 ttl=56 time=24.0 ms\n\
\n\
--- example.org ping statistics ---\n\
3 packets transmitted, 3 received, 0% packet loss, time 2003ms\n\
rtt min/avg/max/mdev = 23.400/24.166/25.100/0.704 ms\n";

#[test]
fn three_replies_give_extrema_mean_jitter_and_loss() {
    let r = run_ping("example.org", Some(LINUX_OUTPUT)).unwrap();
    assert_eq!(r.target, "example.org");
    assert_eq!(
        r.samples,
        vec![Fixed { units: 234_000 }, Fixed { units: 251_000 }, Fixed { units: 240_000 }]
    );
    assert_eq!(r.min_ms, Some(Fixed { units: 234_000 }));
    assert_eq!(r.max_ms, Some(Fixed { units: 251_000 }));
    // (23.4 + 25.1 + 24.0) / 3 = 24.1666.., rounded down to a ten-thousandth
    assert_eq!(r.avg_ms, Some(Fixed { units: 241_666 }));
    assert!((ms(r.avg_ms.unwrap()) - 24.17).abs() < 0.01);
    // (|25.1 - 23.4| + |24.0 - 25.1|) / 2 = 1.4
    assert_eq!(r.jitter_ms, Some(Fixed { units: 14_000 }));
    assert!((ms(r.jitter_ms.unwrap()) - 1.35).abs() < 0.1);
    assert_eq!(r.loss_pct, Some(Fixed { units: 0 }));
}

#[test]
fn output_without_times_is_a_success_without_statistics() {
    let out = "PING 10.255.255.1 (10.255.255.1) 56(84) bytes of data.\n\n--- 10.255.255.1 ping statistics ---\n";
    let r = run_ping("10.255.255.1", Some(out)).unwrap();
    assert!(r.samples.is_empty());
    assert_eq!(r.min_ms, None);
    assert_eq!(r.max_ms, None);
    assert_eq!(r.avg_ms, None);
    assert_eq!(r.jitter_ms, None);
    assert_eq!(r.loss_pct, None);
}

#[test]
fn empty_output_is_a_success() {
    let r = run_ping("host", Some("")).unwrap();
    assert!(r.samples.is_empty());
    assert_eq!(r.loss_pct, None);
}

#[test]
fn total_loss_is_reported_without_samples() {
    let out = "3 packets transmitted, 0 received, 100% packet loss, time 2040ms\n";
    let r = run_ping("host", Some(out)).unwrap();
    assert!(r.samples.is_empty());
    assert_eq!(r.avg_ms, None);
    assert_eq!(r.loss_pct, Some(Fixed { units: 1_000_000 }));
}

#[test]
fn a_tool_that_could_not_be_run_is_a_probe_error() {
    assert_eq!(run_ping("host", None).unwrap_err(), ProbeError::Spawn);
}

#[test]
fn windows_output_with_less_than_reports() {
    let out = "Reply from 127.0.0.1: bytes=32 time<1ms TTL=128\r\n\
Reply from 192.168.1.1: bytes=32 time=12ms TTL=64\r\n\
    Packets: Sent = 2, Received = 2, Lost = 0 (0% loss),\r\n";
    let samples = parse_ping_samples(out).unwrap();
    assert_eq!(samples, vec![Fixed { units: 10_000 }, Fixed { units: 120_000 }]);
    assert_eq!(parse_packet_loss(out), Some(Fixed { units: 0 }));
}

#[test]
fn samples_are_found_by_the_pattern_not_handed_back() {
    // the text around the numbers is dropped, whitespace before "ms" is allowed
    let samples = parse_ping_samples("time=1.5   ms and time=0.25ms but time=abc ms").unwrap();
    assert_eq!(samples, vec![Fixed { units: 15_000 }, Fixed { units: 2_500 }]);
}

#[test]
fn only_the_first_loss_report_counts() {
    assert_eq!(parse_packet_loss("25% loss, then 50% packet loss"), Some(Fixed { units: 250_000 }));
    assert_eq!(parse_packet_loss("no percentage here"), None);
    assert_eq!(parse_packet_loss("100 % loss"), None);
}

#[test]
fn one_sample_has_no_jitter() {
    let r = summarize("h", vec![Fixed { units: 50_000 }], None);
    assert_eq!(r.min_ms, Some(Fixed { units: 50_000 }));
    assert_eq!(r.max_ms, Some(Fixed { units: 50_000 }));
    assert_eq!(r.avg_ms, Some(Fixed { units: 50_000 }));
    assert_eq!(r.jitter_ms, None);
}

#[test]
fn mean_and_jitter_round_down() {
    let s = vec![Fixed { units: 1 }, Fixed { units: 2 }, Fixed { units: 4 }];
    assert_eq!(mean(&s), Some(Fixed { units: 2 }));
    // (1 + 2) / 2 = 1.5 -> 1
    assert_eq!(jitter(&s), Some(Fixed { units: 1 }));
}

#[test]
fn large_samples_do_not_overflow() {
    let s = vec![Fixed { units: u64::MAX }, Fixed { units: u64::MAX }, Fixed { units: 0 }];
    assert_eq!(mean(&s), Some(Fixed { units: (2 * (u64::MAX as u128) / 3) as u64 }));
    assert_eq!(jitter(&s), Some(Fixed { units: (u64::MAX as u128 / 2) as u64 }));
}

#[test]
fn captures_that_are_no_numbers_are_skipped() {
    let caps = vec![
        Some("12.5".to_string()),
        None,
        Some("x".to_string()),
        Some("7".to_string()),
        Some("1.".to_string()),
        Some(".5".to_string()),
        Some("0.12349".to_string()),
    ];
    assert_eq!(
        samples_from_captures(&caps),
        vec![Fixed { units: 125_000 }, Fixed { units: 70_000 }, Fixed { units: 1_234 }]
    );
}

#[test]
fn count_is_clamped_silently() {
    assert_eq!(clamp_count(0), 1);
    assert_eq!(clamp_count(1), 1);
    assert_eq!(clamp_count(7), 7);
    assert_eq!(clamp_count(20), 20);
    assert_eq!(clamp_count(21), 20);
    assert_eq!(clamp_count(u32::MAX), 20);
}

#[test]
fn arguments_name_the_flag_the_count_and_the_target() {
    assert_eq!(ping_arguments("example.org", 4, false), vec!["-c", "4", "example.org"]);
    assert_eq!(ping_arguments("example.org", 99, true), vec!["-n", "20", "example.org"]);
    assert_eq!(ping_arguments("::1", 0, false), vec!["-c", "1", "::1"]);
}
