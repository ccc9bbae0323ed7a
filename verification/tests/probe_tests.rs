use system_index::models::{Bandwidth, SystemInfo};
use system_index::probe::{
    accept_response, bandwidth_service, first_action, next_action, public_ip_service, Download,
    ProbeAction, BANDWIDTH_TIMEOUT_SECS, PUBLIC_IP_SERVICES, PUBLIC_IP_TIMEOUT_SECS,
};

fn body(text: &str) -> Option<String> {
    Some(text.to_string())
}

/// Runs a probe against the responses that the services would give, and
/// tells its result and the indices of the services that were asked.
fn run_probe(responses: &[Option<String>]) -> (Option<String>, Vec<usize>) {
    let mut asked: Vec<usize> = Vec::new();
    let mut action = first_action(responses.len());
    loop {
        match action {
            ProbeAction::Ask(index) => {
                asked.push(index);
                action = next_action(index, responses.len(), &responses[index]);
            }
            ProbeAction::Finish(result) => return (result, asked),
        }
    }
}

#[test]
fn response_is_trimmed() {
    assert_eq!(accept_response(&body(" 1.2.3.4\n")), body("1.2.3.4"));
    assert_eq!(accept_response(&body("\t203.0.113.9 \r\n")), body("203.0.113.9"));
    assert_eq!(accept_response(&body("\u{a0}\u{3000}::1\u{2028}\u{85}")), body("::1"));
    assert_eq!(accept_response(&body("a b")), body("a b"));
    assert_eq!(accept_response(&body("1.2.3.4")), body("1.2.3.4"));
}

#[test]
fn empty_response_is_not_taken() {
    assert_eq!(accept_response(&body("")), None);
    assert_eq!(accept_response(&body("  \n\t ")), None);
    assert_eq!(accept_response(&None), None);
}

#[test]
fn characters_that_are_no_white_space_stay() {
    assert_eq!(accept_response(&body("\u{200b}")), body("\u{200b}"));
    assert_eq!(accept_response(&body("\u{1f}x\u{1f}")), body("\u{1f}x\u{1f}"));
}

#[test]
fn get_public_ip_takes_the_first_good_response() {
    assert_eq!(SystemInfo::get_public_ip(&vec![]), None);
    assert_eq!(SystemInfo::get_public_ip(&vec![None, None, None]), None);
    assert_eq!(
        SystemInfo::get_public_ip(&vec![body("1.1.1.1\n"), body("2.2.2.2"), body("3.3.3.3")]),
        body("1.1.1.1")
    );
    assert_eq!(
        SystemInfo::get_public_ip(&vec![None, body(" 2.2.2.2 "), body("3.3.3.3")]),
        body("2.2.2.2")
    );
    assert_eq!(
        SystemInfo::get_public_ip(&vec![body("   "), None, body("3.3.3.3\n")]),
        body("3.3.3.3")
    );
    assert_eq!(SystemInfo::get_public_ip(&vec![body(""), body("\n"), None]), None);
}

#[test]
fn probe_stops_at_first_success() {
    let (result, asked) = run_probe(&[None, body("198.51.100.7\n"), body("203.0.113.1")]);
    assert_eq!(result, body("198.51.100.7"));
    assert_eq!(asked, vec![0, 1]);
}

#[test]
fn probe_asks_in_declared_order() {
    let (result, asked) = run_probe(&[body(""), None, body("203.0.113.1")]);
    assert_eq!(result, body("203.0.113.1"));
    assert_eq!(asked, vec![0, 1, 2]);

    let (result, asked) = run_probe(&[body("192.0.2.1"), None, None]);
    assert_eq!(result, body("192.0.2.1"));
    assert_eq!(asked, vec![0]);
}

#[test]
fn probe_without_success_has_no_result() {
    let (result, asked) = run_probe(&[None, body(" "), None]);
    assert_eq!(result, None);
    assert_eq!(asked, vec![0, 1, 2]);

    let (result, asked) = run_probe(&[]);
    assert_eq!(result, None);
    assert!(asked.is_empty());
}

#[test]
fn probe_agrees_with_get_public_ip() {
    let cases: Vec<Vec<Option<String>>> = vec![
        vec![],
        vec![None],
        vec![body("a")],
        vec![None, body(" b ")],
        vec![body(" "), body(""), body("c\n")],
        vec![body("x"), body("y"), body("z")],
    ];
    for responses in cases {
        let (result, _) = run_probe(&responses);
        assert_eq!(result, SystemInfo::get_public_ip(&responses));
    }
}

#[test]
fn next_action_by_cases() {
    assert_eq!(first_action(3), ProbeAction::Ask(0));
    assert_eq!(first_action(0), ProbeAction::Finish(None));
    assert_eq!(next_action(0, 3, &None), ProbeAction::Ask(1));
    assert_eq!(next_action(1, 3, &body("")), ProbeAction::Ask(2));
    assert_eq!(next_action(2, 3, &None), ProbeAction::Finish(None));
    assert_eq!(next_action(0, 3, &body(" 1.2.3.4 ")), ProbeAction::Finish(body("1.2.3.4")));
    assert_eq!(next_action(usize::MAX, usize::MAX, &None), ProbeAction::Finish(None));
    assert_eq!(next_action(7, 3, &None), ProbeAction::Finish(None));
}

#[test]
fn services_and_timeouts() {
    assert_eq!(PUBLIC_IP_SERVICES, 3);
    assert_eq!(PUBLIC_IP_TIMEOUT_SECS, 5);
    assert_eq!(BANDWIDTH_TIMEOUT_SECS, 10);
    assert_eq!(public_ip_service(0), "https://api.ipify.org");
    assert_eq!(public_ip_service(1), "https://ifconfig.me/ip");
    assert_eq!(public_ip_service(2), "https://icanhazip.com");
    assert_eq!(bandwidth_service(), "https://speed.cloudflare.com/__down?bytes=1000000");
}

#[test]
fn bandwidth_is_absent_when_download_fails() {
    assert_eq!(SystemInfo::benchmark_bandwidth(None), None);
    assert_eq!(
        SystemInfo::benchmark_bandwidth(Some(Download { bytes_received: 1000, elapsed_nanos: 0 })),
        None
    );
}

#[test]
fn bandwidth_is_positive_when_download_succeeds() {
    let estimate = SystemInfo::benchmark_bandwidth(Some(Download {
        bytes_received: 1_000_000,
        elapsed_nanos: 2_000_000_000,
    }));
    assert_eq!(estimate, Some(Bandwidth { bytes: 1_000_000, elapsed_nanos: 2_000_000_000 }));
    let rate = estimate.unwrap();
    assert_eq!(rate.centi_mbps(), 400);
    let mbps = (rate.bytes as f64 * 8.0) / ((rate.elapsed_nanos as f64 / 1e9) * 1_000_000.0);
    assert!(mbps > 0.0 && mbps.is_finite());
    assert_eq!(mbps, 4.0);
}

#[test]
fn bandwidth_of_an_empty_download_is_zero() {
    let estimate =
        SystemInfo::benchmark_bandwidth(Some(Download { bytes_received: 0, elapsed_nanos: 5 }));
    assert_eq!(estimate, Some(Bandwidth { bytes: 0, elapsed_nanos: 5 }));
    assert_eq!(estimate.unwrap().centi_mbps(), 0);
}
