use cam_server::wifi::BringupOutcome;
use cam_server::wifi::ConnectivityError;
use cam_server::wifi::ConnectivityState;
use cam_server::wifi::LinkObs;
use cam_server::wifi::ScanEntry;
use cam_server::wifi::build_config;
use cam_server::wifi::establish_connectivity;
use cam_server::wifi::poll_until;
use cam_server::wifi::select_channel;

fn entry(ssid: &str, channel: u8) -> ScanEntry {
    ScanEntry { ssid: ssid.as_bytes().to_vec(), channel }
}

#[test]
fn channel_of_target_network_is_selected() {
    let scan = vec![entry("other", 3), entry("home", 11), entry("cafe", 6)];
    let got = select_channel(&scan, &b"home".to_vec());
    assert_eq!(got, Some(11));
}

#[test]
fn first_matching_entry_wins() {
    let scan = vec![entry("home", 4), entry("home", 9)];
    let got = select_channel(&scan, &b"home".to_vec());
    assert_eq!(got, Some(4));
}

#[test]
fn missing_network_selects_no_channel() {
    let scan = vec![entry("other", 3)];
    let got = select_channel(&scan, &b"home".to_vec());
    assert_eq!(got, None);
}

#[test]
fn config_carries_found_channel_on_both_sides() {
    let scan = vec![entry("home", 11)];
    let c = build_config(&b"home".to_vec(), &b"secret".to_vec(), &scan);
    assert_eq!(c.client_channel, Some(11));
    assert_eq!(c.ap_channel, 11);
    assert_eq!(c.ap_ssid, b"aptest".to_vec());
    assert_eq!(c.client_ssid, b"home".to_vec());
    assert_eq!(c.password, b"secret".to_vec());
}

#[test]
fn config_without_target_uses_unconstrained_channel() {
    let scan = vec![entry("other", 3)];
    let c = build_config(&b"home".to_vec(), &b"secret".to_vec(), &scan);
    assert_eq!(c.client_channel, None);
    assert_eq!(c.ap_channel, 1);
}

#[test]
fn poll_until_finds_first_true_within_window() {
    let obs = vec![false, false, true, true];
    assert_eq!(poll_until(&obs, 4), Some(2));
}

#[test]
fn poll_until_with_empty_window_times_out() {
    let obs: Vec<bool> = Vec::new();
    assert_eq!(poll_until(&obs, 0), None);
}

#[test]
fn zero_connect_window_times_out() {
    let r = run_bringup(true, vec![entry("home", 11)], vec![true], Vec::new());
    assert_eq!(r.err(), Some(ConnectivityError::ConnectTimeout));
}

#[test]
fn poll_until_times_out_when_window_stays_false() {
    let obs = vec![false, false, false, true];
    assert_eq!(poll_until(&obs, 3), None);
}

fn run_bringup(
    scan_ok: bool,
    scan: Vec<ScanEntry>,
    started: Vec<bool>,
    link: Vec<LinkObs>,
) -> Result<BringupOutcome, ConnectivityError> {
    let sw = started.len();
    let cw = link.len();
    establish_connectivity(
        &b"home".to_vec(),
        &b"secret".to_vec(),
        scan_ok,
        &scan,
        &started,
        sw,
        &link,
        cw,
    )
}

#[test]
fn failed_scan_is_fatal() {
    let r = run_bringup(false, vec![], vec![true], vec![LinkObs { connected: true, ip: 7 }]);
    assert_eq!(r.err(), Some(ConnectivityError::ScanFailed));
}

#[test]
fn start_timeout_when_started_never_observed() {
    let r = run_bringup(
        true,
        vec![entry("home", 11)],
        vec![false, false, false],
        vec![LinkObs { connected: true, ip: 7 }],
    );
    assert_eq!(r.err(), Some(ConnectivityError::StartTimeout));
}

#[test]
fn connect_timeout_when_link_never_usable() {
    // A connected link with a zero address is not usable: both conditions
    // are required together.
    let r = run_bringup(
        true,
        vec![entry("home", 11)],
        vec![false, true],
        vec![
            LinkObs { connected: false, ip: 9 },
            LinkObs { connected: true, ip: 0 },
        ],
    );
    assert_eq!(r.err(), Some(ConnectivityError::ConnectTimeout));
}

#[test]
fn bringup_connects_with_first_usable_lease() {
    let r = run_bringup(
        true,
        vec![entry("home", 11)],
        vec![false, true],
        vec![
            LinkObs { connected: true, ip: 0 },
            LinkObs { connected: true, ip: 0x0a00_0005 },
            LinkObs { connected: true, ip: 0x0a00_0009 },
        ],
    );
    let o = r.ok().unwrap();
    assert!(matches!(o.state, ConnectivityState::Connected));
    assert_eq!(o.ip, 0x0a00_0005);
    assert_eq!(o.config.client_channel, Some(11));
}

#[test]
fn bringup_connects_without_target_network() {
    // A scan that lacks the target network degrades the channel choice but
    // never fails bringup.
    let r = run_bringup(
        true,
        vec![entry("other", 3)],
        vec![true],
        vec![LinkObs { connected: true, ip: 1 }],
    );
    let o = r.ok().unwrap();
    assert!(matches!(o.state, ConnectivityState::Connected));
    assert_eq!(o.config.client_channel, None);
    assert_eq!(o.config.ap_channel, 1);
}
