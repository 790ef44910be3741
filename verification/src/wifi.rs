//! Connectivity bringup: channel selection from a scan, the dual
//! client-plus-access-point configuration, and the bounded poll-waits that
//! decide between `Connected` and a timeout error.
//!
//! The radio itself is a collaborator: the caller scans, applies the built
//! configuration, starts and connects, and feeds this module what it
//! observed.  Each poll-wait is bounded by a fixed window of observations —
//! one per cooperative poll — never an indefinite block, and there is no
//! retry loop here: retry policy belongs to the caller.

use vstd::prelude::*;

verus! {

/// One network a radio scan reported.
pub struct ScanEntry {
    pub ssid: Vec<u8>,
    pub channel: u8,
}

/// One poll of the link during the connect wait: association state and the
/// currently leased address (zero until a lease is acquired).
pub struct LinkObs {
    pub connected: bool,
    pub ip: u32,
}

/// Why bringup failed; fatal to bootstrap, left to the caller to retry or
/// abort.
#[derive(Debug, PartialEq, Eq, Structural)]
pub enum ConnectivityError {
    ScanFailed,
    StartTimeout,
    ConnectTimeout,
}

/// The phases bringup passes through: scanning, configuration, the start
/// wait, the connect wait, and the final `Connected` or `Failed`.
#[derive(Debug, PartialEq, Eq, Structural)]
pub enum ConnectivityState {
    Uninitialized,
    Scanning,
    Configured,
    Starting,
    Started,
    Connecting,
    Connected,
    Failed,
}

/// The dual radio configuration: client mode toward the target network and
/// a local access-point mode, applied together so the device stays
/// reachable even if client association fails.
pub struct WifiConfig {
    pub client_ssid: Vec<u8>,
    pub password: Vec<u8>,
    /// Channel of the target network, when the scan found it; `None` lets
    /// the radio associate on an unconstrained channel (degraded, not
    /// fatal).
    pub client_channel: Option<u8>,
    pub ap_ssid: Vec<u8>,
    pub ap_channel: u8,
}

/// What a successful bringup yields.
pub struct BringupOutcome {
    pub state: ConnectivityState,
    pub config: WifiConfig,
    /// The leased address; never zero.
    pub ip: u32,
}

/// Channel of the first scan entry whose network identifier is `target`.
pub open spec fn first_match(scan: Seq<ScanEntry>, target: Seq<u8>) -> Option<u8>
    decreases scan.len(),
{
    if scan.len() == 0 {
        None
    } else if scan[0].ssid@ == target {
        Some(scan[0].channel)
    } else {
        first_match(scan.drop_first(), target)
    }
}

/// The local access point's own network identifier, `aptest`.
pub open spec fn ap_ssid_bytes() -> Seq<u8> {
    seq![97u8, 112, 116, 101, 115, 116]
}

/// Channel the access-point mode uses: the found channel, or 1.
pub open spec fn ap_channel_of(found: Option<u8>) -> u8 {
    match found {
        Some(c) => c,
        None => 1u8,
    }
}

/// A link poll that ends the connect wait: associated and holding a
/// non-zero address lease — both at once, since a connected link without a
/// valid address is not usable.
pub open spec fn usable(o: LinkObs) -> bool {
    o.connected && o.ip != 0
}

/// Search a scan for the target network's channel (first entry wins).
pub fn select_channel(scan: &Vec<ScanEntry>, target: &Vec<u8>) -> (r: Option<u8>)
    ensures
        r == first_match(scan@, target@),
{
    let mut i: usize = 0;
    proof {
        assert(scan@.skip(0) =~= scan@);
    }
    while i < scan.len()
        invariant
            i <= scan.len(),
            first_match(scan@, target@) == first_match(scan@.skip(i as int), target@),
        decreases scan.len() - i,
    {
        proof {
            assert(scan@.skip(i as int)[0] == scan@[i as int]);
            assert(scan@.skip(i as int).drop_first() =~= scan@.skip(i + 1));
        }
        if crate::bytes::bytes_eq(&scan[i].ssid, target) {
            return Some(scan[i].channel);
        }
        i = i + 1;
    }
    None
}

/// Build the dual configuration from the scan: the client side carries the
/// found channel or none; the access-point side always has a channel.
pub fn build_config(client_ssid: &Vec<u8>, password: &Vec<u8>, scan: &Vec<ScanEntry>) -> (c:
    WifiConfig)
    ensures
        c.client_ssid@ == client_ssid@,
        c.password@ == password@,
        c.client_channel == first_match(scan@, client_ssid@),
        c.ap_ssid@ == ap_ssid_bytes(),
        c.ap_channel == ap_channel_of(first_match(scan@, client_ssid@)),
{
    let channel = select_channel(scan, client_ssid);
    let ap_channel = match channel {
        Some(c) => c,
        None => 1,
    };
    let mut ap_ssid: Vec<u8> = Vec::new();
    ap_ssid.push(97);
    ap_ssid.push(112);
    ap_ssid.push(116);
    ap_ssid.push(101);
    ap_ssid.push(115);
    ap_ssid.push(116);
    proof {
        assert(ap_ssid@ =~= ap_ssid_bytes());
    }
    let mut cs: Vec<u8> = Vec::new();
    crate::bytes::push_all(&mut cs, client_ssid);
    let mut pw: Vec<u8> = Vec::new();
    crate::bytes::push_all(&mut pw, password);
    proof {
        assert(cs@ =~= client_ssid@);
        assert(pw@ =~= password@);
    }
    WifiConfig { client_ssid: cs, password: pw, client_channel: channel, ap_ssid, ap_channel }
}

/// One bounded poll-wait: the index of the first true observation within
/// the window, or nothing when the whole window stays false.
pub fn poll_until(obs: &Vec<bool>, window: usize) -> (r: Option<usize>)
    requires
        window <= obs.len(),
    ensures
        r matches Some(i) ==> i < window && obs@[i as int] && (forall|j: int|
            0 <= j < i ==> !obs@[j]),
        r is None ==> forall|j: int| 0 <= j < window ==> !obs@[j],
{
    let mut i: usize = 0;
    while i < window
        invariant
            i <= window <= obs.len(),
            forall|j: int| 0 <= j < i ==> !obs@[j],
        decreases window - i,
    {
        if obs[i] {
            return Some(i);
        }
        i = i + 1;
    }
    None
}

/// Drive bringup to `Connected` or to exactly one of the three errors.
///
/// `scan_ok` is whether the radio's scan call succeeded at all (a failed
/// scan is fatal; a scan that merely lacks the target network is not).
/// `started_obs` holds one "is the radio started" observation per poll of
/// the start wait, `link_obs` one link observation per poll of the connect
/// wait; the windows bound how many polls each wait may spend.
pub fn establish_connectivity(
    client_ssid: &Vec<u8>,
    password: &Vec<u8>,
    scan_ok: bool,
    scan: &Vec<ScanEntry>,
    started_obs: &Vec<bool>,
    start_window: usize,
    link_obs: &Vec<LinkObs>,
    connect_window: usize,
) -> (r: Result<BringupOutcome, ConnectivityError>)
    requires
        start_window <= started_obs.len(),
        connect_window <= link_obs.len(),
    ensures
        (r == Err::<BringupOutcome, ConnectivityError>(ConnectivityError::ScanFailed)) <==> !scan_ok,
        (r == Err::<BringupOutcome, ConnectivityError>(ConnectivityError::StartTimeout)) <==> (
        scan_ok && (forall|j: int| 0 <= j < start_window ==> !started_obs@[j])),
        (r == Err::<BringupOutcome, ConnectivityError>(ConnectivityError::ConnectTimeout)) <==> (
        scan_ok && (exists|i: int| 0 <= i < start_window && started_obs@[i]) && (forall|j: int|
            0 <= j < connect_window ==> !usable(link_obs@[j]))),
        (r is Ok) <==> (scan_ok && (exists|i: int| 0 <= i < start_window && started_obs@[i]) && (
        exists|j: int| 0 <= j < connect_window && usable(link_obs@[j]))),
        r matches Ok(o) ==> {
            &&& o.state == ConnectivityState::Connected
            &&& o.config.client_ssid@ == client_ssid@
            &&& o.config.password@ == password@
            &&& o.config.client_channel == first_match(scan@, client_ssid@)
            &&& o.config.ap_ssid@ == ap_ssid_bytes()
            &&& o.config.ap_channel == ap_channel_of(first_match(scan@, client_ssid@))
            &&& o.ip != 0
            &&& exists|j: int|
                0 <= j < connect_window && usable(link_obs@[j]) && (forall|k: int|
                    0 <= k < j ==> !usable(link_obs@[k])) && o.ip == link_obs@[j].ip
        },
{
    if !scan_ok {
        return Err(ConnectivityError::ScanFailed);
    }
    // Scan results in hand: pick the channel and build the dual
    // configuration.  A missing target network only leaves the client
    // channel unconstrained.
    let config = build_config(client_ssid, password, scan);
    // Start wait: poll "started" up to its window.
    match poll_until(started_obs, start_window) {
        None => {
            return Err(ConnectivityError::StartTimeout);
        },
        Some(si) => {
            proof {
                assert(0 <= (si as int) < start_window && started_obs@[si as int]);
                assert(exists|i: int| 0 <= i < start_window && started_obs@[i]);
            }
        },
    }
    // Connect wait: poll for an associated link holding a non-zero lease.
    let mut j: usize = 0;
    while j < connect_window
        invariant
            j <= connect_window <= link_obs.len(),
            start_window <= started_obs.len(),
            scan_ok,
            exists|i: int| 0 <= i < start_window && started_obs@[i],
            config.client_ssid@ == client_ssid@,
            config.password@ == password@,
            config.client_channel == first_match(scan@, client_ssid@),
            config.ap_ssid@ == ap_ssid_bytes(),
            config.ap_channel == ap_channel_of(first_match(scan@, client_ssid@)),
            forall|k: int| 0 <= k < j ==> !usable(link_obs@[k]),
        decreases connect_window - j,
    {
        if link_obs[j].connected && link_obs[j].ip != 0 {
            proof {
                assert(usable(link_obs@[j as int]));
                assert(exists|k: int|
                    0 <= k < connect_window && usable(link_obs@[k]) && (forall|m: int|
                        0 <= m < k ==> !usable(link_obs@[m])) && link_obs@[j as int].ip
                        == link_obs@[k].ip);
            }
            return Ok(
                BringupOutcome {
                    state: ConnectivityState::Connected,
                    config,
                    ip: link_obs[j].ip,
                },
            );
        }
        j = j + 1;
    }
    Err(ConnectivityError::ConnectTimeout)
}

} // verus!
