//! The request dispatcher: map a raw request URI to one of the three
//! routes, run the operation, and always emit one well-formed response.
//!
//! A route is the exact URI path before the first `?`; what follows the
//! `?` is handed to the storage operation as-is (no URL decoding — a
//! documented limitation).  Operation failures become error responses;
//! they never leave the exchange without a response.

use vstd::prelude::*;
use crate::bytes::bytes_eq;
use crate::bytes::dec_digits;
use crate::bytes::find_byte;
use crate::bytes::find_pos;
use crate::bytes::lemma_find_pos;
use crate::bytes::subvec;
use crate::bytes::u64_to_dec;
use crate::camera::Camera;
use crate::flash::opt_commands;
use crate::flash::opt_on;
use crate::registry::Registry;
use crate::snapshot::CaptureError;
use crate::snapshot::snap_cmds;
use crate::snapshot::snap_point;
use crate::snapshot::snapshot;
use crate::storage::browse_body;
use crate::timesvc::scan_time;
use crate::timesvc::extract_unixtime;

verus! {

/// One HTTP response, framed: status, the headers this surface sets, and
/// the body.
pub struct HttpResponse {
    pub status: u16,
    pub content_type: Option<Vec<u8>>,
    pub content_length: Option<Vec<u8>>,
    pub body: Vec<u8>,
}

/// The three operations this surface exposes.
#[derive(Debug, PartialEq, Eq, Structural)]
pub enum Route {
    TimeQuery,
    StorageOp,
    SnapshotOp,
}

/// The URI path: everything before the first `?`.
pub open spec fn path_of(u: Seq<u8>) -> Seq<u8> {
    u.take(find_pos(u, 63))
}

/// The URI query: everything after the first `?`, empty when there is none.
pub open spec fn query_of(u: Seq<u8>) -> Seq<u8> {
    if 0 <= find_pos(u, 63) < u.len() {
        u.skip(find_pos(u, 63) + 1)
    } else {
        Seq::empty()
    }
}

/// The path `/time`.
pub open spec fn time_path() -> Seq<u8> {
    seq![47u8, 116, 105, 109, 101]
}

/// The path `/sdcard`.
pub open spec fn sdcard_path() -> Seq<u8> {
    seq![47u8, 115, 100, 99, 97, 114, 100]
}

/// The path `/camera`.
pub open spec fn camera_path() -> Seq<u8> {
    seq![47u8, 99, 97, 109, 101, 114, 97]
}

/// The route of a URI: an exact path match, or nothing.
pub open spec fn route_of_spec(u: Seq<u8>) -> Option<Route> {
    if path_of(u) == time_path() {
        Some(Route::TimeQuery)
    } else if path_of(u) == sdcard_path() {
        Some(Route::StorageOp)
    } else if path_of(u) == camera_path() {
        Some(Route::SnapshotOp)
    } else {
        None
    }
}

/// The `image/jpeg` content type.
pub open spec fn jpeg_content_type() -> Seq<u8> {
    seq![105u8, 109, 97, 103, 101, 47, 106, 112, 101, 103]
}

/// Body of the error response when the time payload yields no time.
pub open spec fn time_err_msg() -> Seq<u8> {
    seq![69u8, 114, 114, 111, 114, 32, 103, 101, 116, 116, 105, 110, 103, 32, 116, 105, 109, 101]
}

/// Body of the error response when the sensor yields no frame.
pub open spec fn sensor_err_msg() -> Seq<u8> {
    seq![102u8, 97, 105, 108, 101, 100, 32, 116, 111, 32, 116, 97, 107, 101, 32, 112, 105, 99]
}

/// Body of the error response when the actuator slot is held.
pub open spec fn busy_msg() -> Seq<u8> {
    seq![102u8, 108, 97, 115, 104, 32, 98, 117, 115, 121]
}

/// The bytes of `jpeg_content_type()`.
pub fn make_jpeg_content_type() -> (r: Vec<u8>)
    ensures
        r@ == jpeg_content_type(),
{
    let mut r: Vec<u8> = Vec::new();
    r.push(105);
    r.push(109);
    r.push(97);
    r.push(103);
    r.push(101);
    r.push(47);
    r.push(106);
    r.push(112);
    r.push(101);
    r.push(103);
    proof {
        assert(r@ =~= jpeg_content_type());
    }
    r
}

/// The bytes of `time_err_msg()`.
fn make_time_err_msg() -> (r: Vec<u8>)
    ensures
        r@ == time_err_msg(),
{
    let mut r: Vec<u8> = Vec::new();
    r.push(69);
    r.push(114);
    r.push(114);
    r.push(111);
    r.push(114);
    r.push(32);
    r.push(103);
    r.push(101);
    r.push(116);
    r.push(116);
    r.push(105);
    r.push(110);
    r.push(103);
    r.push(32);
    r.push(116);
    r.push(105);
    r.push(109);
    r.push(101);
    proof {
        assert(r@ =~= time_err_msg());
    }
    r
}

/// The bytes of `sensor_err_msg()`.
fn make_sensor_err_msg() -> (r: Vec<u8>)
    ensures
        r@ == sensor_err_msg(),
{
    let mut r: Vec<u8> = Vec::new();
    r.push(102);
    r.push(97);
    r.push(105);
    r.push(108);
    r.push(101);
    r.push(100);
    r.push(32);
    r.push(116);
    r.push(111);
    r.push(32);
    r.push(116);
    r.push(97);
    r.push(107);
    r.push(101);
    r.push(32);
    r.push(112);
    r.push(105);
    r.push(99);
    proof {
        assert(r@ =~= sensor_err_msg());
    }
    r
}

/// The bytes of `busy_msg()`.
fn make_busy_msg() -> (r: Vec<u8>)
    ensures
        r@ == busy_msg(),
{
    let mut r: Vec<u8> = Vec::new();
    r.push(102);
    r.push(108);
    r.push(97);
    r.push(115);
    r.push(104);
    r.push(32);
    r.push(98);
    r.push(117);
    r.push(115);
    r.push(121);
    proof {
        assert(r@ =~= busy_msg());
    }
    r
}

/// The route of a request URI, by exact path match.
pub fn route_of(uri: &Vec<u8>) -> (r: Option<Route>)
    ensures
        r == route_of_spec(uri@),
{
    proof {
        lemma_find_pos(uri@, 63);
        assert(uri@.skip(0) =~= uri@);
    }
    let q = find_byte(uri, 0, 63);
    let path = subvec(uri, 0, q);
    proof {
        assert(path@ =~= path_of(uri@));
    }
    let mut time: Vec<u8> = Vec::new();
    time.push(47);
    time.push(116);
    time.push(105);
    time.push(109);
    time.push(101);
    proof {
        assert(time@ =~= time_path());
    }
    if bytes_eq(&path, &time) {
        return Some(Route::TimeQuery);
    }
    let mut sdcard: Vec<u8> = Vec::new();
    sdcard.push(47);
    sdcard.push(115);
    sdcard.push(100);
    sdcard.push(99);
    sdcard.push(97);
    sdcard.push(114);
    sdcard.push(100);
    proof {
        assert(sdcard@ =~= sdcard_path());
    }
    if bytes_eq(&path, &sdcard) {
        return Some(Route::StorageOp);
    }
    let mut camera: Vec<u8> = Vec::new();
    camera.push(47);
    camera.push(99);
    camera.push(97);
    camera.push(109);
    camera.push(101);
    camera.push(114);
    camera.push(97);
    proof {
        assert(camera@ =~= camera_path());
    }
    if bytes_eq(&path, &camera) {
        return Some(Route::SnapshotOp);
    }
    None
}

/// The query part of a request URI, used as-is as a storage path.
pub fn query_part(uri: &Vec<u8>) -> (r: Vec<u8>)
    ensures
        r@ == query_of(uri@),
{
    proof {
        lemma_find_pos(uri@, 63);
        assert(uri@.skip(0) =~= uri@);
    }
    let q = find_byte(uri, 0, 63);
    if q < uri.len() {
        let r = subvec(uri, q + 1, uri.len());
        proof {
            assert(r@ =~= query_of(uri@));
        }
        r
    } else {
        Vec::new()
    }
}

/// Accept one request and always emit one well-formed response: route by
/// exact path, run the operation, and turn every operation failure into an
/// error response.  `time_payload` is what the time-service collaborator
/// answered, handed in by the transport layer.
pub fn handle_request(
    reg: &mut Registry,
    cam: &mut Camera,
    time_payload: &Vec<u8>,
    uri: &Vec<u8>,
) -> (r: HttpResponse)
    requires
        old(reg).wf(),
    ensures
        final(reg).wf(),
        final(reg).storage_medium() == old(reg).storage_medium(),
        // Only the snapshot route touches shared state.
        route_of_spec(uri@) != Some(Route::SnapshotOp) ==> {
            &&& *final(reg) == *old(reg)
            &&& *final(cam) == *old(cam)
        },
        // Only a successful image response carries the two headers.
        route_of_spec(uri@) != Some(Route::SnapshotOp) ==> r.content_type is None
            && r.content_length is None,
        route_of_spec(uri@) is None ==> r.status == 404 && r.body@ == Seq::<u8>::empty(),
        route_of_spec(uri@) == Some(Route::TimeQuery) ==> match scan_time(time_payload@) {
            Some(t) => r.status == 200 && r.body@ == dec_digits(t as nat),
            None => r.status == 500 && r.body@ == time_err_msg(),
        },
        route_of_spec(uri@) == Some(Route::StorageOp) ==> r.status == 200 && r.body@ == browse_body(
            old(reg).storage_medium(),
            query_of(uri@),
        ),
        route_of_spec(uri@) == Some(Route::SnapshotOp) ==> {
            &&& (!old(reg).actuator_available() ==> {
                &&& r.status == 500
                &&& r.body@ == busy_msg()
                &&& r.content_type is None
                &&& r.content_length is None
                &&& *final(reg) == *old(reg)
                &&& *final(cam) == *old(cam)
            })
            &&& (old(reg).actuator_available() ==> {
                &&& final(reg).actuator_available()
                &&& !opt_on(final(reg).actuator())
                &&& (old(reg).actuator() is Some ==> opt_commands(final(reg).actuator())
                    == snap_cmds(
                    opt_commands(old(reg).actuator()),
                    old(cam).pending() is Some,
                ))
                &&& final(cam).pending() is None
                &&& final(cam).capture_log() == old(cam).capture_log().push(
                    snap_point(opt_commands(old(reg).actuator()), old(reg).actuator() is Some),
                )
                &&& match old(cam).pending() {
                    Some(f) => r.status == 200 && (r.content_type matches Some(ct) && ct@
                        == jpeg_content_type()) && (r.content_length matches Some(cl) && cl@
                        == dec_digits(f.data@.len() as nat)) && r.body@ == f.data@,
                    None => r.status == 500 && r.body@ == sensor_err_msg() && r.content_type
                        is None && r.content_length is None,
                }
            })
        },
{
    match route_of(uri) {
        None => HttpResponse {
            status: 404,
            content_type: None,
            content_length: None,
            body: Vec::new(),
        },
        Some(Route::TimeQuery) => match extract_unixtime(time_payload) {
            Some(t) => HttpResponse {
                status: 200,
                content_type: None,
                content_length: None,
                body: u64_to_dec(t as u64),
            },
            None => HttpResponse {
                status: 500,
                content_type: None,
                content_length: None,
                body: make_time_err_msg(),
            },
        },
        Some(Route::StorageOp) => {
            let path = query_part(uri);
            let body = reg.storage().browse(&path);
            HttpResponse { status: 200, content_type: None, content_length: None, body }
        },
        Some(Route::SnapshotOp) => match snapshot(reg, cam) {
            Ok(resp) => resp,
            Err(CaptureError::SensorUnavailable) => HttpResponse {
                status: 500,
                content_type: None,
                content_length: None,
                body: make_sensor_err_msg(),
            },
            Err(CaptureError::ActuatorBusy) => HttpResponse {
                status: 500,
                content_type: None,
                content_length: None,
                body: make_busy_msg(),
            },
        },
    }
}

} // verus!
