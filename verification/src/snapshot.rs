//! The snapshot operation: borrow the actuator slot, light the flash, take
//! one frame, put the flash out, and frame the image response.
//!
//! The contract pins the exact command sequence the flash line sees on
//! every path — on, explicit off, and the guard's own off on success; on
//! and the guard's off when the sensor fails — and places the capture
//! attempt strictly inside the lit window.  The line is never left on after
//! the operation returns.

use vstd::prelude::*;
use crate::bytes::dec_digits;
use crate::bytes::u64_to_dec;
use crate::camera::Camera;
use crate::dispatch::HttpResponse;
use crate::dispatch::jpeg_content_type;
use crate::dispatch::make_jpeg_content_type;
use crate::flash::FlashGuard;
use crate::flash::level_after;
use crate::flash::opt_commands;
use crate::flash::opt_on;
use crate::registry::Registry;

verus! {

/// Why a snapshot request failed; recoverable per request, surfaced to the
/// HTTP layer and never fatal to the process.
#[derive(Debug, PartialEq, Eq, Structural)]
pub enum CaptureError {
    /// The sensor driver reported no frame.
    SensorUnavailable,
    /// Another snapshot operation holds the actuator slot.
    ActuatorBusy,
}

/// The flash commands a snapshot appends to history `oc`: activation, then
/// — only when a frame was obtained — the explicit deactivation before the
/// response write, then the guard's own deactivation on release.
pub open spec fn snap_cmds(oc: Seq<bool>, got_frame: bool) -> Seq<bool> {
    if got_frame {
        oc.push(true).push(false).push(false)
    } else {
        oc.push(true).push(false)
    }
}

/// The flash-command count a snapshot's capture attempt is logged at: right
/// after the activation command (no commands exist in a no-flash
/// deployment).
pub open spec fn snap_point(oc: Seq<bool>, had_line: bool) -> nat {
    if had_line {
        oc.len() + 1
    } else {
        0
    }
}

/// One snapshot operation over the registry's actuator slot and the sensor.
pub fn snapshot(reg: &mut Registry, cam: &mut Camera) -> (r: Result<HttpResponse, CaptureError>)
    requires
        old(reg).wf(),
    ensures
        final(reg).wf(),
        final(reg).storage_medium() == old(reg).storage_medium(),
        // A held slot is refused recoverably, and nothing moves.
        !old(reg).actuator_available() ==> {
            &&& r == Err::<HttpResponse, CaptureError>(CaptureError::ActuatorBusy)
            &&& *final(reg) == *old(reg)
            &&& *final(cam) == *old(cam)
        },
        // Otherwise the slot is free again on every path, never left lit.
        old(reg).actuator_available() ==> {
            &&& final(reg).actuator_available()
            &&& !opt_on(final(reg).actuator())
            &&& (final(reg).actuator() is Some) == (old(reg).actuator() is Some)
            &&& (old(reg).actuator() is Some ==> opt_commands(final(reg).actuator()) == snap_cmds(
                opt_commands(old(reg).actuator()),
                old(cam).pending() is Some,
            ))
            &&& (old(reg).actuator() is None ==> final(reg).actuator() is None)
            // Exactly one capture attempt, strictly inside the lit window.
            &&& final(cam).pending() is None
            &&& final(cam).capture_log() == old(cam).capture_log().push(
                snap_point(opt_commands(old(reg).actuator()), old(reg).actuator() is Some),
            )
        },
        // Success exactly when the slot was free and the sensor had a frame.
        old(reg).actuator_available() ==> match old(cam).pending() {
            Some(f) => r matches Ok(resp) && resp.status == 200 && (resp.content_type matches Some(
                ct,
            ) && ct@ == jpeg_content_type()) && (resp.content_length matches Some(cl) && cl@
                == dec_digits(f.data@.len() as nat)) && resp.body@ == f.data@,
            None => r == Err::<HttpResponse, CaptureError>(CaptureError::SensorUnavailable),
        },
{
    let line = match reg.take_actuator() {
        Some(l) => l,
        None => {
            return Err(CaptureError::ActuatorBusy);
        },
    };
    let mut guard = FlashGuard::acquire(line);
    guard.on();
    let ghost point = guard.commands().len() as nat;
    let frame = cam.capture(Ghost(point));
    match frame {
        None => {
            // The guard's release still puts the light out before the error
            // surfaces: a failed capture never leaves the flash lit.
            let line = guard.release();
            reg.put_actuator(line);
            Err(CaptureError::SensorUnavailable)
        },
        Some(f) => {
            // Explicit off before the (potentially slow) response write; the
            // guard's release repeats it harmlessly.
            guard.off();
            let line = guard.release();
            reg.put_actuator(line);
            let clen = u64_to_dec(f.data.len() as u64);
            let ct = make_jpeg_content_type();
            Ok(
                HttpResponse {
                    status: 200,
                    content_type: Some(ct),
                    content_length: Some(clen),
                    body: f.data,
                },
            )
        },
    }
}

/// The flash is on only strictly between a snapshot's activation command
/// and its first deactivation: it is on right after the activation, off at
/// every later boundary, and off when the operation is over — whether or
/// not a frame was obtained.  The capture attempt sits exactly at the lit
/// boundary.
pub proof fn lemma_capture_within_window(oc: Seq<bool>, got_frame: bool)
    ensures
        !level_after(false, snap_cmds(oc, got_frame)),
        level_after(false, snap_cmds(oc, got_frame).take(snap_point(oc, true) as int)),
        forall|i: int|
            snap_point(oc, true) < i <= snap_cmds(oc, got_frame).len() ==> !level_after(
                false,
                snap_cmds(oc, got_frame).take(i),
            ),
{
    let fc = snap_cmds(oc, got_frame);
    let p = snap_point(oc, true) as int;
    assert(fc.take(p) =~= oc.push(true));
    assert forall|i: int| p < i <= fc.len() implies !level_after(false, fc.take(i)) by {
        assert(fc.take(i).len() == i);
        assert(fc.take(i).last() == fc[i - 1]);
        assert(fc[i - 1] == false);
    }
}

/// Two snapshot operations over the same line never overlap in lit time:
/// the line is out at the hand-over between them, the first operation's lit
/// boundaries all precede the hand-over, and the second's all follow it.
pub proof fn lemma_snapshots_serialize(oc: Seq<bool>, first_got: bool, second_got: bool)
    ensures
        !level_after(false, snap_cmds(oc, first_got)),
        forall|i: int|
            oc.len() < i <= snap_cmds(oc, first_got).len() && level_after(
                false,
                snap_cmds(snap_cmds(oc, first_got), second_got).take(i),
            ) ==> i == oc.len() + 1,
        forall|j: int|
            snap_cmds(oc, first_got).len() < j <= snap_cmds(snap_cmds(oc, first_got), second_got).len()
                && level_after(
                false,
                snap_cmds(snap_cmds(oc, first_got), second_got).take(j),
            ) ==> j == snap_cmds(oc, first_got).len() + 1,
{
    let fa = snap_cmds(oc, first_got);
    let fb = snap_cmds(fa, second_got);
    lemma_capture_within_window(oc, first_got);
    lemma_capture_within_window(fa, second_got);
    assert forall|i: int|
        oc.len() < i <= fa.len() && level_after(false, fb.take(i)) implies i == oc.len() + 1 by {
        assert(fb.take(i) =~= fa.take(i));
    }
}

} // verus!
