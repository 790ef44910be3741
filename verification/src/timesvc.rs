//! Extraction of the `unixtime` field from a time-service payload.
//!
//! The payload is a narrow, fixed-shape JSON-like object scanned by hand:
//! split on commas, each piece split on one colon into key and value.  A
//! piece yields the time when its key — after shedding the object's opening
//! brace — is the quoted word `unixtime` and its value is an unsigned
//! 32-bit decimal numeral.  Extra fields are tolerated; only a missing or
//! unparsable field fails.

use vstd::prelude::*;
use crate::bytes::all_digits;
use crate::bytes::bytes_eq;
use crate::bytes::digits_val;
use crate::bytes::find_byte;
use crate::bytes::find_pos;
use crate::bytes::lemma_find_pos;
use crate::bytes::parse_u32;
use crate::bytes::subvec;

verus! {

/// The quoted key `"unixtime"`.
pub open spec fn unixtime_key() -> Seq<u8> {
    seq![34u8, 117, 110, 105, 120, 116, 105, 109, 101, 34]
}

/// A key as compared: one leading `{` (the object's opening brace) is shed.
pub open spec fn norm_key(k: Seq<u8>) -> Seq<u8> {
    if k.len() > 0 && k[0] == 123 {
        k.drop_first()
    } else {
        k
    }
}

/// The time one comma-piece yields: its key must be the quoted `unixtime`,
/// it must hold exactly one colon, and its value must be a non-empty
/// decimal numeral that fits in a `u32`; otherwise nothing.
pub open spec fn piece_value(p: Seq<u8>) -> Option<u32> {
    let c = find_pos(p, 58);
    if !(0 <= c < p.len()) {
        None
    } else {
        let k = p.take(c);
        let v = p.skip(c + 1);
        if find_pos(v, 58) != v.len() {
            None
        } else if norm_key(k) != unixtime_key() {
            None
        } else if v.len() > 0 && all_digits(v) && digits_val(v) <= u32::MAX as nat {
            Some(digits_val(v) as u32)
        } else {
            None
        }
    }
}

/// The time the whole payload yields: that of its first comma-piece that
/// yields one, scanning left to right.
pub open spec fn scan_time(s: Seq<u8>) -> Option<u32>
    decreases s.len(),
{
    let c = find_pos(s, 44);
    if piece_value(s.take(c)) is Some {
        piece_value(s.take(c))
    } else if 0 <= c < s.len() {
        scan_time(s.skip(c + 1))
    } else {
        None
    }
}

/// The bytes of `unixtime_key()`.
fn make_unixtime_key() -> (r: Vec<u8>)
    ensures
        r@ == unixtime_key(),
{
    let mut r: Vec<u8> = Vec::new();
    r.push(34);
    r.push(117);
    r.push(110);
    r.push(105);
    r.push(120);
    r.push(116);
    r.push(105);
    r.push(109);
    r.push(101);
    r.push(34);
    proof {
        assert(r@ =~= unixtime_key());
    }
    r
}

/// The time one comma-piece yields, per `piece_value`.
fn piece_val(p: &Vec<u8>) -> (r: Option<u32>)
    ensures
        r == piece_value(p@),
{
    proof {
        lemma_find_pos(p@, 58);
        assert(p@.skip(0) =~= p@);
    }
    let c = find_byte(p, 0, 58);
    if c == p.len() {
        return None;
    }
    let k = subvec(p, 0, c);
    let v = subvec(p, c + 1, p.len());
    proof {
        assert(k@ =~= p@.take(find_pos(p@, 58)));
        assert(v@ =~= p@.skip(find_pos(p@, 58) + 1));
        assert(v@.skip(0) =~= v@);
    }
    let c2 = find_byte(&v, 0, 58);
    if c2 != v.len() {
        return None;
    }
    let nk = if k.len() > 0 && k[0] == 123 {
        subvec(&k, 1, k.len())
    } else {
        subvec(&k, 0, k.len())
    };
    proof {
        assert(nk@ =~= norm_key(k@));
    }
    let key = make_unixtime_key();
    if !bytes_eq(&nk, &key) {
        return None;
    }
    parse_u32(&v)
}

/// Extract the `unixtime` field from a time-service payload, per
/// `scan_time`.
pub fn extract_unixtime(body: &Vec<u8>) -> (r: Option<u32>)
    ensures
        r == scan_time(body@),
{
    let mut start: usize = 0;
    proof {
        assert(body@.skip(0) =~= body@);
    }
    loop
        invariant
            start <= body.len(),
            scan_time(body@) == scan_time(body@.skip(start as int)),
        decreases body.len() - start,
    {
        let ghost tail = body@.skip(start as int);
        proof {
            lemma_find_pos(tail, 44);
        }
        let c = find_byte(body, start, 44);
        let piece = subvec(body, start, c);
        proof {
            assert(piece@ =~= tail.take(find_pos(tail, 44)));
        }
        let pv = piece_val(&piece);
        match pv {
            Some(t) => {
                return Some(t);
            },
            None => {
                if c == body.len() {
                    return None;
                }
                proof {
                    assert(tail.skip(find_pos(tail, 44) + 1) =~= body@.skip(c + 1));
                }
                start = c + 1;
            },
        }
    }
}

} // verus!
