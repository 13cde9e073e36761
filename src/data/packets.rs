use vstd::prelude::*;

verus! {

/// A four-byte big-endian length at `j`.
pub open spec fn be32(b: Seq<u8>, j: int) -> int {
    b[j] as int * 16777216 + b[j + 1] as int * 65536 + b[j + 2] as int * 256 + b[j + 3] as int
}

/// The OpenPGP packet header at `i`: the tag, where the body starts and how
/// long it is. `None` where no fixed-length header fits there (partial and
/// indeterminate lengths are not accepted).
pub open spec fn packet_at(b: Seq<u8>, i: int) -> Option<(int, int, int)> {
    if i < 0 || i >= b.len() {
        None
    } else if b[i] >= 192 {
        let tag = b[i] - 192;
        if i + 1 >= b.len() {
            None
        } else if b[i + 1] < 192 {
            Some((tag, i + 2, b[i + 1] as int))
        } else if b[i + 1] < 224 {
            if i + 2 >= b.len() {
                None
            } else {
                Some((tag, i + 3, (b[i + 1] - 192) * 256 + b[i + 2] + 192))
            }
        } else if b[i + 1] == 255 {
            if i + 5 >= b.len() {
                None
            } else {
                Some((tag, i + 6, be32(b, i + 2)))
            }
        } else {
            None
        }
    } else if b[i] >= 128 {
        let tag = (b[i] - 128) / 4;
        let kind = b[i] % 4;
        if kind == 0 {
            if i + 1 >= b.len() {
                None
            } else {
                Some((tag, i + 2, b[i + 1] as int))
            }
        } else if kind == 1 {
            if i + 2 >= b.len() {
                None
            } else {
                Some((tag, i + 3, b[i + 1] * 256 + b[i + 2]))
            }
        } else if kind == 2 {
            if i + 4 >= b.len() {
                None
            } else {
                Some((tag, i + 5, be32(b, i + 1)))
            }
        } else {
            None
        }
    } else {
        None
    }
}

/// Tag of a symmetrically encrypted, integrity protected data packet.
pub const SEIPD_TAG: u8 = 18;

/// The shortest SEIPD v1 body pgp can take apart: the version byte, a random
/// prefix of at most one 16-byte block plus two, and the 22-byte MDC.
pub const MIN_SEIPD_BODY: u64 = 41;

/// A packet is accepted where its body fits, it is no unprotected (9) or AEAD
/// (20) encrypted packet, and a SEIPD packet is version 1 and long enough.
pub open spec fn packet_ok(b: Seq<u8>, tag: int, start: int, len: int) -> bool {
    &&& start + len <= b.len()
    &&& tag != 9
    &&& tag != 20
    &&& tag == SEIPD_TAG ==> len >= MIN_SEIPD_BODY && b[start] == 1
}

/// Whether the bytes from `i` on are a run of accepted packets.
pub open spec fn packets_ok(b: Seq<u8>, i: int) -> bool
    decreases b.len() - i,
{
    if i >= b.len() {
        true
    } else {
        match packet_at(b, i) {
            None => false,
            Some(h) => if packet_ok(b, h.0, h.1, h.2) && h.1 > i && h.1 + h.2 <= b.len() {
                packets_ok(b, h.1 + h.2)
            } else {
                false
            },
        }
    }
}

fn read_header(b: &[u8], i: usize) -> (r: Option<(u8, usize, u64)>)
    requires
        i < b@.len(),
    ensures
        match r {
            Some(h) => packet_at(b@, i as int) == Some((h.0 as int, h.1 as int, h.2 as int)),
            None => packet_at(b@, i as int) is None,
        },
{
    let n = b.len();
    let h = b[i];
    if h >= 192 {
        if n - i <= 1 {
            return None;
        }
        let l0 = b[i + 1];
        if l0 < 192 {
            Some((h - 192, i + 2, l0 as u64))
        } else if l0 < 224 {
            if n - i <= 2 {
                return None;
            }
            Some((h - 192, i + 3, (l0 as u64 - 192) * 256 + b[i + 2] as u64 + 192))
        } else if l0 == 255 {
            if n - i <= 5 {
                return None;
            }
            let len = b[i + 2] as u64 * 16777216 + b[i + 3] as u64 * 65536 + b[i + 4] as u64 * 256
                + b[i + 5] as u64;
            Some((h - 192, i + 6, len))
        } else {
            None
        }
    } else if h >= 128 {
        let tag = (h - 128) / 4;
        let kind = h % 4;
        if kind == 0 {
            if n - i <= 1 {
                return None;
            }
            Some((tag, i + 2, b[i + 1] as u64))
        } else if kind == 1 {
            if n - i <= 2 {
                return None;
            }
            Some((tag, i + 3, b[i + 1] as u64 * 256 + b[i + 2] as u64))
        } else if kind == 2 {
            if n - i <= 4 {
                return None;
            }
            let len = b[i + 1] as u64 * 16777216 + b[i + 2] as u64 * 65536 + b[i + 3] as u64 * 256
                + b[i + 4] as u64;
            Some((tag, i + 5, len))
        } else {
            None
        }
    } else {
        None
    }
}

/// Checks that `b` is a run of accepted packets, so that pgp can decrypt it
/// without meeting a body too short to hold what it expects.
pub fn check_packets(b: &[u8]) -> (r: bool)
    ensures
        r == packets_ok(b@, 0),
{
    let mut i: usize = 0;
    while i < b.len()
        invariant
            i <= b@.len(),
            packets_ok(b@, 0) == packets_ok(b@, i as int),
        decreases b@.len() - i,
    {
        let (tag, start, len) = match read_header(b, i) {
            Some(h) => h,
            None => return false,
        };
        if start > b.len() || len > (b.len() - start) as u64 {
            return false;
        }
        if tag == 9 || tag == 20 {
            return false;
        }
        if tag == SEIPD_TAG && (len < MIN_SEIPD_BODY || b[start] != 1) {
            return false;
        }
        i = start + len as usize;
    }
    true
}

} // verus!
