//! The structure of a standard MIDI file, checked before a file is handed to a
//! MIDI decoder: a header, then complete track chunks whose events stay inside
//! their chunk and end with an end-of-track event.

use vstd::prelude::*;

verus! {

/// The variable-length quantity at `p` (at most four bytes), as its value and
/// the position after it; `None` where it runs past the data or goes on longer.
pub open spec fn vlq_at(b: Seq<u8>, p: nat) -> Option<(nat, nat)> {
    vlq_from(b, p, 0, 0)
}

/// Reading a variable-length quantity from its byte `k` on, with the value read so far.
pub open spec fn vlq_from(b: Seq<u8>, p: nat, k: nat, acc: nat) -> Option<(nat, nat)>
    decreases 4 - k,
{
    if k >= 4 || p + k >= b.len() {
        None
    } else {
        let byte = b[(p + k) as int];
        let value = acc * 128 + (byte % 128) as nat;
        if byte < 128 {
            Some((value, p + k + 1))
        } else {
            vlq_from(b, p, k + 1, value)
        }
    }
}

proof fn lemma_vlq_from(b: Seq<u8>, p: nat, k: nat, acc: nat)
    requires
        acc < pow128(k),
    ensures
        vlq_from(b, p, k, acc) matches Some((v, q)) ==> p < q <= b.len() && q <= p + 4 && v < 0x1000_0000,
    decreases 4 - k,
{
    if !(k >= 4 || p + k >= b.len()) {
        let byte = b[(p + k) as int];
        let value = acc * 128 + (byte % 128) as nat;
        assert(value < pow128(k + 1));
        if byte >= 128 {
            lemma_vlq_from(b, p, k + 1, value);
        } else {
            assert(pow128(k + 1) <= 0x1000_0000);
        }
    }
}

/// 128 to the power `k`, for `k` up to four.
pub open spec fn pow128(k: nat) -> nat {
    if k == 0 {
        1
    } else if k == 1 {
        128
    } else if k == 2 {
        16384
    } else if k == 3 {
        2097152
    } else {
        268435456
    }
}

/// A variable-length quantity ends after its first byte and within four bytes,
/// and is below 2^28.
pub proof fn lemma_vlq_at(b: Seq<u8>, p: nat)
    ensures
        vlq_at(b, p) matches Some((v, q)) ==> p < q <= b.len() && q <= p + 4 && v < 0x1000_0000,
{
    lemma_vlq_from(b, p, 0, 0);
}

/// How many data bytes follow a channel message's status byte.
pub open spec fn channel_data_len(status: u8) -> nat {
    if status / 16 == 12 || status / 16 == 13 {
        1
    } else {
        2
    }
}

/// The `n` bytes from `p` on are data bytes (below 0x80).
pub open spec fn data_bytes(b: Seq<u8>, p: nat, n: nat) -> bool {
    forall|i: int| p <= i < p + n ==> b[i] < 128
}

/// The events of a track from position `p` up to `end` are well formed: each a
/// delta time (the running tick count staying within `i32`), then a channel
/// message (with its status byte or, where `plain` is off, by running status
/// after a channel message), a system-exclusive message of its stated length
/// (where `plain` is off), or a meta event of its stated length; the last event
/// is an end-of-track event of length zero that ends exactly at `end`. With
/// `plain` on, a delta time also never starts with a byte of 0xF0 or above.
pub open spec fn track_from(
    b: Seq<u8>,
    p: nat,
    end: nat,
    tick: nat,
    status: Option<u8>,
    plain: bool,
) -> bool
    decreases end - p,
{
    if p >= end || end > b.len() {
        false
    } else {
        match vlq_at(b, p) {
            None => false,
            Some((delta, q)) => {
                proof {
                    lemma_vlq_at(b, p);
                }
                let t = tick + delta;
                if q >= end || t > 0x7fff_ffff || (plain && b[p as int] >= 0xf0) {
                    false
                } else {
                    let e = b[q as int];
                    if e < 0x80 {
                        if plain {
                            false
                        } else {
                            match status {
                                None => false,
                                Some(s) => {
                                    let next = q + channel_data_len(s);
                                    next <= end && data_bytes(b, q, channel_data_len(s))
                                        && track_from(b, next, end, t, status, plain)
                                },
                            }
                        }
                    } else if e < 0xf0 {
                        let next = q + 1 + channel_data_len(e);
                        next <= end && data_bytes(b, q + 1, channel_data_len(e)) && track_from(
                            b,
                            next,
                            end,
                            t,
                            Some(e),
                            plain,
                        )
                    } else if e == 0xf0 || e == 0xf7 {
                        !plain && match vlq_at(b, q + 1) {
                            None => false,
                            Some((len, r)) => {
                                proof {
                                    lemma_vlq_at(b, q + 1);
                                }
                                r + len <= end && track_from(b, r + len, end, t, None, plain)
                            },
                        }
                    } else if e == 0xff {
                        q + 1 < end && match vlq_at(b, q + 2) {
                            None => false,
                            Some((len, r)) => {
                                proof {
                                    lemma_vlq_at(b, q + 2);
                                }
                                r + len <= end && if b[(q + 1) as int] == 0x2f {
                                    len == 0 && r == end
                                } else {
                                    track_from(b, r + len, end, t, None, plain)
                                }
                            },
                        }
                    } else {
                        false
                    }
                }
            },
        }
    }
}

/// A big-endian 32-bit number at `p`.
pub open spec fn be32(b: Seq<u8>, p: nat) -> nat {
    b[p as int] as nat * 16777216 + b[(p + 1) as int] as nat * 65536 + b[(p + 2) as int] as nat * 256
        + b[(p + 3) as int] as nat
}

/// From `p` to the end of the data there are only complete, well-formed track
/// chunks (`MTrk`, a length below 2^31, and the events of `track_from`).
pub open spec fn chunks_from(b: Seq<u8>, p: nat, plain: bool) -> bool
    decreases b.len() - p,
{
    if p >= b.len() {
        p == b.len()
    } else if p + 8 > b.len() {
        false
    } else {
        let len = be32(b, p + 4);
        let end = p + 8 + len;
        &&& b[p as int] == 0x4d && b[(p + 1) as int] == 0x54 && b[(p + 2) as int] == 0x72
            && b[(p + 3) as int] == 0x6b
        &&& len < 0x8000_0000
        &&& end <= b.len()
        &&& track_from(b, p + 8, end, 0, None, plain)
        &&& chunks_from(b, end, plain)
    }
}

/// A well-formed standard MIDI file: the header (`MThd`, length 6, format 0 or
/// 1, a positive track count, ticks per quarter note), then well-formed track
/// chunks up to the end of the data. With `plain` on, it also holds no
/// system-exclusive events, uses no running status, and has no delta time that
/// starts with a byte of 0xF0 or above.
pub open spec fn smf_ok(b: Seq<u8>, plain: bool) -> bool {
    &&& b.len() >= 14
    &&& b[0] == 0x4d && b[1] == 0x54 && b[2] == 0x68 && b[3] == 0x64
    &&& b[4] == 0 && b[5] == 0 && b[6] == 0 && b[7] == 6
    &&& b[8] == 0 && (b[9] == 0 || b[9] == 1)
    &&& b[10] < 0x80 && !(b[10] == 0 && b[11] == 0)
    &&& b[12] < 0x80
    &&& chunks_from(b, 14, plain)
}

/// Channel messages carry one data byte for a program change (0xC0 to 0xCF)
/// or a channel pressure (0xD0 to 0xDF), and two for every other channel
/// message (0x80 to 0xBF and 0xE0 to 0xEF).
pub proof fn law_channel_message_lengths(status: u8)
    ensures
        0xC0 <= status <= 0xDF ==> channel_data_len(status) == 1,
        (0x80 <= status <= 0xBF || 0xE0 <= status <= 0xEF) ==> channel_data_len(status) == 2,
{
}

/// A channel message right at the start of the remaining events (no delta
/// time, a status byte, then its data bytes: one for 0xC0 to 0xDF, two for
/// the others) is read over, and the events after it must be well formed in
/// its place, with it as the running status.
pub proof fn law_track_reads_over_channel_message(
    b: Seq<u8>,
    p: nat,
    end: nat,
    tick: nat,
    status: Option<u8>,
    plain: bool,
)
    requires
        end <= b.len(),
        tick <= 0x7fff_ffff,
        b[p as int] == 0,
        0x80 <= b[(p + 1) as int] < 0xf0,
        p + 2 + (if 0xC0 <= b[(p + 1) as int] <= 0xDF { 1nat } else { 2nat }) <= end,
        b[(p + 2) as int] < 0x80,
        !(0xC0 <= b[(p + 1) as int] <= 0xDF) ==> b[(p + 3) as int] < 0x80,
    ensures
        track_from(b, p, end, tick, status, plain) == track_from(
            b,
            p + 2 + (if 0xC0 <= b[(p + 1) as int] <= 0xDF { 1nat } else { 2nat }),
            end,
            tick,
            Some(b[(p + 1) as int]),
            plain,
        ),
{
    assert(vlq_from(b, p, 0, 0) == Some((0nat, p + 1)));
    let e = b[(p + 1) as int];
    let n: nat = if 0xC0 <= e <= 0xDF { 1 } else { 2 };
    assert(channel_data_len(e) == n);
    assert(data_bytes(b, p + 2, n));
}

/// A file may hold any number of track chunks: a well-formed chunk at `p`
/// followed by well-formed chunks up to the end makes well-formed chunks
/// from `p` on.
pub proof fn law_chunks_follow_one_another(b: Seq<u8>, p: nat, plain: bool)
    requires
        p + 8 <= b.len(),
        b[p as int] == 0x4d && b[(p + 1) as int] == 0x54 && b[(p + 2) as int] == 0x72 && b[(p + 3) as int] == 0x6b,
        be32(b, p + 4) < 0x8000_0000,
        p + 8 + be32(b, p + 4) <= b.len(),
        track_from(b, p + 8, p + 8 + be32(b, p + 4), 0, None, plain),
        chunks_from(b, p + 8 + be32(b, p + 4), plain),
    ensures
        chunks_from(b, p, plain),
{
}

proof fn lemma_plain_track_is_track(b: Seq<u8>, p: nat, end: nat, tick: nat, status: Option<u8>)
    requires
        track_from(b, p, end, tick, status, true),
    ensures
        track_from(b, p, end, tick, status, false),
    decreases end - p,
{
    lemma_vlq_at(b, p);
    let (delta, q) = vlq_at(b, p)->0;
    let e = b[q as int];
    if 0x80 <= e < 0xf0 {
        lemma_plain_track_is_track(b, q + 1 + channel_data_len(e), end, tick + delta, Some(e));
    } else if e == 0xff {
        lemma_vlq_at(b, q + 2);
        let (len, r) = vlq_at(b, q + 2)->0;
        if b[(q + 1) as int] != 0x2f {
            lemma_plain_track_is_track(b, r + len, end, tick + delta, None);
        }
    }
}

proof fn lemma_plain_chunks_are_chunks(b: Seq<u8>, p: nat)
    requires
        chunks_from(b, p, true),
    ensures
        chunks_from(b, p, false),
    decreases b.len() - p,
{
    if p < b.len() {
        let end = p + 8 + be32(b, p + 4);
        lemma_plain_track_is_track(b, p + 8, end, 0, None);
        lemma_plain_chunks_are_chunks(b, end);
    }
}

/// The plain check is the stricter one: a file it accepts, the full check
/// accepts too.
pub proof fn law_plain_file_is_file(b: Seq<u8>)
    requires
        smf_ok(b, true),
    ensures
        smf_ok(b, false),
{
    lemma_plain_chunks_are_chunks(b, 14);
}

fn vlq(b: &[u8], p: usize) -> (r: Option<(u64, usize)>)
    ensures
        match vlq_at(b@, p as nat) {
            None => r is None,
            Some((v, q)) => r matches Some((v2, q2)) && v2 == v && q2 == q,
        },
{
    proof {
        lemma_vlq_at(b@, p as nat);
    }
    let mut k: usize = 0;
    let mut acc: u64 = 0;
    while k < 4
        invariant
            k <= 4,
            acc < pow128(k as nat),
            vlq_from(b@, p as nat, k as nat, acc as nat) == vlq_at(b@, p as nat),
        decreases 4 - k,
    {
        if p >= b.len() || k >= b.len() - p {
            return None;
        }
        let byte = b[p + k];
        let value = acc * 128 + (byte % 128) as u64;
        assert(value < pow128((k + 1) as nat));
        if byte < 128 {
            return Some((value, p + k + 1));
        }
        acc = value;
        k += 1;
    }
    None
}

fn channel_len(status: u8) -> (r: usize)
    ensures
        r == channel_data_len(status),
{
    if status / 16 == 12 || status / 16 == 13 {
        1
    } else {
        2
    }
}

fn all_data(b: &[u8], p: usize, n: usize) -> (r: bool)
    requires
        p + n <= b.len(),
    ensures
        r == data_bytes(b@, p as nat, n as nat),
{
    let mut i: usize = 0;
    while i < n
        invariant
            i <= n,
            p + n <= b.len(),
            forall|j: int| p <= j < p + i ==> b@[j] < 128,
        decreases n - i,
    {
        if b[p + i] >= 128 {
            return false;
        }
        i += 1;
    }
    true
}

/// Checks the events of one track chunk, `track_from` from `start` with no
/// ticks counted and no running status.
fn check_track(b: &[u8], start: usize, end: usize, plain: bool) -> (r: bool)
    requires
        end <= b@.len(),
    ensures
        r == track_from(b@, start as nat, end as nat, 0, None, plain),
{
    let mut p = start;
    let mut tick: u64 = 0;
    let mut status: Option<u8> = None;
    loop
        invariant
            end <= b@.len(),
            tick <= 0x7fff_ffff,
            track_from(b@, p as nat, end as nat, tick as nat, status, plain) == track_from(
                b@,
                start as nat,
                end as nat,
                0,
                None,
                plain,
            ),
        decreases end - p,
    {
        if p >= end {
            return false;
        }
        proof {
            lemma_vlq_at(b@, p as nat);
        }
        let (delta, q) = match vlq(b, p) {
            None => return false,
            Some(d) => d,
        };
        if q >= end || tick + delta > 0x7fff_ffff || (plain && b[p] >= 0xf0) {
            return false;
        }
        let t = tick + delta;
        let e = b[q];
        if e < 0x80 {
            if plain {
                return false;
            }
            let s = match status {
                None => return false,
                Some(s) => s,
            };
            let n = channel_len(s);
            if n > end - q || !all_data(b, q, n) {
                return false;
            }
            p = q + n;
            tick = t;
        } else if e < 0xf0 {
            let n = channel_len(e);
            if n + 1 > end - q || !all_data(b, q + 1, n) {
                return false;
            }
            p = q + 1 + n;
            tick = t;
            status = Some(e);
        } else if e == 0xf0 || e == 0xf7 {
            if plain {
                return false;
            }
            proof {
                lemma_vlq_at(b@, (q + 1) as nat);
            }
            let (len, r) = match vlq(b, q + 1) {
                None => return false,
                Some(x) => x,
            };
            if r > end || len > (end - r) as u64 {
                return false;
            }
            p = r + len as usize;
            tick = t;
            status = None;
        } else if e == 0xff {
            if q + 1 >= end {
                return false;
            }
            proof {
                lemma_vlq_at(b@, (q + 2) as nat);
            }
            let (len, r) = match vlq(b, q + 2) {
                None => return false,
                Some(x) => x,
            };
            if r > end || len > (end - r) as u64 {
                return false;
            }
            if b[q + 1] == 0x2f {
                return len == 0 && r == end;
            }
            p = r + len as usize;
            tick = t;
            status = None;
        } else {
            return false;
        }
    }
}

fn be32_at(b: &[u8], p: usize) -> (r: u64)
    requires
        p + 4 <= b@.len(),
    ensures
        r == be32(b@, p as nat),
{
    b[p] as u64 * 16777216 + b[p + 1] as u64 * 65536 + b[p + 2] as u64 * 256 + b[p + 3] as u64
}

/// Checks that the bytes are a well-formed standard MIDI file, as `smf_ok` says.
pub fn check_smf(b: &[u8], plain: bool) -> (r: bool)
    ensures
        r == smf_ok(b@, plain),
{
    if b.len() < 14 {
        return false;
    }
    if !(b[0] == 0x4d && b[1] == 0x54 && b[2] == 0x68 && b[3] == 0x64) {
        return false;
    }
    if !(b[4] == 0 && b[5] == 0 && b[6] == 0 && b[7] == 6) {
        return false;
    }
    if !(b[8] == 0 && (b[9] == 0 || b[9] == 1)) {
        return false;
    }
    if !(b[10] < 0x80 && !(b[10] == 0 && b[11] == 0)) || b[12] >= 0x80 {
        return false;
    }
    let mut p: usize = 14;
    loop
        invariant
            14 <= p <= b@.len(),
            chunks_from(b@, p as nat, plain) == smf_ok(b@, plain),
        decreases b@.len() - p,
    {
        if p >= b.len() {
            return p == b.len();
        }
        if b.len() - p < 8 {
            return false;
        }
        if !(b[p] == 0x4d && b[p + 1] == 0x54 && b[p + 2] == 0x72 && b[p + 3] == 0x6b) {
            return false;
        }
        let len = be32_at(b, p + 4);
        if len >= 0x8000_0000 || len > (b.len() - p - 8) as u64 {
            return false;
        }
        let end = p + 8 + len as usize;
        if !check_track(b, p + 8, end, plain) {
            return false;
        }
        p = end;
    }
}

} // verus!
