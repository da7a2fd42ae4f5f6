//! Frame layout on the wire:
//! `<4+ lowercase hex digits: N><N bytes of JSON header><large payload>`.
use vstd::prelude::*;

verus! {

/// Smallest number of hex digits written for the header length.
pub const PREFIX_WIDTH: usize = 4;

/// The ASCII byte of a hex digit, lowercase.
pub open spec fn hex_digit(d: nat) -> u8
    recommends
        d < 16,
{
    if d < 10 {
        (48 + d) as u8
    } else {
        (87 + d) as u8
    }
}

/// The value of a hex digit byte, in either case.
pub open spec fn hex_value(b: u8) -> Option<nat> {
    if 48 <= b <= 57 {
        Some((b - 48) as nat)
    } else if 97 <= b <= 102 {
        Some((b - 87) as nat)
    } else if 65 <= b <= 70 {
        Some((b - 55) as nat)
    } else {
        None
    }
}

/// Lowercase hex digits of `n`, zero-padded on the left to at least `width` digits.
pub open spec fn hex_padded(n: nat, width: nat) -> Seq<u8>
    decreases n, width,
{
    if n < 16 && width <= 1 {
        seq![hex_digit(n)]
    } else {
        hex_padded(n / 16, if width > 0 { (width - 1) as nat } else { 0 }).push(hex_digit(n % 16))
    }
}

/// The value of four hex digits, most significant first.
pub open spec fn hex4_value(s: Seq<u8>) -> Option<nat>
    recommends
        s.len() == 4,
{
    match (hex_value(s[0]), hex_value(s[1]), hex_value(s[2]), hex_value(s[3])) {
        (Some(a), Some(b), Some(c), Some(d)) => Some(a * 4096 + b * 256 + c * 16 + d),
        _ => None,
    }
}

/// The wire form of a header and a large payload.
pub open spec fn frame_of(header: Seq<u8>, payload: Seq<u8>) -> Seq<u8> {
    hex_padded(header.len(), PREFIX_WIDTH as nat) + header + payload
}

/// What a receiver reads out of a wire message: the header and the large
/// payload, or nothing when the message is malformed.
pub open spec fn frame_split(text: Seq<u8>) -> Option<(Seq<u8>, Seq<u8>)> {
    if text.len() < 4 {
        None
    } else {
        match hex4_value(text.subrange(0, 4)) {
            None => None,
            Some(n) => if 4 + n > text.len() {
                None
            } else {
                Some((text.subrange(4, 4 + n as int), text.subrange(4 + n as int, text.len() as int)))
            },
        }
    }
}

fn hex_digit_exec(d: u64) -> (r: u8)
    requires
        d < 16,
    ensures
        r == hex_digit(d as nat),
{
    if d < 10 {
        48 + d as u8
    } else {
        87 + d as u8
    }
}

fn hex_value_exec(b: u8) -> (r: Option<u64>)
    ensures
        match hex_value(b) {
            Some(v) => r == Some(v as u64),
            None => r is None,
        },
        r matches Some(v) ==> v < 16,
{
    if 48 <= b && b <= 57 {
        Some((b - 48) as u64)
    } else if 97 <= b && b <= 102 {
        Some((b - 87) as u64)
    } else if 65 <= b && b <= 70 {
        Some((b - 55) as u64)
    } else {
        None
    }
}

fn push_hex(n: u64, width: u64, out: &mut Vec<u8>)
    ensures
        final(out)@ == old(out)@ + hex_padded(n as nat, width as nat),
    decreases n, width,
{
    if n < 16 && width <= 1 {
        out.push(hex_digit_exec(n));
    } else {
        let w: u64 = if width > 0 { width - 1 } else { 0 };
        push_hex(n / 16, w, out);
        out.push(hex_digit_exec(n % 16));
    }
}

pub(crate) fn extend_bytes(out: &mut Vec<u8>, b: &[u8])
    ensures
        final(out)@ == old(out)@ + b@,
{
    let ghost start = out@;
    let mut i: usize = 0;
    while i < b.len()
        invariant
            i <= b@.len(),
            out@ == start + b@.subrange(0, i as int),
        decreases b@.len() - i,
    {
        out.push(b[i]);
        i = i + 1;
        assert(b@.subrange(0, i as int) == b@.subrange(0, i - 1 as int).push(b@[i - 1]));
    }
    assert(b@.subrange(0, b@.len() as int) == b@);
}

fn copy_range(b: &[u8], from: usize, to: usize) -> (r: Vec<u8>)
    requires
        from <= to <= b@.len(),
    ensures
        r@ == b@.subrange(from as int, to as int),
{
    let mut r: Vec<u8> = Vec::new();
    let mut i: usize = from;
    while i < to
        invariant
            from <= i <= to <= b@.len(),
            r@ == b@.subrange(from as int, i as int),
        decreases to - i,
    {
        r.push(b[i]);
        i = i + 1;
        assert(b@.subrange(from as int, i as int) == b@.subrange(from as int, i - 1 as int).push(b@[i - 1]));
    }
    r
}

/// Frames a JSON header and a large payload (possibly empty) for the wire:
/// the header's byte length in lowercase hex, zero-padded to four digits,
/// then the header, then the payload with no delimiter.
pub fn encode_frame(header: &[u8], payload: &[u8]) -> (r: Vec<u8>)
    ensures
        r@ == frame_of(header@, payload@),
{
    let mut out: Vec<u8> = Vec::new();
    push_hex(header.len() as u64, PREFIX_WIDTH as u64, &mut out);
    extend_bytes(&mut out, header);
    extend_bytes(&mut out, payload);
    out
}

/// Splits a received wire message into its JSON header and its large
/// payload; `None` when it is shorter than four bytes, when the four bytes
/// are not hex digits, or when the length they give runs past the end.
pub fn decode_frame(text: &[u8]) -> (r: Option<(Vec<u8>, Vec<u8>)>)
    ensures
        match frame_split(text@) {
            Some((h, p)) => r matches Some((rh, rp)) && rh@ == h && rp@ == p,
            None => r is None,
        },
{
    if text.len() < 4 {
        return None;
    }
    let d0 = hex_value_exec(text[0]);
    let d1 = hex_value_exec(text[1]);
    let d2 = hex_value_exec(text[2]);
    let d3 = hex_value_exec(text[3]);
    match (d0, d1, d2, d3) {
        (Some(a), Some(b), Some(c), Some(d)) => {
            let n: u64 = a * 4096 + b * 256 + c * 16 + d;
            if n > (text.len() - 4) as u64 {
                return None;
            }
            let end: usize = 4 + n as usize;
            let h = copy_range(text, 4, end);
            let p = copy_range(text, end, text.len());
            Some((h, p))
        },
        _ => None,
    }
}

proof fn lemma_hex_digit_value(d: nat)
    requires
        d < 16,
    ensures
        hex_value(hex_digit(d)) == Some(d),
{
}

proof fn lemma_hex_padded_four(n: nat)
    requires
        n < 65536,
    ensures
        hex_padded(n, 4).len() == 4,
        hex4_value(hex_padded(n, 4)) == Some(n),
{
    let a = n / 4096;
    let b = (n / 256) % 16;
    let c = (n / 16) % 16;
    let d = n % 16;
    assert(n / 16 / 16 == n / 256) by (nonlinear_arith);
    assert(n / 256 / 16 == n / 4096) by (nonlinear_arith);
    assert(n / 4096 < 16) by (nonlinear_arith)
        requires n < 65536;
    assert(hex_padded(n / 4096, 1) == seq![hex_digit(a)]);
    assert(hex_padded(n / 256, 2) == seq![hex_digit(a)].push(hex_digit(b)));
    assert(hex_padded(n / 16, 3) == seq![hex_digit(a)].push(hex_digit(b)).push(hex_digit(c)));
    let s = hex_padded(n, 4);
    assert(s == seq![hex_digit(a)].push(hex_digit(b)).push(hex_digit(c)).push(hex_digit(d)));
    lemma_hex_digit_value(a);
    lemma_hex_digit_value(b);
    lemma_hex_digit_value(c);
    lemma_hex_digit_value(d);
    assert(a * 4096 + b * 256 + c * 16 + d == n) by (nonlinear_arith)
        requires
            a == n / 4096,
            b == (n / 256) % 16,
            c == (n / 16) % 16,
            d == n % 16,
            n / 16 / 16 == n / 256,
            n / 256 / 16 == n / 4096,
    ;
}

/// A receiver recovers exactly the header and the large payload (also an
/// empty one) that a sender framed, whenever the header is shorter than
/// 65536 bytes, so that its length fits the four-digit prefix.
pub proof fn frame_round_trip(header: Seq<u8>, payload: Seq<u8>)
    requires
        header.len() < 65536,
    ensures
        frame_split(frame_of(header, payload)) == Some((header, payload)),
{
    lemma_hex_padded_four(header.len());
    let t = frame_of(header, payload);
    let n = header.len();
    assert(t.subrange(0, 4) == hex_padded(n, 4));
    assert(t.subrange(4, 4 + n as int) == header);
    assert(t.subrange(4 + n as int, t.len() as int) == payload);
}

} // verus!
