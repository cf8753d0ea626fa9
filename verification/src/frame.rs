//! Native messaging frames: a 4-byte length in the machine's byte order, then the
//! message body.
use vstd::prelude::*;
use vstd::endian::{Endian, endianness};

verus! {

/// The four bytes of `n`, least significant first.
pub open spec fn le_bytes(n: u32) -> Seq<u8> {
    seq![(n & 0xff) as u8, ((n >> 8u32) & 0xff) as u8, ((n >> 16u32) & 0xff) as u8, ((n >> 24u32) & 0xff) as u8]
}

/// The four bytes of `n` in the given byte order.
pub open spec fn prefix_bytes(n: u32, little_endian: bool) -> Seq<u8> {
    if little_endian {
        le_bytes(n)
    } else {
        le_bytes(n).reverse()
    }
}

/// The number that four bytes, least significant first, stand for.
pub open spec fn le_value(b0: u8, b1: u8, b2: u8, b3: u8) -> u32 {
    (b0 as u32) | ((b1 as u32) << 8u32) | ((b2 as u32) << 16u32) | ((b3 as u32) << 24u32)
}

/// The length a frame header gives, read in the given byte order.
pub open spec fn prefix_value(h: Seq<u8>, little_endian: bool) -> u32 {
    if little_endian {
        le_value(h[0], h[1], h[2], h[3])
    } else {
        le_value(h[3], h[2], h[1], h[0])
    }
}

/// A frame holding `body`.
pub open spec fn framed(body: Seq<u8>, little_endian: bool) -> Seq<u8> {
    prefix_bytes(body.len() as u32, little_endian) + body
}

/// The bytes of the number one as a `u16` in the byte order of the hardware
/// (`endianness()`): least significant first on a little-endian machine.
pub open spec fn native_one_bytes() -> Seq<u8> {
    match endianness() {
        Endian::Little => seq![1u8, 0u8],
        Endian::Big => seq![0u8, 1u8],
    }
}

/// `u16::to_ne_bytes(1)`: the bytes of one in the machine's native byte order,
/// `[1, 0]` on a little-endian machine and `[0, 1]` on a big-endian one.
#[verifier::external_body]
fn native_bytes_of_one() -> (r: [u8; 2])
    ensures
        r@ == native_one_bytes(),
{
    1u16.to_ne_bytes()
}

/// Whether this machine stores the least significant byte first.
pub fn native_is_little_endian() -> (r: bool)
    ensures
        r == (endianness() is Little),
{
    let b = native_bytes_of_one();
    b[0] == 1
}

proof fn lemma_byte_round_trip(n: u32)
    ensures
        le_value(
            (n & 0xff) as u8,
            ((n >> 8u32) & 0xff) as u8,
            ((n >> 16u32) & 0xff) as u8,
            ((n >> 24u32) & 0xff) as u8,
        ) == n,
{
    assert(((n & 0xff) as u8 as u32) | ((((n >> 8u32) & 0xff) as u8 as u32) << 8u32) | ((((n
        >> 16u32) & 0xff) as u8 as u32) << 16u32) | ((((n >> 24u32) & 0xff) as u8 as u32) << 24u32)
        == n) by (bit_vector);
}

/// Writes a frame for `body`; a body longer than a 4-byte length can give is refused.
pub fn encode_frame(body: &[u8], little_endian: bool) -> (r: Result<Vec<u8>, String>)
    ensures
        match r {
            Ok(f) => body@.len() <= u32::MAX && f@ == framed(body@, little_endian),
            Err(e) => body@.len() > u32::MAX && e@ == "message too large for 4-byte length prefix"@,
        },
{
    if body.len() as u64 > u32::MAX as u64 {
        return Err(String::from_str("message too large for 4-byte length prefix"));
    }
    let n = body.len() as u32;
    let b0 = (n & 0xff) as u8;
    let b1 = ((n >> 8u32) & 0xff) as u8;
    let b2 = ((n >> 16u32) & 0xff) as u8;
    let b3 = ((n >> 24u32) & 0xff) as u8;
    let mut f: Vec<u8> = Vec::new();
    if little_endian {
        f.push(b0);
        f.push(b1);
        f.push(b2);
        f.push(b3);
    } else {
        f.push(b3);
        f.push(b2);
        f.push(b1);
        f.push(b0);
    }
    proof {
        assert(f@ =~= prefix_bytes(n, little_endian));
    }
    let mut i: usize = 0;
    while i < body.len()
        invariant
            i <= body.len(),
            f@ == prefix_bytes(n, little_endian) + body@.take(i as int),
        decreases body.len() - i,
    {
        f.push(body[i]);
        assert(body@.take(i + 1) =~= body@.take(i as int).push(body@[i as int]));
        assert(prefix_bytes(n, little_endian) + body@.take(i + 1) =~= (prefix_bytes(n, little_endian)
            + body@.take(i as int)).push(body@[i as int]));
        i = i + 1;
    }
    assert(body@.take(body.len() as int) =~= body@);
    Ok(f)
}

/// The body length a frame header announces.
pub fn frame_length(header: &[u8; 4], little_endian: bool) -> (r: u32)
    ensures
        r == prefix_value(header@, little_endian),
{
    if little_endian {
        (header[0] as u32) | ((header[1] as u32) << 8u32) | ((header[2] as u32) << 16u32) | ((
        header[3] as u32) << 24u32)
    } else {
        (header[3] as u32) | ((header[2] as u32) << 8u32) | ((header[1] as u32) << 16u32) | ((
        header[0] as u32) << 24u32)
    }
}

/// Reading back a frame that was written in the same byte order gives the body's
/// length from its first four bytes, and the body after them.
pub proof fn law_frame_round_trip(body: Seq<u8>, little_endian: bool)
    requires
        body.len() <= u32::MAX,
    ensures
        framed(body, little_endian).len() == body.len() + 4,
        prefix_value(framed(body, little_endian).take(4), little_endian) == body.len(),
        framed(body, little_endian).skip(4) == body,
{
    let n = body.len() as u32;
    let f = framed(body, little_endian);
    lemma_byte_round_trip(n);
    assert(f.skip(4) =~= body);
    assert(f.take(4) =~= prefix_bytes(n, little_endian));
}

} // verus!
