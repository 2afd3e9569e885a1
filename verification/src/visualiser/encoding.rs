//! Base64 encoding for VTK binary payloads.
//!
//! A minimal base64 encoder sufficient for the binary data blocks of VTK
//! XML output. The encoder works on bytes and returns the ASCII bytes of
//! the encoding.

use vstd::prelude::*;

verus! {

/// The base64 alphabet: the ASCII byte encoding the 6-bit value `v`.
pub open spec fn b64_byte_of(v: u8) -> u8 {
    if v < 26 {
        (v + 65) as u8  // 'A'..='Z'
    } else if v < 52 {
        (v + 71) as u8  // 'a'..='z'
    } else if v < 62 {
        (v - 4) as u8  // '0'..='9'
    } else if v == 62 {
        43  // '+'
    } else {
        47  // '/'
    }
}

/// The four ASCII bytes encoding one full group of three input bytes.
pub open spec fn b64_group3(b1: u8, b2: u8, b3: u8) -> Seq<u8> {
    seq![
        b64_byte_of(b1 >> 2),
        b64_byte_of(((b1 & 0x03) << 4) | (b2 >> 4)),
        b64_byte_of(((b2 & 0x0f) << 2) | (b3 >> 6)),
        b64_byte_of(b3 & 0x3f),
    ]
}

/// The four ASCII bytes encoding a trailing group of two input bytes.
pub open spec fn b64_group2(b1: u8, b2: u8) -> Seq<u8> {
    seq![
        b64_byte_of(b1 >> 2),
        b64_byte_of(((b1 & 0x03) << 4) | (b2 >> 4)),
        b64_byte_of((b2 & 0x0f) << 2),
        61,
    ]
}

/// The four ASCII bytes encoding a trailing group of one input byte.
pub open spec fn b64_group1(b1: u8) -> Seq<u8> {
    seq![b64_byte_of(b1 >> 2), b64_byte_of((b1 & 0x03) << 4), 61, 61]
}

/// The base64 encoding of a byte sequence: full groups of three bytes, then
/// a padded trailing group when one or two bytes remain.
pub open spec fn base64_of(data: Seq<u8>) -> Seq<u8>
    decreases data.len(),
{
    if data.len() == 0 {
        Seq::<u8>::empty()
    } else if data.len() == 1 {
        b64_group1(data[0])
    } else if data.len() == 2 {
        b64_group2(data[0], data[1])
    } else {
        b64_group3(data[0], data[1], data[2]) + base64_of(data.skip(3))
    }
}

/// Returns the ASCII byte encoding the 6-bit value `v`.
fn b64_byte(v: u8) -> (r: u8)
    ensures
        r == b64_byte_of(v),
{
    if v < 26 {
        v + 65
    } else if v < 52 {
        v + 71
    } else if v < 62 {
        v - 4
    } else if v == 62 {
        43
    } else {
        47
    }
}

/// Encodes binary data to base64, returning the ASCII bytes of the
/// encoding.
pub fn encode(data: &[u8]) -> (r: Vec<u8>)
    ensures
        r@ == base64_of(data@),
{
    let mut result: Vec<u8> = Vec::new();
    let n = data.len();
    let mut i: usize = 0;
    proof {
        assert(data@.skip(0) =~= data@);
    }
    while n - i >= 3
        invariant
            i <= n,
            n as nat == data@.len(),
            base64_of(data@) == result@ + base64_of(data@.skip(i as int)),
        decreases n - i,
    {
        let b1 = data[i];
        let b2 = data[i + 1];
        let b3 = data[i + 2];
        let ghost rest = data@.skip(i as int);
        result.push(b64_byte(b1 >> 2));
        result.push(b64_byte(((b1 & 0x03) << 4) | (b2 >> 4)));
        result.push(b64_byte(((b2 & 0x0f) << 2) | (b3 >> 6)));
        result.push(b64_byte(b3 & 0x3f));
        i += 3;
        proof {
            assert(rest[0] == b1 && rest[1] == b2 && rest[2] == b3);
            assert(rest.skip(3) =~= data@.skip(i as int));
            assert(base64_of(rest) == b64_group3(b1, b2, b3) + base64_of(data@.skip(i as int)));
            assert(base64_of(data@) =~= result@ + base64_of(data@.skip(i as int)));
        }
    }
    // Handle the remaining zero, one or two bytes.
    let ghost rest = data@.skip(i as int);
    if n - i == 1 {
        let b1 = data[i];
        result.push(b64_byte(b1 >> 2));
        result.push(b64_byte((b1 & 0x03) << 4));
        result.push(61);
        result.push(61);
        proof {
            assert(rest[0] == b1);
            assert(base64_of(data@) =~= result@);
        }
    } else if n - i == 2 {
        let b1 = data[i];
        let b2 = data[i + 1];
        result.push(b64_byte(b1 >> 2));
        result.push(b64_byte(((b1 & 0x03) << 4) | (b2 >> 4)));
        result.push(b64_byte((b2 & 0x0f) << 2));
        result.push(61);
        proof {
            assert(rest[0] == b1 && rest[1] == b2);
            assert(base64_of(data@) =~= result@);
        }
    } else {
        proof {
            assert(rest =~= Seq::<u8>::empty());
            assert(base64_of(data@) =~= result@);
        }
    }
    result
}

} // verus!
