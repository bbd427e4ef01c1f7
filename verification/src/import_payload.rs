//! Decoding of the base64 text in which a portfolio import file arrives as JSON.
//!
//! The decoder keeps a small bit buffer: each accepted byte adds six bits, and a
//! byte of output is emitted whenever eight or more bits are buffered. Its
//! lookup table is the standard base64 alphabet: `A`–`Z` are 0–25, `a`–`z` 26–51,
//! `0`–`9` 52–61, `+` 62 and `/` 63; every other byte is invalid.

use vstd::prelude::*;
use vstd::string::StringSliceAdditionalSpecFns;
use crate::text::string_of;

verus! {

/// ASCII whitespace as `u8::is_ascii_whitespace` documents it: space, tab,
/// line feed, form feed and carriage return.
pub open spec fn is_ascii_ws(b: u8) -> bool {
    b == 32 || b == 9 || b == 10 || b == 12 || b == 13
}

/// The value of `b` in the standard base64 alphabet; 255 marks a byte that is not in it.
pub open spec fn sextet(b: u8) -> u8 {
    if 65 <= b <= 90 {
        (b - 65) as u8
    } else if 97 <= b <= 122 {
        (b - 71) as u8
    } else if 48 <= b <= 57 {
        (b + 4) as u8
    } else if b == 43 {
        62
    } else if b == 47 {
        63
    } else {
        255
    }
}

/// Buffer after shifting in the six bits of `v`.
pub open spec fn shifted_in(buf: u32, v: u8) -> u32 {
    ((buf << 6u32) | (v as u32)) as u32
}

/// Decoding of `bytes` from bit buffer `buf` holding `bits` pending bits, with
/// `out` already emitted: whitespace is skipped, `=` ends the input, a byte outside
/// the alphabet fails.
pub open spec fn decode_from(bytes: Seq<u8>, buf: u32, bits: u32, out: Seq<u8>) -> Option<Seq<u8>>
    decreases bytes.len(),
{
    if bytes.len() == 0 {
        Some(out)
    } else {
        let b = bytes[0];
        let rest = bytes.drop_first();
        if is_ascii_ws(b) {
            decode_from(rest, buf, bits, out)
        } else if b == 61 {
            Some(out)
        } else if sextet(b) == 255 {
            None
        } else {
            let nb = shifted_in(buf, sextet(b));
            let nbits = bits + 6;
            if nbits >= 8 {
                let r = (nbits - 8) as u32;
                decode_from(rest, nb & (((1u32 << r) - 1) as u32), r, out.push((nb >> r) as u8))
            } else {
                decode_from(rest, nb, nbits as u32, out)
            }
        }
    }
}

/// What the decoder makes of the whole text: `None` when it is refused.
pub open spec fn base64_payload(bytes: Seq<u8>) -> Option<Seq<u8>> {
    decode_from(bytes, 0, 0, Seq::empty())
}

fn sextet_exec(b: u8) -> (v: u8)
    ensures
        v == sextet(b),
{
    if 65 <= b && b <= 90 {
        b - 65
    } else if 97 <= b && b <= 122 {
        b - 71
    } else if 48 <= b && b <= 57 {
        b + 4
    } else if b == 43 {
        62
    } else if b == 47 {
        63
    } else {
        255
    }
}

/// Decodes the base64 text of an uploaded import file; refuses it with
/// `"invalid base64"` when a byte before the first `=` is neither whitespace nor
/// in the base64 alphabet.
pub fn base64_decode(input: &str) -> (r: Result<Vec<u8>, String>)
    ensures
        match base64_payload(input.spec_bytes()) {
            Some(bytes) => r is Ok && r->Ok_0@ == bytes,
            None => r is Err && r->Err_0@ == "invalid base64"@,
        },
{
    let bytes = input.as_bytes();
    let ghost all = bytes@;
    let mut out: Vec<u8> = Vec::new();
    let mut buf: u32 = 0;
    let mut bits: u32 = 0;
    let mut i: usize = 0;
    assert(all.skip(0) =~= all);
    while i < bytes.len()
        invariant
            i <= bytes@.len(),
            all == bytes@,
            all == input.spec_bytes(),
            bits < 8,
            base64_payload(all) == decode_from(all.skip(i as int), buf, bits, out@),
        decreases bytes.len() - i,
    {
        let b = bytes[i];
        let ghost rest = all.skip(i as int);
        assert(rest[0] == b);
        assert(rest.drop_first() =~= all.skip(i + 1));
        if b == 32 || b == 9 || b == 10 || b == 12 || b == 13 {
            i += 1;
        } else if b == 61 {
            return Ok(out);
        } else {
            let v = sextet_exec(b);
            if v == 255 {
                return Err(string_of("invalid base64"));
            }
            buf = (buf << 6u32) | (v as u32);
            bits = bits + 6;
            if bits >= 8 {
                bits = bits - 8;
                let r = bits;
                assert((1u32 << r) >= 1) by (bit_vector)
                    requires
                        r < 8,
                ;
                out.push((buf >> bits) as u8);
                buf = buf & ((1u32 << bits) - 1);
            }
            i += 1;
        }
    }
    assert(all.skip(i as int) =~= Seq::<u8>::empty());
    Ok(out)
}

} // verus!
