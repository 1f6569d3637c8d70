//! URL-safe base64 without padding, as token segments use it: 6-bit
//! groups mapped to `A`..`Z`, `a`..`z`, `0`..`9`, `-`, `_`, with 2 or 3
//! trailing characters for a 1- or 2-byte remainder and no `=` filler.

use vstd::prelude::*;

verus! {

/// The alphabet byte of a 6-bit value.
pub open spec fn spec_b64_car(v: u8) -> u8 {
    if v < 26 {
        (65 + v) as u8
    } else if v < 52 {
        (71 + v) as u8
    } else if v < 62 {
        (v - 4) as u8
    } else if v == 62 {
        45u8
    } else {
        95u8
    }
}

/// The url-safe, unpadded base64 encoding of `s`.
pub open spec fn spec_base64url(s: Seq<u8>) -> Seq<u8>
    decreases s.len(),
{
    if s.len() == 0 {
        Seq::empty()
    } else if s.len() == 1 {
        let b0 = s[0];
        seq![spec_b64_car((b0 / 4) as u8), spec_b64_car(((b0 % 4) * 16) as u8)]
    } else if s.len() == 2 {
        let b0 = s[0];
        let b1 = s[1];
        seq![
            spec_b64_car((b0 / 4) as u8),
            spec_b64_car(((b0 % 4) * 16 + b1 / 16) as u8),
            spec_b64_car(((b1 % 16) * 4) as u8),
        ]
    } else {
        let b0 = s[0];
        let b1 = s[1];
        let b2 = s[2];
        seq![
            spec_b64_car((b0 / 4) as u8),
            spec_b64_car(((b0 % 4) * 16 + b1 / 16) as u8),
            spec_b64_car(((b1 % 16) * 4 + b2 / 64) as u8),
            spec_b64_car((b2 % 64) as u8),
        ] + spec_base64url(s.skip(3))
    }
}

/// Executable alphabet byte; always a printable ASCII byte.
pub fn octet_base64url(v: u8) -> (r: u8)
    requires
        v < 64,
    ensures
        r == spec_b64_car(v),
        r < 128,
{
    if v < 26 {
        65 + v
    } else if v < 52 {
        71 + v
    } else if v < 62 {
        v - 4
    } else if v == 62 {
        45
    } else {
        95
    }
}

/// Executable url-safe, unpadded base64 encoding.
pub fn encoder_base64url(octets: &Vec<u8>) -> (r: Vec<u8>)
    ensures
        r@ == spec_base64url(octets@),
        forall|i: int| 0 <= i < r@.len() ==> r@[i] < 128,
{
    let mut sortie: Vec<u8> = Vec::new();
    let mut i: usize = 0;
    proof {
        assert(octets@.skip(0) =~= octets@);
        assert(Seq::<u8>::empty() + spec_base64url(octets@) =~= spec_base64url(octets@));
    }
    while octets.len() - i >= 3
        invariant
            i <= octets@.len(),
            sortie@ + spec_base64url(octets@.skip(i as int)) == spec_base64url(octets@),
            forall|k: int| 0 <= k < sortie@.len() ==> sortie@[k] < 128,
        decreases octets@.len() - i,
    {
        let ghost avant = sortie@;
        let b0 = octets[i];
        let b1 = octets[i + 1];
        let b2 = octets[i + 2];
        sortie.push(octet_base64url(b0 / 4));
        sortie.push(octet_base64url((b0 % 4) * 16 + b1 / 16));
        sortie.push(octet_base64url((b1 % 16) * 4 + b2 / 64));
        sortie.push(octet_base64url(b2 % 64));
        proof {
            let reste = octets@.skip(i as int);
            assert(reste[0] == b0 && reste[1] == b1 && reste[2] == b2);
            assert(reste.skip(3) =~= octets@.skip(i + 3 as int));
            assert(sortie@ =~= avant + seq![
                spec_b64_car((b0 / 4) as u8),
                spec_b64_car(((b0 % 4) * 16 + b1 / 16) as u8),
                spec_b64_car(((b1 % 16) * 4 + b2 / 64) as u8),
                spec_b64_car((b2 % 64) as u8),
            ]);
            assert(sortie@ + spec_base64url(octets@.skip(i + 3 as int)) =~= avant + spec_base64url(
                reste,
            ));
        }
        i = i + 3;
    }
    let ghost avant = sortie@;
    let ghost reste = octets@.skip(i as int);
    if octets.len() - i == 1 {
        let b0 = octets[i];
        sortie.push(octet_base64url(b0 / 4));
        sortie.push(octet_base64url((b0 % 4) * 16));
        proof {
            assert(reste.len() == 1 && reste[0] == b0);
            assert(sortie@ =~= avant + spec_base64url(reste));
        }
    } else if octets.len() - i == 2 {
        let b0 = octets[i];
        let b1 = octets[i + 1];
        sortie.push(octet_base64url(b0 / 4));
        sortie.push(octet_base64url((b0 % 4) * 16 + b1 / 16));
        sortie.push(octet_base64url((b1 % 16) * 4));
        proof {
            assert(reste.len() == 2 && reste[0] == b0 && reste[1] == b1);
            assert(sortie@ =~= avant + spec_base64url(reste));
        }
    } else {
        proof {
            assert(reste.len() == 0);
            assert(sortie@ =~= avant + spec_base64url(reste));
        }
    }
    sortie
}

} // verus!
