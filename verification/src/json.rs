//! Byte-level emission of the JSON texts the domain signs: decimal
//! numbers, escaped strings, string arrays and the claims object of a
//! hosting token.  The emitted bytes are pinned exactly by spec
//! functions; any JSON reader decodes them back to the same values.

use vstd::prelude::*;
use vstd::utf8::encode_utf8;

verus! {

/// Decimal digits of `n` without leading zeros; empty for `n <= 0`.
pub open spec fn spec_decimal(n: int) -> Seq<u8>
    decreases n,
{
    if n <= 0 {
        Seq::empty()
    } else {
        spec_decimal(n / 10) + seq![(48 + n % 10) as u8]
    }
}

/// Decimal digits of `n`, `"0"` included; meaningful for `n >= 0`.
pub open spec fn spec_chiffres(n: int) -> Seq<u8> {
    if n == 0 {
        seq![48u8]
    } else {
        spec_decimal(n)
    }
}

/// Appends the decimal digits of a positive number.
fn ajouter_decimal(sortie: &mut Vec<u8>, n: i64)
    requires
        n > 0,
    ensures
        final(sortie)@ == old(sortie)@ + spec_decimal(n as int),
    decreases n,
{
    let ghost debut = sortie@;
    if n >= 10 {
        ajouter_decimal(sortie, n / 10);
    }
    let ghost milieu = sortie@;
    sortie.push((48 + (n % 10)) as u8);
    proof {
        assert((n / 10) as int == n as int / 10);
        assert((n % 10) as int == n as int % 10);
        if n >= 10 {
            assert(milieu == debut + spec_decimal(n as int / 10));
        } else {
            assert(spec_decimal(n as int / 10) == Seq::<u8>::empty());
            assert(milieu =~= debut + spec_decimal(n as int / 10));
        }
        assert(sortie@ =~= milieu + seq![(48 + n as int % 10) as u8]);
        assert(sortie@ =~= debut + spec_decimal(n as int));
    }
}

/// Appends the decimal digits of `n`.
pub fn ajouter_chiffres(sortie: &mut Vec<u8>, n: i64)
    requires
        n >= 0,
    ensures
        final(sortie)@ == old(sortie)@ + spec_chiffres(n as int),
{
    if n == 0 {
        sortie.push(48);
        proof {
            assert(sortie@ =~= old(sortie)@ + spec_chiffres(0));
        }
    } else {
        ajouter_decimal(sortie, n);
    }
}

/// Hexadecimal digit of a value below 16, lower case.
pub open spec fn spec_hex(v: u8) -> u8 {
    if v < 10 {
        (48 + v) as u8
    } else {
        (87 + v) as u8
    }
}

/// JSON escape of one byte of a UTF-8 string: quote and backslash get a
/// backslash, control bytes become `\u00..`, and every other byte (the
/// continuation bytes of multi-byte characters included) stands as is.
pub open spec fn spec_echappe_octet(b: u8) -> Seq<u8> {
    if b == 34 {
        seq![92u8, 34u8]
    } else if b == 92 {
        seq![92u8, 92u8]
    } else if b < 32 {
        seq![92u8, 117u8, 48u8, 48u8, spec_hex(b / 16), spec_hex(b % 16)]
    } else {
        seq![b]
    }
}

/// JSON escape of a UTF-8 byte string.
pub open spec fn spec_echappe(s: Seq<u8>) -> Seq<u8>
    decreases s.len(),
{
    if s.len() == 0 {
        Seq::empty()
    } else {
        spec_echappe(s.drop_last()) + spec_echappe_octet(s.last())
    }
}

/// Appends the bytes of `octets`.
pub fn ajouter_octets(sortie: &mut Vec<u8>, octets: &[u8])
    ensures
        final(sortie)@ == old(sortie)@ + octets@,
{
    sortie.extend_from_slice(octets);
    proof {
        assert(sortie@ =~= old(sortie)@ + octets@);
    }
}

/// Appends the UTF-8 bytes of `texte`.
pub fn ajouter_litteral(sortie: &mut Vec<u8>, texte: &str)
    ensures
        final(sortie)@ == old(sortie)@ + encode_utf8(texte@),
{
    ajouter_octets(sortie, texte.as_bytes());
}

/// Appends the JSON escape of the UTF-8 bytes of `texte`.
pub fn ajouter_echappe(sortie: &mut Vec<u8>, texte: &str)
    ensures
        final(sortie)@ == old(sortie)@ + spec_echappe(encode_utf8(texte@)),
{
    let octets = texte.as_bytes();
    let mut i: usize = 0;
    while i < octets.len()
        invariant
            i <= octets@.len(),
            sortie@ == old(sortie)@ + spec_echappe(octets@.take(i as int)),
        decreases octets@.len() - i,
    {
        let b = octets[i];
        if b == 34 {
            sortie.push(92);
            sortie.push(34);
        } else if b == 92 {
            sortie.push(92);
            sortie.push(92);
        } else if b < 32 {
            sortie.push(92);
            sortie.push(117);
            sortie.push(48);
            sortie.push(48);
            let haut = b / 16;
            let bas = b % 16;
            sortie.push(if haut < 10 { 48 + haut } else { 87 + haut });
            sortie.push(if bas < 10 { 48 + bas } else { 87 + bas });
        } else {
            sortie.push(b);
        }
        proof {
            assert(octets@.take(i + 1 as int).drop_last() =~= octets@.take(i as int));
            assert(octets@.take(i + 1 as int).last() == octets@[i as int]);
            assert(sortie@ =~= old(sortie)@ + spec_echappe(octets@.take(i + 1 as int)));
        }
        i = i + 1;
    }
    proof {
        assert(octets@.take(octets@.len() as int) =~= octets@);
    }
}

/// A JSON string: quoted, escaped content.
pub open spec fn spec_chaine_json(s: Seq<char>) -> Seq<u8> {
    seq![34u8] + spec_echappe(encode_utf8(s)) + seq![34u8]
}

/// The comma-separated JSON strings of `chaines`.
pub open spec fn spec_elements_json(chaines: Seq<Seq<char>>) -> Seq<u8>
    decreases chaines.len(),
{
    if chaines.len() == 0 {
        Seq::empty()
    } else if chaines.len() == 1 {
        spec_chaine_json(chaines[0])
    } else {
        spec_elements_json(chaines.drop_last()) + seq![44u8] + spec_chaine_json(chaines.last())
    }
}

/// A JSON array of strings.
pub open spec fn spec_tableau_json(chaines: Seq<Seq<char>>) -> Seq<u8> {
    seq![91u8] + spec_elements_json(chaines) + seq![93u8]
}

/// Appends a JSON string.
pub fn ajouter_chaine_json(sortie: &mut Vec<u8>, texte: &str)
    ensures
        final(sortie)@ == old(sortie)@ + spec_chaine_json(texte@),
{
    sortie.push(34);
    ajouter_echappe(sortie, texte);
    sortie.push(34);
    proof {
        assert(sortie@ =~= old(sortie)@ + spec_chaine_json(texte@));
    }
}

/// Appends a JSON array of strings.
pub fn ajouter_tableau_json(sortie: &mut Vec<u8>, chaines: &Vec<String>)
    ensures
        final(sortie)@ == old(sortie)@ + spec_tableau_json(chaines.deep_view()),
{
    sortie.push(91);
    let mut i: usize = 0;
    while i < chaines.len()
        invariant
            i <= chaines@.len(),
            chaines.deep_view().len() == chaines@.len(),
            sortie@ == old(sortie)@ + seq![91u8] + spec_elements_json(
                chaines.deep_view().take(i as int),
            ),
        decreases chaines@.len() - i,
    {
        if i > 0 {
            sortie.push(44);
        }
        ajouter_chaine_json(sortie, chaines[i].as_str());
        proof {
            let elements = chaines.deep_view();
            assert(elements.take(i + 1 as int).drop_last() =~= elements.take(i as int));
            assert(elements.take(i + 1 as int).last() == chaines@[i as int]@);
            assert(sortie@ =~= old(sortie)@ + seq![91u8] + spec_elements_json(
                elements.take(i + 1 as int),
            ));
        }
        i = i + 1;
    }
    sortie.push(93);
    proof {
        assert(chaines.deep_view().take(chaines.deep_view().len() as int) =~= chaines.deep_view());
        assert(sortie@ =~= old(sortie)@ + spec_tableau_json(chaines.deep_view()));
    }
}

} // verus!
