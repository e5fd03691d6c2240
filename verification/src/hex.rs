//! Lowercase-hex encoding and decoding of byte strings, verified against a
//! character-level specification.
//!
//! Public keys, shared secrets and transport nonces all cross the wire in
//! this encoding; decoding accepts either letter case and fails closed on
//! any other character or an odd-length input.
use vstd::prelude::*;
use vstd::string::StrSliceExecFns;

verus! {

/// Lowercase hex digit character of a nibble value.
pub open spec fn hex_char_of(n: u8) -> char {
    if n == 0 {
        '0'
    } else if n == 1 {
        '1'
    } else if n == 2 {
        '2'
    } else if n == 3 {
        '3'
    } else if n == 4 {
        '4'
    } else if n == 5 {
        '5'
    } else if n == 6 {
        '6'
    } else if n == 7 {
        '7'
    } else if n == 8 {
        '8'
    } else if n == 9 {
        '9'
    } else if n == 10 {
        'a'
    } else if n == 11 {
        'b'
    } else if n == 12 {
        'c'
    } else if n == 13 {
        'd'
    } else if n == 14 {
        'e'
    } else {
        'f'
    }
}

/// Numeric value of a hex digit character, accepting both letter cases;
/// `None` for every character that is not a hex digit.
pub open spec fn hex_val_of(c: char) -> Option<u8> {
    if c == '0' {
        Some(0u8)
    } else if c == '1' {
        Some(1u8)
    } else if c == '2' {
        Some(2u8)
    } else if c == '3' {
        Some(3u8)
    } else if c == '4' {
        Some(4u8)
    } else if c == '5' {
        Some(5u8)
    } else if c == '6' {
        Some(6u8)
    } else if c == '7' {
        Some(7u8)
    } else if c == '8' {
        Some(8u8)
    } else if c == '9' {
        Some(9u8)
    } else if c == 'a' || c == 'A' {
        Some(10u8)
    } else if c == 'b' || c == 'B' {
        Some(11u8)
    } else if c == 'c' || c == 'C' {
        Some(12u8)
    } else if c == 'd' || c == 'D' {
        Some(13u8)
    } else if c == 'e' || c == 'E' {
        Some(14u8)
    } else if c == 'f' || c == 'F' {
        Some(15u8)
    } else {
        None
    }
}

/// Lowercase-hex encoding of a byte string: two digit characters per byte,
/// high nibble first.
pub open spec fn hex_encoding(bytes: Seq<u8>) -> Seq<char>
    decreases bytes.len(),
{
    if bytes.len() == 0 {
        Seq::<char>::empty()
    } else {
        hex_encoding(bytes.drop_last()) + seq![
            hex_char_of((bytes.last() / 16) as u8),
            hex_char_of((bytes.last() % 16) as u8),
        ]
    }
}

/// Bytes denoted by a hex character string: `None` on odd length or on any
/// character that is not a hex digit.
pub open spec fn hex_decoding(s: Seq<char>) -> Option<Seq<u8>>
    decreases s.len(),
{
    if s.len() % 2 != 0 {
        None
    } else if s.len() == 0 {
        Some(Seq::<u8>::empty())
    } else {
        match (
            hex_decoding(s.drop_last().drop_last()),
            hex_val_of(s[s.len() - 2]),
            hex_val_of(s[s.len() - 1]),
        ) {
            (Some(pre), Some(hi), Some(lo)) => Some(pre.push((hi * 16 + lo) as u8)),
            _ => None,
        }
    }
}

/// The byte view of an optional byte vector, for stating decoder contracts.
pub open spec fn opt_bytes_view(r: Option<Vec<u8>>) -> Option<Seq<u8>> {
    match r {
        Some(v) => Some(v@),
        None => None,
    }
}

/// An encoding is twice as long as the bytes it encodes.
pub proof fn lemma_hex_encoding_len(bytes: Seq<u8>)
    ensures
        hex_encoding(bytes).len() == 2 * bytes.len(),
    decreases bytes.len(),
{
    if bytes.len() > 0 {
        lemma_hex_encoding_len(bytes.drop_last());
    }
}

/// A nibble value survives the round trip through its digit character.
pub proof fn lemma_hex_char_val(n: u8)
    requires
        n < 16,
    ensures
        hex_val_of(hex_char_of(n)) == Some(n),
{
}

/// Decoding inverts encoding: every byte string is recovered exactly from
/// its lowercase-hex encoding.
pub proof fn lemma_hex_round_trip(bytes: Seq<u8>)
    ensures
        hex_decoding(hex_encoding(bytes)) == Some(bytes),
    decreases bytes.len(),
{
    lemma_hex_encoding_len(bytes);
    if bytes.len() > 0 {
        lemma_hex_round_trip(bytes.drop_last());
        lemma_hex_encoding_len(bytes.drop_last());
        let s = hex_encoding(bytes);
        let hi = (bytes.last() / 16) as u8;
        let lo = (bytes.last() % 16) as u8;
        lemma_hex_char_val(hi);
        lemma_hex_char_val(lo);
        assert(s.drop_last().drop_last() =~= hex_encoding(bytes.drop_last()));
        assert(s[s.len() - 2] == hex_char_of(hi));
        assert(s[s.len() - 1] == hex_char_of(lo));
        assert(hi * 16 + lo == bytes.last());
        assert(bytes.drop_last().push(bytes.last()) =~= bytes);
    }
}

/// A string with a non-digit character anywhere decodes to nothing.
pub proof fn lemma_hex_decoding_bad_char(s: Seq<char>, i: int)
    requires
        0 <= i < s.len(),
        hex_val_of(s[i]) is None,
    ensures
        hex_decoding(s) is None,
    decreases s.len(),
{
    if s.len() % 2 == 0 && s.len() > 0 && i < s.len() - 2 {
        assert(s.drop_last().drop_last()[i] == s[i]);
        lemma_hex_decoding_bad_char(s.drop_last().drop_last(), i);
    }
}

/// Appends one character to a string.
///
/// Relies on `String::push`, which appends exactly the given character.
#[verifier::external_body]
pub(crate) fn push_char(s: &mut String, c: char)
    ensures
        final(s)@ == old(s)@.push(c),
{
    s.push(c);
}

/// Hex digit character of a nibble, as executable code.
fn hex_char(n: u8) -> (c: char)
    requires
        n < 16,
    ensures
        c == hex_char_of(n),
{
    match n {
        0 => '0',
        1 => '1',
        2 => '2',
        3 => '3',
        4 => '4',
        5 => '5',
        6 => '6',
        7 => '7',
        8 => '8',
        9 => '9',
        10 => 'a',
        11 => 'b',
        12 => 'c',
        13 => 'd',
        14 => 'e',
        _ => 'f',
    }
}

/// Value of a hex digit character, as executable code.
fn hex_val(c: char) -> (r: Option<u8>)
    ensures
        r == hex_val_of(c),
{
    let code = c as u32;
    if 48 <= code && code <= 57 {
        Some((code - 48) as u8)
    } else if 97 <= code && code <= 102 {
        Some((code - 87) as u8)
    } else if 65 <= code && code <= 70 {
        Some((code - 55) as u8)
    } else {
        None
    }
}

/// Encodes a byte string as lowercase hex.
pub fn encode_lower(bytes: &[u8]) -> (r: String)
    ensures
        r@ == hex_encoding(bytes@),
        r@.len() == 2 * bytes@.len(),
{
    let mut out = String::new();
    let n = bytes.len();
    proof {
        assert(bytes@.take(0) =~= Seq::<u8>::empty());
    }
    for i in 0..n
        invariant
            n == bytes@.len(),
            out@ == hex_encoding(bytes@.take(i as int)),
            out@.len() == 2 * i,
    {
        let b = bytes[i];
        proof {
            lemma_hex_encoding_len(bytes@.take(i as int));
        }
        push_char(&mut out, hex_char(b / 16));
        push_char(&mut out, hex_char(b % 16));
        proof {
            assert(bytes@.take(i + 1).drop_last() =~= bytes@.take(i as int));
            assert(bytes@.take(i + 1).last() == bytes@[i as int]);
            assert(out@ =~= hex_encoding(bytes@.take(i + 1)));
        }
    }
    proof {
        assert(bytes@.take(n as int) =~= bytes@);
        lemma_hex_encoding_len(bytes@);
    }
    out
}

/// Decodes a hex character string; fails closed on odd length or any
/// non-digit character.
pub fn decode(s: &str) -> (r: Option<Vec<u8>>)
    ensures
        opt_bytes_view(r) == hex_decoding(s@),
{
    let n = s.unicode_len();
    if n % 2 != 0 {
        proof {
            assert(hex_decoding(s@) is None);
        }
        return None;
    }
    let mut out: Vec<u8> = Vec::new();
    let mut i: usize = 0;
    proof {
        assert(s@.take(0) =~= Seq::<char>::empty());
    }
    while i < n
        invariant
            n == s@.len(),
            n % 2 == 0,
            i % 2 == 0,
            i <= n,
            hex_decoding(s@.take(i as int)) == Some(out@),
            out@.len() == i / 2,
        decreases n - i,
    {
        let c_hi = s.get_char(i);
        let c_lo = s.get_char(i + 1);
        let hi = match hex_val(c_hi) {
            Some(v) => v,
            None => {
                proof {
                    lemma_hex_decoding_bad_char(s@, i as int);
                }
                return None;
            },
        };
        let lo = match hex_val(c_lo) {
            Some(v) => v,
            None => {
                proof {
                    lemma_hex_decoding_bad_char(s@, i + 1);
                }
                return None;
            },
        };
        out.push(hi * 16 + lo);
        proof {
            assert(s@.take(i + 2).drop_last().drop_last() =~= s@.take(i as int));
            assert(s@.take(i + 2)[i + 2 - 2] == s@[i as int]);
            assert(s@.take(i + 2)[i + 2 - 1] == s@[i + 1]);
        }
        i = i + 2;
    }
    proof {
        assert(s@.take(n as int) =~= s@);
    }
    Some(out)
}

} // verus!
