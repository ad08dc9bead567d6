//! SHA-256 digests in lower-case hexadecimal.
use crate::text::{cat4, chars_of, decimal, number};
use vstd::prelude::*;
use vstd::string::*;

verus! {

/// The longest input, in bytes, whose length in bits fits 64 bits.
pub const DIGEST_INPUT_LIMIT: u64 = 0x1fff_ffff_ffff_ffff;

/// The SHA-256 digest of bytes.
pub uninterp spec fn sha256(bytes: Seq<u8>) -> Seq<u8>;

/// The SHA-256 digest of bytes, by `ring::digest::digest` with `SHA256`: a
/// function of the bytes alone, of 32 bytes. That function panics on an input
/// whose length in bits does not fit 64 bits.
#[verifier::external_body]
fn digest_bytes(bytes: &[u8]) -> (r: Vec<u8>)
    requires
        bytes@.len() <= DIGEST_INPUT_LIMIT,
    ensures
        r@ == sha256(bytes@),
        r@.len() == 32,
{
    ring::digest::digest(&ring::digest::SHA256, bytes).as_ref().to_vec()
}

/// The lower-case hexadecimal digit `d`.
pub open spec fn hex_digit(d: int) -> char {
    if d < 10 {
        (('0' as u32 + d) as u32) as char
    } else {
        (('a' as u32 + d - 10) as u32) as char
    }
}

/// Two hexadecimal digits for each byte.
pub open spec fn hex(bytes: Seq<u8>) -> Seq<char>
    decreases bytes.len(),
{
    if bytes.len() == 0 {
        Seq::empty()
    } else {
        hex(bytes.drop_last()).push(hex_digit(bytes.last() as int / 16)).push(
            hex_digit(bytes.last() as int % 16),
        )
    }
}

/// A digit or one of the letters a to f.
pub open spec fn is_lower_hex(c: char) -> bool {
    '0' <= c <= '9' || 'a' <= c <= 'f'
}

/// Whether `s` is `len` lower-case hexadecimal digits.
pub open spec fn lower_hex(s: Seq<char>, len: nat) -> bool {
    s.len() == len && forall|i: int| 0 <= i < s.len() ==> is_lower_hex(#[trigger] s[i])
}

fn hex_char(d: u8) -> (r: char)
    requires
        d < 16,
    ensures
        r == hex_digit(d as int),
{
    if d < 10 {
        (48 + d) as char
    } else {
        (97 + (d - 10)) as char
    }
}

fn hex_of(bytes: &Vec<u8>) -> (r: String)
    ensures
        r@ == hex(bytes@),
{
    let mut out: String = String::new();
    let mut i: usize = 0;
    while i < bytes.len()
        invariant
            i <= bytes@.len(),
            out@ == hex(bytes@.take(i as int)),
        decreases bytes@.len() - i,
    {
        let b: u8 = bytes[i];
        out.push(hex_char(b / 16));
        out.push(hex_char(b % 16));
        i = i + 1;
        assert(bytes@.take(i as int).drop_last() =~= bytes@.take(i - 1));
    }
    assert(bytes@.take(i as int) =~= bytes@);
    out
}

proof fn lemma_hex(bytes: Seq<u8>)
    ensures
        hex(bytes).len() == 2 * bytes.len(),
        forall|i: int| 0 <= i < hex(bytes).len() ==> is_lower_hex(#[trigger] hex(bytes)[i]),
    decreases bytes.len(),
{
    if bytes.len() > 0 {
        lemma_hex(bytes.drop_last());
        let b = bytes.last() as int;
        assert(0 <= b / 16 < 16 && 0 <= b % 16 < 16);
    }
}

/// The SHA-256 digest of the bytes, in lower-case hexadecimal.
pub fn sha256_hex(bytes: &[u8]) -> (r: String)
    requires
        bytes@.len() <= DIGEST_INPUT_LIMIT,
    ensures
        r@ == hex(sha256(bytes@)),
        lower_hex(r@, 64),
{
    let digest: Vec<u8> = digest_bytes(bytes);
    proof {
        lemma_hex(digest@);
    }
    hex_of(&digest)
}

/// Checks that a text is `expected_len` lower-case hexadecimal digits.
pub fn validate_lower_hex(label: &str, value: &str, expected_len: usize) -> (r: Result<(), String>)
    ensures
        match r {
            Ok(()) => lower_hex(value@, expected_len as nat),
            Err(e) => !lower_hex(value@, expected_len as nat) && e@ == label@ + " must be exactly "@
                + decimal(expected_len as nat) + " lowercase hexadecimal characters"@,
        },
{
    let chars: Vec<char> = chars_of(value);
    let mut ok: bool = chars.len() == expected_len;
    let mut i: usize = 0;
    while i < chars.len()
        invariant
            i <= chars@.len(),
            chars@ == value@,
            ok <==> value@.len() == expected_len && forall|k: int|
                0 <= k < i ==> is_lower_hex(#[trigger] value@[k]),
        decreases chars@.len() - i,
    {
        let c: char = chars[i];
        if !(('0' <= c && c <= '9') || ('a' <= c && c <= 'f')) {
            ok = false;
            assert(!is_lower_hex(value@[i as int]));
        }
        i = i + 1;
    }
    if ok {
        Ok(())
    } else {
        Err(
            cat4(
                label,
                " must be exactly ",
                number(expected_len as u64).as_str(),
                " lowercase hexadecimal characters",
            ),
        )
    }
}

/// A digest is accepted exactly if it has the length that is asked for and
/// nothing but digits and small letters up to f.
pub proof fn law_digests_are_written_small(
    label: &str,
    value: &str,
    len: usize,
    r: Result<(), String>,
)
    requires
        call_ensures(validate_lower_hex, (label, value, len), r),
    ensures
        r is Ok <==> value@.len() == len && forall|i: int|
            0 <= i < value@.len() ==> {
                let c = #[trigger] value@[i];
                ('0' <= c <= '9') || ('a' <= c <= 'f')
            },
{
    if r is Err && value@.len() == len {
        let i = choose|i: int| 0 <= i < value@.len() && !is_lower_hex(#[trigger] value@[i]);
        assert(!is_lower_hex(value@[i]));
    }
}

} // verus!
