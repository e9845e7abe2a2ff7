//! The authentication token as it travels in a header: 32 bytes, written as
//! 64 lower-case hexadecimal digits.
//!
//! Deriving the token from the shared secret is the caller's business; this
//! module carries, prints, reads and compares tokens.

use vstd::prelude::*;

verus! {

pub const TOKEN_LEN: usize = 32;

/// The lower-case digit of a value below sixteen.
pub open spec fn lower_hex_digit(n: nat) -> char {
    if n < 10 {
        ('0' as nat + n) as char
    } else {
        ('a' as nat + n - 10) as char
    }
}

/// Two lower-case digits for each byte, the high half first.
pub open spec fn hex_text(bytes: Seq<u8>) -> Seq<char> {
    Seq::new(
        2 * bytes.len(),
        |i: int|
            if i % 2 == 0 {
                lower_hex_digit(bytes[i / 2] as nat / 16)
            } else {
                lower_hex_digit(bytes[i / 2] as nat % 16)
            },
    )
}

/// The value of a hexadecimal digit of either case.
pub open spec fn hex_digit_value(c: char) -> Option<nat> {
    if '0' <= c <= '9' {
        Some((c as nat - '0' as nat) as nat)
    } else if 'a' <= c <= 'f' {
        Some((c as nat - 'a' as nat + 10) as nat)
    } else if 'A' <= c <= 'F' {
        Some((c as nat - 'A' as nat + 10) as nat)
    } else {
        None
    }
}

/// An even number of hexadecimal digits and nothing else.
pub open spec fn is_hex_text(s: Seq<char>) -> bool {
    &&& s.len() % 2 == 0
    &&& forall|i: int| 0 <= i < s.len() ==> hex_digit_value(#[trigger] s[i]) is Some
}

/// The bytes that hexadecimal text denotes.
pub open spec fn hex_bytes(s: Seq<char>) -> Seq<u8> {
    Seq::new(
        s.len() / 2,
        |i: int| (16 * hex_digit_value(s[2 * i])->0 + hex_digit_value(s[2 * i + 1])->0) as u8,
    )
}

/// `hex::encode`: every byte becomes two lower-case hexadecimal digits, the
/// high four bits first.
#[verifier::external_body]
fn hex_encode(bytes: &[u8]) -> (s: String)
    ensures
        s@ == hex_text(bytes@),
{
    hex::encode(bytes)
}

/// `hex::decode`: succeeds exactly on an even number of hexadecimal digits of
/// either case, and then gives one byte for each pair, the first digit being
/// the high four bits.
#[verifier::external_body]
fn hex_decode(s: &str) -> (r: Option<Vec<u8>>)
    ensures
        r is Some <==> is_hex_text(s@),
        r matches Some(v) ==> v@ == hex_bytes(s@),
{
    hex::decode(s).ok()
}

/// Reading back what was written gives the bytes.
pub proof fn lemma_hex_round_trip(bytes: Seq<u8>)
    ensures
        is_hex_text(hex_text(bytes)),
        hex_bytes(hex_text(bytes)) == bytes,
{
    let t = hex_text(bytes);
    assert forall|i: int| 0 <= i < t.len() implies hex_digit_value(#[trigger] t[i]) is Some by {
        lemma_lower_hex_digit(bytes[i / 2] as nat / 16);
        lemma_lower_hex_digit(bytes[i / 2] as nat % 16);
    }
    assert forall|i: int| 0 <= i < bytes.len() implies hex_bytes(t)[i] == bytes[i] by {
        lemma_lower_hex_digit(bytes[i] as nat / 16);
        lemma_lower_hex_digit(bytes[i] as nat % 16);
        assert(t[2 * i] == lower_hex_digit(bytes[i] as nat / 16));
        assert(t[2 * i + 1] == lower_hex_digit(bytes[i] as nat % 16));
    }
    assert(hex_bytes(t) =~= bytes);
}

proof fn lemma_lower_hex_digit(n: nat)
    requires
        n < 16,
    ensures
        hex_digit_value(lower_hex_digit(n)) == Some(n),
{
}

/// A 32-byte authentication token.
#[derive(Debug, Clone, Copy)]
pub struct AuthToken {
    bytes: [u8; 32],
}

impl View for AuthToken {
    type V = Seq<u8>;

    closed spec fn view(&self) -> Seq<u8> {
        self.bytes@
    }
}

impl AuthToken {
    pub proof fn lemma_len(self)
        ensures
            self@.len() == 32,
    {
    }

    pub fn from_bytes(bytes: [u8; 32]) -> (t: AuthToken)
        ensures
            t@ == bytes@,
    {
        AuthToken { bytes }
    }

    pub fn as_bytes(&self) -> (b: &[u8; 32])
        ensures
            b@ == self@,
    {
        &self.bytes
    }

    /// The header value of this token.
    pub fn to_hex(&self) -> (s: String)
        ensures
            s@ == hex_text(self@),
    {
        hex_encode(self.bytes.as_slice())
    }

    /// Reads a token from a header value: 64 hexadecimal digits of either
    /// case. Anything else is no token.
    pub fn from_hex(s: &str) -> (r: Option<AuthToken>)
        ensures
            r is Some <==> is_hex_text(s@) && s@.len() == 64,
            r matches Some(t) ==> t@ == hex_bytes(s@),
    {
        match hex_decode(s) {
            None => None,
            Some(v) => {
                if v.len() != 32 {
                    return None;
                }
                let mut bytes = [0u8; 32];
                let mut i: usize = 0;
                while i < 32
                    invariant
                        i <= 32,
                        v@.len() == 32,
                        forall|j: int| 0 <= j < i ==> bytes@[j] == v@[j],
                    decreases 32 - i,
                {
                    bytes[i] = v[i];
                    i = i + 1;
                }
                assert(bytes@ =~= v@);
                Some(AuthToken { bytes })
            },
        }
    }

    /// Whether two tokens are the same, byte for byte. Every byte of both is
    /// read whatever the outcome, so the time taken tells nothing about where
    /// they differ.
    pub fn matches(&self, other: &AuthToken) -> (same: bool)
        ensures
            same == (self@ == other@),
    {
        let mut diff: u8 = 0;
        let mut i: usize = 0;
        while i < 32
            invariant
                i <= 32,
                diff == 0 <==> forall|j: int| 0 <= j < i ==> self.bytes@[j] == other.bytes@[j],
            decreases 32 - i,
        {
            let x: u8 = self.bytes[i];
            let y: u8 = other.bytes[i];
            let ghost before = diff;
            diff = diff | (x ^ y);
            assert((before | (x ^ y)) == 0 <==> before == 0 && x == y) by (bit_vector);
            i = i + 1;
        }
        assert(diff == 0 ==> self.bytes@ =~= other.bytes@);
        diff == 0
    }
}

} // verus!
