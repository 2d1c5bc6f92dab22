//! Session, peer and cursor identifiers, and the 6-digit session code.

use vstd::prelude::*;
use vstd::string::*;

use crate::protocol::error::ProtocolError;
use crate::text::{ascii_digit, is_ascii_digit, owned};

verus! {

/// The lower-case hexadecimal digit of `n` (for `n < 16`).
pub open spec fn hex_digit(n: u128) -> char {
    if n < 10 {
        (48 + n) as char
    } else {
        (87 + n) as char
    }
}

/// Hex digit `k` (0 to 31, most significant first) of the 128 bits.
pub open spec fn uuid_nibble(bits: u128, k: int) -> u128 {
    (bits >> ((4 * (31 - k)) as u128)) & 0xfu128
}

/// Character `p` of the hyphenated text: hyphens at 8, 13, 18 and 23, hex
/// digits elsewhere, in the groups 8-4-4-4-12.
pub open spec fn uuid_char(bits: u128, p: int) -> char {
    if p == 8 || p == 13 || p == 18 || p == 23 {
        '-'
    } else if p < 8 {
        hex_digit(uuid_nibble(bits, p))
    } else if p < 13 {
        hex_digit(uuid_nibble(bits, p - 1))
    } else if p < 18 {
        hex_digit(uuid_nibble(bits, p - 2))
    } else if p < 23 {
        hex_digit(uuid_nibble(bits, p - 3))
    } else {
        hex_digit(uuid_nibble(bits, p - 4))
    }
}

/// The canonical hyphenated lower-case text of the UUID whose 128 bits are
/// `bits` (big-endian): 32 hex digits grouped 8-4-4-4-12.
pub open spec fn uuid_text(bits: u128) -> Seq<char> {
    Seq::new(36, |p: int| uuid_char(bits, p))
}

/// Calls `uuid::Uuid::from_u128(bits).to_string()`: `from_u128` takes the bits
/// big-endian and `Display` writes the lower-case hyphenated form, which
/// [`uuid_text`] states.
#[verifier::external_body]
fn uuid_string(bits: u128) -> (s: String)
    ensures
        s@ == uuid_text(bits),
{
    uuid::Uuid::from_u128(bits).to_string()
}

/// The 128 bits of a version-4 (random) UUID of the RFC 4122 variant: the
/// version field (bits 76 to 79) holds 4 and the variant field (bits 62 and 63)
/// holds `0b10`.
pub open spec fn is_v4_uuid(bits: u128) -> bool {
    &&& (bits >> 76u128) & 0xfu128 == 4
    &&& (bits >> 62u128) & 0x3u128 == 2
}

/// Calls `uuid::Uuid::new_v4()` and returns its 128 bits. `new_v4` masks random
/// bits and sets the version to 4 and the variant to RFC 4122, which is all the
/// contract claims; the other bits are random.
#[verifier::external_body]
fn random_uuid_bits() -> (r: u128)
    ensures
        is_v4_uuid(r),
{
    uuid::Uuid::new_v4().as_u128()
}

/// Session identifier: the 128 bits of a random (version 4) UUID.
#[derive(Debug, Clone, Copy, PartialEq, Eq, Hash, Structural)]
pub struct SessionId(pub u128);

impl SessionId {
    /// Generates a new random session identifier.
    pub fn new() -> (r: Self)
        ensures
            is_v4_uuid(r.0),
    {
        SessionId(random_uuid_bits())
    }

    /// The identifier with the given UUID bits.
    pub fn from_u128(bits: u128) -> (r: Self)
        ensures
            r.0 == bits,
    {
        SessionId(bits)
    }

    /// The UUID bits of the identifier.
    pub fn as_u128(&self) -> (r: u128)
        ensures
            r == self.0,
    {
        self.0
    }

    /// The hyphenated UUID text of the identifier.
    pub fn to_string(&self) -> (s: String)
        ensures
            s@ == uuid_text(self.0),
    {
        uuid_string(self.0)
    }
}

/// Peer identifier: the 128 bits of a random (version 4) UUID.
#[derive(Debug, Clone, Copy, PartialEq, Eq, Hash, Structural)]
pub struct PeerId(pub u128);

impl PeerId {
    /// Generates a new random peer identifier.
    pub fn new() -> (r: Self)
        ensures
            is_v4_uuid(r.0),
    {
        PeerId(random_uuid_bits())
    }

    /// The identifier with the given UUID bits.
    pub fn from_u128(bits: u128) -> (r: Self)
        ensures
            r.0 == bits,
    {
        PeerId(bits)
    }

    /// The UUID bits of the identifier.
    pub fn as_u128(&self) -> (r: u128)
        ensures
            r == self.0,
    {
        self.0
    }

    /// The hyphenated UUID text of the identifier.
    pub fn to_string(&self) -> (s: String)
        ensures
            s@ == uuid_text(self.0),
    {
        uuid_string(self.0)
    }
}

/// Collaborative cursor identifier: the 128 bits of a random (version 4) UUID.
#[derive(Debug, Clone, Copy, PartialEq, Eq, Hash, Structural)]
pub struct CursorId(pub u128);

impl CursorId {
    /// Generates a new random cursor identifier.
    pub fn new() -> (r: Self)
        ensures
            is_v4_uuid(r.0),
    {
        CursorId(random_uuid_bits())
    }

    /// The identifier with the given UUID bits.
    pub fn from_u128(bits: u128) -> (r: Self)
        ensures
            r.0 == bits,
    {
        CursorId(bits)
    }

    /// The UUID bits of the identifier.
    pub fn as_u128(&self) -> (r: u128)
        ensures
            r == self.0,
    {
        self.0
    }

    /// The hyphenated UUID text of the identifier.
    pub fn to_string(&self) -> (s: String)
        ensures
            s@ == uuid_text(self.0),
    {
        uuid_string(self.0)
    }
}

/// The text of a valid session code: exactly six ASCII decimal digits.
pub open spec fn is_session_code_text(s: Seq<char>) -> bool {
    s.len() == 6 && forall|i: int| 0 <= i < 6 ==> is_ascii_digit(#[trigger] s[i])
}

/// Session code: exactly six ASCII digits.
#[derive(Debug, PartialEq, Eq, Hash)]
pub struct SessionCode(String);

impl View for SessionCode {
    type V = Seq<char>;

    closed spec fn view(&self) -> Seq<char> {
        self.0@
    }
}

impl SessionCode {
    #[verifier::type_invariant]
    spec fn code_text_is_valid(self) -> bool {
        is_session_code_text(self.0@)
    }

    /// Builds a code after checking that `raw` is exactly six ASCII digits.
    pub fn parse(raw: &str) -> (r: Result<Self, ProtocolError>)
        ensures
            is_session_code_text(raw@) <==> r is Ok,
            r matches Ok(c) ==> c@ == raw@,
            r matches Err(e) ==> (e matches ProtocolError::InvalidIdentifier(t)
                && bad_code_prefix().is_prefix_of(t@)),
    {
        let n = raw.unicode_len();
        let mut ok = n == 6;
        if ok {
            let mut i: usize = 0;
            while i < 6
                invariant
                    n == 6,
                    raw@.len() == 6,
                    i <= 6,
                    ok == (forall|j: int| 0 <= j < i ==> is_ascii_digit(#[trigger] raw@[j])),
                decreases 6 - i,
            {
                let c = raw.get_char(i);
                ok = ok && ascii_digit(c);
                i = i + 1;
            }
        }
        if !ok {
            let head = owned("session code must be exactly 6 ASCII digits, got ");
            let text = head.concat(str_debug(raw).as_str());
            assert(bad_code_prefix().is_prefix_of(text@)) by {
                assert(text@.subrange(0, head@.len() as int) =~= head@);
            }
            return Err(ProtocolError::InvalidIdentifier(text));
        }
        Ok(SessionCode(owned(raw)))
    }

    /// The text of the code.
    pub fn as_str(&self) -> (r: &str)
        ensures
            r@ == self@,
            is_session_code_text(r@),
    {
        proof {
            use_type_invariant(self);
        }
        self.0.as_str()
    }

    /// Character-wise equality of two codes.
    pub fn same_as(&self, other: &Self) -> (r: bool)
        ensures
            r == (self@ == other@),
    {
        self.0 == other.0
    }
}

impl Clone for SessionCode {
    fn clone(&self) -> (r: Self)
        ensures
            r@ == self@,
    {
        proof {
            use_type_invariant(self);
        }
        SessionCode(self.0.clone())
    }
}

/// Calls `format!` with `{:?}` on `raw` (`str`'s `Debug`: quoted and
/// escaped); the text of the result is not stated.
#[verifier::external_body]
fn str_debug(raw: &str) -> String {
    format!("{raw:?}")
}

/// Prefix of the error text of a malformed session code.
pub open spec fn bad_code_prefix() -> Seq<char> {
    "session code must be exactly 6 ASCII digits, got "@
}

} // verus!
