//! Generation of 6-digit session codes.

use rand::Rng;
use vstd::prelude::*;
use vstd::string::*;

use crate::protocol::error::ProtocolError;
use crate::protocol::ids::{is_session_code_text, SessionCode};
use crate::text::{digit_char, digit_str, lemma_digit_char_value, owned};

verus! {

/// Calls `rand::rng().random_range(0..1_000_000)`. `rand` documents that the
/// value lies in the given range (which is not empty); it is random otherwise.
#[verifier::external_body]
fn random_code_number() -> (n: u32)
    ensures
        n < 1_000_000,
{
    rand::rng().random_range(0..1_000_000u32)
}

/// `n` written with exactly six decimal digits, zero-padded on the left.
pub open spec fn six_digit_text(n: nat) -> Seq<char> {
    seq![
        digit_char((n / 100000) % 10),
        digit_char((n / 10000) % 10),
        digit_char((n / 1000) % 10),
        digit_char((n / 100) % 10),
        digit_char((n / 10) % 10),
        digit_char(n % 10),
    ]
}

/// The session code whose digits are `n` zero-padded to six digits.
pub fn session_code_from_number(n: u32) -> (r: Result<SessionCode, ProtocolError>)
    requires
        n < 1_000_000,
    ensures
        r matches Ok(c) && c@ == six_digit_text(n as nat),
{
    proof {
        reveal_strlit("");
    }
    let mut text = owned("");
    text.append(digit_str((n / 100000) % 10));
    text.append(digit_str((n / 10000) % 10));
    text.append(digit_str((n / 1000) % 10));
    text.append(digit_str((n / 100) % 10));
    text.append(digit_str((n / 10) % 10));
    text.append(digit_str(n % 10));
    assert(text@ =~= six_digit_text(n as nat));
    assert(is_session_code_text(text@));
    SessionCode::parse(text.as_str())
}

/// Generates a random 6-digit session code: a number below one million,
/// zero-padded to six digits.
pub fn generate_session_code() -> (r: Result<SessionCode, ProtocolError>)
    ensures
        r matches Ok(c) && is_session_code_text(c@),
        r matches Ok(c) && exists|n: nat| n < 1_000_000 && c@ == #[trigger] six_digit_text(n),
{
    let n = random_code_number();
    let r = session_code_from_number(n);
    assert(r matches Ok(c) && c@ == six_digit_text(n as nat));
    r
}

/// The value of the decimal digit character `c`.
pub open spec fn digit_value(c: char) -> int {
    c as u32 - 0x30
}

/// A code made of `n < 1_000_000` is six ASCII digits that read back, most
/// significant first, as `n`.
pub proof fn lemma_six_digit_text_reads_back(n: nat)
    requires
        n < 1_000_000,
    ensures
        is_session_code_text(six_digit_text(n)),
        ({
            let t = six_digit_text(n);
            digit_value(t[0]) * 100000 + digit_value(t[1]) * 10000 + digit_value(t[2]) * 1000
                + digit_value(t[3]) * 100 + digit_value(t[4]) * 10 + digit_value(t[5]) == n
        }),
{
    let t = six_digit_text(n);
    lemma_digit_char_value((n / 100000) % 10);
    lemma_digit_char_value((n / 10000) % 10);
    lemma_digit_char_value((n / 1000) % 10);
    lemma_digit_char_value((n / 100) % 10);
    lemma_digit_char_value((n / 10) % 10);
    lemma_digit_char_value(n % 10);
    assert(((n / 100000) % 10) * 100000 + ((n / 10000) % 10) * 10000 + ((n / 1000) % 10) * 1000
        + ((n / 100) % 10) * 100 + ((n / 10) % 10) * 10 + n % 10 == n) by (nonlinear_arith)
        requires
            n < 1_000_000,
    ;
}

} // verus!
