//! Correlation-id generation.
//!
//! Every outbound request carries a fresh random token that the peer echoes
//! in its reply, pairing the two across the asynchronous transport. Only the
//! shape of the token is fixed here: a fixed-length printable string. Its
//! entropy comes from the process-wide random source.

use vstd::prelude::*;

verus! {

/// Length of every correlation id this library generates.
pub const CORRELATION_ID_LENGTH: usize = 16;

/// Characters a correlation id is drawn from: ASCII digits and letters.
pub open spec fn is_token_char(c: char) -> bool {
    ||| ('0' as int) <= c as int <= ('9' as int)
    ||| ('A' as int) <= c as int <= ('Z' as int)
    ||| ('a' as int) <= c as int <= ('z' as int)
}

/// A well-shaped correlation id: exactly [`CORRELATION_ID_LENGTH`] token
/// characters.
pub open spec fn is_correlation_id(s: Seq<char>) -> bool {
    &&& s.len() == CORRELATION_ID_LENGTH
    &&& forall|i: int| 0 <= i < s.len() ==> is_token_char(#[trigger] s[i])
}

/// Relies on rand's `Alphanumeric` distribution through
/// `SampleString::sample_string`: the result is exactly `len` bytes, each
/// drawn from a-z, A-Z and 0-9.
#[verifier::external_body]
fn random_alphanumeric_string(len: usize) -> (r: String)
    ensures
        r@.len() == len,
        forall|i: int| 0 <= i < r@.len() ==> is_token_char(#[trigger] r@[i]),
{
    rand::distr::SampleString::sample_string(&rand::distr::Alphanumeric, &mut rand::rng(), len)
}

/// Draws a fresh correlation id from the process-wide random source.
///
/// Nothing beyond the shape is guaranteed: uniqueness rests on the entropy of
/// the source making collisions negligible.
pub fn generate_correlation_id() -> (r: String)
    ensures
        is_correlation_id(r@),
{
    random_alphanumeric_string(CORRELATION_ID_LENGTH)
}

} // verus!
