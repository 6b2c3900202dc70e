use vstd::prelude::*;
use rand::RngExt;

verus! {

/// Whether `b` is an ASCII alphanumeric byte: one of `0-9`, `A-Z` or `a-z`.
pub open spec fn is_alphanumeric_byte(b: u8) -> bool {
    (48 <= b && b <= 57) || (65 <= b && b <= 90) || (97 <= b && b <= 122)
}

/// Whether every byte of `s` is ASCII alphanumeric.
pub open spec fn all_alphanumeric(s: Seq<u8>) -> bool {
    forall|i: int| 0 <= i < s.len() ==> is_alphanumeric_byte(#[trigger] s[i])
}

/// Relies on rand's `Alphanumeric` distribution: its `Distribution<u8>`
/// implementation returns a byte of the charset `[0-9A-Za-z]` on every sample,
/// and `RngExt::sample_iter(..).take(len)` yields exactly `len` samples of
/// the thread-local generator.
#[verifier::external_body]
fn sample_alphanumeric(len: usize) -> (r: Vec<u8>)
    ensures
        r@.len() == len,
        all_alphanumeric(r@),
{
    rand::rng().sample_iter(rand::distr::Alphanumeric).take(len).collect()
}

/// One Random Block: `len` freshly drawn random characters, each sampled
/// independently and uniformly from the alphanumeric set. The content differs
/// from call to call; only its length and its charset are promised.
pub fn random_block(len: usize) -> (r: Vec<u8>)
    ensures
        r@.len() == len,
        all_alphanumeric(r@),
{
    sample_alphanumeric(len)
}

/// Checks a buffer against the charset rule of generated content: true
/// exactly when every byte is ASCII alphanumeric.
pub fn check_all_alphanumeric(s: &Vec<u8>) -> (r: bool)
    ensures
        r == all_alphanumeric(s@),
{
    let mut i: usize = 0;
    while i < s.len()
        invariant
            0 <= i <= s@.len(),
            forall|j: int| 0 <= j < i ==> is_alphanumeric_byte(#[trigger] s@[j]),
        decreases s@.len() - i,
    {
        let b: u8 = s[i];
        if !((48 <= b && b <= 57) || (65 <= b && b <= 90) || (97 <= b && b <= 122)) {
            assert(!is_alphanumeric_byte(s@[i as int]));
            return false;
        }
        i = i + 1;
    }
    true
}

} // verus!
