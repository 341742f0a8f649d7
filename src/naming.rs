use rand::distributions::{Alphanumeric, DistString};
use vstd::prelude::*;

verus! {

/// How many random characters lead a stored file's name.
pub const PREFIX_LEN: usize = 4;

/// A character of `[A-Za-z0-9]`.
pub open spec fn is_alphanumeric(c: char) -> bool {
    ('A' <= c && c <= 'Z') || ('a' <= c && c <= 'z') || ('0' <= c && c <= '9')
}

/// A prefix that the name generator may draw.
pub open spec fn valid_prefix(p: Seq<char>) -> bool {
    p.len() == PREFIX_LEN && forall|i: int| 0 <= i < p.len() ==> #[trigger] is_alphanumeric(p[i])
}

/// The stored name of a file uploaded as `original`, after the drawn `prefix`.
/// The original name is kept verbatim.
pub open spec fn generated_name(prefix: Seq<char>, original: Seq<char>) -> Seq<char> {
    prefix + "-"@ + original
}

/// Relies on rand's `Alphanumeric::sample_string` over the thread-local
/// generator: `len` characters, each drawn from `[A-Za-z0-9]`.
#[verifier::external_body]
fn sample_alphanumeric(len: usize) -> (r: String)
    ensures
        r@.len() == len,
        forall|i: int| 0 <= i < r@.len() ==> #[trigger] is_alphanumeric(r@[i]),
{
    Alphanumeric.sample_string(&mut rand::thread_rng(), len)
}

/// Draws a fresh random prefix.
pub fn random_prefix() -> (r: String)
    ensures
        valid_prefix(r@),
{
    sample_alphanumeric(PREFIX_LEN)
}

/// The stored name for `original` behind the given prefix.
pub fn name_with_prefix(prefix: &str, original: &str) -> (r: String)
    ensures
        r@ == generated_name(prefix@, original@),
{
    let mut s = String::from_str(prefix);
    s.append("-");
    s.append(original);
    s
}

/// A fresh stored name for `original`: a random prefix, a dash, then the
/// original name unchanged.
pub fn generate_name(original: &str) -> (r: String)
    ensures
        exists|p: Seq<char>| valid_prefix(p) && r@ == generated_name(p, original@),
{
    let prefix = random_prefix();
    name_with_prefix(prefix.as_str(), original)
}

} // verus!
