//! Fresh identifiers for the account variants, and the alias a shortening
//! reply carries: the text-shaped values the runners and the bootstrap work
//! with.

use vstd::prelude::*;
use rand::RngCore;

verus! {

/// The alphabet a fresh identifier draws from: the 62 ASCII letters and
/// digits.
pub open spec fn spec_alphabet() -> Seq<char> {
    "abcdefghijklmnopqrstuvwxyzABCDEFGHIJKLMNOPQRSTUVWXYZ0123456789"@
}

/// Relies on rand::thread_rng and rand_core::RngCore::next_u32: one 32-bit
/// draw from the thread-local generator. Nothing holds of a random value, so
/// nothing is promised of the result.
#[verifier::external_body]
fn draw_u32() -> u32 {
    rand::thread_rng().next_u32()
}

/// A fresh random identifier of the given length, drawn character by
/// character from the letter-and-digit alphabet.
pub fn random_identifier(len: usize) -> (s: String)
    ensures
        s@.len() == len,
        forall|i: int| 0 <= i < len ==> spec_alphabet().contains(s@[i]),
{
    let alphabet = "abcdefghijklmnopqrstuvwxyzABCDEFGHIJKLMNOPQRSTUVWXYZ0123456789";
    proof {
        reveal_strlit("abcdefghijklmnopqrstuvwxyzABCDEFGHIJKLMNOPQRSTUVWXYZ0123456789");
    }
    let mut s = String::new();
    let mut k: usize = 0;
    while k < len
        invariant
            0 <= k <= len,
            s@.len() == k,
            alphabet@ == spec_alphabet(),
            alphabet@.len() == 62,
            forall|i: int| 0 <= i < k ==> spec_alphabet().contains(s@[i]),
        decreases len - k,
    {
        let idx = (draw_u32() % 62) as usize;
        let piece = alphabet.substring_char(idx, idx + 1);
        s.append(piece);
        proof {
            assert(spec_alphabet()[idx as int] == piece@[0]);
        }
        k = k + 1;
    }
    s
}

/// The email-like form of a local part: the part followed by a fixed
/// example-domain suffix.
pub fn email_address(local: &str) -> (s: String)
    ensures
        s@ == local@ + "@example.com"@,
{
    let mut s = String::from_str(local);
    s.append("@example.com");
    s
}

/// A fresh email-like identifier: ten random alphabet characters, then the
/// fixed example-domain suffix.
pub fn fresh_email() -> (s: String)
    ensures
        s@.len() == 22,
        s@.subrange(10, 22) == "@example.com"@,
        forall|i: int| 0 <= i < 10 ==> spec_alphabet().contains(s@[i]),
{
    let local = random_identifier(10);
    let s = email_address(local.as_str());
    proof {
        reveal_strlit("@example.com");
        assert(s@.subrange(10, 22) =~= "@example.com"@);
        assert forall|i: int| 0 <= i < 10 implies spec_alphabet().contains(s@[i]) by {
            assert(s@[i] == local@[i]);
        }
    }
    s
}

/// The position of the last separator in the text, or -1 if it has none.
pub open spec fn spec_last_slash(s: Seq<char>) -> int
    decreases s.len(),
{
    if s.len() == 0 {
        -1
    } else if s.last() == '/' {
        s.len() - 1
    } else {
        spec_last_slash(s.drop_last())
    }
}

/// The alias a shortening reply designates: its final slash-delimited
/// segment, or the whole text if it has no slash.
pub open spec fn spec_alias(s: Seq<char>) -> Seq<char> {
    s.subrange(spec_last_slash(s) + 1, s.len() as int)
}

proof fn lemma_last_slash_at(s: Seq<char>, p: int)
    requires
        0 <= p < s.len(),
        s[p] == '/',
        forall|j: int| p < j < s.len() ==> s[j] != '/',
    ensures
        spec_last_slash(s) == p,
    decreases s.len(),
{
    if p < s.len() - 1 {
        assert(s.last() != '/');
        lemma_last_slash_at(s.drop_last(), p);
    }
}

proof fn lemma_no_slash(s: Seq<char>)
    requires
        forall|j: int| 0 <= j < s.len() ==> s[j] != '/',
    ensures
        spec_last_slash(s) == -1,
    decreases s.len(),
{
    if s.len() > 0 {
        lemma_no_slash(s.drop_last());
    }
}

/// Extract the alias from a shortening reply: the segment after the last
/// slash, or the whole text if no slash occurs.
pub fn alias_from_reply(text: &str) -> (r: String)
    ensures
        r@ == spec_alias(text@),
{
    let n = text.unicode_len();
    let mut k: usize = n;
    while k > 0
        invariant
            0 <= k <= n,
            n == text@.len(),
            forall|j: int| k <= j < n ==> text@[j] != '/',
        decreases k,
    {
        if text.get_char(k - 1) == '/' {
            proof {
                lemma_last_slash_at(text@, k - 1);
            }
            let piece = text.substring_char(k, n);
            return String::from_str(piece);
        }
        k = k - 1;
    }
    proof {
        lemma_no_slash(text@);
        assert(text@.subrange(0, n as int) =~= text@);
    }
    String::from_str(text)
}

} // verus!
