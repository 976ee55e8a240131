//! Session identifiers: a short high-entropy tag that scopes all
//! event-channel traffic to one recording session.

use vstd::prelude::*;
use rand::Rng;
use crate::json::{append_hex_u64, hex_digit, hex_rep};

verus! {

/// The session identifier derived from the random draw `n`: the lowercase
/// hexadecimal numeral of `n`, truncated to its first thirteen characters.
pub open spec fn session_id_chars(n: nat) -> Seq<char> {
    if hex_rep(n).len() <= 13 {
        hex_rep(n)
    } else {
        hex_rep(n).take(13)
    }
}

/// Whether `c` is a lowercase hexadecimal digit.
pub open spec fn is_lower_hex(c: char) -> bool {
    ('0' <= c && c <= '9') || ('a' <= c && c <= 'f')
}

/// Relies on rand's `thread_rng` and `Rng::gen`: a fresh draw on each call;
/// nothing is assumed about which value comes back.
#[verifier::external_body]
fn random_u64() -> u64 {
    rand::thread_rng().gen()
}

proof fn lemma_hex_rep_nonempty(n: nat)
    ensures
        hex_rep(n).len() >= 1,
{
}

proof fn lemma_hex_digit_is_hex(d: nat)
    ensures
        is_lower_hex(hex_digit(d)),
{
}

proof fn lemma_hex_rep_digits(n: nat)
    ensures
        forall|i: int| 0 <= i < hex_rep(n).len() ==> is_lower_hex(#[trigger] hex_rep(n)[i]),
    decreases n,
{
    if n < 16 {
        lemma_hex_digit_is_hex(n);
    } else {
        lemma_hex_rep_digits(n / 16);
        lemma_hex_digit_is_hex(n % 16);
        assert forall|i: int| 0 <= i < hex_rep(n).len() implies is_lower_hex(
            #[trigger] hex_rep(n)[i],
        ) by {
            if i < hex_rep(n / 16).len() {
                assert(hex_rep(n)[i] == hex_rep(n / 16)[i]);
            } else {
                assert(hex_rep(n)[i] == hex_digit(n % 16));
            }
        }
    }
}

/// Draws a new random session identifier: between one and thirteen lowercase
/// hexadecimal characters, the truncated numeral of some random draw.
pub fn get_random_id() -> (r: String)
    ensures
        1 <= r@.len() <= 13,
        forall|i: int| 0 <= i < r@.len() ==> is_lower_hex(#[trigger] r@[i]),
        exists|n: nat| r@ == session_id_chars(n),
{
    let n = random_u64();
    let mut s = String::new();
    append_hex_u64(&mut s, n);
    proof {
        lemma_hex_rep_nonempty(n as nat);
        lemma_hex_rep_digits(n as nat);
        assert(s@ =~= hex_rep(n as nat));
    }
    let len = s.as_str().unicode_len();
    if len <= 13 {
        proof {
            assert(s@ == session_id_chars(n as nat));
        }
        s
    } else {
        let r = s.as_str().substring_char(0, 13).to_owned();
        proof {
            assert(r@ =~= hex_rep(n as nat).take(13));
            assert(r@ == session_id_chars(n as nat));
        }
        r
    }
}

} // verus!
