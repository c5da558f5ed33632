use rand::Rng;
use vstd::prelude::*;

verus! {

/// Length of a room code.
pub const ROOM_CODE_LEN: usize = 6;

/// Length of a seat token.
pub const TOKEN_LEN: usize = 10;

/// `b` is the ASCII code of a digit or of a Latin letter.
pub open spec fn is_alphanumeric_byte(b: u8) -> bool {
    ||| 0x30 <= b <= 0x39
    ||| 0x41 <= b <= 0x5a
    ||| 0x61 <= b <= 0x7a
}

/// `c` is an ASCII digit or an ASCII letter.
pub open spec fn is_alphanumeric(c: char) -> bool {
    ||| '0' <= c <= '9'
    ||| 'A' <= c <= 'Z'
    ||| 'a' <= c <= 'z'
}

/// `s` consists of exactly `len` ASCII digits and letters.
pub open spec fn is_alphanumeric_string(s: Seq<char>, len: int) -> bool {
    &&& s.len() == len
    &&& forall|i: int| 0 <= i < s.len() ==> is_alphanumeric(#[trigger] s[i])
}

/// Draws one byte with `rand::Rng::sample` from the distribution
/// `rand::distributions::Alphanumeric`, on the generator that `rand::thread_rng`
/// hands out. The distribution picks the byte from the sixty-two ASCII letters
/// and digits; which one is left open. The generator is seeded from the
/// operating system when a thread first uses it.
#[verifier::external_body]
fn sample_alphanumeric() -> (b: u8)
    ensures
        is_alphanumeric_byte(b),
{
    rand::thread_rng().sample(rand::distributions::Alphanumeric)
}

/// `String::push` appends one character.
pub assume_specification[ String::push ](s: &mut String, ch: char)
    ensures
        final(s)@ == old(s)@.push(ch),
;

/// A fresh random string of `len` ASCII letters and digits.
pub fn random_alphanumeric(len: usize) -> (s: String)
    ensures
        is_alphanumeric_string(s@, len as int),
{
    let mut s = String::new();
    let mut i: usize = 0;
    while i < len
        invariant
            i <= len,
            is_alphanumeric_string(s@, i as int),
        decreases len - i,
    {
        let b = sample_alphanumeric();
        s.push(b as char);
        i = i + 1;
    }
    s
}

} // verus!
