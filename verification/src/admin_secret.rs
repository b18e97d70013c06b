//! The server's administrator secret: sixteen random bytes, each written in
//! lowercase hexadecimal without leading zeros, one after the other.
use vstd::prelude::*;

verus! {

/// The lowercase hexadecimal digit of `d` (meaningful for `d < 16`).
pub open spec fn hex_digit(d: int) -> char {
    if d < 10 {
        (48 + d) as char
    } else {
        (87 + d) as char
    }
}

/// Whether `c` is a lowercase hexadecimal digit.
pub open spec fn is_hex_digit(c: char) -> bool {
    ('0' <= c && c <= '9') || ('a' <= c && c <= 'f')
}

/// A byte in lowercase hexadecimal without leading zeros: one digit below
/// 16, two digits from 16 on.
pub open spec fn hex_text(b: u8) -> Seq<char> {
    if b < 16 {
        seq![hex_digit(b as int)]
    } else {
        seq![hex_digit(b as int / 16), hex_digit(b as int % 16)]
    }
}

/// The bytes of `bytes`, each as [`hex_text`], one after the other.
pub open spec fn secret_text(bytes: Seq<u8>) -> Seq<char>
    decreases bytes.len(),
{
    if bytes.len() == 0 {
        Seq::empty()
    } else {
        secret_text(bytes.drop_last()) + hex_text(bytes.last())
    }
}

/// Appends `c` to `s` (`String::push`).
#[verifier::external_body]
fn push_char(s: &mut String, c: char)
    ensures
        final(s)@ == old(s)@.push(c),
{
    s.push(c)
}

/// Sixteen bytes from the thread-local generator of `rand`
/// (`rand::thread_rng().fill_bytes`). Nothing is promised of their values.
#[verifier::external_body]
fn random_secret_bytes() -> (bytes: [u8; 16]) {
    let mut bytes: [u8; 16] = [0; 16];
    rand::RngCore::fill_bytes(&mut rand::thread_rng(), &mut bytes);
    bytes
}

/// The lowercase hexadecimal digit of `d < 16`.
fn hex_char(d: u8) -> (c: char)
    requires
        d < 16,
    ensures
        c == hex_digit(d as int),
{
    if d < 10 {
        (48 + d) as char
    } else {
        (87 + d) as char
    }
}

/// The administrator secret made of `bytes`: each byte in lowercase
/// hexadecimal without leading zeros, one after the other.
pub fn admin_secret_text(bytes: &[u8; 16]) -> (secret: String)
    ensures
        secret@ == secret_text(bytes@),
{
    let mut secret = String::new();
    let mut i: usize = 0;
    while i < 16
        invariant
            i <= 16,
            bytes@.len() == 16,
            secret@ == secret_text(bytes@.take(i as int)),
        decreases 16 - i,
    {
        let b = bytes[i];
        let ghost before = secret@;
        if b < 16 {
            push_char(&mut secret, hex_char(b));
        } else {
            push_char(&mut secret, hex_char(b / 16));
            push_char(&mut secret, hex_char(b % 16));
        }
        proof {
            let t = bytes@.take(i as int + 1);
            assert(t.drop_last() =~= bytes@.take(i as int));
            assert(t.last() == b);
            assert(secret@ =~= before + hex_text(b));
        }
        i = i + 1;
    }
    proof {
        assert(bytes@.take(16) =~= bytes@);
    }
    secret
}

/// A fresh administrator secret: sixteen random bytes written as
/// [`admin_secret_text`] does.
pub fn generate_admin_secret() -> (secret: String)
    ensures
        exists|bytes: Seq<u8>| bytes.len() == 16 && secret@ == secret_text(bytes),
        16 <= secret@.len() <= 32,
        forall|i: int| 0 <= i < secret@.len() ==> is_hex_digit(#[trigger] secret@[i]),
{
    let bytes = random_secret_bytes();
    proof {
        lemma_secret_text_shape(bytes@);
    }
    admin_secret_text(&bytes)
}

/// The administrator secret made of `n` bytes is between `n` and `2 * n`
/// characters long, and every character is a lowercase hexadecimal digit.
pub proof fn lemma_secret_text_shape(bytes: Seq<u8>)
    ensures
        bytes.len() <= secret_text(bytes).len() <= 2 * bytes.len(),
        forall|i: int| 0 <= i < secret_text(bytes).len() ==> is_hex_digit(#[trigger] secret_text(bytes)[i]),
    decreases bytes.len(),
{
    if bytes.len() > 0 {
        lemma_secret_text_shape(bytes.drop_last());
        let b = bytes.last();
        assert(b as int / 16 < 16);
        let prev = secret_text(bytes.drop_last());
        let t = secret_text(bytes);
        assert(t == prev + hex_text(b));
        assert forall|i: int| 0 <= i < t.len() implies is_hex_digit(#[trigger] t[i]) by {
            if i < prev.len() {
                assert(t[i] == prev[i]);
            }
        }
    }
}

} // verus!
