//! Password hashing: PBKDF2-HMAC-SHA256 keyed with the server's secret, written
//! out in lower-case hexadecimal.

use vstd::prelude::*;
use crate::text::utf8;

verus! {

/// Number of PBKDF2 iterations.
pub const HASH_ROUNDS: u32 = 100_000;

/// The 32-byte key that PBKDF2-HMAC-SHA256 derives from `password` and
/// `salt` in `rounds` iterations.
pub uninterp spec fn pbkdf2_sha256(password: Seq<u8>, salt: Seq<u8>, rounds: u32) -> Seq<u8>;

/// `pbkdf2::pbkdf2_hmac::<sha2::Sha256>` filling a 32-byte buffer. The
/// contract claims that the result is a function of the three arguments alone
/// (the name above) and has the length of the buffer. The crate's
/// `pbkdf2_hmac` only expects on HMAC key setup, which accepts keys of any
/// length, so it does not panic.
#[verifier::external_body]
fn pbkdf2_sha256_digest(password: &[u8], salt: &[u8], rounds: u32) -> (digest: Vec<u8>)
    ensures
        digest@ == pbkdf2_sha256(password@, salt@, rounds),
        digest@.len() == 32,
{
    let mut out = [0u8; 32];
    pbkdf2::pbkdf2_hmac::<sha2::Sha256>(password, salt, rounds, &mut out);
    out.to_vec()
}

/// The sixteen hexadecimal digits, lower case.
pub open spec fn hex_digits() -> Seq<char> {
    seq!['0', '1', '2', '3', '4', '5', '6', '7', '8', '9', 'a', 'b', 'c', 'd', 'e', 'f']
}

/// `bytes` in lower-case hexadecimal, two digits per byte, high half first.
pub open spec fn hex(bytes: Seq<u8>) -> Seq<char>
    decreases bytes.len(),
{
    if bytes.len() == 0 {
        Seq::empty()
    } else {
        let b = bytes.last();
        hex(bytes.drop_last()) + seq![hex_digits()[(b / 16) as int], hex_digits()[(b % 16) as int]]
    }
}

/// The hexadecimal form of `bytes` has two digits per byte: at position
/// `2 i` the digit of the high half of byte `i`, at `2 i + 1` that of its low
/// half.
pub proof fn lemma_hex_layout(bytes: Seq<u8>)
    ensures
        hex(bytes).len() == 2 * bytes.len(),
        forall|i: int|
            0 <= i < bytes.len() ==> hex(bytes)[2 * i] == hex_digits()[(bytes[i] / 16) as int] && hex(bytes)[2
                * i + 1] == hex_digits()[(bytes[i] % 16) as int],
    decreases bytes.len(),
{
    if bytes.len() > 0 {
        let init = bytes.drop_last();
        lemma_hex_layout(init);
        assert forall|i: int| 0 <= i < bytes.len() implies hex(bytes)[2 * i] == hex_digits()[(bytes[i] / 16) as int]
            && hex(bytes)[2 * i + 1] == hex_digits()[(bytes[i] % 16) as int] by {
            if i < init.len() {
                assert(init[i] == bytes[i]);
            }
        }
    }
}

/// The hexadecimal digits are sixteen distinct characters, `0`-`9` then `a`-`f`.
pub proof fn lemma_hex_digits()
    ensures
        hex_digits().len() == 16,
        forall|n: int| 0 <= n < 10 ==> #[trigger] hex_digits()[n] as u32 == '0' as u32 + n,
        forall|n: int| 10 <= n < 16 ==> #[trigger] hex_digits()[n] as u32 == 'a' as u32 + (n - 10),
{
}

/// The digit of `n`, which is below 16.
fn hex_digit(n: u8) -> (d: &'static str)
    requires
        n < 16,
    ensures
        d@ == seq![hex_digits()[n as int]],
{
    proof {
        reveal_strlit("0");
        reveal_strlit("1");
        reveal_strlit("2");
        reveal_strlit("3");
        reveal_strlit("4");
        reveal_strlit("5");
        reveal_strlit("6");
        reveal_strlit("7");
        reveal_strlit("8");
        reveal_strlit("9");
        reveal_strlit("a");
        reveal_strlit("b");
        reveal_strlit("c");
        reveal_strlit("d");
        reveal_strlit("e");
        reveal_strlit("f");
    }
    match n {
        0 => "0",
        1 => "1",
        2 => "2",
        3 => "3",
        4 => "4",
        5 => "5",
        6 => "6",
        7 => "7",
        8 => "8",
        9 => "9",
        10 => "a",
        11 => "b",
        12 => "c",
        13 => "d",
        14 => "e",
        _ => "f",
    }
}

/// `bytes` written out in lower-case hexadecimal.
pub fn to_hex(bytes: &[u8]) -> (s: String)
    ensures
        s@ == hex(bytes@),
        s@.len() == 2 * bytes@.len(),
        forall|i: int|
            0 <= i < bytes@.len() ==> s@[2 * i] == hex_digits()[(bytes@[i] / 16) as int] && s@[2 * i + 1]
                == hex_digits()[(bytes@[i] % 16) as int],
{
    let mut s = String::new();
    let mut i: usize = 0;
    while i < bytes.len()
        invariant
            i <= bytes@.len(),
            s@ == hex(bytes@.take(i as int)),
        decreases bytes@.len() - i,
    {
        let b = bytes[i];
        s.append(hex_digit(b / 16));
        s.append(hex_digit(b % 16));
        proof {
            assert(bytes@.take(i + 1).drop_last() =~= bytes@.take(i as int));
            assert(bytes@.take(i + 1).last() == b);
        }
        i = i + 1;
    }
    assert(bytes@.take(bytes@.len() as int) =~= bytes@);
    proof {
        lemma_hex_layout(bytes@);
    }
    s
}

/// The stored form of `password`: its PBKDF2-HMAC-SHA256 key over the
/// server's `secret`, in `HASH_ROUNDS` iterations, in hexadecimal.
pub open spec fn password_hash(password: Seq<char>, secret: Seq<char>) -> Seq<char> {
    hex(pbkdf2_sha256(utf8(password), utf8(secret), HASH_ROUNDS))
}

/// Computes the stored form of `password` under `secret`.
pub fn hash(password: &str, secret: &str) -> (h: String)
    ensures
        h@ == password_hash(password@, secret@),
        h@ == hex(pbkdf2_sha256(vstd::utf8::encode_utf8(password@), vstd::utf8::encode_utf8(secret@), 100_000)),
        h@.len() == 64,
{
    let digest = pbkdf2_sha256_digest(password.as_bytes(), secret.as_bytes(), HASH_ROUNDS);
    proof {
        lemma_hex_layout(digest@);
    }
    to_hex(digest.as_slice())
}

/// The stored form of a password is derived from all of its UTF-8 bytes
/// (with the secret's bytes as salt, in 100 000 iterations), and two
/// different passwords feed PBKDF2 different byte strings.
pub proof fn lemma_hash_covers_whole_password(p: Seq<char>, q: Seq<char>, secret: Seq<char>)
    ensures
        password_hash(p, secret) == hex(
            pbkdf2_sha256(vstd::utf8::encode_utf8(p), vstd::utf8::encode_utf8(secret), 100_000),
        ),
        p != q ==> vstd::utf8::encode_utf8(p) != vstd::utf8::encode_utf8(q),
{
    vstd::utf8::encode_utf8_decode_utf8(p);
    vstd::utf8::encode_utf8_decode_utf8(q);
}

} // verus!
