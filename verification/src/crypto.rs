//! Password rules and password hashing.
//!
//! A password is stored as the lowercase hex text of its SHA-512 digest
//! hashed again a random number of times (at least once, fewer than
//! `MAX_ITERATIONS` times); a candidate password is accepted when one of the
//! first `MAX_ITERATIONS` re-hashes of its digest gives the stored text.

use rand::Rng;
use sha2::{Digest, Sha512};
use vstd::prelude::*;

verus! {

/// Upper bound on the number of re-hashes of a stored password.
pub const MAX_ITERATIONS: u32 = 127;

/// The SHA-512 digest of `data`, as the `sha2` crate computes it.
pub uninterp spec fn sha512(data: Seq<u8>) -> Seq<u8>;

/// SHA-512 of `data`: `Sha512::new`, `update`, `finalize` of the `sha2`
/// crate. Claimed: the result is `sha512(data)` and is 64 bytes long (the
/// crate's output size for SHA-512).
#[verifier::external_body]
fn sha512_digest(data: &[u8]) -> (r: Vec<u8>)
    ensures
        r@ == sha512(data@),
        r@.len() == 64,
{
    let mut hasher = Sha512::new();
    hasher.update(data);
    hasher.finalize().to_vec()
}

/// The lowercase hex digit for `n < 16`.
pub open spec fn hex_digit(n: nat) -> char {
    if n < 10 {
        (n + 48) as char
    } else {
        (n + 87) as char
    }
}

/// Lowercase hex text of `bytes`: two digits per byte, high nibble first.
pub open spec fn hex_lower(bytes: Seq<u8>) -> Seq<char>
    decreases bytes.len(),
{
    if bytes.len() == 0 {
        Seq::empty()
    } else {
        let b = bytes.last();
        hex_lower(bytes.drop_last()) + seq![hex_digit((b / 16) as nat), hex_digit((b % 16) as nat)]
    }
}

/// `hex::encode` of the `hex` crate. Claimed: the result is the lowercase
/// hex text of `bytes`, two digits per byte (as its documentation says).
#[verifier::external_body]
fn hex_encode(bytes: &[u8]) -> (r: String)
    ensures
        r@ == hex_lower(bytes@),
{
    hex::encode(bytes)
}

/// `rand::thread_rng().gen_range(low..high)` of the `rand` crate. Claimed:
/// the result lies in `low..high`; which value comes is left open.
#[verifier::external_body]
fn random_in_range(low: u32, high: u32) -> (r: u32)
    requires
        low < high,
    ensures
        low <= r < high,
{
    rand::thread_rng().gen_range(low..high)
}

/// The UTF-8 bytes of a text.
pub open spec fn utf8(s: Seq<char>) -> Seq<u8> {
    vstd::utf8::encode_utf8(s)
}

/// The digest of `password` hashed again `n` times.
pub open spec fn rehashed(password: Seq<u8>, n: nat) -> Seq<u8>
    decreases n,
{
    if n == 0 {
        sha512(password)
    } else {
        sha512(rehashed(password, (n - 1) as nat))
    }
}

/// `hash` is what `encode_password` may store for `password`.
pub open spec fn is_encoding_of(password: Seq<u8>, hash: Seq<char>) -> bool {
    exists|n: nat| 1 <= n < MAX_ITERATIONS && #[trigger] hex_lower(rehashed(password, n)) == hash
}

/// `verify_password` accepts `password` against `hash`.
pub open spec fn accepts(password: Seq<u8>, hash: Seq<char>) -> bool {
    exists|k: nat| 1 <= k <= MAX_ITERATIONS && #[trigger] hex_lower(rehashed(password, k)) == hash
}

/// The stored form of `password` after `iterations` re-hashes.
pub fn encode_password_with_iterations(password: &String, iterations: u32) -> (r: String)
    ensures
        r@ == hex_lower(rehashed(utf8(password@), iterations as nat)),
{
    let mut bytes = sha512_digest(password.as_str().as_bytes());
    let mut i: u32 = 0;
    while i < iterations
        invariant
            i <= iterations,
            bytes@ == rehashed(utf8(password@), i as nat),
        decreases iterations - i,
    {
        bytes = sha512_digest(bytes.as_slice());
        i = i + 1;
    }
    hex_encode(bytes.as_slice())
}

/// The stored form of `password`, re-hashed a random number of times.
pub fn encode_password(password: &String) -> (r: String)
    ensures
        is_encoding_of(utf8(password@), r@),
{
    let iterations = random_in_range(1, MAX_ITERATIONS);
    let r = encode_password_with_iterations(password, iterations);
    assert(hex_lower(rehashed(utf8(password@), iterations as nat)) == r@);
    r
}

/// Whether `password_hash` is one of the first `MAX_ITERATIONS` re-hashes
/// of the digest of `password`.
pub fn verify_password(password: &String, password_hash: &String) -> (r: bool)
    ensures
        r == accepts(utf8(password@), password_hash@),
{
    let ghost p = utf8(password@);
    let mut bytes = sha512_digest(password.as_str().as_bytes());
    let mut i: u32 = 0;
    while i < MAX_ITERATIONS
        invariant
            i <= MAX_ITERATIONS,
            p == utf8(password@),
            bytes@ == rehashed(p, i as nat),
            forall|k: nat| 1 <= k <= i ==> #[trigger] hex_lower(rehashed(p, k)) != password_hash@,
        decreases MAX_ITERATIONS - i,
    {
        bytes = sha512_digest(bytes.as_slice());
        i = i + 1;
        let text = hex_encode(bytes.as_slice());
        if text == *password_hash {
            assert(text@ == password_hash@);
            assert(hex_lower(rehashed(p, i as nat)) == password_hash@);
            return true;
        }
    }
    false
}

/// A stored password is always accepted for the password it was made
/// from: whatever number of re-hashes `encode_password` chose, `verify_password`
/// finds it.
pub proof fn encoded_password_is_accepted(password: Seq<u8>, hash: Seq<char>)
    requires
        is_encoding_of(password, hash),
    ensures
        accepts(password, hash),
{
    let n = choose|n: nat| 1 <= n < MAX_ITERATIONS && #[trigger] hex_lower(rehashed(password, n)) == hash;
    assert(hex_lower(rehashed(password, n)) == hash);
}

/// Byte classes used by the password and username rules.
pub open spec fn is_printable(c: u8) -> bool {
    33 <= c <= 126
}

pub open spec fn is_upper(c: u8) -> bool {
    65 <= c <= 90
}

pub open spec fn is_lower(c: u8) -> bool {
    97 <= c <= 122
}

pub open spec fn is_digit(c: u8) -> bool {
    48 <= c < 58
}

pub open spec fn is_special(c: u8) -> bool {
    c <= 47 || (58 <= c <= 64) || (91 <= c <= 96) || c >= 123
}

pub open spec fn is_username_char(c: u8) -> bool {
    is_digit(c) || is_upper(c) || is_lower(c) || c == 95
}

/// The password rules over the bytes of a password: at least 8 bytes, all
/// printable, with an uppercase letter, a lowercase letter, a digit and a
/// special character.
pub open spec fn password_rules(b: Seq<u8>) -> bool {
    &&& b.len() >= 8
    &&& forall|i: int| 0 <= i < b.len() ==> is_printable(#[trigger] b[i])
    &&& exists|i: int| 0 <= i < b.len() && is_upper(#[trigger] b[i])
    &&& exists|i: int| 0 <= i < b.len() && is_lower(#[trigger] b[i])
    &&& exists|i: int| 0 <= i < b.len() && is_digit(#[trigger] b[i])
    &&& exists|i: int| 0 <= i < b.len() && is_special(#[trigger] b[i])
}

/// The username rules over its bytes: at least 3 bytes, each a digit, an
/// ASCII letter or an underscore.
pub open spec fn username_rules(b: Seq<u8>) -> bool {
    &&& b.len() >= 3
    &&& forall|i: int| 0 <= i < b.len() ==> is_username_char(#[trigger] b[i])
}

/// The byte classes of the password rules: a special character is exactly
/// a byte that is neither an ASCII letter nor a digit; letters and digits
/// are apart; upper and lower case letters pair up 32 apart; and a username
/// character is a letter, a digit or `_`, so never special except `_`.
pub proof fn byte_classes_partition(c: u8)
    ensures
        is_special(c) <==> !(is_upper(c) || is_lower(c) || is_digit(c)),
        !(is_upper(c) && is_lower(c)),
        !(is_upper(c) && is_digit(c)),
        !(is_lower(c) && is_digit(c)),
        is_upper(c) <==> (c + 32 <= 255 && is_lower((c + 32) as u8)),
        is_upper(c) ==> 65 <= c <= 90,
        is_lower(c) ==> 97 <= c <= 122,
        is_digit(c) ==> 48 <= c <= 57,
        (65 <= c <= 90) ==> is_upper(c),
        (97 <= c <= 122) ==> is_lower(c),
        (48 <= c <= 57) ==> is_digit(c),
        is_username_char(c) <==> (is_upper(c) || is_lower(c) || is_digit(c) || c == 95),
        is_username_char(c) && is_special(c) ==> c == 95,
{
}

/// A password of at least 8 printable bytes with an uppercase letter, a
/// lowercase letter and a digit passes the rules exactly when some byte is
/// none of these (punctuation such as `@`, `:` or `?` counts).
pub proof fn special_means_not_alphanumeric(b: Seq<u8>)
    requires
        b.len() >= 8,
        forall|i: int| 0 <= i < b.len() ==> is_printable(#[trigger] b[i]),
        exists|i: int| 0 <= i < b.len() && is_upper(#[trigger] b[i]),
        exists|i: int| 0 <= i < b.len() && is_lower(#[trigger] b[i]),
        exists|i: int| 0 <= i < b.len() && is_digit(#[trigger] b[i]),
    ensures
        password_rules(b) <==> exists|i: int| 0 <= i < b.len() && !(is_upper(#[trigger] b[i]) || is_lower(b[i]) || is_digit(b[i])),
{
    if password_rules(b) {
        let i = choose|i: int| 0 <= i < b.len() && is_special(#[trigger] b[i]);
        byte_classes_partition(b[i]);
    }
    if exists|i: int| 0 <= i < b.len() && !(is_upper(#[trigger] b[i]) || is_lower(b[i]) || is_digit(b[i])) {
        let i = choose|i: int| 0 <= i < b.len() && !(is_upper(#[trigger] b[i]) || is_lower(b[i]) || is_digit(b[i]));
        byte_classes_partition(b[i]);
        assert(is_special(b[i]));
    }
}

proof fn lemma_password_rules_carry_over(p: Seq<u8>, q: Seq<u8>)
    requires
        p.len() == q.len(),
        forall|x: u8| p.contains(x) <==> q.contains(x),
        password_rules(p),
    ensures
        password_rules(q),
{
    assert forall|i: int| 0 <= i < q.len() implies is_printable(#[trigger] q[i]) by {
        assert(q.contains(q[i]));
        let j = choose|j: int| 0 <= j < p.len() && p[j] == q[i];
        assert(is_printable(p[j]));
    }
    let i = choose|i: int| 0 <= i < p.len() && is_upper(#[trigger] p[i]);
    assert(p.contains(p[i]));
    let j = choose|j: int| 0 <= j < q.len() && q[j] == p[i];
    assert(is_upper(q[j]));
    let i = choose|i: int| 0 <= i < p.len() && is_lower(#[trigger] p[i]);
    assert(p.contains(p[i]));
    let j = choose|j: int| 0 <= j < q.len() && q[j] == p[i];
    assert(is_lower(q[j]));
    let i = choose|i: int| 0 <= i < p.len() && is_digit(#[trigger] p[i]);
    assert(p.contains(p[i]));
    let j = choose|j: int| 0 <= j < q.len() && q[j] == p[i];
    assert(is_digit(q[j]));
    let i = choose|i: int| 0 <= i < p.len() && is_special(#[trigger] p[i]);
    assert(p.contains(p[i]));
    let j = choose|j: int| 0 <= j < q.len() && q[j] == p[i];
    assert(is_special(q[j]));
}

/// The password rules do not depend on the order of the bytes: two byte
/// strings with the same bytes, each as often, both pass or both fail.
pub proof fn password_rules_ignore_order(p: Seq<u8>, q: Seq<u8>)
    requires
        p.to_multiset() == q.to_multiset(),
    ensures
        password_rules(p) == password_rules(q),
{
    p.to_multiset_ensures();
    q.to_multiset_ensures();
    assert forall|x: u8| p.contains(x) <==> q.contains(x) by {
        assert(p.contains(x) <==> p.to_multiset().count(x) > 0);
        assert(q.contains(x) <==> q.to_multiset().count(x) > 0);
    }
    if password_rules(p) {
        lemma_password_rules_carry_over(p, q);
    }
    if password_rules(q) {
        lemma_password_rules_carry_over(q, p);
    }
}

/// Two valid usernames joined together make a valid username.
pub proof fn joined_usernames_are_valid(u: Seq<u8>, v: Seq<u8>)
    requires
        username_rules(u),
        username_rules(v),
    ensures
        username_rules(u + v),
{
    assert forall|i: int| 0 <= i < (u + v).len() implies is_username_char(#[trigger] (u + v)[i]) by {
        if i < u.len() {
            assert((u + v)[i] == u[i]);
        } else {
            assert((u + v)[i] == v[i - u.len()]);
        }
    }
}

/// Whether some byte of `b` lies in `lo..=hi`.
fn any_in(b: &[u8], lo: u8, hi: u8) -> (r: bool)
    ensures
        r == exists|i: int| 0 <= i < b@.len() && lo <= #[trigger] b@[i] <= hi,
{
    let mut i: usize = 0;
    while i < b.len()
        invariant
            i <= b@.len(),
            forall|j: int| 0 <= j < i ==> !(lo <= #[trigger] b@[j] <= hi),
        decreases b@.len() - i,
    {
        if lo <= b[i] && b[i] <= hi {
            return true;
        }
        i = i + 1;
    }
    false
}

/// Whether `password` satisfies the password rules.
pub fn validate_password(password: &String) -> (r: bool)
    ensures
        r == (password.is_ascii() && password_rules(utf8(password@))),
{
    let b = password.as_str().as_bytes();
    if b.len() < 8 {
        return false;
    }
    if !password.is_ascii() {
        return false;
    }
    let mut i: usize = 0;
    while i < b.len()
        invariant
            i <= b@.len(),
            b@ == utf8(password@),
            forall|j: int| 0 <= j < i ==> is_printable(#[trigger] b@[j]),
        decreases b@.len() - i,
    {
        if b[i] < 33 || b[i] > 126 {
            assert(!is_printable(b@[i as int]));
            return false;
        }
        i = i + 1;
    }
    if !any_in(b, 65, 90) {
        assert(!exists|i: int| 0 <= i < b@.len() && is_upper(#[trigger] b@[i]));
        return false;
    }
    if !any_in(b, 97, 122) {
        assert(!exists|i: int| 0 <= i < b@.len() && is_lower(#[trigger] b@[i]));
        return false;
    }
    if !any_in(b, 48, 57) {
        assert(!exists|i: int| 0 <= i < b@.len() && is_digit(#[trigger] b@[i]));
        return false;
    }
    let special = any_in(b, 0, 47) || any_in(b, 58, 64) || any_in(b, 91, 96) || any_in(b, 123, 255);
    if !special {
        assert(!exists|i: int| 0 <= i < b@.len() && is_special(#[trigger] b@[i])) by {
            assert forall|i: int| 0 <= i < b@.len() implies !is_special(#[trigger] b@[i]) by {
                let c = b@[i];
                if c <= 47 {
                    assert(0 <= b@[i] <= 47);
                } else if 58 <= c <= 64 {
                    assert(58 <= b@[i] <= 64);
                } else if 91 <= c <= 96 {
                    assert(91 <= b@[i] <= 96);
                } else if c >= 123 {
                    assert(123 <= b@[i] <= 255);
                }
            }
        }
        return false;
    }
    assert(exists|i: int| 0 <= i < b@.len() && is_special(#[trigger] b@[i]));
    true
}

/// Whether `username` satisfies the username rules.
pub fn validate_username(username: &String) -> (r: bool)
    ensures
        r == (username.is_ascii() && username_rules(utf8(username@))),
{
    let b = username.as_str().as_bytes();
    if b.len() < 3 {
        return false;
    }
    if !username.is_ascii() {
        return false;
    }
    let mut i: usize = 0;
    while i < b.len()
        invariant
            i <= b@.len(),
            b@ == utf8(username@),
            forall|j: int| 0 <= j < i ==> is_username_char(#[trigger] b@[j]),
        decreases b@.len() - i,
    {
        let c = b[i];
        if !((c >= 48 && c < 58) || (c >= 65 && c <= 90) || (c >= 97 && c <= 122) || c == 95) {
            assert(!is_username_char(b@[i as int]));
            return false;
        }
        i = i + 1;
    }
    true
}

} // verus!
