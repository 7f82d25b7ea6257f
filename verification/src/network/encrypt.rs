//! The portal's character cipher.
//!
//! Each character of the source is looked up in one key and replaced by the
//! character of the other key at the found position, shifted by the
//! character's own index (forward when decrypting, backward when encrypting),
//! wrapping around the key. Characters that the looked-up key lacks become the
//! last character of the source.
use vstd::prelude::*;
use crate::text::{char_vec, push_char};

verus! {

/// The key that encryption reads characters from.
pub open spec fn first_key() -> Seq<char> {
    "689abcrstu%012345vwxyABCDEFGdefghMNOPQRijklmnpqHIJKSTUVWXYZ"@
}

/// The key that encryption writes characters from.
pub open spec fn second_key() -> Seq<char> {
    "rsHYZ23tFhiIJjku9abP5QRScABd8DVWXElmGvwK%01xyC4npqMgNOTU6ef"@
}

/// The key looked up in: the first key when encrypting, the second when decrypting.
pub open spec fn lookup_key(decrypt: bool) -> Seq<char> {
    if decrypt { second_key() } else { first_key() }
}

/// The key written from: the second key when encrypting, the first when decrypting.
pub open spec fn output_key(decrypt: bool) -> Seq<char> {
    if decrypt { first_key() } else { second_key() }
}

/// The position in the output key for a character found at `pos` in the
/// lookup key and standing at `index` in the source.
pub open spec fn shifted(decrypt: bool, pos: int, index: int) -> int {
    let n = lookup_key(decrypt).len() as int;
    if decrypt { (pos + index) % n } else { (pos - index) % n }
}

/// The character that stands at `index` of the result.
pub open spec fn cipher_char(decrypt: bool, source: Seq<char>, index: int) -> char {
    match lookup_key(decrypt).index_of_first(source[index]) {
        Some(pos) => output_key(decrypt)[shifted(decrypt, pos, index)],
        None => source.last(),
    }
}

/// The whole result of the cipher on `source`.
pub open spec fn cipher(decrypt: bool, source: Seq<char>) -> Seq<char> {
    Seq::new(source.len(), |i: int| cipher_char(decrypt, source, i))
}

/// The index arithmetic works in `i32`: the shifted position must fit in it.
pub open spec fn index_range_ok(decrypt: bool, len: nat) -> bool {
    if decrypt { len <= i32::MAX - 57 } else { len <= i32::MAX + 1 }
}

/// Every character of `s` belongs to `key`.
pub open spec fn spelled_in(s: Seq<char>, key: Seq<char>) -> bool {
    forall|i: int| 0 <= i < s.len() ==> #[trigger] key.contains(s[i])
}

/// No character occurs twice in `s`.
pub open spec fn all_distinct(s: Seq<char>) -> bool {
    forall|i: int, j: int| 0 <= i < s.len() && 0 <= j < s.len() && i != j ==> s[i] != s[j]
}

/// Both keys have 59 characters, none of them twice.
pub proof fn lemma_keys()
    ensures
        first_key().len() == 59,
        second_key().len() == 59,
        all_distinct(first_key()),
        all_distinct(second_key()),
{
    reveal_strlit("689abcrstu%012345vwxyABCDEFGdefghMNOPQRijklmnpqHIJKSTUVWXYZ");
    reveal_strlit("rsHYZ23tFhiIJjku9abP5QRScABd8DVWXElmGvwK%01xyC4npqMgNOTU6ef");
}

/// In a key without repeated characters, the first position of the character
/// at `p` is `p`.
proof fn lemma_position_of_key_char(key: Seq<char>, p: int)
    requires
        all_distinct(key),
        0 <= p < key.len(),
    ensures
        key.index_of_first(key[p]) == Some(p),
{
    key.index_of_first_ensures(key[p]);
}

fn first_key_chars() -> (v: Vec<char>)
    ensures
        v@ == first_key(),
{
    char_vec("689abcrstu%012345vwxyABCDEFGdefghMNOPQRijklmnpqHIJKSTUVWXYZ")
}

fn second_key_chars() -> (v: Vec<char>)
    ensures
        v@ == second_key(),
{
    char_vec("rsHYZ23tFhiIJjku9abP5QRScABd8DVWXElmGvwK%01xyC4npqMgNOTU6ef")
}

/// The first position of `c` in `key`.
fn position(key: &Vec<char>, c: char) -> (r: Option<usize>)
    ensures
        match r {
            Some(p) => p < key@.len() && key@.index_of_first(c) == Some(p as int),
            None => key@.index_of_first(c) is None,
        },
{
    let mut i: usize = 0;
    while i < key.len()
        invariant
            i <= key.len(),
            forall|j: int| 0 <= j < i ==> key@[j] != c,
        decreases key.len() - i,
    {
        if key[i] == c {
            proof {
                key@.index_of_first_ensures(c);
            }
            return Some(i);
        }
        i = i + 1;
    }
    proof {
        key@.index_of_first_ensures(c);
    }
    None
}

/// Encrypts `source`, or decrypts it when `decrypt` holds.
pub fn encrypt(decrypt: bool, source: &str) -> (r: String)
    requires
        index_range_ok(decrypt, source@.len()),
    ensures
        r@ == cipher(decrypt, source@),
        r@.len() == source@.len(),
        // Encrypting: a character at position p of the first key, standing at
        // index i, becomes the second key's character at (p - i) mod 59.
        !decrypt ==> forall|i: int|
            0 <= i < source@.len() ==> #[trigger] r@[i] == match "689abcrstu%012345vwxyABCDEFGdefghMNOPQRijklmnpqHIJKSTUVWXYZ"@.index_of_first(
                source@[i],
            ) {
                Some(p) => "rsHYZ23tFhiIJjku9abP5QRScABd8DVWXElmGvwK%01xyC4npqMgNOTU6ef"@[(p - i) % 59],
                None => source@[source@.len() - 1],
            },
        // Decrypting: a character at position p of the second key, standing at
        // index i, becomes the first key's character at (p + i) mod 59.
        decrypt ==> forall|i: int|
            0 <= i < source@.len() ==> #[trigger] r@[i] == match "rsHYZ23tFhiIJjku9abP5QRScABd8DVWXElmGvwK%01xyC4npqMgNOTU6ef"@.index_of_first(
                source@[i],
            ) {
                Some(p) => "689abcrstu%012345vwxyABCDEFGdefghMNOPQRijklmnpqHIJKSTUVWXYZ"@[(p + i) % 59],
                None => source@[source@.len() - 1],
            },
{
    let mut from = first_key_chars();
    let mut to = second_key_chars();
    if decrypt {
        std::mem::swap(&mut from, &mut to);
    }
    proof {
        lemma_keys();
    }
    let n = from.len();
    let chars = char_vec(source);
    let mut out = String::new();
    let mut i: usize = 0;
    while i < chars.len()
        invariant
            from@ == lookup_key(decrypt),
            to@ == output_key(decrypt),
            n == 59,
            lookup_key(decrypt).len() == 59,
            output_key(decrypt).len() == 59,
            chars@ == source@,
            i <= chars@.len(),
            out@ == cipher(decrypt, source@).take(i as int),
        decreases chars.len() - i,
    {
        let c = chars[i];
        let next = match position(&from, c) {
            Some(pos) => {
                let k = if decrypt {
                    (pos + i % n) % n
                } else {
                    (pos + (n - i % n)) % n
                };
                proof {
                    let ni = n as int;
                    if decrypt {
                        vstd::arithmetic::div_mod::lemma_add_mod_noop_right(pos as int, i as int, ni);
                    } else {
                        vstd::arithmetic::div_mod::lemma_mod_add_multiples_vanish(
                            pos as int - (i as int % ni),
                            ni,
                        );
                        vstd::arithmetic::div_mod::lemma_sub_mod_noop_right(pos as int, i as int, ni);
                    }
                    assert(k as int == shifted(decrypt, pos as int, i as int));
                }
                to[k]
            },
            None => chars[chars.len() - 1],
        };
        proof {
            assert(next == cipher_char(decrypt, source@, i as int));
            assert(cipher(decrypt, source@).take(i + 1) =~= cipher(decrypt, source@).take(
                i as int,
            ).push(next));
        }
        push_char(&mut out, next);
        i = i + 1;
    }
    proof {
        assert(cipher(decrypt, source@).take(chars@.len() as int) =~= cipher(decrypt, source@));
        assert forall|i: int| 0 <= i < source@.len() implies #[trigger] out@[i] == cipher(
            decrypt,
            source@,
        )[i] by {}
        if decrypt {
            assert forall|i: int| 0 <= i < source@.len() implies #[trigger] out@[i] == match "rsHYZ23tFhiIJjku9abP5QRScABd8DVWXElmGvwK%01xyC4npqMgNOTU6ef"@.index_of_first(source@[i]) {
                Some(p) => "689abcrstu%012345vwxyABCDEFGdefghMNOPQRijklmnpqHIJKSTUVWXYZ"@[(p + i) % 59],
                None => source@[source@.len() - 1],
            } by {
                law_decrypt_reads_first_key(source@, i);
            }
        } else {
            assert forall|i: int| 0 <= i < source@.len() implies #[trigger] out@[i] == match "689abcrstu%012345vwxyABCDEFGdefghMNOPQRijklmnpqHIJKSTUVWXYZ"@.index_of_first(source@[i]) {
                Some(p) => "rsHYZ23tFhiIJjku9abP5QRScABd8DVWXElmGvwK%01xyC4npqMgNOTU6ef"@[(p - i) % 59],
                None => source@[source@.len() - 1],
            } by {
                law_encrypt_reads_second_key(source@, i);
            }
        }
    }
    out
}

/// Encryption, character by character: a character found at position `p` of
/// the first key and standing at index `i` of the source becomes the
/// character at `(p - i) mod 59` of the second key; any other character
/// becomes the source's last character.
pub proof fn law_encrypt_reads_second_key(source: Seq<char>, i: int)
    requires
        0 <= i < source.len(),
    ensures
        cipher(false, source)[i] == match "689abcrstu%012345vwxyABCDEFGdefghMNOPQRijklmnpqHIJKSTUVWXYZ"@.index_of_first(source[i]) {
            Some(p) => "rsHYZ23tFhiIJjku9abP5QRScABd8DVWXElmGvwK%01xyC4npqMgNOTU6ef"@[(p - i) % 59],
            None => source[source.len() - 1],
        },
{
    lemma_keys();
}

/// Decryption, character by character: a character found at position `p` of
/// the second key and standing at index `i` of the source becomes the
/// character at `(p + i) mod 59` of the first key; any other character
/// becomes the source's last character.
pub proof fn law_decrypt_reads_first_key(source: Seq<char>, i: int)
    requires
        0 <= i < source.len(),
    ensures
        cipher(true, source)[i] == match "rsHYZ23tFhiIJjku9abP5QRScABd8DVWXElmGvwK%01xyC4npqMgNOTU6ef"@.index_of_first(source[i]) {
            Some(p) => "689abcrstu%012345vwxyABCDEFGdefghMNOPQRijklmnpqHIJKSTUVWXYZ"@[(p + i) % 59],
            None => source[source.len() - 1],
        },
{
    lemma_keys();
}

/// Decrypting what was encrypted gives the source back, for every source
/// spelled in the first key.
pub proof fn lemma_decrypt_undoes_encrypt(source: Seq<char>)
    requires
        spelled_in(source, first_key()),
    ensures
        spelled_in(cipher(false, source), second_key()),
        cipher(true, cipher(false, source)) == source,
{
    lemma_keys();
    let enc = cipher(false, source);
    assert forall|i: int| 0 <= i < source.len() implies second_key().contains(enc[i])
        && cipher(true, enc)[i] == source[i] by {
        assert(first_key().contains(source[i]));
        let p = choose|p: int| 0 <= p < first_key().len() && first_key()[p] == source[i];
        lemma_position_of_key_char(first_key(), p);
        let q = (p - i) % 59;
        assert(enc[i] == second_key()[q]);
        assert(second_key().contains(enc[i]));
        lemma_position_of_key_char(second_key(), q);
        vstd::arithmetic::div_mod::lemma_add_mod_noop(p - i, i, 59);
        vstd::arithmetic::div_mod::lemma_small_mod(p as nat, 59);
        assert((q + i) % 59 == p) by {
            vstd::arithmetic::div_mod::lemma_mod_twice(p - i, 59);
            vstd::arithmetic::div_mod::lemma_add_mod_noop_right(q, i, 59);
            vstd::arithmetic::div_mod::lemma_add_mod_noop_right(p - i, i, 59);
            vstd::arithmetic::div_mod::lemma_mod_twice(p - i, 59);
        }
    }
    assert(cipher(true, enc) =~= source);
}

/// Encrypting what was decrypted gives the source back, for every source
/// spelled in the second key.
pub proof fn lemma_encrypt_undoes_decrypt(source: Seq<char>)
    requires
        spelled_in(source, second_key()),
    ensures
        spelled_in(cipher(true, source), first_key()),
        cipher(false, cipher(true, source)) == source,
{
    lemma_keys();
    let dec = cipher(true, source);
    assert forall|i: int| 0 <= i < source.len() implies first_key().contains(dec[i])
        && cipher(false, dec)[i] == source[i] by {
        assert(second_key().contains(source[i]));
        let p = choose|p: int| 0 <= p < second_key().len() && second_key()[p] == source[i];
        lemma_position_of_key_char(second_key(), p);
        let q = (p + i) % 59;
        assert(dec[i] == first_key()[q]);
        assert(first_key().contains(dec[i]));
        lemma_position_of_key_char(first_key(), q);
        vstd::arithmetic::div_mod::lemma_small_mod(p as nat, 59);
        assert((q - i) % 59 == p) by {
            vstd::arithmetic::div_mod::lemma_sub_mod_noop(p + i, i, 59);
            vstd::arithmetic::div_mod::lemma_small_mod((i % 59) as nat, 59);
        }
    }
    assert(cipher(false, dec) =~= source);
}

} // verus!
