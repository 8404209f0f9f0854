//! Checksums of migration files: the first sixteen hexadecimal digits of the
//! SHA-256 digest.

use vstd::prelude::*;

use crate::text;

verus! {

/// The SHA-256 digest of `data`.
pub uninterp spec fn sha256_digest(data: Seq<u8>) -> Seq<u8>;

/// `sha2::Sha256::digest` hashes the whole of `data`. Its result is named
/// [`sha256_digest`]; it has 32 bytes.
#[verifier::external_body]
fn sha256(data: &[u8]) -> (digest: Vec<u8>)
    ensures
        digest@ == sha256_digest(data@),
        digest@.len() == 32,
{
    <sha2::Sha256 as sha2::Digest>::digest(data).to_vec()
}

/// The lower-case hexadecimal digit of `n`.
pub open spec fn hex_digit(n: int) -> char {
    if n < 10 {
        (48 + n) as char
    } else {
        (87 + n) as char
    }
}

/// Two lower-case hexadecimal digits for each byte.
pub open spec fn hex(bytes: Seq<u8>) -> Seq<char>
    decreases bytes.len(),
{
    if bytes.len() == 0 {
        Seq::empty()
    } else {
        hex(bytes.drop_last()).push(hex_digit(bytes.last() as int / 16)).push(
            hex_digit(bytes.last() as int % 16),
        )
    }
}

/// The checksum that belongs to a digest.
pub open spec fn digest_prefix_spec(digest: Seq<u8>) -> Seq<char> {
    hex(digest).take(16)
}

/// The checksum of a text.
pub open spec fn checksum_spec(content: Seq<char>) -> Seq<char> {
    digest_prefix_spec(sha256_digest(vstd::utf8::encode_utf8(content)))
}

proof fn hex_len(bytes: Seq<u8>)
    ensures
        hex(bytes).len() == 2 * bytes.len(),
    decreases bytes.len(),
{
    if bytes.len() > 0 {
        hex_len(bytes.drop_last());
    }
}

/// Whether a character is a digit or one of the letters from `a` to `f`.
pub open spec fn is_hex_digit(c: char) -> bool {
    '0' <= c <= '9' || 'a' <= c <= 'f'
}

/// A checksum has sixteen characters, each of them a digit or one of the letters
/// from `a` to `f`.
pub proof fn checksum_digits(digest: Seq<u8>)
    requires
        digest.len() >= 8,
    ensures
        digest_prefix_spec(digest).len() == 16,
        forall|i: int| 0 <= i < 16 ==> is_hex_digit(#[trigger] digest_prefix_spec(digest)[i]),
{
    hex_len(digest);
    hex_digits(digest);
    assert forall|i: int| 0 <= i < 16 implies is_hex_digit(
        #[trigger] digest_prefix_spec(digest)[i],
    ) by {
        assert(digest_prefix_spec(digest)[i] == hex(digest)[i]);
    }
}

proof fn hex_digits(bytes: Seq<u8>)
    ensures
        forall|i: int| 0 <= i < hex(bytes).len() ==> is_hex_digit(#[trigger] hex(bytes)[i]),
    decreases bytes.len(),
{
    if bytes.len() > 0 {
        let init = bytes.drop_last();
        hex_digits(init);
        let all = hex(bytes);
        assert forall|i: int| 0 <= i < all.len() implies is_hex_digit(#[trigger] all[i]) by {
            if i < hex(init).len() {
                assert(all[i] == hex(init)[i]);
            }
        }
    }
}

/// The place of each digit.
proof fn hex_at(bytes: Seq<u8>, k: int)
    requires
        0 <= k < 2 * bytes.len(),
    ensures
        k < hex(bytes).len(),
        hex(bytes)[k] == "0123456789abcdef"@[if k % 2 == 0 {
            bytes[k / 2] as int / 16
        } else {
            bytes[k / 2] as int % 16
        }],
    decreases bytes.len(),
{
    reveal_strlit("0123456789abcdef");
    hex_len(bytes);
    let init = bytes.drop_last();
    hex_len(init);
    if k < 2 * init.len() {
        hex_at(init, k);
        assert(hex(bytes)[k] == hex(init)[k]);
        assert(init[k / 2] == bytes[k / 2]);
    } else {
        assert(k / 2 == bytes.len() - 1);
    }
}

proof fn prefix_at(digest: Seq<u8>, k: int)
    requires
        digest.len() >= 8,
        0 <= k < 16,
    ensures
        digest_prefix_spec(digest).len() == 16,
        digest_prefix_spec(digest)[k] == "0123456789abcdef"@[if k % 2 == 0 {
            digest[k / 2] as int / 16
        } else {
            digest[k / 2] as int % 16
        }],
{
    hex_len(digest);
    hex_at(digest, k);
}

/// The checksum of a text, of whatever length, is made of the first eight bytes
/// of the digest of all of its bytes in UTF-8: two hexadecimal digits for each,
/// the more significant one first.
pub proof fn checksum_is_of_the_whole_text(content: Seq<char>, k: int)
    requires
        sha256_digest(vstd::utf8::encode_utf8(content)).len() == 32,
        0 <= k < 16,
    ensures
        ({
            let digest = sha256_digest(vstd::utf8::encode_utf8(content));
            &&& checksum_spec(content).len() == 16
            &&& k % 2 == 0 ==> checksum_spec(content)[k]
                == "0123456789abcdef"@[digest[k / 2] as int / 16]
            &&& k % 2 == 1 ==> checksum_spec(content)[k]
                == "0123456789abcdef"@[digest[k / 2] as int % 16]
        }),
{
    prefix_at(sha256_digest(vstd::utf8::encode_utf8(content)), k);
}

/// Two texts have one checksum if and only if the digests of all of their bytes
/// agree in the first eight bytes.
pub proof fn checksums_tell_texts_apart(a: Seq<char>, b: Seq<char>)
    requires
        sha256_digest(vstd::utf8::encode_utf8(a)).len() == 32,
        sha256_digest(vstd::utf8::encode_utf8(b)).len() == 32,
    ensures
        checksum_spec(a) == checksum_spec(b) <==> sha256_digest(
            vstd::utf8::encode_utf8(a),
        ).take(8) == sha256_digest(vstd::utf8::encode_utf8(b)).take(8),
{
    reveal_strlit("0123456789abcdef");
    let da = sha256_digest(vstd::utf8::encode_utf8(a));
    let db = sha256_digest(vstd::utf8::encode_utf8(b));
    if checksum_spec(a) == checksum_spec(b) {
        assert forall|i: int| 0 <= i < 8 implies da[i] == db[i] by {
            prefix_at(da, 2 * i);
            prefix_at(db, 2 * i);
            prefix_at(da, 2 * i + 1);
            prefix_at(db, 2 * i + 1);
            assert((2 * i) / 2 == i && (2 * i + 1) / 2 == i);
            assert(da[i] as int / 16 == db[i] as int / 16);
            assert(da[i] as int % 16 == db[i] as int % 16);
        }
        assert(da.take(8) =~= db.take(8));
    }
    if da.take(8) == db.take(8) {
        assert forall|k: int| 0 <= k < 16 implies checksum_spec(a)[k] == checksum_spec(b)[k] by {
            prefix_at(da, k);
            prefix_at(db, k);
            assert(da[k / 2] == da.take(8)[k / 2]);
            assert(db[k / 2] == db.take(8)[k / 2]);
        }
        prefix_at(da, 0);
        prefix_at(db, 0);
        assert(checksum_spec(a) =~= checksum_spec(b));
    }
}

fn hex_char(n: u8) -> (c: char)
    requires
        n < 16,
    ensures
        c == hex_digit(n as int),
{
    if n < 10 {
        (48 + n) as char
    } else {
        (87 + n) as char
    }
}

/// The first sixteen hexadecimal digits of `digest`.
pub fn digest_prefix(digest: &Vec<u8>) -> (r: String)
    requires
        digest@.len() >= 8,
    ensures
        r@ == digest_prefix_spec(digest@),
        r@.len() == 16,
        forall|i: int| 0 <= i < 16 ==> is_hex_digit(#[trigger] r@[i]),
        forall|k: int|
            0 <= k < 16 ==> #[trigger] r@[k] == "0123456789abcdef"@[if k % 2 == 0 {
                digest@[k / 2] as int / 16
            } else {
                digest@[k / 2] as int % 16
            }],
{
    let mut digits: Vec<char> = Vec::new();
    let mut i: usize = 0;
    assert(digest@.take(0) =~= Seq::empty());
    while i < digest.len()
        invariant
            i <= digest@.len(),
            digits@ == hex(digest@.take(i as int)),
        decreases digest@.len() - i,
    {
        assert(digest@.take(i + 1).drop_last() =~= digest@.take(i as int));
        digits.push(hex_char(digest[i] / 16));
        digits.push(hex_char(digest[i] % 16));
        i += 1;
    }
    assert(digest@.take(i as int) =~= digest@);
    proof {
        hex_len(digest@);
        checksum_digits(digest@);
        assert forall|k: int| 0 <= k < 16 implies #[trigger] digest_prefix_spec(digest@)[k]
            == "0123456789abcdef"@[if k % 2 == 0 {
            digest@[k / 2] as int / 16
        } else {
            digest@[k / 2] as int % 16
        }] by {
            prefix_at(digest@, k);
        }
    }
    let r = text::string_of(&digits, 0, 16);
    assert(r@ =~= digest_prefix_spec(digest@));
    r
}

/// The checksum of `content`.
pub fn checksum(content: &str) -> (r: String)
    ensures
        r@ == checksum_spec(content@),
        r@.len() == 16,
        forall|i: int| 0 <= i < 16 ==> is_hex_digit(#[trigger] r@[i]),
        sha256_digest(vstd::utf8::encode_utf8(content@)).len() == 32,
        forall|k: int|
            0 <= k < 16 ==> #[trigger] r@[k] == "0123456789abcdef"@[if k % 2 == 0 {
                sha256_digest(vstd::utf8::encode_utf8(content@))[k / 2] as int / 16
            } else {
                sha256_digest(vstd::utf8::encode_utf8(content@))[k / 2] as int % 16
            }],
{
    let digest = sha256(content.as_bytes());
    digest_prefix(&digest)
}

} // verus!
