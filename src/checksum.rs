//! Computing digests of byte strings and checking them against expected hashes.

use vstd::prelude::*;
use crate::hash::{best_format, HashFormat, Hashes};
use crate::text::push_char;

verus! {

/// The bytes that the vendor rolling hash ignores: tab, line feed, carriage return, space.
pub open spec fn is_skipped_byte(b: u8) -> bool {
    b == 9 || b == 10 || b == 13 || b == 32
}

/// `s` with every skipped byte removed.
pub open spec fn strip_whitespace(s: Seq<u8>) -> Seq<u8>
    decreases s.len(),
{
    if s.len() == 0 {
        s
    } else if is_skipped_byte(s.last()) {
        strip_whitespace(s.drop_last())
    } else {
        strip_whitespace(s.drop_last()).push(s.last())
    }
}

/// The 32-bit MurmurHash2 of `data` under `seed`.
pub uninterp spec fn murmur2_of(data: Seq<u8>, seed: u32) -> u32;

/// The 20-byte SHA-1 digest of `data`.
pub uninterp spec fn sha1_of(data: Seq<u8>) -> Seq<u8>;

/// The 32-byte SHA-256 digest of `data`.
pub uninterp spec fn sha256_of(data: Seq<u8>) -> Seq<u8>;

/// The 48-byte SHA-384 digest of `data`.
pub uninterp spec fn sha384_of(data: Seq<u8>) -> Seq<u8>;

/// The 64-byte SHA-512 digest of `data`.
pub uninterp spec fn sha512_of(data: Seq<u8>) -> Seq<u8>;

/// The 32-byte SHA-512/256 digest of `data`.
pub uninterp spec fn sha512_256_of(data: Seq<u8>) -> Seq<u8>;

/// The 16-byte MD5 digest of `data`.
pub uninterp spec fn md5_of(data: Seq<u8>) -> Seq<u8>;

/// Relies on murmur2::murmur2: the 32-bit MurmurHash2 of the bytes under the seed.
#[verifier::external_body]
fn murmur2_hash(data: &[u8], seed: u32) -> (r: u32)
    ensures
        r == murmur2_of(data@, seed),
{
    murmur2::murmur2(data, seed)
}

/// Relies on sha1::Sha1's Digest::digest: the SHA-1 digest of the bytes.
#[verifier::external_body]
fn sha1_digest(data: &[u8]) -> (r: Vec<u8>)
    ensures
        r@ == sha1_of(data@),
{
    <sha1::Sha1 as sha1::Digest>::digest(data).to_vec()
}

/// Relies on sha2::Sha256's Digest::digest: the SHA-256 digest of the bytes.
#[verifier::external_body]
fn sha256_digest(data: &[u8]) -> (r: Vec<u8>)
    ensures
        r@ == sha256_of(data@),
{
    <sha2::Sha256 as sha2::Digest>::digest(data).to_vec()
}

/// Relies on sha2::Sha384's Digest::digest: the SHA-384 digest of the bytes.
#[verifier::external_body]
fn sha384_digest(data: &[u8]) -> (r: Vec<u8>)
    ensures
        r@ == sha384_of(data@),
{
    <sha2::Sha384 as sha2::Digest>::digest(data).to_vec()
}

/// Relies on sha2::Sha512's Digest::digest: the SHA-512 digest of the bytes.
#[verifier::external_body]
fn sha512_digest(data: &[u8]) -> (r: Vec<u8>)
    ensures
        r@ == sha512_of(data@),
{
    <sha2::Sha512 as sha2::Digest>::digest(data).to_vec()
}

/// Relies on sha2::Sha512_256's Digest::digest: the SHA-512/256 digest of the bytes.
#[verifier::external_body]
fn sha512_256_digest(data: &[u8]) -> (r: Vec<u8>)
    ensures
        r@ == sha512_256_of(data@),
{
    <sha2::Sha512_256 as sha2::Digest>::digest(data).to_vec()
}

/// Relies on md5::compute: the MD5 digest of the bytes.
#[verifier::external_body]
fn md5_digest(data: &[u8]) -> (r: Vec<u8>)
    ensures
        r@ == md5_of(data@),
{
    md5::compute(data).0.to_vec()
}

/// The lowercase hexadecimal digit for `d < 16`.
pub open spec fn hex_digit(d: u8) -> char {
    if d < 10 {
        ((48 + d) as u8) as char
    } else {
        ((87 + d) as u8) as char
    }
}

/// Two lowercase hexadecimal digits per byte, most significant first.
pub open spec fn hex_of(s: Seq<u8>) -> Seq<char>
    decreases s.len(),
{
    if s.len() == 0 {
        Seq::empty()
    } else {
        hex_of(s.drop_last()).push(hex_digit(s.last() / 16)).push(hex_digit(s.last() % 16))
    }
}

/// The four bytes of `h`, most significant first.
pub open spec fn be_bytes(h: u32) -> Seq<u8> {
    seq![
        (h / 0x1000000) as u8,
        ((h / 0x10000) % 256) as u8,
        ((h / 0x100) % 256) as u8,
        (h % 256) as u8,
    ]
}

/// The digest bytes of `data` under `format`.
pub open spec fn digest_of(format: HashFormat, data: Seq<u8>) -> Seq<u8> {
    match format {
        HashFormat::Sha1 => sha1_of(data),
        HashFormat::Sha256 => sha256_of(data),
        HashFormat::Sha384 => sha384_of(data),
        HashFormat::Sha512 => sha512_of(data),
        HashFormat::Sha512_256 => sha512_256_of(data),
        HashFormat::Md5 => md5_of(data),
        HashFormat::Murmur2 => be_bytes(murmur2_of(strip_whitespace(data), 1)),
    }
}

/// Lowercase hexadecimal rendering of the digest of `data` under `format`.
pub open spec fn digest_hex_of(format: HashFormat, data: Seq<u8>) -> Seq<char> {
    hex_of(digest_of(format, data))
}

fn hex_char(d: u8) -> (c: char)
    requires
        d < 16,
    ensures
        c == hex_digit(d),
{
    if d < 10 {
        (48 + d) as char
    } else {
        (87 + d) as char
    }
}

/// Lowercase hexadecimal text of `bytes`, two digits per byte.
pub fn to_hex(bytes: &[u8]) -> (r: String)
    ensures
        r@ == hex_of(bytes@),
{
    let mut r = String::new();
    let mut i: usize = 0;
    while i < bytes.len()
        invariant
            0 <= i <= bytes@.len(),
            r@ == hex_of(bytes@.take(i as int)),
        decreases bytes@.len() - i,
    {
        let b = bytes[i];
        push_char(&mut r, hex_char(b / 16));
        push_char(&mut r, hex_char(b % 16));
        proof {
            assert(bytes@.take(i + 1).drop_last() == bytes@.take(i as int));
        }
        i += 1;
    }
    proof {
        assert(bytes@.take(bytes@.len() as int) == bytes@);
    }
    r
}

/// The vendor rolling hash, which buffers its input without the skipped bytes and
/// hashes it with seed 1 when finalized.
#[derive(Debug)]
pub struct Murmur2 {
    buffer: Vec<u8>,
}

impl View for Murmur2 {
    type V = Seq<u8>;

    closed spec fn view(&self) -> Seq<u8> {
        self.buffer@
    }
}

impl Murmur2 {
    /// A hasher that has seen no input.
    pub fn new() -> (r: Murmur2)
        ensures
            r@ == Seq::<u8>::empty(),
    {
        Murmur2 { buffer: Vec::new() }
    }

    /// Feeds `data`; its skipped bytes are dropped.
    pub fn update(&mut self, data: &[u8])
        ensures
            final(self)@ == old(self)@ + strip_whitespace(data@),
    {
        let ghost start = self.buffer@;
        let mut i: usize = 0;
        while i < data.len()
            invariant
                0 <= i <= data@.len(),
                self.buffer@ == start + strip_whitespace(data@.take(i as int)),
            decreases data@.len() - i,
        {
            let b = data[i];
            proof {
                assert(data@.take(i + 1).drop_last() == data@.take(i as int));
            }
            if !(b == 9 || b == 10 || b == 13 || b == 32) {
                self.buffer.push(b);
                proof {
                    assert(start + strip_whitespace(data@.take(i + 1)) == (start
                        + strip_whitespace(data@.take(i as int))).push(b));
                }
            }
            i += 1;
        }
        proof {
            assert(data@.take(data@.len() as int) == data@);
        }
    }

    /// Forgets all input.
    pub fn reset(&mut self)
        ensures
            final(self)@ == Seq::<u8>::empty(),
    {
        self.buffer = Vec::new();
    }

    /// The four digest bytes, most significant first, of what was fed so far.
    pub fn finalize(&self) -> (r: Vec<u8>)
        ensures
            r@ == be_bytes(murmur2_of(self@, 1)),
    {
        let h = murmur2_hash(self.buffer.as_slice(), 1);
        let mut r: Vec<u8> = Vec::new();
        r.push((h / 0x1000000) as u8);
        r.push(((h / 0x10000) % 256) as u8);
        r.push(((h / 0x100) % 256) as u8);
        r.push((h % 256) as u8);
        proof {
            assert(r@ == be_bytes(h));
        }
        r
    }
}

/// Digest bytes of `data` under `format`.
pub fn digest_bytes(format: HashFormat, data: &[u8]) -> (r: Vec<u8>)
    ensures
        r@ == digest_of(format, data@),
{
    match format {
        HashFormat::Sha1 => sha1_digest(data),
        HashFormat::Sha256 => sha256_digest(data),
        HashFormat::Sha384 => sha384_digest(data),
        HashFormat::Sha512 => sha512_digest(data),
        HashFormat::Sha512_256 => sha512_256_digest(data),
        HashFormat::Md5 => md5_digest(data),
        HashFormat::Murmur2 => {
            let mut h = Murmur2::new();
            h.update(data);
            proof {
                assert(Seq::<u8>::empty() + strip_whitespace(data@) == strip_whitespace(data@));
            }
            h.finalize()
        },
    }
}

/// Lowercase hexadecimal digest of `data` under `format`.
pub fn digest_hex(format: HashFormat, data: &[u8]) -> (r: String)
    ensures
        r@ == digest_hex_of(format, data@),
{
    let d = digest_bytes(format, data);
    to_hex(d.as_slice())
}


/// `c` with ASCII upper case letters turned to lower case.
pub open spec fn lower_char(c: char) -> char {
    if 65 <= c as u32 <= 90 {
        ((c as u32 + 32) as u8) as char
    } else {
        c
    }
}

/// `s` with ASCII upper case letters turned to lower case.
pub open spec fn ascii_lower(s: Seq<char>) -> Seq<char> {
    s.map_values(|c: char| lower_char(c))
}

fn lower(c: char) -> (r: char)
    ensures
        r == lower_char(c),
{
    let n = c as u32;
    if 65 <= n && n <= 90 {
        ((n + 32) as u8) as char
    } else {
        c
    }
}

/// Whether `a` and `b` are equal when ASCII letter case is ignored.
pub fn eq_ignore_ascii_case(a: &str, b: &str) -> (r: bool)
    ensures
        r == (ascii_lower(a@) == ascii_lower(b@)),
{
    let n = a.unicode_len();
    if n != b.unicode_len() {
        proof {
            assert(ascii_lower(a@).len() != ascii_lower(b@).len());
        }
        return false;
    }
    let mut i: usize = 0;
    while i < n
        invariant
            0 <= i <= n,
            n == a@.len(),
            n == b@.len(),
            forall|j: int| 0 <= j < i ==> lower_char(a@[j]) == lower_char(b@[j]),
        decreases n - i,
    {
        if lower(a.get_char(i)) != lower(b.get_char(i)) {
            proof {
                assert(ascii_lower(a@)[i as int] != ascii_lower(b@)[i as int]);
            }
            return false;
        }
        i += 1;
    }
    proof {
        assert(ascii_lower(a@) =~= ascii_lower(b@));
    }
    true
}

/// A file whose content does not hash to the expected digest.
#[derive(Debug)]
pub struct ChecksumMismatch {
    pub path: String,
    pub format: HashFormat,
    pub expected: String,
    pub computed: String,
}

impl ChecksumMismatch {
    /// A one-line description naming the file and both digests.
    pub fn message(&self) -> (r: String)
        ensures
            r@ == "Checksum mismatch for "@ + self.path@ + ": expected "@ + self.expected@
                + ", got "@ + self.computed@,
    {
        let mut r = String::from_str("Checksum mismatch for ");
        r.append(self.path.as_str());
        r.append(": expected ");
        r.append(self.expected.as_str());
        r.append(", got ");
        r.append(self.computed.as_str());
        r
    }
}

/// Compares a computed digest with the expected one, ignoring ASCII letter case.
pub fn check_digest(path: String, format: HashFormat, expected: String, computed: String) -> (r:
    Result<(), ChecksumMismatch>)
    ensures
        r is Ok <==> ascii_lower(expected@) == ascii_lower(computed@),
        r matches Err(e) ==> e.path@ == path@ && e.format == format && e.expected@ == expected@
            && e.computed@ == computed@,
{
    if eq_ignore_ascii_case(expected.as_str(), computed.as_str()) {
        Ok(())
    } else {
        Err(ChecksumMismatch { path, format, expected, computed })
    }
}

/// Checks `data` against the entry of the most preferred format in `hashes`; with no
/// entry there is nothing to check.
pub fn verify_checksum(path: String, hashes: &Hashes, data: &[u8]) -> (r: Result<
    (),
    ChecksumMismatch,
>)
    ensures
        match best_format(hashes@) {
            None => r is Ok,
            Some(f) => {
                &&& r is Ok <==> ascii_lower(hashes@[f]) == ascii_lower(digest_hex_of(f, data@))
                &&& r matches Err(e) ==> e.path@ == path@ && e.format == f && e.expected@
                    == hashes@[f] && e.computed@ == digest_hex_of(f, data@)
            },
        },
{
    match hashes.get_best_hash() {
        None => Ok(()),
        Some((format, expected)) => {
            let computed = digest_hex(format, data);
            check_digest(path, format, expected, computed)
        },
    }
}

/// A check of one file's content against its expected hashes.
#[derive(Debug)]
pub struct ChecksumTask {
    pub path: String,
    pub hashes: Hashes,
}

impl ChecksumTask {
    /// Checks the file's content `data`, as `verify_checksum` does.
    pub fn run(&self, data: &[u8]) -> (r: Result<(), ChecksumMismatch>)
        ensures
            match best_format(self.hashes@) {
                None => r is Ok,
                Some(f) => {
                    &&& r is Ok <==> ascii_lower(self.hashes@[f]) == ascii_lower(
                        digest_hex_of(f, data@),
                    )
                    &&& r matches Err(e) ==> e.path@ == self.path@ && e.format == f
                        && e.expected@ == self.hashes@[f] && e.computed@ == digest_hex_of(
                        f,
                        data@,
                    )
                },
            },
    {
        verify_checksum(self.path.clone(), &self.hashes, data)
    }
}

proof fn lemma_strip_concat(a: Seq<u8>, b: Seq<u8>)
    ensures
        strip_whitespace(a + b) == strip_whitespace(a) + strip_whitespace(b),
    decreases b.len(),
{
    if b.len() == 0 {
        assert(a + b == a);
        assert(strip_whitespace(b) == b);
        assert(strip_whitespace(a) + b == strip_whitespace(a));
    } else {
        lemma_strip_concat(a, b.drop_last());
        assert((a + b).drop_last() == a + b.drop_last());
        assert((a + b).last() == b.last());
        if !is_skipped_byte(b.last()) {
            assert(strip_whitespace(a) + strip_whitespace(b.drop_last()).push(b.last()) == (
            strip_whitespace(a) + strip_whitespace(b.drop_last())).push(b.last()));
        }
    }
}

/// The vendor rolling hash ignores whitespace: inserting a tab, line feed, carriage
/// return or space anywhere in the input leaves its digest unchanged.
pub proof fn lemma_murmur2_ignores_whitespace(a: Seq<u8>, b: Seq<u8>, w: u8)
    requires
        is_skipped_byte(w),
    ensures
        digest_hex_of(HashFormat::Murmur2, a + seq![w] + b) == digest_hex_of(
            HashFormat::Murmur2,
            a + b,
        ),
{
    lemma_strip_concat(a + seq![w], b);
    lemma_strip_concat(a, seq![w]);
    lemma_strip_concat(a, b);
    assert(seq![w].drop_last() == Seq::<u8>::empty());
    assert(strip_whitespace(Seq::<u8>::empty()) == Seq::<u8>::empty());
    assert(strip_whitespace(seq![w]) == Seq::<u8>::empty());
    assert(strip_whitespace(a) + Seq::<u8>::empty() == strip_whitespace(a));
}

/// Two inputs with the same non-whitespace bytes have the same vendor rolling hash.
pub proof fn lemma_murmur2_same_stripped(a: Seq<u8>, b: Seq<u8>)
    requires
        strip_whitespace(a) == strip_whitespace(b),
    ensures
        digest_hex_of(HashFormat::Murmur2, a) == digest_hex_of(HashFormat::Murmur2, b),
{
}

} // verus!
